use vstd::prelude::*;

verus! {

/// The place of the last slash in `path`, or -1 when it has none.
pub open spec fn last_slash(path: Seq<char>) -> int
    decreases path.len(),
{
    if path.len() == 0 {
        -1
    } else if path.last() == '/' {
        path.len() - 1
    } else {
        last_slash(path.drop_last())
    }
}

/// What follows the last slash of `path`; all of it when it has no slash.
pub open spec fn last_segment(path: Seq<char>) -> Seq<char> {
    path.subrange(last_slash(path) + 1, path.len() as int)
}

/// What stands before the last slash of `path`.
pub open spec fn parent(path: Seq<char>) -> Seq<char>
    recommends
        last_slash(path) >= 0,
{
    path.subrange(0, last_slash(path))
}

/// The last slash is a slash, and no slash follows it.
pub proof fn lemma_last_slash(path: Seq<char>)
    ensures
        -1 <= last_slash(path) < path.len(),
        last_slash(path) >= 0 ==> path[last_slash(path)] == '/',
        forall|i: int| last_slash(path) < i < path.len() ==> path[i] != '/',
    decreases path.len(),
{
    if path.len() > 0 && path.last() != '/' {
        lemma_last_slash(path.drop_last());
        assert forall|i: int| last_slash(path) < i < path.len() implies path[i] != '/' by {
            if i < path.len() - 1 {
                assert(path.drop_last()[i] == path[i]);
            }
        }
    }
}

/// The place of the last slash among the first `end` characters of `path`,
/// if there is one.
fn find_last_slash(path: &str, end: usize) -> (found: Option<usize>)
    requires
        end <= path@.len(),
    ensures
        match found {
            Some(at) => at as int == last_slash(path@.take(end as int)),
            None => last_slash(path@.take(end as int)) == -1,
        },
{
    let mut i: usize = end;
    while i > 0
        invariant
            i <= end <= path@.len(),
            last_slash(path@.take(end as int)) == last_slash(path@.take(i as int)),
        decreases i,
    {
        assert(path@.take(i as int).last() == path@[i as int - 1]);
        assert(path@.take(i as int).drop_last() =~= path@.take(i as int - 1));
        if path.get_char(i - 1) == '/' {
            return Some(i - 1);
        }
        i -= 1;
    }
    None
}

/// The table that the address of a status request names: what follows the
/// last slash.
pub fn table_of(url: &str) -> (table_id: String)
    ensures
        table_id@ == last_segment(url@),
{
    let len = url.unicode_len();
    assert(url@.take(len as int) =~= url@);
    proof {
        lemma_last_slash(url@);
    }
    let from: usize = match find_last_slash(url, len) {
        Some(at) => at + 1,
        None => 0,
    };
    String::from_str(url.substring_char(from, len))
}

/// The table and the item that the address of a status request for one
/// item names: the item follows the last slash, the table stands between
/// the two last slashes. There are none when the address has no slash.
pub fn table_and_item_of(url: &str) -> (named: Option<(String, String)>)
    ensures
        match named {
            Some(pair) => last_slash(url@) >= 0 && pair.0@ == last_segment(parent(url@)) && pair.1@
                == last_segment(url@),
            None => last_slash(url@) < 0,
        },
{
    let len = url.unicode_len();
    assert(url@.take(len as int) =~= url@);
    proof {
        lemma_last_slash(url@);
    }
    match find_last_slash(url, len) {
        Some(at) => {
            let item = String::from_str(url.substring_char(at + 1, len));
            proof {
                lemma_last_slash(url@.take(at as int));
            }
            let from: usize = match find_last_slash(url, at) {
                Some(before) => before + 1,
                None => 0,
            };
            let table_id = String::from_str(url.substring_char(from, at));
            assert(parent(url@) =~= url@.take(at as int));
            assert(table_id@ =~= last_segment(parent(url@)));
            Some((table_id, item))
        },
        None => None,
    }
}

} // verus!
