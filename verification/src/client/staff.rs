use crate::client::settings::{Settings, SettingsView};
use crate::client::tablet::{Credentials, Payload, Request, Tablet};
use crate::kitchen::random_in;
use crate::order_type::{
    DeleteOrder, ItemPair, ItemPairView, PlaceOrder, ReqType, UpdateOrder, pairs_view,
};
use crate::timestamp::Timestamp;
use vstd::prelude::*;

verus! {

/// The member of staff who serves one table.
#[derive(Debug)]
pub struct Staff {
    table_id: String,
    config: Settings,
}

/// The name of the dish with number `val`: the capital letter at that place
/// of the alphabet, counted from zero, and `A` for a number that is none.
pub open spec fn item_name(val: int) -> Seq<char> {
    if 0 <= val < 26 {
        seq![('A' as int + val) as char]
    } else {
        seq!['A']
    }
}

/// The name of the dish with number `val`.
pub fn get_item(val: i8) -> (name: String)
    ensures
        name@ == item_name(val as int),
{
    proof {
        reveal_strlit("A");
        reveal_strlit("B");
        reveal_strlit("C");
        reveal_strlit("D");
        reveal_strlit("E");
        reveal_strlit("F");
        reveal_strlit("G");
        reveal_strlit("H");
        reveal_strlit("I");
        reveal_strlit("J");
        reveal_strlit("K");
        reveal_strlit("L");
        reveal_strlit("M");
        reveal_strlit("N");
        reveal_strlit("O");
        reveal_strlit("P");
        reveal_strlit("Q");
        reveal_strlit("R");
        reveal_strlit("S");
        reveal_strlit("T");
        reveal_strlit("U");
        reveal_strlit("V");
        reveal_strlit("W");
        reveal_strlit("X");
        reveal_strlit("Y");
        reveal_strlit("Z");
    }
    let letter: &'static str = match val {
        0 => "A",
        1 => "B",
        2 => "C",
        3 => "D",
        4 => "E",
        5 => "F",
        6 => "G",
        7 => "H",
        8 => "I",
        9 => "J",
        10 => "K",
        11 => "L",
        12 => "M",
        13 => "N",
        14 => "O",
        15 => "P",
        16 => "Q",
        17 => "R",
        18 => "S",
        19 => "T",
        20 => "U",
        21 => "V",
        22 => "W",
        23 => "X",
        24 => "Y",
        25 => "Z",
        _ => "A",
    };
    assert(letter@ =~= item_name(val as int));
    String::from_str(letter)
}

/// How many seconds a tablet rests between two requests.
pub const WORK_PAUSE_SECS: u64 = 1;

/// The greatest number of lines in an order that a tablet makes up.
pub const ORDER_LINES_MAX: usize = 25;

/// The order that asks for the first dishes of the menu, one line for each
/// of `amounts`.
pub open spec fn menu_order(amounts: Seq<i32>) -> Seq<ItemPairView> {
    Seq::new(amounts.len(), |i: int| ItemPairView { name: item_name(i), amount: amounts[i] })
}

/// The order that asks for the first dishes of the menu in the given
/// amounts.
pub fn items_for(amounts: &Vec<i32>) -> (items: Vec<ItemPair>)
    ensures
        pairs_view(items@) == menu_order(amounts@),
{
    let mut items: Vec<ItemPair> = Vec::new();
    let mut i: usize = 0;
    while i < amounts.len()
        invariant
            i <= amounts.len(),
            items@.len() == i,
            forall|j: int|
                0 <= j < i ==> (#[trigger] items@[j])@ == (ItemPairView {
                    name: item_name(j),
                    amount: amounts@[j],
                }),
        decreases amounts.len() - i,
    {
        let name = if i < 26 {
            get_item(i as i8)
        } else {
            get_item(26)
        };
        items.push(ItemPair { name, amount: amounts[i] });
        i += 1;
    }
    assert(pairs_view(items@) =~= menu_order(amounts@));
    items
}

/// True of an order that a tablet makes up: between one line and
/// twenty-five, for the first dishes of the menu, each in an amount from one
/// to nine.
pub open spec fn made_up(items: Seq<ItemPairView>) -> bool {
    &&& 1 <= items.len() <= ORDER_LINES_MAX
    &&& forall|i: int|
        0 <= i < items.len() ==> (#[trigger] items[i]).name == item_name(i) && 1
            <= items[i].amount <= 9
}

/// An order made up at random.
pub fn generate_items() -> (items: Vec<ItemPair>)
    ensures
        1 <= items@.len() <= ORDER_LINES_MAX,
        forall|i: int|
            0 <= i < items@.len() ==> (#[trigger] items@[i])@.name == item_name(i) && 1
                <= items@[i].amount <= 9,
{
    let cnt: i64 = random_in(2, 27);
    let lines: usize = (cnt - 1) as usize;
    let mut amounts: Vec<i32> = Vec::new();
    let mut i: usize = 0;
    while i < lines
        invariant
            i <= lines <= ORDER_LINES_MAX,
            amounts@.len() == i,
            forall|j: int| 0 <= j < i ==> 1 <= #[trigger] amounts@[j] <= 9,
        decreases lines - i,
    {
        let amount: i64 = random_in(1, 10);
        amounts.push(amount as i32);
        i += 1;
    }
    let items = items_for(&amounts);
    assert(pairs_view(items@).len() == items@.len());
    assert(menu_order(amounts@).len() == amounts@.len());
    assert forall|i: int| 0 <= i < items@.len() implies (#[trigger] items@[i])@.name == item_name(
        i,
    ) && 1 <= items@[i].amount <= 9 by {
        assert(pairs_view(items@)[i] == items@[i]@);
        assert(menu_order(amounts@)[i].amount == amounts@[i]);
    }
    items
}

impl Staff {
    pub closed spec fn table(&self) -> Seq<char> {
        self.table_id@
    }

    pub closed spec fn settings(&self) -> SettingsView {
        self.config@
    }

    /// The address to which a request of the given kind goes: the server's
    /// base address and the operation's path; for a status request the
    /// table follows, and for the status of one item its name too.
    pub open spec fn address(&self, kind: ReqType, item: Seq<char>) -> Seq<char> {
        let base = self.settings().client.url;
        let api = self.settings().api;
        match kind {
            ReqType::Place => base + api.place_order,
            ReqType::Delete => base + api.delete_order,
            ReqType::Update => base + api.update_order,
            ReqType::StatusAll => base + api.status_order + "/"@ + self.table(),
            ReqType::StatusItem => base + api.status_order + "/"@ + self.table() + "/"@ + item,
        }
    }

    /// True when `request` is this tablet's request of its kind at the time
    /// `now`: it goes to the operation's address with the settings' timeout,
    /// shows the settings' credentials where it changes an order, and
    /// carries the order that the kind asks for, made of `items` or of the
    /// dish `item`.
    pub open spec fn words(
        &self,
        request: Request,
        item: Seq<char>,
        items: Seq<ItemPairView>,
        now: Timestamp,
    ) -> bool {
        &&& request.timeout == self.settings().client.timeout
        &&& request.url@ == self.address(request.kind, item)
        &&& match request.body {
            Payload::Place(order) => request.kind == ReqType::Place && order@.created_at == now
                && order@.table_id == self.table() && order@.items == items,
            Payload::Update(order) => request.kind == ReqType::Update && order@.updated_at == now
                && order@.table_id == self.table() && order@.items == items,
            Payload::Delete(order) => request.kind == ReqType::Delete && order@.deleted_at == now
                && order@.table_id == self.table() && order@.item == item,
            Payload::Nothing => request.kind == ReqType::StatusAll || request.kind
                == ReqType::StatusItem,
        }
        &&& match request.credentials {
            Some(shown) => request.kind.code() <= 2 && shown.username@
                == self.settings().auth.username && shown.password@
                == self.settings().auth.password,
            None => request.kind.code() > 2,
        }
    }

    pub fn new(table_id: String, config: Settings) -> (staff: Staff)
        ensures
            staff.table() == table_id@,
            staff.settings() == config@,
    {
        Staff { table_id, config }
    }

    /// The address of an operation: the server's base address, then `path`.
    fn url(&self, path: String) -> (url: String)
        ensures
            url@ == self.settings().client.url + path@,
    {
        let mut url = self.config.client.get_base_url();
        url.append(path.as_str());
        url
    }

    /// The name and the password that the settings hold.
    fn credentials(&self) -> (shown: Option<Credentials>)
        ensures
            shown is Some,
            shown->0.username@ == self.settings().auth.username,
            shown->0.password@ == self.settings().auth.password,
    {
        Some(
            Credentials {
                username: self.config.auth.get_username(),
                password: self.config.auth.get_password(),
            },
        )
    }

    /// The request that a tablet sends for the kind with code `req_type`:
    /// `items` is what a place or an update order asks for, `val` the
    /// number of the dish that a delete or a status request names. There
    /// is no request for a code that stands for no kind.
    pub fn request_for(&self, req_type: i8, val: i8, items: Vec<ItemPair>, now: Timestamp) -> (r:
        Option<Request>)
        ensures
            r is Some <==> 0 <= req_type <= 4,
            r matches Some(request) ==> request.kind.code() == req_type && self.words(
                request,
                item_name(val as int),
                pairs_view(items@),
                now,
            ),
    {
        match ReqType::try_from(req_type) {
            Ok(ReqType::Place) => Some(self.place_order(self.get_table_id(), items, now)),
            Ok(ReqType::Delete) => Some(self.delete_order(self.get_table_id(), get_item(val), now)),
            Ok(ReqType::Update) => Some(self.update_order(self.get_table_id(), items, now)),
            Ok(ReqType::StatusAll) => Some(self.status_order_all(self.get_table_id())),
            Ok(ReqType::StatusItem) => Some(
                self.status_order_item(self.get_table_id(), get_item(val)),
            ),
            Err(_) => None,
        }
    }

    /// One round of a tablet's work: it picks a kind of request at random,
    /// makes up what the request asks for, and words it for its table at
    /// the time `now`.
    pub fn work(&self, now: Timestamp) -> (request: Request)
        ensures
            exists|val: int, items: Seq<ItemPairView>|
                0 <= val < 26 && made_up(items) && #[trigger] self.words(
                    request,
                    item_name(val),
                    items,
                    now,
                ),
    {
        let req_type: i64 = random_in(0, 5);
        let val: i64 = random_in(0, 26);
        let items = generate_items();
        let ghost lines = pairs_view(items@);
        assert(made_up(lines)) by {
            assert forall|i: int| 0 <= i < lines.len() implies (#[trigger] lines[i]).name
                == item_name(i) && 1 <= lines[i].amount <= 9 by {
                assert(lines[i] == items@[i]@);
            }
        }
        let drawn = self.request_for(req_type as i8, val as i8, items, now);
        drawn.unwrap()
    }
}

impl Tablet for Staff {
    fn get_table_id(&self) -> (table_id: String)
        ensures
            table_id@ == self.table(),
    {
        self.table_id.clone()
    }

    fn place_order(&self, table_id: String, items: Vec<ItemPair>, now: Timestamp) -> (request:
        Request)
        ensures
            request.kind == ReqType::Place,
            request.url@ == self.settings().client.url + self.settings().api.place_order,
            request.credentials is Some,
            request.credentials->0.username@ == self.settings().auth.username,
            request.credentials->0.password@ == self.settings().auth.password,
            request.timeout == self.settings().client.timeout,
            request.body is Place,
            request.body->Place_0@.created_at == now,
            request.body->Place_0@.table_id == table_id@,
            request.body->Place_0@.items == pairs_view(items@),
    {
        Request {
            kind: ReqType::Place,
            url: self.url(self.config.api.get_place_order_api()),
            credentials: self.credentials(),
            timeout: self.config.client.get_timeout(),
            body: Payload::Place(PlaceOrder { created_at: now, table_id, items }),
        }
    }

    fn delete_order(&self, table_id: String, item: String, now: Timestamp) -> (request: Request)
        ensures
            request.kind == ReqType::Delete,
            request.url@ == self.settings().client.url + self.settings().api.delete_order,
            request.credentials is Some,
            request.credentials->0.username@ == self.settings().auth.username,
            request.credentials->0.password@ == self.settings().auth.password,
            request.timeout == self.settings().client.timeout,
            request.body is Delete,
            request.body->Delete_0@.deleted_at == now,
            request.body->Delete_0@.table_id == table_id@,
            request.body->Delete_0@.item == item@,
    {
        Request {
            kind: ReqType::Delete,
            url: self.url(self.config.api.get_delete_order_api()),
            credentials: self.credentials(),
            timeout: self.config.client.get_timeout(),
            body: Payload::Delete(DeleteOrder { deleted_at: now, table_id, item }),
        }
    }

    fn update_order(&self, table_id: String, items: Vec<ItemPair>, now: Timestamp) -> (request:
        Request)
        ensures
            request.kind == ReqType::Update,
            request.url@ == self.settings().client.url + self.settings().api.update_order,
            request.credentials is Some,
            request.credentials->0.username@ == self.settings().auth.username,
            request.credentials->0.password@ == self.settings().auth.password,
            request.timeout == self.settings().client.timeout,
            request.body is Update,
            request.body->Update_0@.updated_at == now,
            request.body->Update_0@.table_id == table_id@,
            request.body->Update_0@.items == pairs_view(items@),
    {
        Request {
            kind: ReqType::Update,
            url: self.url(self.config.api.get_update_order_api()),
            credentials: self.credentials(),
            timeout: self.config.client.get_timeout(),
            body: Payload::Update(UpdateOrder { updated_at: now, table_id, items }),
        }
    }

    fn status_order_all(&self, table_id: String) -> (request: Request)
        ensures
            request.kind == ReqType::StatusAll,
            request.url@ == self.settings().client.url + self.settings().api.status_order + "/"@
                + table_id@,
            request.credentials is None,
            request.timeout == self.settings().client.timeout,
            request.body is Nothing,
    {
        let mut url = self.url(self.config.api.get_status_order_api());
        url.append("/");
        url.append(table_id.as_str());
        Request {
            kind: ReqType::StatusAll,
            url,
            credentials: None,
            timeout: self.config.client.get_timeout(),
            body: Payload::Nothing,
        }
    }

    fn status_order_item(&self, table_id: String, item: String) -> (request: Request)
        ensures
            request.kind == ReqType::StatusItem,
            request.url@ == self.settings().client.url + self.settings().api.status_order + "/"@
                + table_id@ + "/"@ + item@,
            request.credentials is None,
            request.timeout == self.settings().client.timeout,
            request.body is Nothing,
    {
        let mut url = self.url(self.config.api.get_status_order_api());
        url.append("/");
        url.append(table_id.as_str());
        url.append("/");
        url.append(item.as_str());
        Request {
            kind: ReqType::StatusItem,
            url,
            credentials: None,
            timeout: self.config.client.get_timeout(),
            body: Payload::Nothing,
        }
    }
}

} // verus!
