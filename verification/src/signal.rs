use vstd::prelude::*;

verus! {

/// Whether the server has been told to stop taking requests.
#[derive(Debug)]
pub struct Signal {
    terminate: bool,
}

impl Signal {
    /// True once the server has been told to stop.
    pub closed spec fn terminated(&self) -> bool {
        self.terminate
    }

    pub fn new(signal: bool) -> (s: Signal)
        ensures
            s.terminated() == signal,
    {
        Signal { terminate: signal }
    }

    pub fn set(&mut self, signal: bool)
        ensures
            final(self).terminated() == signal,
    {
        self.terminate = signal;
    }

    pub fn get(&self) -> (signal: bool)
        ensures
            signal == self.terminated(),
    {
        self.terminate
    }
}

/// What the server does with a request.
#[derive(Clone, Copy, Debug, PartialEq, Eq, Structural)]
pub enum Admission {
    /// The request is carried out.
    Serve,
    /// The request did not show the staff's credentials.
    Unauthorized,
    /// The server is closing and serves no more requests.
    Closing,
}

/// What the server does with a request: none is served once the server is
/// closing, and one that changes an order is served only when it shows the
/// staff's credentials.
pub open spec fn admission(terminated: bool, changes_order: bool, authorized: bool) -> Admission {
    if terminated {
        Admission::Closing
    } else if changes_order && !authorized {
        Admission::Unauthorized
    } else {
        Admission::Serve
    }
}

/// What the server does with a request.
pub fn admission_of(terminated: bool, changes_order: bool, authorized: bool) -> (a: Admission)
    ensures
        a == admission(terminated, changes_order, authorized),
{
    if terminated {
        Admission::Closing
    } else if changes_order && !authorized {
        Admission::Unauthorized
    } else {
        Admission::Serve
    }
}

/// What a request hears that is not served, where `operation` names what
/// it asked for; nothing for a request that is served.
pub open spec fn refusal_text(a: Admission, operation: Seq<char>) -> Option<Seq<char>> {
    match a {
        Admission::Serve => None,
        Admission::Unauthorized => Some("Un-authorized "@ + operation + " order"@),
        Admission::Closing => Some("Server is Closing. No More Services"@),
    }
}

/// What a request hears that is not served.
pub fn refusal(a: Admission, operation: &str) -> (message: Option<String>)
    ensures
        match message {
            Some(text) => refusal_text(a, operation@) == Some(text@),
            None => refusal_text(a, operation@) is None,
        },
{
    match a {
        Admission::Serve => None,
        Admission::Unauthorized => {
            let mut text = String::from_str("Un-authorized ");
            text.append(operation);
            text.append(" order");
            Some(text)
        },
        Admission::Closing => Some(String::from_str("Server is Closing. No More Services")),
    }
}

} // verus!
