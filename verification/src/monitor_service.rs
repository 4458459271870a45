//! The greeting service: it counts the clients that contacted it and greets each by name.
use vstd::prelude::*;
use vstd::string::StringExecFns;

verus! {

/// The greeting service's state: how many clients contacted it.
#[derive(Debug)]
pub struct MyMonitor {
    pub clients: u64,
}

impl Default for MyMonitor {
    fn default() -> (monitor: MyMonitor)
        ensures
            monitor.clients == 0,
    {
        MyMonitor { clients: 0 }
    }
}

/// The greeting for a client called `name`.
pub open spec fn greeting(name: Seq<char>) -> Seq<char> {
    "Hello "@ + name + "!"@
}

impl MyMonitor {
    /// A service that no client has contacted yet.
    pub fn new() -> (monitor: MyMonitor)
        ensures
            monitor.clients == 0,
    {
        MyMonitor { clients: 0 }
    }

    /// Counts one more client and returns its greeting.
    pub fn contact(&mut self, name: &str) -> (reply: String)
        requires
            old(self).clients < u64::MAX,
        ensures
            final(self).clients == old(self).clients + 1,
            reply@ == greeting(name@),
    {
        self.clients = self.clients + 1;
        let mut reply = String::from_str("Hello ");
        reply.append(name);
        reply.append("!");
        reply
    }
}


/// The client count of a service that started at `start` and was then contacted
/// by the clients `names`, in order.
pub open spec fn clients_after(start: nat, names: Seq<Seq<char>>) -> nat
    decreases names.len(),
{
    if names.len() == 0 {
        start
    } else {
        clients_after(start, names.drop_last()) + 1
    }
}

/// A service contacted by `n` clients, starting from a fresh one, has counted
/// exactly `n` clients (each `contact` adds one and greets its own client).
pub proof fn lemma_clients_counted(names: Seq<Seq<char>>)
    ensures
        clients_after(0, names) == names.len(),
    decreases names.len(),
{
    if names.len() > 0 {
        lemma_clients_counted(names.drop_last());
    }
}

} // verus!
