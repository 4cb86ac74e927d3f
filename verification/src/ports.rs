//! Ports for servers that run side by side.
use vstd::prelude::*;

verus! {

/// The first port that is handed out.
pub const FIRST_PORT: u16 = 9901;

/// Hands out ports, one after the other. Its view is the next one.
#[derive(Debug)]
pub struct PortCounter {
    next: u16,
}

impl View for PortCounter {
    type V = u16;

    closed spec fn view(&self) -> u16 {
        self.next
    }
}

/// One call: it hands out the next port, and the counter moves on by one.
pub open spec fn hands_out(before: u16, port: u16, after: u16) -> bool {
    &&& port == before
    &&& after == before + 1
}

/// Ports are handed out one after the other in rising order, so none is handed
/// out twice. `ports` are what a run of calls handed out, and `counters` is
/// where the counter stood before each of them and after the last.
pub proof fn law_later_ports_are_higher(
    counters: Seq<u16>,
    ports: Seq<u16>,
    earlier: int,
    later: int,
)
    requires
        counters.len() == ports.len() + 1,
        forall|i: int|
            0 <= i < ports.len() ==> hands_out(counters[i], #[trigger] ports[i], counters[i + 1]),
        0 <= earlier < later < ports.len(),
    ensures
        ports[later] == ports[earlier] + (later - earlier),
        ports[later] == counters[0] + later,
        ports[earlier] == counters[0] + earlier,
        ports[earlier] < ports[later],
    decreases later, later - earlier,
{
    assert(hands_out(counters[later - 1], ports[later - 1], counters[later]));
    if earlier + 1 < later {
        law_later_ports_are_higher(counters, ports, earlier, later - 1);
    } else if earlier > 0 {
        law_later_ports_are_higher(counters, ports, earlier - 1, earlier);
    }
}

impl PortCounter {
    /// No port handed out yet.
    pub fn new() -> (ports: PortCounter)
        ensures
            ports@ == FIRST_PORT,
    {
        PortCounter { next: FIRST_PORT }
    }

    /// Hands out the next port.
    pub fn take(&mut self) -> (port: u16)
        requires
            old(self)@ < u16::MAX,
        ensures
            hands_out(old(self)@, port, final(self)@),
            port == old(self)@,
            final(self)@ == port + 1,
    {
        let value: u16 = self.next;
        self.next = value + 1;
        value
    }
}

} // verus!
