//! The server-sent event stream of the testing examples: a counter that
//! emits `data: n` events while counting down to zero.
use vstd::prelude::*;
use crate::decimal::{nat_text, usize_to_string};
use crate::text::views;

verus! {

/// The number the event stream starts counting down from.
pub const FIRST_EVENT: usize = 5;

/// The text of the event that carries `n`.
pub open spec fn event_text(n: nat) -> Seq<char> {
    "data: "@ + nat_text(n) + "\n\n"@
}

/// The events emitted by a counter that starts at `n`, in order.
pub open spec fn event_stream(n: nat) -> Seq<Seq<char>>
    decreases n,
{
    if n == 0 {
        Seq::empty()
    } else {
        seq![event_text(n)] + event_stream((n - 1) as nat)
    }
}

/// The counter behind the event stream.
pub struct EventCounter {
    counter: usize,
}

impl EventCounter {
    /// How many events are still to come.
    pub closed spec fn remaining(&self) -> nat {
        self.counter as nat
    }

    /// A counter that starts at `FIRST_EVENT`.
    pub fn new() -> (c: EventCounter)
        ensures
            c.remaining() == FIRST_EVENT,
    {
        EventCounter { counter: FIRST_EVENT }
    }

    /// A counter that starts at `n`.
    pub fn starting_at(n: usize) -> (c: EventCounter)
        ensures
            c.remaining() == n,
    {
        EventCounter { counter: n }
    }

    /// The next event, counting down; `None` once the counter is at zero.
    pub fn next_event(&mut self) -> (r: Option<String>)
        ensures
            old(self).remaining() == 0 ==> r is None && final(self).remaining() == 0,
            old(self).remaining() > 0 ==> (r matches Some(s) && s@ == event_text(
                old(self).remaining(),
            )) && final(self).remaining() == old(self).remaining() - 1,
    {
        if self.counter == 0 {
            return None;
        }
        let mut s = String::from_str("data: ");
        s.append(usize_to_string(self.counter).as_str());
        s.append("\n\n");
        self.counter = self.counter - 1;
        Some(s)
    }

    /// Drains the counter: every event still to come, in order.
    pub fn drain(&mut self) -> (events: Vec<String>)
        ensures
            views(events@) == event_stream(old(self).remaining()),
            final(self).remaining() == 0,
    {
        let mut events: Vec<String> = Vec::new();
        let ghost start = self.remaining();
        while self.counter > 0
            invariant
                views(events@) + event_stream(self.remaining()) == event_stream(start),
            decreases self.counter,
        {
            let ghost before = self.remaining();
            let e = self.next_event();
            match e {
                Some(s) => {
                    events.push(s);
                    assert(event_stream(before) == seq![event_text(before)] + event_stream(
                        self.remaining(),
                    ));
                    assert(views(events@) == views(events@.drop_last()).push(s@));
                },
                None => {},
            }
        }
        assert(event_stream(0) == Seq::<Seq<char>>::empty());
        events
    }
}

/// Law: a counter that starts at `n` emits exactly `n` events, the `i`-th of
/// which carries `n - i`.
pub proof fn lemma_event_stream(n: nat)
    ensures
        event_stream(n).len() == n,
        forall|i: int| 0 <= i < n ==> #[trigger] event_stream(n)[i] == event_text((n - i) as nat),
    decreases n,
{
    if n > 0 {
        lemma_event_stream((n - 1) as nat);
        assert forall|i: int| 0 <= i < n implies #[trigger] event_stream(n)[i] == event_text(
            (n - i) as nat,
        ) by {
            if i > 0 {
                assert(event_stream(n)[i] == event_stream((n - 1) as nat)[i - 1]);
            }
        }
    }
}

} // verus!
