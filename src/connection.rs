//! The shared slot of the connection to the remote tool server: the
//! decisions of each acquisition, probe or create, keep or replace.
use vstd::prelude::*;

verus! {

/// What the holder of the slot's lock does next.
#[derive(Clone, Copy, Debug, PartialEq, Eq, Structural)]
pub enum AcquireAction {
    /// Check that the cached connection still answers.
    Probe,
    /// Open a new connection and hand it to the slot.
    Create,
    /// Hand out the connection the slot holds.
    UseCached,
    /// Report that no connection could be had.
    Fail,
}

/// At most one connection, shared by every caller.
pub struct ConnectionSlot<T> {
    holder: Option<T>,
}

/// The first step of an acquisition.
pub open spec fn first_action<T>(held: Option<T>) -> AcquireAction {
    if held.is_some() {
        AcquireAction::Probe
    } else {
        AcquireAction::Create
    }
}

/// The slot and the next step once the probe of the held connection is in.
pub open spec fn after_probe<T>(held: Option<T>, alive: bool) -> (Option<T>, AcquireAction) {
    if alive {
        (held, AcquireAction::UseCached)
    } else {
        (None, AcquireAction::Create)
    }
}

/// The slot and the next step once an attempt to connect is over.
pub open spec fn after_create<T>(made: Option<T>) -> (Option<T>, AcquireAction) {
    if made.is_some() {
        (made, AcquireAction::UseCached)
    } else {
        (None, AcquireAction::Fail)
    }
}

/// One whole acquisition: the slot after it, and how many connections it
/// opened. `alive` is what a probe would find; `made` is what an attempt to
/// connect would give.
pub open spec fn acquisition<T>(held: Option<T>, alive: bool, made: Option<T>) -> (Option<T>, nat) {
    if first_action(held) == AcquireAction::Probe && after_probe(held, alive).1
        == AcquireAction::UseCached {
        (after_probe(held, alive).0, 0)
    } else {
        (after_create(made).0, 1)
    }
}

/// Acquisitions one after another, as the slot's lock orders them: the slot
/// after the last, and how many connections they opened in all.
pub open spec fn acquisitions<T>(held: Option<T>, alive: Seq<bool>, made: Seq<Option<T>>) -> (
    Option<T>,
    nat,
)
    decreases alive.len(),
{
    if alive.len() == 0 || made.len() != alive.len() {
        (held, 0)
    } else {
        let before = acquisitions(held, alive.drop_last(), made.drop_last());
        let step = acquisition(before.0, alive.last(), made.last());
        (step.0, before.1 + step.1)
    }
}

impl<T> ConnectionSlot<T> {
    /// The connection the slot holds.
    pub closed spec fn held(&self) -> Option<T> {
        self.holder
    }

    /// An empty slot.
    pub fn new() -> (r: Self)
        ensures
            r.held().is_none(),
    {
        ConnectionSlot { holder: None }
    }

    /// How an acquisition starts: probe a held connection, else create one.
    pub fn next_action(&self) -> (r: AcquireAction)
        ensures
            r == first_action(self.held()),
    {
        if self.holder.is_some() {
            AcquireAction::Probe
        } else {
            AcquireAction::Create
        }
    }

    /// Takes the probe's outcome: a live connection is handed out, a dead
    /// one is dropped and a new one is to be created.
    pub fn probe_result(&mut self, alive: bool) -> (r: AcquireAction)
        requires
            old(self).held().is_some(),
        ensures
            (final(self).held(), r) == after_probe(old(self).held(), alive),
    {
        if alive {
            AcquireAction::UseCached
        } else {
            self.holder = None;
            AcquireAction::Create
        }
    }

    /// Takes what an attempt to connect gave: a new connection is kept and
    /// handed out; after a failure the slot stays empty.
    pub fn store(&mut self, made: Option<T>) -> (r: AcquireAction)
        requires
            old(self).held().is_none(),
        ensures
            (final(self).held(), r) == after_create(made),
    {
        let ok = made.is_some();
        self.holder = made;
        if ok {
            AcquireAction::UseCached
        } else {
            AcquireAction::Fail
        }
    }

    /// The connection the slot holds, to hand out.
    pub fn cached(&self) -> (r: Option<&T>)
        ensures
            r.is_some() == self.held().is_some(),
            r.is_some() ==> *r.unwrap() == self.held().unwrap(),
    {
        self.holder.as_ref()
    }
}

/// With a healthy server (every probe answers, every attempt to connect
/// succeeds), any number of acquisitions open at most one connection, the
/// first one if the slot starts empty, and all of them hand out the same
/// connection.
pub proof fn lemma_healthy_server_one_connection<T>(
    held: Option<T>,
    alive: Seq<bool>,
    made: Seq<Option<T>>,
)
    requires
        made.len() == alive.len(),
        forall|i: int| 0 <= i < alive.len() ==> #[trigger] alive[i],
        forall|i: int| 0 <= i < made.len() ==> (#[trigger] made[i]).is_some(),
    ensures
        held.is_some() ==> acquisitions(held, alive, made) == (held, 0nat),
        held.is_none() && alive.len() > 0 ==> acquisitions(held, alive, made) == (made[0], 1nat),
    decreases alive.len(),
{
    if alive.len() > 0 {
        let a = alive.drop_last();
        let m = made.drop_last();
        assert forall|i: int| 0 <= i < a.len() implies #[trigger] a[i] by {
            assert(a[i] == alive[i]);
        }
        assert forall|i: int| 0 <= i < m.len() implies (#[trigger] m[i]).is_some() by {
            assert(m[i] == made[i]);
        }
        lemma_healthy_server_one_connection(held, a, m);
        if a.len() == 0 {
            assert(acquisitions(held, a, m) == (held, 0nat));
        }
        assert(alive.last());
        assert(made.last().is_some());
        if alive.len() > 1 {
            assert(m[0] == made[0]);
        }
    }
}

/// When the held connection fails its probe, that acquisition opens exactly
/// one replacement, and the acquisitions after it, with the server healthy
/// again, reuse that replacement and open none.
pub proof fn lemma_failed_probe_one_replacement<T>(
    held: Option<T>,
    alive: Seq<bool>,
    made: Seq<Option<T>>,
)
    requires
        held.is_some(),
        made.len() == alive.len(),
        alive.len() > 0,
        !alive[0],
        forall|i: int| 1 <= i < alive.len() ==> #[trigger] alive[i],
        forall|i: int| 0 <= i < made.len() ==> (#[trigger] made[i]).is_some(),
    ensures
        acquisitions(held, alive, made) == (made[0], 1nat),
    decreases alive.len(),
{
    if alive.len() > 1 {
        let a = alive.drop_last();
        let m = made.drop_last();
        assert forall|i: int| 1 <= i < a.len() implies #[trigger] a[i] by {
            assert(a[i] == alive[i]);
        }
        assert forall|i: int| 0 <= i < m.len() implies (#[trigger] m[i]).is_some() by {
            assert(m[i] == made[i]);
        }
        assert(a[0] == alive[0]);
        lemma_failed_probe_one_replacement(held, a, m);
        assert(m[0] == made[0]);
        assert(alive.last());
    } else {
        let a = alive.drop_last();
        let m = made.drop_last();
        assert(acquisitions(held, a, m) == (held, 0nat));
        assert(alive.last() == alive[0]);
        assert(made.last() == made[0]);
    }
}

} // verus!
