use ai_agent::connection::{AcquireAction, ConnectionSlot};

/// Runs one acquisition against the slot: `alive` is what a probe finds,
/// `made` what an attempt to connect gives. Returns what was handed out and
/// how many connections were opened.
fn acquire(
    slot: &mut ConnectionSlot<u32>,
    alive: bool,
    made: Option<u32>,
) -> (Option<u32>, u32) {
    let mut created = 0;
    let mut action = slot.next_action();
    loop {
        match action {
            AcquireAction::Probe => action = slot.probe_result(alive),
            AcquireAction::Create => {
                created += 1;
                action = slot.store(made);
            }
            AcquireAction::UseCached => return (slot.cached().copied(), created),
            AcquireAction::Fail => return (None, created),
        }
    }
}

#[test]
fn empty_slot_creates() {
    let slot: ConnectionSlot<u32> = ConnectionSlot::new();
    assert_eq!(slot.next_action(), AcquireAction::Create);
    assert!(slot.cached().is_none());
}

#[test]
fn healthy_server_opens_one_connection() {
    let mut slot = ConnectionSlot::new();
    let mut opened = 0;
    for turn in 0..8u32 {
        let (got, created) = acquire(&mut slot, true, Some(100 + turn));
        opened += created;
        assert_eq!(got, Some(100));
    }
    assert_eq!(opened, 1);
}

#[test]
fn failed_probe_creates_one_replacement() {
    let mut slot = ConnectionSlot::new();
    assert_eq!(acquire(&mut slot, true, Some(1)), (Some(1), 1));
    assert_eq!(acquire(&mut slot, false, Some(2)), (Some(2), 1));
    for _ in 0..3 {
        assert_eq!(acquire(&mut slot, true, Some(3)), (Some(2), 0));
    }
}

#[test]
fn failed_creation_leaves_slot_empty() {
    let mut slot = ConnectionSlot::new();
    assert_eq!(acquire(&mut slot, true, None), (None, 1));
    assert!(slot.cached().is_none());
    assert_eq!(slot.next_action(), AcquireAction::Create);
    assert_eq!(acquire(&mut slot, true, Some(5)), (Some(5), 1));
}

#[test]
fn probe_steps() {
    let mut slot = ConnectionSlot::new();
    assert_eq!(slot.store(Some(9u32)), AcquireAction::UseCached);
    assert_eq!(slot.next_action(), AcquireAction::Probe);
    assert_eq!(slot.probe_result(true), AcquireAction::UseCached);
    assert_eq!(slot.cached(), Some(&9));
    assert_eq!(slot.probe_result(false), AcquireAction::Create);
    assert!(slot.cached().is_none());
    assert_eq!(slot.store(None), AcquireAction::Fail);
}
