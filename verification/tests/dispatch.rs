use i3c_target::events::{on_interrupt, take_fault, EventStatus, HardwareFault};
use i3c_target::state::State;

fn status_none() -> EventStatus {
    EventStatus {
        daupd: false,
        err: false,
        hj_complete: false,
        ibi_complete: false,
        transfer_complete: false,
        rest: 0,
    }
}

#[test]
fn transfer_complete_wakes_registered_waiter_exactly_once() {
    let mut st: State<u32> = State::new();
    assert_eq!(st.register(7), None);
    let status = EventStatus { transfer_complete: true, ..status_none() };
    let out = on_interrupt(status, &mut st);
    // exactly the transfer-complete bit is acknowledged
    assert!(out.acked.transfer_complete);
    assert!(!out.acked.daupd);
    assert!(!out.acked.err);
    assert!(!out.acked.hj_complete);
    assert!(!out.acked.ibi_complete);
    // the waiter is notified exactly once
    assert_eq!(out.woken, Some(7));
    let again = on_interrupt(status, &mut st);
    assert_eq!(again.woken, None);
    // and no fault was latched
    assert_eq!(take_fault(&mut st), None);
}

#[test]
fn unhandled_status_bits_are_left_alone() {
    let mut st: State<u32> = State::new();
    assert_eq!(st.register(3), None);
    let status = EventStatus { rest: 0x40, ..status_none() };
    let out = on_interrupt(status, &mut st);
    // no cause handled: nothing acknowledged, nobody woken
    assert!(!out.acked.daupd);
    assert!(!out.acked.err);
    assert!(!out.acked.hj_complete);
    assert!(!out.acked.ibi_complete);
    assert!(!out.acked.transfer_complete);
    assert_eq!(out.woken, None);
    // the waiter is still registered and wakes on the next real cause
    let out = on_interrupt(EventStatus { hj_complete: true, ..status_none() }, &mut st);
    assert_eq!(out.woken, Some(3));
}

#[test]
fn notification_without_waiter_is_kept_pending() {
    let mut st: State<u32> = State::new();
    let out = on_interrupt(EventStatus { ibi_complete: true, ..status_none() }, &mut st);
    assert_eq!(out.woken, None);
    // the next registrant is delivered to immediately
    assert_eq!(st.register(11), Some(11));
    // and the notification was consumed by that delivery
    assert_eq!(st.register(12), None);
}

#[test]
fn second_registration_overwrites_first() {
    let mut st: State<u32> = State::new();
    assert_eq!(st.register(1), None);
    assert_eq!(st.register(2), None);
    let out = on_interrupt(EventStatus { transfer_complete: true, ..status_none() }, &mut st);
    // the last registrant wins; the first is never woken
    assert_eq!(out.woken, Some(2));
    let again = on_interrupt(EventStatus { transfer_complete: true, ..status_none() }, &mut st);
    assert_eq!(again.woken, None);
}

#[test]
fn cancelled_waiter_never_wakes() {
    let mut st: State<u32> = State::new();
    assert_eq!(st.register(8), None);
    assert_eq!(st.deregister(), Some(8));
    let out = on_interrupt(EventStatus { transfer_complete: true, ..status_none() }, &mut st);
    assert_eq!(out.woken, None);
    // the notification went pending instead, for the next registrant
    assert_eq!(st.register(9), Some(9));
    // deregistering with nothing registered removes nothing
    assert_eq!(st.deregister(), None);
}

#[test]
fn error_cause_latches_fault_until_collected() {
    let mut st: State<u32> = State::new();
    let out = on_interrupt(EventStatus { err: true, ..status_none() }, &mut st);
    assert!(out.acked.err);
    assert_eq!(take_fault(&mut st), Some(HardwareFault {}));
    assert_eq!(take_fault(&mut st), None);
}

#[test]
fn several_causes_acknowledge_together_and_wake_once() {
    let mut st: State<u32> = State::new();
    assert_eq!(st.register(5), None);
    let status = EventStatus { daupd: true, hj_complete: true, ..status_none() };
    let out = on_interrupt(status, &mut st);
    assert!(out.acked.daupd);
    assert!(out.acked.hj_complete);
    assert!(!out.acked.err);
    assert!(!out.acked.ibi_complete);
    assert!(!out.acked.transfer_complete);
    assert_eq!(out.woken, Some(5));
}
