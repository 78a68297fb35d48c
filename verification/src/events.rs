//! Event decode and dispatch for the peripheral's single event interrupt
//! line.
//!
//! The dispatcher reads the event-status register once (handed in as a
//! decoded value), latches a fault on the error cause, notifies the shared
//! interrupt state exactly once when any handled cause fired, and reports
//! exactly the cause bits it acted on for acknowledgment.  It never blocks
//! and never acknowledges a bit it did not act on.

use vstd::prelude::*;

use crate::state::{spec_wake, SlotModel, State};

verus! {

/// Decoded event-status register.  One flag per handled cause; `rest` stands
/// for status bits the dispatcher does not handle and must leave alone.
#[derive(Clone, Copy, Debug, PartialEq, Eq, Structural)]
pub struct EventStatus {
    /// A dynamic address was assigned or updated.
    pub daupd: bool,
    /// The peripheral reported an error.
    pub err: bool,
    /// A Hot-Join request completed.
    pub hj_complete: bool,
    /// An in-band interrupt completed.
    pub ibi_complete: bool,
    /// A data transfer completed.
    pub transfer_complete: bool,
    /// Status bits outside the handled causes.
    pub rest: u32,
}

/// The cause bits the dispatcher acted on and that must be acknowledged on
/// hardware.  There is no field for unhandled bits: the dispatcher cannot
/// acknowledge a cause it does not handle.
#[derive(Clone, Copy, Debug, PartialEq, Eq, Structural)]
pub struct AckSet {
    pub daupd: bool,
    pub err: bool,
    pub hj_complete: bool,
    pub ibi_complete: bool,
    pub transfer_complete: bool,
}

/// Hardware fault decoded from the error cause, latched for task code.
#[derive(Clone, Copy, Debug, PartialEq, Eq, Structural)]
pub struct HardwareFault {}

/// What one dispatch decided: the cause bits to acknowledge and the waiter
/// to wake, if one was registered.  The embedding performs both actions.
pub struct IrqOutcome<W> {
    pub acked: AckSet,
    pub woken: Option<W>,
}

/// True when some handled cause bit is set, i.e. when the dispatch notifies
/// the shared interrupt state.
pub open spec fn spec_notifies(s: EventStatus) -> bool {
    s.daupd || s.err || s.hj_complete || s.ibi_complete || s.transfer_complete
}

/// The cause bits a dispatch of `s` acts on: exactly the set bits among the
/// handled causes, never a bit of `rest`, never a clear bit.
pub open spec fn spec_acks(s: EventStatus) -> AckSet {
    AckSet {
        daupd: s.daupd,
        err: s.err,
        hj_complete: s.hj_complete,
        ibi_complete: s.ibi_complete,
        transfer_complete: s.transfer_complete,
    }
}

/// Effect of one dispatch on the shared interrupt state: the error cause
/// latches the fault flag, and one notification is posted when any handled
/// cause fired.
pub open spec fn spec_dispatch<W>(s: EventStatus, m: SlotModel<W>) -> (SlotModel<W>, Option<W>) {
    let faulted = SlotModel { fault: m.fault || s.err, ..m };
    if spec_notifies(s) {
        spec_wake(faulted)
    } else {
        (faulted, None)
    }
}

/// Handles one assertion of the event interrupt line.
///
/// Latches a fault on the error cause, notifies the shared interrupt state
/// exactly once when any handled cause fired (the returned waiter, if any,
/// is to be woken by the caller), and reports exactly the set handled cause
/// bits for acknowledgment.  Never blocks, never touches a bit of `rest`.
pub fn on_interrupt<W>(status: EventStatus, state: &mut State<W>) -> (out: IrqOutcome<W>)
    requires
        old(state).inv(),
    ensures
        final(state).inv(),
        out.acked == spec_acks(status),
        (final(state)@, out.woken) == spec_dispatch(status, old(state)@),
{
    if status.err {
        state.set_fault();
    }
    let notifies = status.daupd || status.err || status.hj_complete || status.ibi_complete
        || status.transfer_complete;
    let woken: Option<W> = if notifies {
        state.wake()
    } else {
        None
    };
    IrqOutcome {
        acked: AckSet {
            daupd: status.daupd,
            err: status.err,
            hj_complete: status.hj_complete,
            ibi_complete: status.ibi_complete,
            transfer_complete: status.transfer_complete,
        },
        woken,
    }
}

/// Collects a fault latched by the dispatcher, clearing it.
pub fn take_fault<W>(state: &mut State<W>) -> (f: Option<HardwareFault>)
    ensures
        f is Some <==> old(state)@.fault,
        final(state)@ == (SlotModel { fault: false, ..old(state)@ }),
        old(state).inv() ==> final(state).inv(),
{
    if state.take_fault() {
        Some(HardwareFault {})
    } else {
        None
    }
}

} // verus!
