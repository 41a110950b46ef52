use vstd::prelude::*;

verus! {

/// Kind of a switching or feedback device addressed on the bus, as reported
/// inside decoded switch-information payloads.
#[derive(Clone, Copy, Debug, PartialEq, Eq, Structural)]
pub enum SwitchTypes {
    ReceiverNoFeedback,
    ReceiverFeedback,
    FeedbackComponent,
    Undefined,
}

/// Reported position of a switch, as carried inside decoded
/// switch-information payloads.
#[derive(Clone, Copy, Debug, PartialEq, Eq, Structural)]
pub enum SwitchStates {
    NotYetSwitchedOrUnknown,
    SwitchedLeft,
    SwitchedRight,
    Undefined,
}

} // verus!
