use vstd::prelude::*;

verus! {

/// Lifecycle state of a thread.
#[derive(PartialEq, Eq, Structural, Clone, Copy, Debug)]
pub enum ThreadStateEnum {
    ThreadStateInactive,
    ThreadStateRunning,
    ThreadStateRestart,
    ThreadStateBlockedOnReceive,
    ThreadStateBlockedOnSend,
    ThreadStateBlockedOnReply,
    ThreadStateBlockedOnNotification,
    ThreadStateIdleThreadState,
}

/// A thread is blocked waiting on a communication endpoint.
pub open spec fn is_blocked(s: ThreadStateEnum) -> bool {
    s == ThreadStateEnum::ThreadStateBlockedOnReceive || s == ThreadStateEnum::ThreadStateBlockedOnSend
        || s == ThreadStateEnum::ThreadStateBlockedOnReply || s
        == ThreadStateEnum::ThreadStateBlockedOnNotification
}

/// The legal moves of the thread lifecycle: first dispatch, restart and
/// resume, blocking on and waking from communication. The idle state is
/// never left.
pub open spec fn legal_transition(from: ThreadStateEnum, to: ThreadStateEnum) -> bool {
    match from {
        ThreadStateEnum::ThreadStateInactive => to == ThreadStateEnum::ThreadStateRunning,
        ThreadStateEnum::ThreadStateRunning => to == ThreadStateEnum::ThreadStateRestart || is_blocked(to),
        ThreadStateEnum::ThreadStateRestart => to == ThreadStateEnum::ThreadStateRunning,
        ThreadStateEnum::ThreadStateIdleThreadState => false,
        _ => to == ThreadStateEnum::ThreadStateRunning,
    }
}

impl ThreadStateEnum {
    pub fn is_blocked(&self) -> (r: bool)
        ensures
            r == is_blocked(*self),
    {
        match self {
            ThreadStateEnum::ThreadStateBlockedOnReceive => true,
            ThreadStateEnum::ThreadStateBlockedOnSend => true,
            ThreadStateEnum::ThreadStateBlockedOnReply => true,
            ThreadStateEnum::ThreadStateBlockedOnNotification => true,
            _ => false,
        }
    }

    /// Whether a thread in this state may move to `to`.
    pub fn can_transition_to(&self, to: ThreadStateEnum) -> (r: bool)
        ensures
            r == legal_transition(*self, to),
    {
        match self {
            ThreadStateEnum::ThreadStateInactive => to == ThreadStateEnum::ThreadStateRunning,
            ThreadStateEnum::ThreadStateRunning => {
                to == ThreadStateEnum::ThreadStateRestart || to.is_blocked()
            },
            ThreadStateEnum::ThreadStateRestart => to == ThreadStateEnum::ThreadStateRunning,
            ThreadStateEnum::ThreadStateIdleThreadState => false,
            _ => to == ThreadStateEnum::ThreadStateRunning,
        }
    }
}

} // verus!
