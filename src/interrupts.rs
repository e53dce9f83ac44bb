//! The stack-limit word shared by compiled code and the runtime. One word
//! encodes three states: not yet set, interrupted, or a real stack limit.
//! Compiled prologues and loop headers compare the stack pointer against it,
//! so storing the interrupt sentinel makes the next check trap.
use vstd::prelude::*;

verus! {

/// Stack frames smaller than this need a single check in their prologue.
pub const INTERRUPT_MARGIN: usize = 32 * 1024;

/// The stack limit before one is set: every check traps.
pub const STACK_LIMIT_UNSET: usize = usize::MAX;

/// The stack limit that requests an interrupt.
pub const INTERRUPTED: usize = usize::MAX - 32 * 1024;

/// What the stack-limit word means.
#[derive(Clone, Copy, Debug, PartialEq, Eq, Structural)]
pub enum StackLimitState {
    Unset,
    Interrupted,
    Limit(usize),
}

/// How a stack-overflow trap is reported.
#[derive(Clone, Copy, Debug, PartialEq, Eq, Structural)]
pub enum TrapLabel {
    StackOverflow,
    Interrupted,
}

/// A value reserved for the protocol: the unset marker or an interrupt.
pub open spec fn is_sentinel(limit: usize) -> bool {
    limit >= STACK_LIMIT_UNSET - INTERRUPT_MARGIN
}

pub open spec fn spec_prologue_traps(sp: usize, frame_size: usize, limit: usize) -> bool {
    sp < limit || (frame_size >= INTERRUPT_MARGIN && sp < limit + frame_size)
}

/// The shared structure whose first word is the stack limit.
#[derive(Debug)]
pub struct VMInterrupts {
    pub stack_limit: usize,
}

impl VMInterrupts {
    /// A structure with no limit set yet.
    pub fn new() -> (r: Self)
        ensures
            r.stack_limit == STACK_LIMIT_UNSET,
    {
        VMInterrupts { stack_limit: STACK_LIMIT_UNSET }
    }

    /// Requests an interrupt: the next check of the executing code traps.
    pub fn interrupt(&mut self)
        ensures
            final(self).stack_limit == INTERRUPTED,
    {
        self.stack_limit = INTERRUPTED;
    }

    /// Installs a real stack limit. Values reserved for the protocol are not
    /// stack limits.
    pub fn set_stack_limit(&mut self, limit: usize)
        requires
            !is_sentinel(limit),
        ensures
            final(self).stack_limit == limit,
    {
        self.stack_limit = limit;
    }
}

/// What the stack-limit word means.
pub fn classify_stack_limit(limit: usize) -> (r: StackLimitState)
    ensures
        limit == STACK_LIMIT_UNSET ==> r == StackLimitState::Unset,
        is_sentinel(limit) && limit != STACK_LIMIT_UNSET ==> r == StackLimitState::Interrupted,
        !is_sentinel(limit) ==> r == StackLimitState::Limit(limit),
{
    if limit == STACK_LIMIT_UNSET {
        StackLimitState::Unset
    } else if limit >= STACK_LIMIT_UNSET - INTERRUPT_MARGIN {
        StackLimitState::Interrupted
    } else {
        StackLimitState::Limit(limit)
    }
}

/// The check at a loop header: trap when the stack pointer is below the
/// limit.
pub fn loop_header_traps(sp: usize, limit: usize) -> (r: bool)
    ensures
        r == (sp < limit),
{
    sp < limit
}

/// The check in a function prologue. Frames of at least
/// `INTERRUPT_MARGIN` bytes also check the stack pointer after the frame is
/// taken.
pub fn prologue_traps(sp: usize, frame_size: usize, limit: usize) -> (r: bool)
    ensures
        r == spec_prologue_traps(sp, frame_size, limit),
{
    if sp < limit {
        return true;
    }
    if frame_size >= INTERRUPT_MARGIN {
        return sp - limit < frame_size;
    }
    false
}

/// How a stack-overflow trap is reported, given the limit when it fired.
pub fn stack_overflow_label(limit: usize) -> (r: TrapLabel)
    ensures
        r == (if limit == INTERRUPTED { TrapLabel::Interrupted } else { TrapLabel::StackOverflow }),
{
    if limit == INTERRUPTED {
        TrapLabel::Interrupted
    } else {
        TrapLabel::StackOverflow
    }
}

/// No real stack limit equals an interrupt sentinel `MAX - n` for any `n` up
/// to `INTERRUPT_MARGIN`, so a trap seen with the sentinel in place is an
/// interrupt; and with the sentinel in place every check at a real stack
/// address traps.
pub proof fn lemma_sentinel_unambiguous(limit: usize, n: usize, sp: usize, frame_size: usize)
    requires
        !is_sentinel(limit),
        n <= INTERRUPT_MARGIN,
        !is_sentinel(sp),
    ensures
        limit != STACK_LIMIT_UNSET - n,
        limit < INTERRUPTED,
        spec_prologue_traps(sp, frame_size, INTERRUPTED),
        sp < INTERRUPTED,
{
}

} // verus!
