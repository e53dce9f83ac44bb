//! Errors of instantiation and of fiber-stack allocation.
use vstd::prelude::*;

verus! {

/// The kind of WebAssembly trap raised while initializing an instance.
#[derive(Clone, Copy, Debug, PartialEq, Eq, Structural)]
pub enum TrapCode {
    HeapOutOfBounds,
    TableOutOfBounds,
}

/// A trap raised by WebAssembly semantics.
#[derive(Clone, Copy, Debug, PartialEq, Eq, Structural)]
pub struct Trap {
    pub code: TrapCode,
}

/// An error linking a module against its imports.
#[derive(Clone, Debug)]
pub struct LinkError(pub String);

/// An error while instantiating a module.
#[derive(Clone, Debug)]
pub enum InstantiationError {
    /// Insufficient resources available for execution.
    Resource(String),
    /// A link error.
    Link(LinkError),
    /// A trap occurred during instantiation, after linking.
    Trap(Trap),
    /// A limit on how many instances are supported has been reached.
    Limit(u32),
}

/// An error while creating a fiber stack.
#[derive(Clone, Debug)]
pub enum FiberStackError {
    /// Insufficient resources available for the request.
    Resource(String),
    /// The allocator does not provide fiber stacks.
    NotSupported,
    /// A limit on how many fibers are supported has been reached.
    Limit(u32),
}

/// Why initializing the segments of an instance failed.
#[derive(Clone, Copy, Debug, PartialEq, Eq, Structural)]
pub enum InitFailure {
    ElementBaseOverflow,
    ElementsDoNotFit,
    DataBaseOverflow,
    DataDoesNotFit,
    Trapped(TrapCode),
}

pub open spec fn failure_message(f: InitFailure) -> Seq<char> {
    match f {
        InitFailure::ElementBaseOverflow => "element segment global base overflows"@,
        InitFailure::ElementsDoNotFit => "table out of bounds: elements segment does not fit"@,
        InitFailure::DataBaseOverflow => "data segment global base overflows"@,
        InitFailure::DataDoesNotFit => "memory out of bounds: data segment does not fit"@,
        InitFailure::Trapped(_) => Seq::empty(),
    }
}

/// `e` is the error that reports `f`: a trap for `Trapped`, a link error
/// with the failure's message otherwise.
pub open spec fn reports(e: InstantiationError, f: InitFailure) -> bool {
    match f {
        InitFailure::Trapped(code) => e == InstantiationError::Trap(Trap { code }),
        _ => match e {
            InstantiationError::Link(l) => l.0@ == failure_message(f),
            _ => false,
        },
    }
}

/// The error value that reports `f`.
pub fn failure_error(f: InitFailure) -> (e: InstantiationError)
    ensures
        reports(e, f),
{
    match f {
        InitFailure::ElementBaseOverflow => InstantiationError::Link(
            LinkError(String::from_str("element segment global base overflows")),
        ),
        InitFailure::ElementsDoNotFit => InstantiationError::Link(
            LinkError(String::from_str("table out of bounds: elements segment does not fit")),
        ),
        InitFailure::DataBaseOverflow => InstantiationError::Link(
            LinkError(String::from_str("data segment global base overflows")),
        ),
        InitFailure::DataDoesNotFit => InstantiationError::Link(
            LinkError(String::from_str("memory out of bounds: data segment does not fit")),
        ),
        InitFailure::Trapped(code) => InstantiationError::Trap(Trap { code }),
    }
}

} // verus!
