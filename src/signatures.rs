//! The mapping of a module's signature indices to the process-wide canonical
//! ids used by indirect-call type checks.
use vstd::prelude::*;

verus! {

/// The canonical id given to types that are not function types.
pub const INVALID_SIGNATURE_ID: u32 = 0xFFFF_FFFF;

/// Where the canonical id of each signature index comes from.
#[derive(Clone, Debug)]
pub enum SharedSignatures {
    /// One canonical id per signature index, for user-defined modules.
    Table(Vec<u32>),
    /// The same id for every index, for instances with a single function.
    Always(u32),
    /// No ids at all, for instances without functions.
    Empty,
}

impl SharedSignatures {
    pub open spec fn can_lookup(&self, index: u32) -> bool {
        match self {
            SharedSignatures::Table(t) => index < t.len(),
            SharedSignatures::Always(_) => true,
            SharedSignatures::Empty => false,
        }
    }

    pub open spec fn spec_lookup(&self, index: u32) -> u32 {
        match self {
            SharedSignatures::Table(t) => t[index as int],
            SharedSignatures::Always(id) => *id,
            SharedSignatures::Empty => INVALID_SIGNATURE_ID,
        }
    }

    /// The canonical id of signature `index`.
    pub fn lookup(&self, index: u32) -> (r: u32)
        requires
            self.can_lookup(index),
        ensures
            r == self.spec_lookup(index),
    {
        match self {
            SharedSignatures::Table(t) => t[index as usize],
            SharedSignatures::Always(id) => *id,
            SharedSignatures::Empty => INVALID_SIGNATURE_ID,
        }
    }
}

impl From<u32> for SharedSignatures {
    fn from(val: u32) -> (r: SharedSignatures)
        ensures
            r == SharedSignatures::Always(val),
    {
        SharedSignatures::Always(val)
    }
}

impl vstd::std_specs::convert::FromSpecImpl<u32> for SharedSignatures {
    open spec fn obeys_from_spec() -> bool {
        true
    }

    open spec fn from_spec(v: u32) -> SharedSignatures {
        SharedSignatures::Always(v)
    }
}

impl From<Option<u32>> for SharedSignatures {
    fn from(val: Option<u32>) -> (r: SharedSignatures)
        ensures
            r == (match val {
                Some(id) => SharedSignatures::Always(id),
                None => SharedSignatures::Empty,
            }),
    {
        match val {
            Some(id) => SharedSignatures::Always(id),
            None => SharedSignatures::Empty,
        }
    }
}

impl vstd::std_specs::convert::FromSpecImpl<Option<u32>> for SharedSignatures {
    open spec fn obeys_from_spec() -> bool {
        true
    }

    open spec fn from_spec(v: Option<u32>) -> SharedSignatures {
        match v {
            Some(id) => SharedSignatures::Always(id),
            None => SharedSignatures::Empty,
        }
    }
}

impl From<Vec<u32>> for SharedSignatures {
    fn from(val: Vec<u32>) -> (r: SharedSignatures)
        ensures
            r == SharedSignatures::Table(val),
    {
        SharedSignatures::Table(val)
    }
}

impl vstd::std_specs::convert::FromSpecImpl<Vec<u32>> for SharedSignatures {
    open spec fn obeys_from_spec() -> bool {
        true
    }

    open spec fn from_spec(v: Vec<u32>) -> SharedSignatures {
        SharedSignatures::Table(v)
    }
}

} // verus!
