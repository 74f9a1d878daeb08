//! The token by which the facade holds a database of the engine.

use vstd::prelude::*;

verus! {

/// Stands for one open database of the engine. It holds the address that
/// the engine handed out, which is never zero, and nothing else: the
/// library never looks at what lies there. A handle cannot be copied, so
/// whoever holds it is the only one who can give it back to the engine.
#[derive(Debug)]
pub struct Handle {
    address: usize,
}

impl View for Handle {
    type V = usize;

    closed spec fn view(&self) -> usize {
        self.address
    }
}

/// An optional handle as contracts speak of it: its address.
pub open spec fn handle_view(handle: Option<Handle>) -> Option<usize> {
    match handle {
        Some(h) => Some(h@),
        None => None,
    }
}

impl Handle {
    #[verifier::type_invariant]
    spec fn is_set(self) -> bool {
        self.address != 0
    }

    /// Takes what the engine returned where it returns a database. The
    /// zero address is the engine's way of returning none.
    pub fn from_address(address: usize) -> (handle: Option<Handle>)
        ensures
            handle_view(handle) == if address == 0 {
                None::<usize>
            } else {
                Some(address)
            },
    {
        if address == 0 {
            None
        } else {
            Some(Handle { address })
        }
    }

    /// The address to hand to the engine. It is not zero.
    pub fn address(&self) -> (address: usize)
        ensures
            address == self@,
            address != 0,
    {
        proof {
            use_type_invariant(self);
        }
        self.address
    }
}

} // verus!
