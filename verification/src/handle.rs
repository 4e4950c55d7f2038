use vstd::prelude::*;

verus! {

/// What a handle refers to. A handle of one kind is never live in a store of
/// another kind.
#[derive(Clone, Copy, Debug, PartialEq, Eq, Structural)]
pub enum HandleKind {
    Expression,
    Context,
    Value,
}

/// An opaque reference to one cell of an [`crate::arena::Arena`].
///
/// The `index` names a slot, the `generation` names one tenancy of that slot.
/// A slot's generation grows with every release, so a handle that has been
/// released never matches its slot again.
#[derive(Clone, Copy, Debug, PartialEq, Eq, Structural)]
pub struct Handle {
    pub kind: HandleKind,
    pub index: usize,
    pub generation: u64,
}

/// Handle to a parsed expression.
pub type ExprPtr = Handle;

/// Handle to a value cell.
pub type ValuePtr = Handle;

/// Handle to a context that is only read.
pub type ContextPtr = Handle;

/// Handle to a context that is mutated.
pub type ContextMutPtr = Handle;

impl Handle {
    /// The handles of the given kind.
    pub open spec fn of_kind(kind: HandleKind) -> Set<Handle> {
        Set::new(|h: Handle| h.kind == kind)
    }

    /// The handle that no arena ever issues: its index is beyond every slot.
    pub open spec fn spec_null(kind: HandleKind) -> Handle {
        Handle { kind, index: usize::MAX, generation: 0 }
    }

    /// Returns the null handle of the given kind.
    #[verifier::when_used_as_spec(spec_null)]
    pub fn null(kind: HandleKind) -> (h: Handle)
        ensures
            h == Handle::spec_null(kind),
    {
        Handle { kind, index: usize::MAX, generation: 0 }
    }

    /// Tells whether this is the null handle of its kind.
    pub fn is_null(&self) -> (b: bool)
        ensures
            b == (*self == Handle::spec_null(self.kind)),
    {
        self.index == usize::MAX && self.generation == 0
    }
}

} // verus!
