use crate::arena::Arena;
use crate::handle::{ContextPtr, ExprPtr, Handle, HandleKind, ValuePtr};
use crate::value::ValueCell;
use crate::context::Context;
use crate::expression::Expression;
use vstd::prelude::*;

verus! {

/// What a heap holds, as mathematics.
#[verifier::ext_equal]
pub ghost struct HeapModel {
    /// The parsed expressions, by the handle that owns each.
    pub exprs: Map<Handle, Expression>,
    /// The contexts, by the handle that owns each.
    pub contexts: Map<Handle, Context>,
    /// The value cells, by the handle that owns each.
    pub values: Map<Handle, ValueCell>,
    /// The handles that were issued and have been released since.
    pub spent: Set<Handle>,
}

impl HeapModel {
    /// Whether `h` owns anything.
    pub open spec fn live(self, h: Handle) -> bool {
        self.exprs.contains_key(h) || self.contexts.contains_key(h) || self.values.contains_key(h)
    }

    /// Whether `h` is a handle that may be issued next: it owns nothing and
    /// was never released.
    pub open spec fn fresh(self, h: Handle) -> bool {
        !self.live(h) && !self.spent.contains(h)
    }
}

/// Everything that handles refer to: expressions, contexts and value cells.
///
/// A handle is live from the call that returns it to the call that releases
/// it. Every operation checks the handles it is given: one that is not live,
/// or is of the wrong kind, makes the operation fail and changes nothing.
pub struct Heap {
    exprs: Arena<Expression>,
    contexts: Arena<Context>,
    values: Arena<ValueCell>,
}

impl View for Heap {
    type V = HeapModel;

    closed spec fn view(&self) -> HeapModel {
        HeapModel {
            exprs: self.exprs@.restrict(Handle::of_kind(HandleKind::Expression)),
            contexts: self.contexts@.restrict(Handle::of_kind(HandleKind::Context)),
            values: self.values@.restrict(Handle::of_kind(HandleKind::Value)),
            spent: Set::new(
                |h: Handle|
                    match h.kind {
                        HandleKind::Expression => self.exprs.spent(h),
                        HandleKind::Context => self.contexts.spent(h),
                        HandleKind::Value => self.values.spent(h),
                    },
            ),
        }
    }
}

impl Heap {
    #[verifier::type_invariant]
    spec fn well_formed(self) -> bool {
        &&& self.exprs.kind() == HandleKind::Expression
        &&& self.contexts.kind() == HandleKind::Context
        &&& self.values.kind() == HandleKind::Value
    }

    /// In a well-formed heap the model is what the three arenas hold.
    proof fn lemma_view(self)
        requires
            self.well_formed(),
        ensures
            self@.exprs == self.exprs@,
            self@.contexts == self.contexts@,
            self@.values == self.values@,
            forall|h: Handle|
                self@.spent.contains(h) == (self.exprs.spent(h) || self.contexts.spent(h)
                    || self.values.spent(h)),
    {
        self.exprs.lemma_kind();
        self.contexts.lemma_kind();
        self.values.lemma_kind();
        assert forall|h: Handle| self.exprs@.contains_key(h) implies Handle::of_kind(
            HandleKind::Expression,
        ).contains(h) by {}
        assert(self@.exprs.dom() =~= self.exprs@.dom());
        assert(self@.exprs =~= self.exprs@);
        assert(self@.contexts =~= self.contexts@);
        assert(self@.values =~= self.values@);
    }

    /// The heap that holds nothing and has released nothing.
    pub open spec fn empty_model() -> HeapModel {
        HeapModel {
            exprs: Map::empty(),
            contexts: Map::empty(),
            values: Map::empty(),
            spent: Set::empty(),
        }
    }

    /// Creates an empty heap.
    pub fn new() -> (heap: Self)
        ensures
            heap@ == Heap::empty_model(),
    {
        let heap = Heap {
            exprs: Arena::new(HandleKind::Expression),
            contexts: Arena::new(HandleKind::Context),
            values: Arena::new(HandleKind::Value),
        };
        assert(heap@.spent =~= Set::empty());
        heap
    }

    /// Tells whether `h` owns anything: an expression, a context or a cell.
    pub fn contains(&self, h: Handle) -> (b: bool)
        ensures
            b == self@.live(h),
    {
        proof {
            use_type_invariant(self);
            self.lemma_view();
        }
        self.exprs.contains(h) || self.contexts.contains(h) || self.values.contains(h)
    }

    /// Stores `cell` and returns the handle that owns it.
    pub fn put_value(&mut self, cell: ValueCell) -> (h: ValuePtr)
        ensures
            old(self)@.fresh(h),
            h != Handle::spec_null(h.kind),
            h.kind == HandleKind::Value,
            final(self)@ == (HeapModel { values: old(self)@.values.insert(h, cell), ..old(self)@ }),
    {
        proof {
            use_type_invariant(&*self);
            self.lemma_view();
        }
        let mut values = Arena::new(HandleKind::Value);
        core::mem::swap(&mut self.values, &mut values);
        let h = values.insert(cell);
        self.values = values;
        proof {
            self.lemma_view();
            old(self).exprs.lemma_live_or_spent(h);
            old(self).contexts.lemma_live_or_spent(h);
            assert(final(self)@.spent =~= old(self)@.spent);
        }
        h
    }

    /// Borrows the cell that `h` owns.
    pub fn value(&self, h: ValuePtr) -> (r: Option<&ValueCell>)
        ensures
            match r {
                Some(cell) => self@.values.contains_key(h) && *cell == self@.values[h],
                None => !self@.values.contains_key(h),
            },
    {
        proof {
            use_type_invariant(self);
            self.lemma_view();
        }
        self.values.get(h)
    }

    /// Releases the cell that `h` owns and hands its payload back. A handle
    /// that owns no cell releases nothing.
    pub fn take_value(&mut self, h: ValuePtr) -> (r: Option<ValueCell>)
        ensures
            match r {
                Some(cell) => old(self)@.values.contains_key(h) && cell == old(self)@.values[h]
                    && final(self)@ == (HeapModel {
                    values: old(self)@.values.remove(h),
                    spent: old(self)@.spent.insert(h),
                    ..old(self)@
                }),
                None => !old(self)@.values.contains_key(h) && final(self)@ == old(self)@,
            },
    {
        proof {
            use_type_invariant(&*self);
            self.lemma_view();
        }
        let mut values = Arena::new(HandleKind::Value);
        core::mem::swap(&mut self.values, &mut values);
        let r = values.remove(h);
        self.values = values;
        proof {
            self.lemma_view();
            if r is Some {
                assert(final(self)@.spent =~= old(self)@.spent.insert(h));
            } else {
                assert(final(self)@.spent =~= old(self)@.spent);
                assert(final(self)@.values =~= old(self)@.values);
            }
        }
        r
    }

    /// The number of live value cells.
    pub fn live_values(&self) -> (n: usize)
        ensures
            self@.values.dom().finite(),
            n == self@.values.len(),
    {
        proof {
            use_type_invariant(self);
            self.lemma_view();
        }
        self.values.len()
    }

    /// Stores `expr` and returns the handle that owns it.
    pub(crate) fn put_expr(&mut self, expr: Expression) -> (h: ExprPtr)
        ensures
            old(self)@.fresh(h),
            h != Handle::spec_null(h.kind),
            h.kind == HandleKind::Expression,
            final(self)@ == (HeapModel { exprs: old(self)@.exprs.insert(h, expr), ..old(self)@ }),
    {
        proof {
            use_type_invariant(&*self);
            self.lemma_view();
        }
        let mut exprs = Arena::new(HandleKind::Expression);
        core::mem::swap(&mut self.exprs, &mut exprs);
        let h = exprs.insert(expr);
        self.exprs = exprs;
        proof {
            self.lemma_view();
            old(self).exprs.lemma_live_or_spent(h);
            old(self).contexts.lemma_live_or_spent(h);
            old(self).values.lemma_live_or_spent(h);
            assert(final(self)@.spent =~= old(self)@.spent);
        }
        h
    }

    /// Borrows the expression that `h` owns.
    pub(crate) fn expr(&self, h: ExprPtr) -> (r: Option<&Expression>)
        ensures
            match r {
                Some(expr) => self@.exprs.contains_key(h) && *expr == self@.exprs[h],
                None => !self@.exprs.contains_key(h),
            },
    {
        proof {
            use_type_invariant(self);
            self.lemma_view();
        }
        self.exprs.get(h)
    }

    /// Releases the expression that `h` owns and hands it back. A handle that
    /// owns no expression releases nothing.
    pub(crate) fn take_expr(&mut self, h: ExprPtr) -> (r: Option<Expression>)
        ensures
            match r {
                Some(expr) => old(self)@.exprs.contains_key(h) && expr == old(self)@.exprs[h]
                    && final(self)@ == (HeapModel {
                    exprs: old(self)@.exprs.remove(h),
                    spent: old(self)@.spent.insert(h),
                    ..old(self)@
                }),
                None => !old(self)@.exprs.contains_key(h) && final(self)@ == old(self)@,
            },
    {
        proof {
            use_type_invariant(&*self);
            self.lemma_view();
        }
        let mut exprs = Arena::new(HandleKind::Expression);
        core::mem::swap(&mut self.exprs, &mut exprs);
        let r = exprs.remove(h);
        self.exprs = exprs;
        proof {
            self.lemma_view();
            if r is Some {
                assert(final(self)@.spent =~= old(self)@.spent.insert(h));
            } else {
                assert(final(self)@.spent =~= old(self)@.spent);
                assert(final(self)@.exprs =~= old(self)@.exprs);
            }
        }
        r
    }

    /// The number of live expressions.
    pub fn live_exprs(&self) -> (n: usize)
        ensures
            self@.exprs.dom().finite(),
            n == self@.exprs.len(),
    {
        proof {
            use_type_invariant(self);
            self.lemma_view();
        }
        self.exprs.len()
    }

    /// Stores `context` and returns the handle that owns it.
    pub(crate) fn put_context(&mut self, context: Context) -> (h: ContextPtr)
        ensures
            old(self)@.fresh(h),
            h != Handle::spec_null(h.kind),
            h.kind == HandleKind::Context,
            final(self)@ == (HeapModel {
                contexts: old(self)@.contexts.insert(h, context),
                ..old(self)@
            }),
    {
        proof {
            use_type_invariant(&*self);
            self.lemma_view();
        }
        let mut contexts = Arena::new(HandleKind::Context);
        core::mem::swap(&mut self.contexts, &mut contexts);
        let h = contexts.insert(context);
        self.contexts = contexts;
        proof {
            self.lemma_view();
            old(self).exprs.lemma_live_or_spent(h);
            old(self).contexts.lemma_live_or_spent(h);
            old(self).values.lemma_live_or_spent(h);
            assert(final(self)@.spent =~= old(self)@.spent);
        }
        h
    }

    /// Borrows the context that `h` owns.
    pub(crate) fn context(&self, h: ContextPtr) -> (r: Option<&Context>)
        ensures
            match r {
                Some(context) => self@.contexts.contains_key(h) && *context == self@.contexts[h],
                None => !self@.contexts.contains_key(h),
            },
    {
        proof {
            use_type_invariant(self);
            self.lemma_view();
        }
        self.contexts.get(h)
    }

    /// Releases the context that `h` owns and hands it back. A handle that
    /// owns no context releases nothing.
    pub(crate) fn take_context(&mut self, h: ContextPtr) -> (r: Option<Context>)
        ensures
            match r {
                Some(context) => old(self)@.contexts.contains_key(h) && context
                    == old(self)@.contexts[h]
                    && final(self)@ == (HeapModel {
                    contexts: old(self)@.contexts.remove(h),
                    spent: old(self)@.spent.insert(h),
                    ..old(self)@
                }),
                None => !old(self)@.contexts.contains_key(h) && final(self)@ == old(self)@,
            },
    {
        proof {
            use_type_invariant(&*self);
            self.lemma_view();
        }
        let mut contexts = Arena::new(HandleKind::Context);
        core::mem::swap(&mut self.contexts, &mut contexts);
        let r = contexts.remove(h);
        self.contexts = contexts;
        proof {
            self.lemma_view();
            if r is Some {
                assert(final(self)@.spent =~= old(self)@.spent.insert(h));
            } else {
                assert(final(self)@.spent =~= old(self)@.spent);
                assert(final(self)@.contexts =~= old(self)@.contexts);
            }
        }
        r
    }

    /// The number of live contexts.
    pub fn live_contexts(&self) -> (n: usize)
        ensures
            self@.contexts.dom().finite(),
            n == self@.contexts.len(),
    {
        proof {
            use_type_invariant(self);
            self.lemma_view();
        }
        self.contexts.len()
    }

    /// Puts `context` in the place of the context that `h` owns and hands the
    /// previous one back. A handle that owns no context gets `context` back.
    pub(crate) fn swap_context(&mut self, h: ContextPtr, context: Context) -> (r: Result<
        Context,
        Context,
    >)
        ensures
            match r {
                Ok(previous) => old(self)@.contexts.contains_key(h) && previous
                    == old(self)@.contexts[h] && final(self)@ == (HeapModel {
                    contexts: old(self)@.contexts.insert(h, context),
                    ..old(self)@
                }),
                Err(rejected) => !old(self)@.contexts.contains_key(h) && rejected == context
                    && final(self)@ == old(self)@,
            },
    {
        proof {
            use_type_invariant(&*self);
            self.lemma_view();
        }
        let mut contexts = Arena::new(HandleKind::Context);
        core::mem::swap(&mut self.contexts, &mut contexts);
        let r = contexts.replace(h, context);
        self.contexts = contexts;
        proof {
            self.lemma_view();
            assert(final(self)@.spent =~= old(self)@.spent);
        }
        r
    }

    /// A handle owns at most one thing, of its own kind, and never after it
    /// has been released; the null handles own nothing and were never issued.
    pub proof fn law_handles(self, h: Handle)
        ensures
            self@.exprs.contains_key(h) ==> h.kind == HandleKind::Expression,
            self@.contexts.contains_key(h) ==> h.kind == HandleKind::Context,
            self@.values.contains_key(h) ==> h.kind == HandleKind::Value,
            !(self@.live(h) && self@.spent.contains(h)),
            self@.live(h) || self@.spent.contains(h) ==> h != Handle::spec_null(h.kind),
    {
        self.exprs.lemma_live_or_spent(h);
        self.contexts.lemma_live_or_spent(h);
        self.values.lemma_live_or_spent(h);
    }
}

} // verus!
