use crate::context::Context;
use crate::convert::{from_engine, to_engine};
use crate::engine::{custom_error, engine_value};
use crate::expression::Expression;
use crate::handle::ValuePtr;
use crate::heap::{Heap, HeapModel};
use crate::transfer::ValuePtrOr;
use crate::value::{ValueCell, ValueModel};
use evalexpr::EvalexprError;
use vstd::prelude::*;

verus! {

/// An opaque token of the host's. The library copies it and hands it back
/// with every invocation; it never reads anything into it.
#[derive(Clone, Copy, Debug, PartialEq, Eq, Structural)]
pub struct Capture {
    pub addr: usize,
}

/// A function that the host implements and expressions call by name.
pub trait HostFunction {
    /// Called once for every call that the engine evaluates, on the thread
    /// of the evaluation. `heap` is a scratch heap that holds the argument in
    /// the cell of `arg` and nothing else; `capture` is the token that was
    /// registered with the function.
    ///
    /// The argument is lent: the answer must not name `arg`. An answer that
    /// is ok names a cell that the function made in `heap`; the cell then
    /// belongs to the caller. Whatever else the function leaves in `heap`
    /// ends with the call.
    fn call(&self, heap: &mut Heap, arg: ValuePtr, capture: Capture) -> ValuePtrOr;
}

/// A host function, with the token it is to be called with.
pub struct Closure<F> {
    pub ptr: F,
    pub capture: Capture,
}

impl<F: Clone> Clone for Closure<F> {
    fn clone(&self) -> Self {
        Closure { ptr: self.ptr.clone(), capture: self.capture }
    }
}

/// The one failure of an invocation. Whatever went wrong on the host's side,
/// this is all that the engine gets to see.
#[derive(Clone, Copy, Debug, PartialEq, Eq, Structural)]
pub struct InvocationFailed;

/// The heap that an invocation starts on: `argument` in the cell that `arg`
/// owns, and nothing else.
pub open spec fn lends(heap: HeapModel, arg: ValuePtr, argument: ValueModel) -> bool {
    &&& heap.exprs == Map::<ValuePtr, Expression>::empty()
    &&& heap.contexts == Map::<ValuePtr, Context>::empty()
    &&& heap.values.dom() == set![arg]
    &&& heap.values[arg]@ == argument
    &&& heap.spent == Set::<ValuePtr>::empty()
}

/// What a reply comes to, given the heap as the host left it: the cell that
/// the reply names, if the reply is ok and names a live cell other than the
/// argument's.
pub open spec fn settlement(heap: HeapModel, arg: ValuePtr, reply: ValuePtrOr) -> Option<
    ValueCell,
> {
    if reply.ok && reply.value != arg && heap.values.contains_key(reply.value) {
        Some(heap.values[reply.value])
    } else {
        None
    }
}

/// Settles the reply of a host function: takes the cell that the reply names
/// out of the heap, consuming its handle, or fails and leaves the heap as it
/// is. The argument's cell is lent, so a reply that names it fails.
pub fn settle(heap: &mut Heap, arg: ValuePtr, reply: ValuePtrOr) -> (r: Result<
    ValueCell,
    InvocationFailed,
>)
    ensures
        r.ok() == settlement(old(heap)@, arg, reply),
        r is Ok ==> final(heap)@ == (HeapModel {
            values: old(heap)@.values.remove(reply.value),
            spent: old(heap)@.spent.insert(reply.value),
            ..old(heap)@
        }),
        r is Err ==> final(heap)@ == old(heap)@,
{
    if !reply.ok || reply.value == arg {
        return Err(InvocationFailed);
    }
    match heap.take_value(reply.value) {
        Some(cell) => Ok(cell),
        None => Err(InvocationFailed),
    }
}

/// Calls the host function on `argument`: lends it in a scratch heap of its
/// own, calls, and settles the reply. The scratch heap ends with the call, and
/// with it whatever the host left there.
pub fn invoke<F>(closure: &Closure<F>, argument: ValueCell) -> (r: Result<
    ValueCell,
    InvocationFailed,
>) where F: HostFunction
    ensures
        exists|scratch: &mut Heap, arg: ValuePtr, reply: ValuePtrOr|
            lends((*scratch)@, arg, argument@) && #[trigger] call_ensures(
                F::call,
                (&closure.ptr, scratch, arg, closure.capture),
                reply,
            ) && r.ok() == settlement((*final(scratch))@, arg, reply),
{
    let mut scratch = Heap::new();
    let arg = scratch.put_value(argument);
    assert(scratch@.values.dom() =~= set![arg]);
    let reply = closure.ptr.call(&mut scratch, arg, closure.capture);
    settle(&mut scratch, arg, reply)
}

/// The function that the engine calls in the host function's place: reads
/// the engine's argument, invokes the host function, and hands the engine
/// the value that the host made, or the one generic error.
pub fn bridge<F>(closure: &Closure<F>, argument: &evalexpr::Value) -> (r: Result<
    evalexpr::Value,
    EvalexprError,
>) where F: HostFunction
    ensures
        exists|scratch: &mut Heap, arg: ValuePtr, reply: ValuePtrOr|
            lends((*scratch)@, arg, engine_value(*argument)) && #[trigger] call_ensures(
                F::call,
                (&closure.ptr, scratch, arg, closure.capture),
                reply,
            ) && match settlement((*final(scratch))@, arg, reply) {
                Some(cell) => r is Ok && engine_value(r->Ok_0) == cell@,
                None => r is Err,
            },
{
    match invoke(closure, from_engine(argument)) {
        Ok(cell) => Ok(to_engine(&cell)),
        Err(_) => Err(custom_error("failed to invoke function")),
    }
}

} // verus!
