//! What holds of the operations together, proved from their contracts' own
//! terms.

use crate::cells::{
    bool_of, cell_model, copied_out, float_of, int_of, string_of, tuple_of, with_cell,
    without_cell, without_cells,
};
use crate::closure::settlement;
use crate::context::{binds, bound, without_context};
use crate::expression::{with_expr, without_expr, Expression};
use crate::handle::{ContextPtr, ExprPtr, Handle, ValuePtr};
use crate::heap::HeapModel;
use crate::transfer::{BoolOr, FloatOr, IntOr, ValuePtrOr};
use crate::value::{ValueCell, ValueKind, ValueModel};
use vstd::prelude::*;

verus! {

/// Parsing and then releasing the expression leaves the heap holding what it
/// held before: nothing stays behind but the record that the handle is spent.
pub proof fn law_parse_then_release(before: HeapModel, expr: ExprPtr, tree: Expression)
    requires
        before.fresh(expr),
    ensures
        without_expr(with_expr(before, expr, tree), expr) == (HeapModel {
            spent: before.spent.insert(expr),
            ..before
        }),
{
    let after = without_expr(with_expr(before, expr, tree), expr);
    assert(after.exprs =~= before.exprs);
}

/// Making a cell and then releasing it leaves the heap holding what it held
/// before.
pub proof fn law_make_then_release(before: HeapModel, ptr: ValuePtr, cell: ValueCell)
    requires
        before.fresh(ptr),
    ensures
        without_cell(with_cell(before, ptr, cell), ptr) == (HeapModel {
            spent: before.spent.insert(ptr),
            ..before
        }),
{
    let after = without_cell(with_cell(before, ptr, cell), ptr);
    assert(after.values =~= before.values);
}

/// After a cell was made, the getter of its kind answers with its payload and
/// ok, and every other getter answers with failure. An empty cell fails them
/// all.
pub proof fn law_make_then_get(before: HeapModel, ptr: ValuePtr, cell: ValueCell)
    ensures
        ({
            let made = cell_model(with_cell(before, ptr, cell), ptr);
            &&& made == Some(cell@)
            &&& match cell@ {
                ValueModel::Boolean(v) => bool_of(made) == (BoolOr { value: v, ok: true }),
                _ => bool_of(made) == BoolOr::failure(),
            }
            &&& match cell {
                ValueCell::Int(v) => int_of(made) == (IntOr { value: v, ok: true }),
                _ => int_of(made) == IntOr::failure(),
            }
            &&& match cell@ {
                ValueModel::Float(bits) => float_of(made) == (FloatOr { value: bits, ok: true }),
                _ => float_of(made) == FloatOr::failure(),
            }
            &&& match cell@ {
                ValueModel::String(text) => string_of(made) == Some(text),
                _ => string_of(made) is None,
            }
            &&& match cell@ {
                ValueModel::Tuple(items) => tuple_of(made) == Some(items),
                _ => tuple_of(made) is None,
            }
        }),
{
}

/// A handle is live from the call that issued it until its release, and
/// never again: once released it is spent, no getter finds a cell under it,
/// a second release changes nothing, and it is not fresh, so no later call
/// issues it.
pub proof fn law_release_is_final(before: HeapModel, ptr: ValuePtr, cell: ValueCell)
    requires
        before.fresh(ptr),
    ensures
        ({
            let made = with_cell(before, ptr, cell);
            let released = without_cell(made, ptr);
            &&& made.values.contains_key(ptr)
            &&& !made.spent.contains(ptr)
            &&& !released.values.contains_key(ptr)
            &&& released.spent.contains(ptr)
            &&& !released.fresh(ptr)
            &&& cell_model(released, ptr) is None
            &&& without_cell(released, ptr) == released
        }),
{
}

/// No operation on cells, expressions or contexts forgets a release: what was
/// spent before stays spent.
pub proof fn law_spent_is_kept(
    before: HeapModel,
    h: Handle,
    cell: ValueCell,
    tree: Expression,
    handles: Seq<Handle>,
)
    ensures
        before.spent.subset_of(with_cell(before, h, cell).spent),
        before.spent.subset_of(without_cell(before, h).spent),
        before.spent.subset_of(with_expr(before, h, tree).spent),
        before.spent.subset_of(without_expr(before, h).spent),
        before.spent.subset_of(without_context(before, h).spent),
        before.spent.subset_of(without_cells(before, handles).spent),
        forall|after: HeapModel| #[trigger]
            after.differs_in_context(before, h) ==> before.spent.subset_of(after.spent),
{
}

/// A binding that succeeded is what the context holds: the name is bound to
/// the new value, and every other name is bound as before.
pub proof fn law_binding_is_observed(
    before: HeapModel,
    after: HeapModel,
    ctx: ContextPtr,
    name: Seq<char>,
    value: ValueModel,
)
    requires
        bound(before, after, ctx, name, value),
    ensures
        after.variables(ctx).contains_key(name),
        after.variables(ctx)[name] == value,
        forall|other: Seq<char>|
            other != name ==> after.variables(ctx).contains_key(other) == before.variables(
                ctx,
            ).contains_key(other) && after.variables(ctx)[other] == before.variables(ctx)[other],
{
}

/// A binding touches one context only: every other context, every
/// expression and every cell is as before, and no handle changes hands.
pub proof fn law_binding_stays_in_its_context(
    before: HeapModel,
    after: HeapModel,
    ctx: ContextPtr,
    name: Seq<char>,
    value: ValueModel,
    other: ContextPtr,
)
    requires
        bound(before, after, ctx, name, value),
        other != ctx,
    ensures
        after.exprs == before.exprs,
        after.values == before.values,
        after.spent == before.spent,
        after.contexts.contains_key(other) == before.contexts.contains_key(other),
        after.contexts[other] == before.contexts[other],
{
}

/// Expressions and contexts live and end apart: releasing one of either
/// leaves every one of the other, and every cell, as it was.
pub proof fn law_lifetimes_are_independent(heap: HeapModel, expr: ExprPtr, ctx: ContextPtr)
    ensures
        without_expr(heap, expr).contexts == heap.contexts,
        without_expr(heap, expr).values == heap.values,
        without_context(heap, ctx).exprs == heap.exprs,
        without_context(heap, ctx).values == heap.values,
{
}

/// Of two bindings of one name the last one wins: the context is as if only
/// the second had been made.
pub proof fn law_last_write_wins(
    before: HeapModel,
    between: HeapModel,
    after: HeapModel,
    ctx: ContextPtr,
    name: Seq<char>,
    first: ValueModel,
    second: ValueModel,
)
    requires
        bound(before, between, ctx, name, first),
        bound(between, after, ctx, name, second),
    ensures
        after.variables(ctx)[name] == second,
        after.variables(ctx) == before.variables(ctx).insert(name, second),
        after.functions(ctx) == before.functions(ctx),
{
    assert(after.variables(ctx) =~= before.variables(ctx).insert(name, second));
}

/// Once a name is bound, it takes exactly the values of the kind of its
/// present one.
pub proof fn law_rebinding_keeps_kind(
    before: HeapModel,
    after: HeapModel,
    ctx: ContextPtr,
    name: Seq<char>,
    first: ValueModel,
    second: ValueModel,
)
    requires
        bound(before, after, ctx, name, first),
    ensures
        binds(after, ctx, name, second) == (first.kind() == second.kind()),
{
}

/// A host function that answers with failure fails the invocation, whatever
/// it left in the scratch heap and whatever handle its answer carries. One
/// that answers ok with the handle of a live cell of its own hands over
/// exactly that cell.
pub proof fn law_reply_decides(heap: HeapModel, arg: ValuePtr, reply: ValuePtrOr)
    ensures
        !reply.ok ==> settlement(heap, arg, reply) is None,
        reply.ok && reply.value != arg && heap.values.contains_key(reply.value) ==> settlement(
            heap,
            arg,
            reply,
        ) == Some(heap.values[reply.value]),
        reply.value == arg ==> settlement(heap, arg, reply) is None,
{
}

/// The handles that a tuple extraction hands out name cells that hold the
/// items, one for one and in order.
pub proof fn law_extracted_items(
    before: HeapModel,
    after: HeapModel,
    items: Seq<ValueModel>,
    handles: Seq<Handle>,
    i: int,
)
    requires
        copied_out(before, after, items, handles, items.len() as int),
        0 <= i < items.len(),
    ensures
        cell_model(after, handles[i]) == Some(items[i]),
        int_of(cell_model(after, handles[i])).ok == (items[i].kind() == ValueKind::Int),
        items[i] matches ValueModel::Int(v) ==> int_of(cell_model(after, handles[i])).value == v,
{
}

/// Releasing the buffer of a tuple extraction releases every cell that the
/// extraction made, each once, and nothing else: the heap holds what it held
/// before the extraction.
pub proof fn law_extract_then_release(
    before: HeapModel,
    after: HeapModel,
    items: Seq<ValueModel>,
    handles: Seq<Handle>,
)
    requires
        copied_out(before, after, items, handles, items.len() as int),
    ensures
        without_cells(after, handles) == (HeapModel {
            spent: before.spent.union(handles.to_set()),
            ..before
        }),
{
    let released = without_cells(after, handles);
    assert forall|h: Handle| handles.contains(h) implies after.values.contains_key(h) by {
        let k = choose|k: int| 0 <= k < handles.len() && handles[k] == h;
        assert(after.values.contains_key(handles[k]));
    }
    assert forall|h: Handle| handles.contains(h) implies !before.values.contains_key(h) by {
        let k = choose|k: int| 0 <= k < handles.len() && handles[k] == h;
        assert(before.fresh(handles[k]));
    }
    assert(released.values =~= before.values);
    assert(released.spent =~= before.spent.union(handles.to_set()));
}

} // verus!
