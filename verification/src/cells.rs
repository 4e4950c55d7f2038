use crate::convert::to_engine;
use crate::engine::{value_debug, value_rendering};
use crate::handle::{Handle, HandleKind, ValuePtr};
use crate::heap::{Heap, HeapModel};
use crate::transfer::{
    BoolOr, BorrowedString, FloatOr, IntOr, OwnedString, StringOr, TupleOr, TupleSlice,
};
use crate::value::{ValueCell, ValueModel};
use vstd::prelude::*;

verus! {

/// The model of the cell that `ptr` owns, if it owns one.
pub open spec fn cell_model(heap: HeapModel, ptr: ValuePtr) -> Option<ValueModel> {
    if heap.values.contains_key(ptr) {
        Some(heap.values[ptr]@)
    } else {
        None
    }
}

/// The heap after a new cell that holds `cell` was given to `ptr`.
pub open spec fn with_cell(heap: HeapModel, ptr: ValuePtr, cell: ValueCell) -> HeapModel {
    HeapModel { values: heap.values.insert(ptr, cell), ..heap }
}

/// The heap after the cell that `ptr` owns, if any, was released.
pub open spec fn without_cell(heap: HeapModel, ptr: ValuePtr) -> HeapModel {
    if heap.values.contains_key(ptr) {
        HeapModel { values: heap.values.remove(ptr), spent: heap.spent.insert(ptr), ..heap }
    } else {
        heap
    }
}

/// Makes a cell that holds the boolean `v`. The caller owns the handle.
pub fn make_bool(heap: &mut Heap, v: bool) -> (ptr: ValuePtr)
    ensures
        old(heap)@.fresh(ptr),
        ptr.kind == HandleKind::Value,
        ptr != Handle::spec_null(HandleKind::Value),
        final(heap)@ == with_cell(old(heap)@, ptr, ValueCell::Boolean(v)),
{
    heap.put_value(ValueCell::Boolean(v))
}

/// Makes a cell that holds the integer `v`. The caller owns the handle.
pub fn make_int(heap: &mut Heap, v: i64) -> (ptr: ValuePtr)
    ensures
        old(heap)@.fresh(ptr),
        ptr.kind == HandleKind::Value,
        ptr != Handle::spec_null(HandleKind::Value),
        final(heap)@ == with_cell(old(heap)@, ptr, ValueCell::Int(v)),
{
    heap.put_value(ValueCell::Int(v))
}

/// Makes a cell that holds the float whose IEEE 754 encoding is `bits`. The
/// caller owns the handle.
pub fn make_float(heap: &mut Heap, bits: u64) -> (ptr: ValuePtr)
    ensures
        old(heap)@.fresh(ptr),
        ptr.kind == HandleKind::Value,
        ptr != Handle::spec_null(HandleKind::Value),
        final(heap)@ == with_cell(old(heap)@, ptr, ValueCell::Float(bits)),
{
    heap.put_value(ValueCell::Float(bits))
}

/// Makes a cell that holds a copy of the string `v`. The caller owns the
/// handle.
pub fn make_string(heap: &mut Heap, v: BorrowedString) -> (ptr: ValuePtr)
    ensures
        old(heap)@.fresh(ptr),
        ptr.kind == HandleKind::Value,
        ptr != Handle::spec_null(HandleKind::Value),
        final(heap)@.values.contains_key(ptr),
        final(heap)@.values[ptr]@ == ValueModel::String(v@),
        final(heap)@ == with_cell(old(heap)@, ptr, final(heap)@.values[ptr]),
{
    heap.put_value(ValueCell::String(v.into_string()))
}

/// Releases the cell that `v` owns. A handle that owns no cell releases
/// nothing.
pub fn drop_value(heap: &mut Heap, v: ValuePtr)
    ensures
        final(heap)@ == without_cell(old(heap)@, v),
{
    let _ = heap.take_value(v);
}

/// What `get_bool` answers for a cell of the given model, or for no cell.
pub open spec fn bool_of(cell: Option<ValueModel>) -> BoolOr {
    match cell {
        Some(ValueModel::Boolean(value)) => BoolOr { value, ok: true },
        _ => BoolOr::failure(),
    }
}

/// What `get_int` answers for a cell of the given model, or for no cell.
pub open spec fn int_of(cell: Option<ValueModel>) -> IntOr {
    match cell {
        Some(ValueModel::Int(value)) => IntOr { value: value as i64, ok: true },
        _ => IntOr::failure(),
    }
}

/// What `get_float` answers for a cell of the given model, or for no cell.
pub open spec fn float_of(cell: Option<ValueModel>) -> FloatOr {
    match cell {
        Some(ValueModel::Float(value)) => FloatOr { value, ok: true },
        _ => FloatOr::failure(),
    }
}

/// The text that `get_string` answers with for a cell of the given model, or
/// for no cell: `None` stands for failure.
pub open spec fn string_of(cell: Option<ValueModel>) -> Option<Seq<char>> {
    match cell {
        Some(ValueModel::String(text)) => Some(text),
        _ => None,
    }
}

/// The items that `get_tuple` copies for a cell of the given model, or for no
/// cell: `None` stands for failure.
pub open spec fn tuple_of(cell: Option<ValueModel>) -> Option<Seq<ValueModel>> {
    match cell {
        Some(ValueModel::Tuple(items)) => Some(items),
        _ => None,
    }
}

/// Reads the boolean in the cell that `ptr` owns. Fails if `ptr` owns no cell
/// or the cell holds no boolean.
pub fn get_bool(heap: &Heap, ptr: ValuePtr) -> (r: BoolOr)
    ensures
        r == bool_of(cell_model(heap@, ptr)),
{
    match heap.value(ptr) {
        Some(ValueCell::Boolean(value)) => BoolOr::from(*value),
        _ => BoolOr::default(),
    }
}

/// Reads the integer in the cell that `ptr` owns. Fails if `ptr` owns no cell
/// or the cell holds no integer.
pub fn get_int(heap: &Heap, ptr: ValuePtr) -> (r: IntOr)
    ensures
        r == int_of(cell_model(heap@, ptr)),
{
    match heap.value(ptr) {
        Some(ValueCell::Int(value)) => IntOr::from(*value),
        _ => IntOr::default(),
    }
}

/// Reads the float in the cell that `ptr` owns, as the bits of its encoding.
/// Fails if `ptr` owns no cell or the cell holds no float: an integer is no
/// float.
pub fn get_float(heap: &Heap, ptr: ValuePtr) -> (r: FloatOr)
    ensures
        r == float_of(cell_model(heap@, ptr)),
{
    match heap.value(ptr) {
        Some(ValueCell::Float(bits)) => FloatOr::from(*bits),
        _ => FloatOr::default(),
    }
}

/// Copies the string in the cell that `ptr` owns. The caller owns the copy.
/// Fails, with the empty string, if `ptr` owns no cell or the cell holds no
/// string.
pub fn get_string(heap: &Heap, ptr: ValuePtr) -> (r: StringOr)
    ensures
        r.ok == string_of(cell_model(heap@, ptr)) is Some,
        r.value@ == (match string_of(cell_model(heap@, ptr)) {
            Some(text) => text,
            None => Seq::<char>::empty(),
        }),
{
    match heap.value(ptr) {
        Some(ValueCell::String(text)) => StringOr::from(text.clone()),
        _ => StringOr::default(),
    }
}

/// Whether `after` is `before` with one new cell for each of the first `n`
/// items, each under a fresh handle of `handles`, in order, and nothing else
/// changed.
pub open spec fn copied_out(
    before: HeapModel,
    after: HeapModel,
    items: Seq<ValueModel>,
    handles: Seq<Handle>,
    n: int,
) -> bool {
    &&& handles.len() == n
    &&& n <= items.len()
    &&& after.exprs == before.exprs
    &&& after.contexts == before.contexts
    &&& after.spent == before.spent
    &&& forall|i: int| 0 <= i < n ==> before.fresh(#[trigger] handles[i])
    &&& forall|i: int, j: int| 0 <= i < j < n ==> handles[i] != handles[j]
    &&& forall|i: int|
        0 <= i < n ==> after.values.contains_key(#[trigger] handles[i])
            && after.values[handles[i]]@ == items[i]
    &&& forall|h: Handle| #[trigger]
        before.values.contains_key(h) ==> after.values.contains_key(h) && after.values[h]
            == before.values[h]
    &&& forall|h: Handle| #[trigger]
        after.values.contains_key(h) ==> before.values.contains_key(h) || handles.contains(h)
}

/// Copies the items of the tuple in the cell that `ptr` owns into new cells,
/// one for each item, and hands out their handles in the order of the items.
/// The caller owns the buffer and with it every new cell; the tuple stays as
/// it was. Fails, with the empty buffer and the heap unchanged, if `ptr` owns
/// no cell or the cell holds no tuple.
pub fn get_tuple(heap: &mut Heap, ptr: ValuePtr) -> (r: TupleOr)
    ensures
        r.ok == tuple_of(cell_model(old(heap)@, ptr)) is Some,
        match tuple_of(cell_model(old(heap)@, ptr)) {
            Some(items) => copied_out(
                old(heap)@,
                final(heap)@,
                items,
                r.value@,
                items.len() as int,
            ),
            None => r.value@ == Seq::<Handle>::empty() && final(heap)@ == old(heap)@,
        },
{
    let count = match heap.value(ptr) {
        Some(ValueCell::Tuple(items)) => items.len(),
        _ => {
            return TupleOr::default();
        },
    };
    let ghost items = old(heap)@.values[ptr]@->Tuple_0;
    let mut handles: Vec<ValuePtr> = Vec::new();
    let mut i: usize = 0;
    proof {
        ValueCell::lemma_tuple_view(old(heap)@.values[ptr]->Tuple_0);
    }
    while i < count
        invariant
            old(heap)@.values.contains_key(ptr),
            old(heap)@.values[ptr]@ == ValueModel::Tuple(items),
            count == items.len(),
            i <= count,
            copied_out(old(heap)@, heap@, items, handles@, i as int),
        decreases count - i,
    {
        let ghost before = heap@;
        let ghost issued = handles@;
        let copy = match heap.value(ptr) {
            Some(ValueCell::Tuple(source)) => {
                proof {
                    ValueCell::lemma_tuple_view(*source);
                }
                source[i].duplicate()
            },
            _ => ValueCell::Empty,
        };
        assert(copy@ == items[i as int]);
        let h = heap.put_value(copy);
        handles.push(h);
        i = i + 1;
        proof {
            let after = heap@;
            assert forall|k: int| 0 <= k < i implies old(heap)@.fresh(#[trigger] handles@[k]) by {
                if k < i - 1 {
                    assert(handles@[k] == issued[k]);
                }
            }
            assert forall|k: int, j: int| 0 <= k < j < i implies handles@[k] != handles@[j] by {
                assert(handles@[k] == issued[k]);
                assert(before.values.contains_key(issued[k]));
                if j < i - 1 {
                    assert(handles@[j] == issued[j]);
                }
            }
            assert forall|k: int| 0 <= k < i implies after.values.contains_key(
                #[trigger] handles@[k],
            ) && after.values[handles@[k]]@ == items[k] by {
                if k < i - 1 {
                    assert(handles@[k] == issued[k]);
                    assert(before.values.contains_key(issued[k]));
                }
            }
            assert forall|x: Handle| #[trigger] after.values.contains_key(x) implies old(
                heap,
            )@.values.contains_key(x) || handles@.contains(x) by {
                if x == h {
                    assert(handles@[i - 1] == h);
                } else {
                    assert(before.values.contains_key(x));
                    if !old(heap)@.values.contains_key(x) {
                        let k = choose|k: int| 0 <= k < issued.len() && issued[k] == x;
                        assert(handles@[k] == x);
                    }
                }
            }
        }
    }
    TupleOr::from(handles)
}

/// The heap after every cell that a handle of `handles` owns was released.
pub open spec fn without_cells(heap: HeapModel, handles: Seq<Handle>) -> HeapModel {
    HeapModel {
        values: heap.values.remove_keys(handles.to_set()),
        spent: heap.spent.union(handles.to_set().intersect(heap.values.dom())),
        ..heap
    }
}

/// Releases a tuple buffer: every cell that one of its handles owns is
/// released, once. A handle that owns no cell, or that occurs a second time,
/// releases nothing.
pub fn drop_tuple_slice(heap: &mut Heap, t: TupleSlice)
    ensures
        final(heap)@ == without_cells(old(heap)@, t@),
{
    let handles = t.into_vec();
    let mut i: usize = 0;
    assert(heap@ == without_cells(old(heap)@, handles@.take(0))) by {
        assert(handles@.take(0).to_set() =~= Set::<Handle>::empty());
        assert(heap@.values =~= without_cells(old(heap)@, handles@.take(0)).values);
        assert(heap@.spent =~= without_cells(old(heap)@, handles@.take(0)).spent);
    }
    while i < handles.len()
        invariant
            i <= handles.len(),
            heap@ == without_cells(old(heap)@, handles@.take(i as int)),
        decreases handles.len() - i,
    {
        let ghost before = heap@;
        drop_value(heap, handles[i]);
        proof {
            let done = handles@.take(i as int);
            let next = handles@.take(i + 1);
            let h = handles@[i as int];
            assert(next == done.push(h));
            assert(next.to_set() =~= done.to_set().insert(h)) by {
                assert forall|x: Handle| next.to_set().contains(x) == done.to_set().insert(
                    h,
                ).contains(x) by {
                    if done.contains(x) {
                        let k = choose|k: int| 0 <= k < done.len() && done[k] == x;
                        assert(next[k] == x);
                    }
                    if x == h {
                        assert(next[i as int] == h);
                    }
                    if next.contains(x) {
                        let k = choose|k: int| 0 <= k < next.len() && next[k] == x;
                        if k < i {
                            assert(done[k] == x);
                        }
                    }
                }
            }
            let target = without_cells(old(heap)@, next);
            assert(heap@.values =~= target.values);
            assert(heap@.spent =~= target.spent);
        }
        i = i + 1;
    }
    assert(handles@.take(i as int) == handles@);
}

/// Releases an owned string. Nothing of the heap is involved: the buffer is
/// the caller's alone, and giving it here ends it.
pub fn drop_string_view(s: OwnedString) {
    let _ = s.into_string();
}

/// What `value_debug_string` answers: the engine's rendering of the value
/// in the cell that `val` owns, or the empty string where it owns none.
pub open spec fn cell_rendering(heap: HeapModel, val: ValuePtr) -> Seq<char> {
    match cell_model(heap, val) {
        Some(value) => value_rendering(value),
        None => Seq::empty(),
    }
}

/// Renders the cell that `val` owns for a human reader, in the engine's
/// `Debug` form. The caller owns the text. A handle that owns no cell gives
/// the empty string.
pub fn value_debug_string(heap: &Heap, val: ValuePtr) -> (text: OwnedString)
    ensures
        text@ == cell_rendering(heap@, val),
{
    match heap.value(val) {
        Some(cell) => OwnedString::from(value_debug(&to_engine(cell))),
        None => OwnedString::default(),
    }
}

} // verus!
