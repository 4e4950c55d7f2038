use crate::engine::{
    engine_boolean, engine_empty, engine_float, engine_int, engine_string, engine_tuple,
    engine_value, engine_values, value_as_boolean, value_as_float, value_as_int, value_as_string,
    value_as_tuple,
};
use crate::value::{models_of, ValueCell, ValueKind, ValueModel};
use vstd::prelude::*;

verus! {

/// Builds the engine's form of `cell`, nested items included.
pub fn to_engine(cell: &ValueCell) -> (value: evalexpr::Value)
    ensures
        engine_value(value) == cell@,
    decreases cell,
{
    match cell {
        ValueCell::Boolean(b) => engine_boolean(*b),
        ValueCell::Int(i) => engine_int(*i),
        ValueCell::Float(bits) => engine_float(*bits),
        ValueCell::String(s) => engine_string(s.clone()),
        ValueCell::Tuple(items) => {
            let mut values: Vec<evalexpr::Value> = Vec::new();
            let mut i: usize = 0;
            while i < items.len()
                invariant
                    *cell == ValueCell::Tuple(*items),
                    i <= items.len(),
                    values.len() == i,
                    forall|j: int| 0 <= j < i ==> engine_value(values[j]) == items[j]@,
                decreases items.len() - i,
            {
                assert(cell->Tuple_0 == *items);
                assert(decreases_to!(*cell => cell->Tuple_0));
                assert(decreases_to!(cell->Tuple_0 => cell->Tuple_0[i as int]));
                values.push(to_engine(&items[i]));
                i = i + 1;
            }
            proof {
                ValueCell::lemma_tuple_view(*items);
                assert(engine_values(values@) =~= models_of(items@));
            }
            engine_tuple(values)
        },
        ValueCell::Empty => engine_empty(),
    }
}

/// Reads an engine value into a cell of the library, nested items included.
pub fn from_engine(value: &evalexpr::Value) -> (cell: ValueCell)
    ensures
        cell@ == engine_value(*value),
    decreases engine_value(*value),
{
    if let Ok(b) = value_as_boolean(value) {
        return ValueCell::Boolean(b);
    }
    if let Ok(i) = value_as_int(value) {
        return ValueCell::Int(i);
    }
    if let Ok(bits) = value_as_float(value) {
        return ValueCell::Float(bits);
    }
    if let Ok(s) = value_as_string(value) {
        return ValueCell::String(s);
    }
    if let Ok(values) = value_as_tuple(value) {
        let mut items: Vec<ValueCell> = Vec::new();
        let mut i: usize = 0;
        while i < values.len()
            invariant
                engine_value(*value) == ValueModel::Tuple(engine_values(values@)),
                i <= values.len(),
                items.len() == i,
                forall|j: int| 0 <= j < i ==> items[j]@ == engine_value(values[j]),
            decreases values.len() - i,
        {
            proof {
                let model = engine_value(*value);
                assert(engine_values(values@)[i as int] == engine_value(values[i as int]));
                assert(decreases_to!(model => model->Tuple_0));
                assert(decreases_to!(model->Tuple_0 => model->Tuple_0[i as int]));
            }
            items.push(from_engine(&values[i]));
            i = i + 1;
        }
        proof {
            ValueCell::lemma_tuple_view(items);
            assert(models_of(items@) =~= engine_values(values@));
        }
        return ValueCell::Tuple(items);
    }
    assert(engine_value(*value).kind() == ValueKind::Empty);
    ValueCell::Empty
}

} // verus!
