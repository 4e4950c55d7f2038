use vstd::prelude::*;

verus! {

/// The variant of a value, without its payload.
#[derive(Clone, Copy, Debug, PartialEq, Eq, Structural)]
pub enum ValueKind {
    Boolean,
    Int,
    Float,
    String,
    Tuple,
    Empty,
}

/// What a value is, as mathematics: the model that contracts speak of.
///
/// A float is modelled by the 64 bits of its IEEE 754 encoding: the library
/// carries floats across the boundary and never computes with them.
pub ghost enum ValueModel {
    Boolean(bool),
    Int(int),
    Float(u64),
    String(Seq<char>),
    Tuple(Seq<ValueModel>),
    Empty,
}

impl ValueModel {
    /// The variant of this value.
    pub open spec fn kind(self) -> ValueKind {
        match self {
            ValueModel::Boolean(_) => ValueKind::Boolean,
            ValueModel::Int(_) => ValueKind::Int,
            ValueModel::Float(_) => ValueKind::Float,
            ValueModel::String(_) => ValueKind::String,
            ValueModel::Tuple(_) => ValueKind::Tuple,
            ValueModel::Empty => ValueKind::Empty,
        }
    }
}

/// The payload of one value cell.
#[derive(Debug)]
pub enum ValueCell {
    Boolean(bool),
    Int(i64),
    /// The bits of an IEEE 754 double.
    Float(u64),
    String(String),
    Tuple(Vec<ValueCell>),
    Empty,
}

/// The model of a cell: its payload, with nested items modelled in turn.
pub open spec fn model_of(cell: ValueCell) -> ValueModel
    decreases cell,
{
    match cell {
        ValueCell::Boolean(b) => ValueModel::Boolean(b),
        ValueCell::Int(i) => ValueModel::Int(i as int),
        ValueCell::Float(bits) => ValueModel::Float(bits),
        ValueCell::String(s) => ValueModel::String(s@),
        ValueCell::Tuple(items) => ValueModel::Tuple(
            Seq::new(
                items.len() as nat,
                |i: int|
                    if 0 <= i < items.len() {
                        model_of(items[i])
                    } else {
                        ValueModel::Empty
                    },
            ),
        ),
        ValueCell::Empty => ValueModel::Empty,
    }
}

impl View for ValueCell {
    type V = ValueModel;

    open spec fn view(&self) -> ValueModel {
        model_of(*self)
    }
}

/// The models of the cells of `items`, in order.
pub open spec fn models_of(items: Seq<ValueCell>) -> Seq<ValueModel> {
    Seq::new(items.len(), |i: int| items[i]@)
}

impl ValueCell {
    /// A tuple cell is modelled by the models of its items.
    pub proof fn lemma_tuple_view(items: Vec<ValueCell>)
        ensures
            ValueCell::Tuple(items)@ == ValueModel::Tuple(models_of(items@)),
    {
        let cell = ValueCell::Tuple(items);
        assert(items.len() == items@.len());
        assert(cell@ is Tuple);
        assert(cell@->Tuple_0.len() == items@.len());
        assert forall|i: int| 0 <= i < items@.len() implies cell@->Tuple_0[i] == models_of(
            items@,
        )[i] by {}
        assert(cell@->Tuple_0 =~= models_of(items@));
    }

    /// The variant of this cell.
    pub fn kind(&self) -> (k: ValueKind)
        ensures
            k == self@.kind(),
    {
        match self {
            ValueCell::Boolean(_) => ValueKind::Boolean,
            ValueCell::Int(_) => ValueKind::Int,
            ValueCell::Float(_) => ValueKind::Float,
            ValueCell::String(_) => ValueKind::String,
            ValueCell::Tuple(_) => ValueKind::Tuple,
            ValueCell::Empty => ValueKind::Empty,
        }
    }

    /// Makes an independent copy of this cell, nested items included.
    pub fn duplicate(&self) -> (copy: ValueCell)
        ensures
            copy@ == self@,
        decreases self,
    {
        match self {
            ValueCell::Boolean(b) => ValueCell::Boolean(*b),
            ValueCell::Int(i) => ValueCell::Int(*i),
            ValueCell::Float(bits) => ValueCell::Float(*bits),
            ValueCell::String(s) => ValueCell::String(s.clone()),
            ValueCell::Tuple(items) => {
                let mut copies: Vec<ValueCell> = Vec::new();
                let mut i: usize = 0;
                while i < items.len()
                    invariant
                        *self == ValueCell::Tuple(*items),
                        i <= items.len(),
                        copies.len() == i,
                        forall|j: int| 0 <= j < i ==> copies[j]@ == items[j]@,
                    decreases items.len() - i,
                {
                    assert(self->Tuple_0 == *items);
                    assert(decreases_to!(*self => self->Tuple_0));
                    assert(decreases_to!(self->Tuple_0 => self->Tuple_0[i as int]));
                    copies.push(items[i].duplicate());
                    i = i + 1;
                }
                proof {
                    ValueCell::lemma_tuple_view(copies);
                    ValueCell::lemma_tuple_view(*items);
                    assert(models_of(copies@) =~= models_of(items@));
                }
                ValueCell::Tuple(copies)
            },
            ValueCell::Empty => ValueCell::Empty,
        }
    }
}

} // verus!
