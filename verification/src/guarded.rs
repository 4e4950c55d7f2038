//! The engine's own functions that abort on some arguments, made safe.
//!
//! The engine asks a context for a function before it turns to its own, so
//! each of these is bound in every new context under the engine's name for
//! it. Each does what the engine's function does, and gives an error on the
//! arguments on which the engine's would abort.

use crate::convert::{from_engine, to_engine};
use crate::engine::{custom_error, engine_value};
use crate::value::{ValueCell, ValueModel};
use evalexpr::EvalexprError;
use vstd::prelude::*;
use vstd::string::StringSliceAdditionalSpecFns;
use vstd::utf8::{
    decode_utf8, encode_utf8, encode_utf8_decode_utf8, encode_utf8_valid_utf8, is_char_boundary,
    is_char_boundary_iff_not_is_continuation_byte, is_char_boundary_start_end_of_seq,
};

verus! {

/// One of the functions that the library binds in the engine's place.
#[derive(Clone, Copy, Debug, PartialEq, Eq, Structural)]
pub enum Guarded {
    /// `shl`: the left shift of an integer.
    ShiftLeft,
    /// `shr`: the right shift of an integer.
    ShiftRight,
    /// `math::abs`: the absolute value of a number.
    Absolute,
    /// `str::substring`: the part of a string between two byte offsets.
    Substring,
}

impl Guarded {
    /// The name under which the engine knows the function.
    pub open spec fn name(self) -> Seq<char> {
        match self {
            Guarded::ShiftLeft => "shl"@,
            Guarded::ShiftRight => "shr"@,
            Guarded::Absolute => "math::abs"@,
            Guarded::Substring => "str::substring"@,
        }
    }

    /// The name under which the engine knows the function.
    pub fn engine_name(self) -> (name: String)
        ensures
            name@ == self.name(),
    {
        match self {
            Guarded::ShiftLeft => "shl".to_owned(),
            Guarded::ShiftRight => "shr".to_owned(),
            Guarded::Absolute => "math::abs".to_owned(),
            Guarded::Substring => "str::substring".to_owned(),
        }
    }
}

/// The left shift of a 64-bit integer in two's complement: the bits that
/// leave at the top are lost.
pub open spec fn shifted_left(a: i64, count: i64) -> i64 {
    ((a as u64) << (count as u64)) as i64
}

/// The right shift of a 64-bit integer in two's complement: the sign fills
/// in from the top.
pub open spec fn shifted_right(a: i64, count: i64) -> i64 {
    a >> count
}

/// The two integers of a shift: the argument is a tuple of exactly these.
pub open spec fn shift_operands(argument: ValueModel) -> Option<(i64, i64)> {
    match argument {
        ValueModel::Tuple(items) => if items.len() == 2 && items[0] is Int && items[1] is Int {
            Some((items[0]->Int_0 as i64, items[1]->Int_0 as i64))
        } else {
            None
        },
        _ => None,
    }
}

/// What a shift gives: the shifted integer for a count from 0 to 63, and
/// nothing for any other count or argument.
pub open spec fn shift_result(left: bool, argument: ValueModel) -> Option<ValueModel> {
    match shift_operands(argument) {
        Some((a, count)) => if 0 <= count < 64 {
            Some(
                ValueModel::Int(
                    if left {
                        shifted_left(a, count) as int
                    } else {
                        shifted_right(a, count) as int
                    },
                ),
            )
        } else {
            None
        },
        None => None,
    }
}

/// What the absolute value gives: a float with its sign bit cleared, an
/// integer without its sign, and nothing for the least integer, which has no
/// counterpart, or for an argument that is no number.
pub open spec fn absolute_result(argument: ValueModel) -> Option<ValueModel> {
    match argument {
        ValueModel::Float(bits) => Some(ValueModel::Float(bits & 0x7fff_ffff_ffff_ffff)),
        ValueModel::Int(v) => if v == i64::MIN {
            None
        } else if v < 0 {
            Some(ValueModel::Int(-v))
        } else {
            Some(ValueModel::Int(v))
        },
        _ => None,
    }
}

/// What a cut of `subject` from byte `start` up to byte `end` gives: the text
/// between the two, where both lie within the string, in order, and between
/// characters; nothing otherwise.
pub open spec fn cut_result(subject: Seq<char>, start: int, end: int) -> Option<Seq<char>> {
    let bytes = encode_utf8(subject);
    if 0 <= start <= end <= bytes.len() && is_char_boundary(bytes, start) && is_char_boundary(
        bytes,
        end,
    ) {
        Some(decode_utf8(bytes.subrange(start, end)))
    } else {
        None
    }
}

/// What a substring gives. The argument is a tuple of a string, a start and,
/// if there is a third item, an end; without one the end is the end of the
/// string. Offsets count bytes.
pub open spec fn substring_result(argument: ValueModel) -> Option<ValueModel> {
    match argument {
        ValueModel::Tuple(items) => if (items.len() == 2 || items.len() == 3)
            && items[0] is String && items[1] is Int && (items.len() == 3 ==> items[2] is Int) {
            let subject = items[0]->String_0;
            let end = if items.len() == 3 {
                items[2]->Int_0
            } else {
                encode_utf8(subject).len() as int
            };
            match cut_result(subject, items[1]->Int_0, end) {
                Some(text) => Some(ValueModel::String(text)),
                None => None,
            }
        } else {
            None
        },
        _ => None,
    }
}

/// What the function gives for an argument: a value, or nothing where it
/// gives an error.
pub open spec fn guarded_result(which: Guarded, argument: ValueModel) -> Option<ValueModel> {
    match which {
        Guarded::ShiftLeft => shift_result(true, argument),
        Guarded::ShiftRight => shift_result(false, argument),
        Guarded::Absolute => absolute_result(argument),
        Guarded::Substring => substring_result(argument),
    }
}

/// The model of what `apply` answers with.
pub open spec fn model_of_answer(answer: Option<ValueCell>) -> Option<ValueModel> {
    match answer {
        Some(cell) => Some(cell@),
        None => None,
    }
}

fn shift(left: bool, argument: &ValueCell) -> (r: Option<ValueCell>)
    ensures
        model_of_answer(r) == shift_result(left, argument@),
{
    match argument {
        ValueCell::Tuple(items) => {
            proof {
                ValueCell::lemma_tuple_view(*items);
            }
            if items.len() != 2 {
                return None;
            }
            match (&items[0], &items[1]) {
                (ValueCell::Int(a), ValueCell::Int(count)) => {
                    if 0 <= *count && *count < 64 {
                        if left {
                            Some(
                                ValueCell::Int(
                                    ((#[verifier::truncate] (*a as u64)) << (*count as u64)) as i64,
                                ),
                            )
                        } else {
                            Some(ValueCell::Int(*a >> *count))
                        }
                    } else {
                        None
                    }
                },
                _ => None,
            }
        },
        _ => None,
    }
}

fn absolute(argument: &ValueCell) -> (r: Option<ValueCell>)
    ensures
        model_of_answer(r) == absolute_result(argument@),
{
    match argument {
        ValueCell::Float(bits) => Some(ValueCell::Float(*bits & 0x7fff_ffff_ffff_ffff)),
        ValueCell::Int(v) => {
            if *v == i64::MIN {
                None
            } else if *v < 0 {
                Some(ValueCell::Int(-*v))
            } else {
                Some(ValueCell::Int(*v))
            }
        },
        _ => None,
    }
}

/// The end of a cut: the offset given, or the length of the string in bytes
/// where none is given.
pub open spec fn cut_end(subject: Seq<char>, end: Option<i64>) -> int {
    match end {
        Some(end) => end as int,
        None => encode_utf8(subject).len() as int,
    }
}

/// Cuts `subject` from byte `start` up to byte `end`, or up to its end where
/// no `end` is given.
pub fn cut(subject: &str, start: i64, end: Option<i64>) -> (r: Option<String>)
    ensures
        match cut_result(subject@, start as int, cut_end(subject@, end)) {
            Some(text) => r is Some && r->0@ == text,
            None => r is None,
        },
{
    let len = subject.as_bytes().len();
    if start < 0 {
        return None;
    }
    let to: usize = match end {
        Some(end) => {
            if end < 0 || end as u64 > len as u64 {
                return None;
            }
            end as usize
        },
        None => len,
    };
    if start as u64 > to as u64 {
        return None;
    }
    let from = start as usize;
    if !subject.is_char_boundary(from) || !subject.is_char_boundary(to) {
        return None;
    }
    let (head, _) = subject.split_at(to);
    proof {
        let bytes = subject.spec_bytes();
        let kept = head.spec_bytes();
        encode_utf8_valid_utf8(subject@);
        encode_utf8_valid_utf8(head@);
        assert(kept == bytes.subrange(0, to as int));
        if from < to {
            is_char_boundary_iff_not_is_continuation_byte(bytes, from as int);
            is_char_boundary_iff_not_is_continuation_byte(kept, from as int);
        } else {
            is_char_boundary_start_end_of_seq(kept);
        }
    }
    let (_, tail) = head.split_at(from);
    proof {
        encode_utf8_decode_utf8(tail@);
        assert(tail.spec_bytes() =~= subject.spec_bytes().subrange(from as int, to as int));
    }
    Some(tail.to_owned())
}

fn substring(argument: &ValueCell) -> (r: Option<ValueCell>)
    ensures
        model_of_answer(r) == substring_result(argument@),
{
    match argument {
        ValueCell::Tuple(items) => {
            proof {
                ValueCell::lemma_tuple_view(*items);
            }
            if items.len() != 2 && items.len() != 3 {
                return None;
            }
            let subject = match &items[0] {
                ValueCell::String(subject) => subject,
                _ => {
                    return None;
                },
            };
            let start = match &items[1] {
                ValueCell::Int(start) => *start,
                _ => {
                    return None;
                },
            };
            let end = if items.len() == 3 {
                match &items[2] {
                    ValueCell::Int(end) => Some(*end),
                    _ => {
                        return None;
                    },
                }
            } else {
                None
            };
            match cut(subject.as_str(), start, end) {
                Some(text) => Some(ValueCell::String(text)),
                None => None,
            }
        },
        _ => None,
    }
}

/// Applies the function to `argument`.
pub fn apply(which: Guarded, argument: &ValueCell) -> (r: Option<ValueCell>)
    ensures
        model_of_answer(r) == guarded_result(which, argument@),
{
    match which {
        Guarded::ShiftLeft => shift(true, argument),
        Guarded::ShiftRight => shift(false, argument),
        Guarded::Absolute => absolute(argument),
        Guarded::Substring => substring(argument),
    }
}

/// The function as the engine calls it: reads the engine's argument, applies
/// the function, and hands the engine the value, or an error where there is
/// none.
pub fn guarded_call(which: Guarded, argument: &evalexpr::Value) -> (r: Result<
    evalexpr::Value,
    EvalexprError,
>)
    ensures
        match guarded_result(which, engine_value(*argument)) {
            Some(value) => r is Ok && engine_value(r->Ok_0) == value,
            None => r is Err,
        },
{
    match apply(which, &from_engine(argument)) {
        Some(cell) => Ok(to_engine(&cell)),
        None => Err(custom_error("argument out of range")),
    }
}

} // verus!
