use crate::handle::{ExprPtr, Handle, HandleKind, ValuePtr};
use vstd::prelude::*;
use vstd::std_specs::convert::FromSpecImpl;

verus! {

/// A string that the caller lends for the length of one call.
#[derive(Clone, Copy, Debug)]
pub struct BorrowedString<'a> {
    pub text: &'a str,
}

impl<'a> View for BorrowedString<'a> {
    type V = Seq<char>;

    open spec fn view(&self) -> Seq<char> {
        self.text@
    }
}

impl<'a> BorrowedString<'a> {
    /// Lends `text`.
    pub fn new(text: &'a str) -> (s: Self)
        ensures
            s@ == text@,
    {
        BorrowedString { text }
    }

    /// The text that was lent.
    pub fn as_str(&self) -> (text: &'a str)
        ensures
            text@ == self@,
    {
        self.text
    }

    /// An owned copy of the text.
    pub fn into_string(self) -> (text: String)
        ensures
            text@ == self@,
    {
        self.text.to_owned()
    }
}

/// A string whose ownership moves to the receiver.
#[derive(Debug)]
pub struct OwnedString {
    pub buffer: String,
}

impl View for OwnedString {
    type V = Seq<char>;

    open spec fn view(&self) -> Seq<char> {
        self.buffer@
    }
}

impl Default for OwnedString {
    /// The empty string.
    fn default() -> (s: Self)
        ensures
            s@ == Seq::<char>::empty(),
    {
        OwnedString { buffer: String::new() }
    }
}

impl From<String> for OwnedString {
    /// Takes ownership of `s`.
    fn from(s: String) -> (owned: Self) {
        OwnedString { buffer: s }
    }
}

impl FromSpecImpl<String> for OwnedString {
    open spec fn obeys_from_spec() -> bool {
        true
    }

    open spec fn from_spec(s: String) -> Self {
        OwnedString { buffer: s }
    }
}

impl OwnedString {
    /// The text, borrowed.
    pub fn as_str(&self) -> (text: &str)
        ensures
            text@ == self@,
    {
        self.buffer.as_str()
    }

    /// Gives the text up to the caller.
    pub fn into_string(self) -> (text: String)
        ensures
            text@ == self@,
    {
        self.buffer
    }
}

/// An ordered run of value handles whose ownership moves to the receiver.
/// Whoever owns the buffer owns every cell that its handles name.
#[derive(Debug)]
pub struct TupleSlice {
    pub handles: Vec<ValuePtr>,
}

impl View for TupleSlice {
    type V = Seq<Handle>;

    open spec fn view(&self) -> Seq<Handle> {
        self.handles@
    }
}

impl Default for TupleSlice {
    /// The empty buffer.
    fn default() -> (t: Self)
        ensures
            t@ == Seq::<Handle>::empty(),
    {
        TupleSlice { handles: Vec::new() }
    }
}

impl From<Vec<ValuePtr>> for TupleSlice {
    /// Takes ownership of `handles`.
    fn from(handles: Vec<ValuePtr>) -> (t: Self) {
        TupleSlice { handles }
    }
}

impl FromSpecImpl<Vec<ValuePtr>> for TupleSlice {
    open spec fn obeys_from_spec() -> bool {
        true
    }

    open spec fn from_spec(handles: Vec<ValuePtr>) -> Self {
        TupleSlice { handles }
    }
}

impl TupleSlice {
    /// The number of handles.
    pub fn length(&self) -> (n: usize)
        ensures
            n == self@.len(),
    {
        self.handles.len()
    }

    /// The handle at position `i`, or `None` beyond the end.
    pub fn get(&self, i: usize) -> (h: Option<ValuePtr>)
        ensures
            h == (if i < self@.len() {
                Some(self@[i as int])
            } else {
                None
            }),
    {
        if i < self.handles.len() {
            Some(self.handles[i])
        } else {
            None
        }
    }

    /// Gives the handles up to the caller.
    pub fn into_vec(self) -> (handles: Vec<ValuePtr>)
        ensures
            handles@ == self@,
    {
        self.handles
    }
}

/// An expression handle, or failure.
#[derive(Clone, Copy, Debug, PartialEq, Eq, Structural)]
pub struct ExprPtrOr {
    pub expr: ExprPtr,
    pub ok: bool,
}

impl ExprPtrOr {
    /// The failure value: the null handle, not ok.
    pub open spec fn failure() -> Self {
        ExprPtrOr { expr: Handle::spec_null(HandleKind::Expression), ok: false }
    }
}

impl Default for ExprPtrOr {
    fn default() -> (r: Self)
        ensures
            r == ExprPtrOr::failure(),
    {
        ExprPtrOr { expr: Handle::null(HandleKind::Expression), ok: false }
    }
}

impl From<ExprPtr> for ExprPtrOr {
    fn from(expr: ExprPtr) -> (r: Self) {
        ExprPtrOr { expr, ok: true }
    }
}

impl FromSpecImpl<ExprPtr> for ExprPtrOr {
    open spec fn obeys_from_spec() -> bool {
        true
    }

    open spec fn from_spec(expr: ExprPtr) -> Self {
        ExprPtrOr { expr, ok: true }
    }
}

/// A value handle, or failure.
#[derive(Clone, Copy, Debug, PartialEq, Eq, Structural)]
pub struct ValuePtrOr {
    pub value: ValuePtr,
    pub ok: bool,
}

impl ValuePtrOr {
    /// The failure value: the null handle, not ok.
    pub open spec fn failure() -> Self {
        ValuePtrOr { value: Handle::spec_null(HandleKind::Value), ok: false }
    }
}

impl Default for ValuePtrOr {
    fn default() -> (r: Self)
        ensures
            r == ValuePtrOr::failure(),
    {
        ValuePtrOr { value: Handle::null(HandleKind::Value), ok: false }
    }
}

impl From<ValuePtr> for ValuePtrOr {
    fn from(value: ValuePtr) -> (r: Self) {
        ValuePtrOr { value, ok: true }
    }
}

impl FromSpecImpl<ValuePtr> for ValuePtrOr {
    open spec fn obeys_from_spec() -> bool {
        true
    }

    open spec fn from_spec(value: ValuePtr) -> Self {
        ValuePtrOr { value, ok: true }
    }
}

/// A boolean, or failure.
#[derive(Clone, Copy, Debug, PartialEq, Eq, Structural)]
pub struct BoolOr {
    pub value: bool,
    pub ok: bool,
}

impl BoolOr {
    /// The failure value: `false`, not ok.
    pub open spec fn failure() -> Self {
        BoolOr { value: false, ok: false }
    }

    /// What a fallible step comes to at the boundary: its value and ok, or the
    /// failure value whatever the error was.
    pub open spec fn of_result<E>(outcome: Result<bool, E>) -> Self {
        match outcome {
            Ok(value) => BoolOr { value, ok: true },
            Err(_) => BoolOr::failure(),
        }
    }

    /// Flattens the outcome of a fallible step: the error, if any, is dropped.
    pub fn from_result<E>(outcome: Result<bool, E>) -> (r: Self)
        ensures
            r == BoolOr::of_result(outcome),
    {
        match outcome {
            Ok(value) => BoolOr { value, ok: true },
            Err(_) => BoolOr { value: false, ok: false },
        }
    }
}

impl Default for BoolOr {
    fn default() -> (r: Self)
        ensures
            r == BoolOr::failure(),
    {
        BoolOr { value: false, ok: false }
    }
}

impl From<bool> for BoolOr {
    fn from(value: bool) -> (r: Self) {
        BoolOr { value, ok: true }
    }
}

impl FromSpecImpl<bool> for BoolOr {
    open spec fn obeys_from_spec() -> bool {
        true
    }

    open spec fn from_spec(value: bool) -> Self {
        BoolOr { value, ok: true }
    }
}

/// An integer, or failure.
#[derive(Clone, Copy, Debug, PartialEq, Eq, Structural)]
pub struct IntOr {
    pub value: i64,
    pub ok: bool,
}

impl IntOr {
    /// The failure value: zero, not ok.
    pub open spec fn failure() -> Self {
        IntOr { value: 0, ok: false }
    }

    /// What a fallible step comes to at the boundary: its value and ok, or the
    /// failure value whatever the error was.
    pub open spec fn of_result<E>(outcome: Result<i64, E>) -> Self {
        match outcome {
            Ok(value) => IntOr { value, ok: true },
            Err(_) => IntOr::failure(),
        }
    }

    /// Flattens the outcome of a fallible step: the error, if any, is dropped.
    pub fn from_result<E>(outcome: Result<i64, E>) -> (r: Self)
        ensures
            r == IntOr::of_result(outcome),
    {
        match outcome {
            Ok(value) => IntOr { value, ok: true },
            Err(_) => IntOr { value: 0, ok: false },
        }
    }
}

impl Default for IntOr {
    fn default() -> (r: Self)
        ensures
            r == IntOr::failure(),
    {
        IntOr { value: 0, ok: false }
    }
}

impl From<i64> for IntOr {
    fn from(value: i64) -> (r: Self) {
        IntOr { value, ok: true }
    }
}

impl FromSpecImpl<i64> for IntOr {
    open spec fn obeys_from_spec() -> bool {
        true
    }

    open spec fn from_spec(value: i64) -> Self {
        IntOr { value, ok: true }
    }
}

/// A float, given by the bits of its IEEE 754 encoding, or failure.
#[derive(Clone, Copy, Debug, PartialEq, Eq, Structural)]
pub struct FloatOr {
    pub value: u64,
    pub ok: bool,
}

impl FloatOr {
    /// The failure value: the bits of positive zero, not ok.
    pub open spec fn failure() -> Self {
        FloatOr { value: 0, ok: false }
    }

    /// What a fallible step comes to at the boundary: its value and ok, or the
    /// failure value whatever the error was.
    pub open spec fn of_result<E>(outcome: Result<u64, E>) -> Self {
        match outcome {
            Ok(value) => FloatOr { value, ok: true },
            Err(_) => FloatOr::failure(),
        }
    }

    /// Flattens the outcome of a fallible step: the error, if any, is dropped.
    pub fn from_result<E>(outcome: Result<u64, E>) -> (r: Self)
        ensures
            r == FloatOr::of_result(outcome),
    {
        match outcome {
            Ok(value) => FloatOr { value, ok: true },
            Err(_) => FloatOr { value: 0, ok: false },
        }
    }
}

impl Default for FloatOr {
    fn default() -> (r: Self)
        ensures
            r == FloatOr::failure(),
    {
        FloatOr { value: 0, ok: false }
    }
}

impl From<u64> for FloatOr {
    fn from(value: u64) -> (r: Self) {
        FloatOr { value, ok: true }
    }
}

impl FromSpecImpl<u64> for FloatOr {
    open spec fn obeys_from_spec() -> bool {
        true
    }

    open spec fn from_spec(value: u64) -> Self {
        FloatOr { value, ok: true }
    }
}

/// An owned string, or failure.
#[derive(Debug)]
pub struct StringOr {
    pub value: OwnedString,
    pub ok: bool,
}

impl StringOr {
    /// Whether `self` stands for `outcome` at the boundary: the text and ok,
    /// or the empty string and not ok whatever the error was.
    pub open spec fn is_result<E>(self, outcome: Result<String, E>) -> bool {
        match outcome {
            Ok(text) => self.ok && self.value@ == text@,
            Err(_) => !self.ok && self.value@ == Seq::<char>::empty(),
        }
    }

    /// Flattens the outcome of a fallible step: the error, if any, is dropped.
    pub fn from_result<E>(outcome: Result<String, E>) -> (r: Self)
        ensures
            r.is_result(outcome),
    {
        match outcome {
            Ok(text) => StringOr { value: OwnedString { buffer: text }, ok: true },
            Err(_) => StringOr { value: OwnedString::default(), ok: false },
        }
    }
}

impl Default for StringOr {
    /// The failure value: the empty string, not ok.
    fn default() -> (r: Self)
        ensures
            !r.ok,
            r.value@ == Seq::<char>::empty(),
    {
        StringOr { value: OwnedString::default(), ok: false }
    }
}

impl From<String> for StringOr {
    fn from(text: String) -> (r: Self) {
        StringOr { value: OwnedString { buffer: text }, ok: true }
    }
}

impl FromSpecImpl<String> for StringOr {
    open spec fn obeys_from_spec() -> bool {
        true
    }

    open spec fn from_spec(text: String) -> Self {
        StringOr { value: OwnedString { buffer: text }, ok: true }
    }
}

/// An owned tuple buffer, or failure.
#[derive(Debug)]
pub struct TupleOr {
    pub value: TupleSlice,
    pub ok: bool,
}

impl Default for TupleOr {
    /// The failure value: the empty buffer, not ok.
    fn default() -> (r: Self)
        ensures
            !r.ok,
            r.value@ == Seq::<Handle>::empty(),
    {
        TupleOr { value: TupleSlice::default(), ok: false }
    }
}

impl From<Vec<ValuePtr>> for TupleOr {
    fn from(handles: Vec<ValuePtr>) -> (r: Self) {
        TupleOr { value: TupleSlice { handles }, ok: true }
    }
}

impl FromSpecImpl<Vec<ValuePtr>> for TupleOr {
    open spec fn obeys_from_spec() -> bool {
        true
    }

    open spec fn from_spec(handles: Vec<ValuePtr>) -> Self {
        TupleOr { value: TupleSlice { handles }, ok: true }
    }
}

} // verus!
