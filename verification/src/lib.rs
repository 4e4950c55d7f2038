//! A boundary between a host and an expression engine.
//!
//! The host never holds an expression, a context or a value itself: it holds
//! handles into a [`Heap`], and every operation takes the heap and the handles
//! it works on. Handles are checked on every use against the heap they are
//! used with, so one that this heap has released, or never issued, makes the
//! operation fail instead of reaching stale data. A handle does not say which
//! heap issued it: one heap's handle, used with another heap, names whatever
//! that heap issued under the same slot and generation, if anything.

pub mod arena;
pub mod cells;
pub mod closure;
pub mod context;
pub mod convert;
pub mod engine;
pub mod expression;
pub mod guarded;
pub mod handle;
pub mod heap;
pub mod laws;
pub mod transfer;
pub mod value;

pub use cells::{
    drop_string_view, drop_tuple_slice, drop_value, get_bool, get_float, get_int, get_string,
    get_tuple, make_bool, make_float, make_int, make_string, value_debug_string,
};
pub use closure::{Capture, Closure, HostFunction};
pub use context::{
    context_debug_string, drop_context, make_context, set_bool, set_float, set_function, set_int,
    set_string, set_value, Context,
};
pub use expression::{
    drop_expr, eval_bool, eval_float, eval_int, eval_string, expr_debug_string, parse, Expression,
};
pub use guarded::Guarded;
pub use handle::{ContextMutPtr, ContextPtr, ExprPtr, Handle, HandleKind, ValuePtr};
pub use heap::Heap;
pub use transfer::{
    BoolOr, BorrowedString, ExprPtrOr, FloatOr, IntOr, OwnedString, StringOr, TupleOr, TupleSlice,
    ValuePtrOr,
};
pub use value::{ValueCell, ValueKind};
