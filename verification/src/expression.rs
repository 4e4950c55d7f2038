use crate::engine::{build_tree, parsed, syntax_tree, tree_debug, tree_rendering};
use crate::handle::{ContextPtr, ExprPtr, Handle, HandleKind};
use crate::heap::{Heap, HeapModel};
use crate::transfer::{BoolOr, BorrowedString, ExprPtrOr, FloatOr, IntOr, OwnedString, StringOr};
use evalexpr::Node;
use vstd::prelude::*;

verus! {

/// A parsed expression: the tree that the engine's parser made of a text.
pub struct Expression {
    tree: Node,
}

impl Expression {
    #[verifier::type_invariant]
    spec fn well_formed(self) -> bool {
        parsed(self.tree)
    }

    /// The tree of the expression.
    pub closed spec fn tree(self) -> Node {
        self.tree
    }

    /// Parses `text`: the tree that the engine makes of it, or nothing where
    /// the engine rejects it.
    pub fn parse(text: &str) -> (r: Option<Expression>)
        ensures
            match syntax_tree(text@) {
                Some(tree) => r is Some && r->0.tree() == tree,
                None => r is None,
            },
    {
        match build_tree(text) {
            Ok(tree) => {
                assert(syntax_tree(text@) == Some(tree));
                Some(Expression { tree })
            },
            Err(_) => None,
        }
    }

    /// The tree, for the engine.
    pub(crate) fn node(&self) -> (tree: &Node)
        ensures
            *tree == self.tree(),
            parsed(*tree),
    {
        proof {
            use_type_invariant(self);
        }
        &self.tree
    }

    /// Renders the tree for a human reader, in the engine's `Debug` form.
    pub fn debug_string(&self) -> (text: String)
        ensures
            text@ == tree_rendering(self.tree()),
    {
        tree_debug(&self.tree)
    }
}

/// The heap after a new expression was given to `expr`.
pub open spec fn with_expr(heap: HeapModel, expr: ExprPtr, expression: Expression) -> HeapModel {
    HeapModel { exprs: heap.exprs.insert(expr, expression), ..heap }
}

/// The heap after the expression that `expr` owns, if any, was released.
pub open spec fn without_expr(heap: HeapModel, expr: ExprPtr) -> HeapModel {
    if heap.exprs.contains_key(expr) {
        HeapModel { exprs: heap.exprs.remove(expr), spent: heap.spent.insert(expr), ..heap }
    } else {
        heap
    }
}

/// Whether an evaluation of `expr` against `ctx` has what it needs: both
/// handles own what they should.
pub open spec fn evaluable(heap: HeapModel, expr: ExprPtr, ctx: ContextPtr) -> bool {
    heap.exprs.contains_key(expr) && heap.contexts.contains_key(ctx)
}

/// Whether an evaluation of `expr` against `ctx` can come to a value: it
/// gets as far as the engine, and the expression reads no variable that the
/// context leaves unbound.
pub open spec fn may_succeed(heap: HeapModel, expr: ExprPtr, ctx: ContextPtr) -> bool {
    evaluable(heap, expr, ctx) && !heap.contexts[ctx].misses(heap.exprs[expr].tree())
}

/// What `expr_debug_string` answers: the engine's rendering of the tree that
/// `expr` owns, or the empty string where it owns none.
pub open spec fn expr_rendering(heap: HeapModel, expr: ExprPtr) -> Seq<char> {
    if heap.exprs.contains_key(expr) {
        tree_rendering(heap.exprs[expr].tree())
    } else {
        Seq::empty()
    }
}

/// Parses `s`. Where the engine accepts the text, the tree goes to a new
/// expression of the heap and the caller owns its handle. Where it rejects
/// the text, the answer is the failure value and the heap is as before.
/// Nothing is evaluated, and no context is involved.
pub fn parse(heap: &mut Heap, s: BorrowedString) -> (r: ExprPtrOr)
    ensures
        r.ok == (r.expr != Handle::spec_null(HandleKind::Expression)),
        match syntax_tree(s@) {
            Some(tree) => r.ok && old(heap)@.fresh(r.expr) && r.expr.kind
                == HandleKind::Expression && final(heap)@.exprs[r.expr].tree() == tree
                && final(heap)@ == with_expr(old(heap)@, r.expr, final(heap)@.exprs[r.expr]),
            None => r == ExprPtrOr::failure() && final(heap)@ == old(heap)@,
        },
{
    match Expression::parse(s.as_str()) {
        Some(expression) => ExprPtrOr::from(heap.put_expr(expression)),
        None => ExprPtrOr::default(),
    }
}

/// Releases the expression that `expr` owns. A handle that owns no
/// expression releases nothing.
pub fn drop_expr(heap: &mut Heap, expr: ExprPtr)
    ensures
        final(heap)@ == without_expr(old(heap)@, expr),
{
    let _ = heap.take_expr(expr);
}

/// Evaluates the expression that `expr` owns against the context that `ctx`
/// owns, and asks for a boolean. Every failure looks the same: a handle that
/// owns nothing, an unbound name, a result of another kind, a host function
/// that failed. Of these the contract names the ones that are certain before
/// the engine runs: a handle that owns nothing, and a variable that the
/// context does not bind. With either the engine is not asked, and no host
/// function is called. The heap is only read.
pub fn eval_bool(heap: &Heap, expr: ExprPtr, ctx: ContextPtr) -> (r: BoolOr)
    ensures
        r.ok ==> may_succeed(heap@, expr, ctx),
        !r.ok ==> r == BoolOr::failure(),
{
    match (heap.expr(expr), heap.context(ctx)) {
        (Some(expression), Some(context)) => context.eval_bool(expression),
        _ => BoolOr::default(),
    }
}

/// Evaluates as `eval_bool` does, and asks for an integer.
pub fn eval_int(heap: &Heap, expr: ExprPtr, ctx: ContextPtr) -> (r: IntOr)
    ensures
        r.ok ==> may_succeed(heap@, expr, ctx),
        !r.ok ==> r == IntOr::failure(),
{
    match (heap.expr(expr), heap.context(ctx)) {
        (Some(expression), Some(context)) => context.eval_int(expression),
        _ => IntOr::default(),
    }
}

/// Evaluates as `eval_bool` does, and asks for a float, which it gives by the
/// bits of its encoding. An integer result is no float.
pub fn eval_float(heap: &Heap, expr: ExprPtr, ctx: ContextPtr) -> (r: FloatOr)
    ensures
        r.ok ==> may_succeed(heap@, expr, ctx),
        !r.ok ==> r == FloatOr::failure(),
{
    match (heap.expr(expr), heap.context(ctx)) {
        (Some(expression), Some(context)) => context.eval_float(expression),
        _ => FloatOr::default(),
    }
}

/// Evaluates as `eval_bool` does, and asks for a string. The caller owns the
/// text.
pub fn eval_string(heap: &Heap, expr: ExprPtr, ctx: ContextPtr) -> (r: StringOr)
    ensures
        r.ok ==> may_succeed(heap@, expr, ctx),
        !r.ok ==> r.value@ == Seq::<char>::empty(),
{
    match (heap.expr(expr), heap.context(ctx)) {
        (Some(expression), Some(context)) => context.eval_string(expression),
        _ => StringOr::default(),
    }
}

/// Renders the expression that `expr` owns for a human reader, in the
/// engine's `Debug` form. The caller owns the text. A handle that owns no
/// expression gives the empty string.
pub fn expr_debug_string(heap: &Heap, expr: ExprPtr) -> (text: OwnedString)
    ensures
        text@ == expr_rendering(heap@, expr),
{
    match heap.expr(expr) {
        Some(expression) => OwnedString::from(expression.debug_string()),
        None => OwnedString::default(),
    }
}

} // verus!
