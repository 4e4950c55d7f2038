//! The expression engine, as far as the library relies on it.
//!
//! Everything in this file is believed, not proved: the types are opaque, the
//! spec functions without a body name what the engine holds or returns, and
//! each function's body is one call into the engine, with at most a change
//! of type around it.

use crate::closure::{bridge, Closure, HostFunction};
use crate::guarded::{guarded_call, Guarded};
use crate::value::{ValueKind, ValueModel};
use evalexpr::{
    ContextWithMutableFunctions, ContextWithMutableVariables, EvalexprError, Function,
    HashMapContext, Node,
};
use vstd::prelude::*;

verus! {

/// `evalexpr::Node`: a parsed expression tree.
#[verifier::external_type_specification]
#[verifier::external_body]
pub struct ExNode(evalexpr::Node);

/// `evalexpr::HashMapContext`: the engine's store of named variables and
/// named functions.
#[verifier::external_type_specification]
#[verifier::external_body]
pub struct ExHashMapContext(evalexpr::HashMapContext);

/// `evalexpr::EvalexprError`: why the engine refused.
#[verifier::external_type_specification]
#[verifier::external_body]
pub struct ExEvalexprError(evalexpr::EvalexprError);

/// `evalexpr::Value`: the engine's own form of a value.
#[verifier::external_type_specification]
#[verifier::external_body]
pub struct ExValue(evalexpr::Value);

/// The tree that `evalexpr::build_operator_tree` builds from `text`, or
/// `None` where it rejects `text`.
pub uninterp spec fn syntax_tree(text: Seq<char>) -> Option<Node>;

/// What an engine value holds. A float is given by `f64::to_bits`.
pub uninterp spec fn engine_value(value: evalexpr::Value) -> ValueModel;

/// The variables that a context binds, by name.
pub uninterp spec fn context_variables(ctx: HashMapContext) -> Map<Seq<char>, ValueModel>;

/// The names to which a context binds a function.
pub uninterp spec fn context_functions(ctx: HashMapContext) -> Set<Seq<char>>;

/// The capture tokens of the host functions that a context binds, by the
/// name of the function. A function that the library bound itself has none.
pub uninterp spec fn context_captures(ctx: HashMapContext) -> Map<Seq<char>, usize>;

/// Whether `text` is a `Debug` rendering of `ctx`, pretty-printed. A context
/// has more than one: the order of its bindings is the hash maps'.
pub uninterp spec fn context_rendering(ctx: HashMapContext, text: Seq<char>) -> bool;

/// The names of the variables that a tree reads, one for each place where
/// it reads one, in the order of `Node::iter_read_variable_identifiers`.
pub uninterp spec fn read_variables(tree: Node) -> Seq<Seq<char>>;

/// The `Debug` rendering of a tree, pretty-printed.
pub uninterp spec fn tree_rendering(tree: Node) -> Seq<char>;

/// The `Debug` rendering of an engine value that holds `value`,
/// pretty-printed.
pub uninterp spec fn value_rendering(value: ValueModel) -> Seq<char>;

/// What the engine values of `items` hold, in order.
pub open spec fn engine_values(items: Seq<evalexpr::Value>) -> Seq<ValueModel> {
    Seq::new(items.len(), |i: int| engine_value(items[i]))
}

/// The engine's rule for binding a variable: a name that is bound already
/// takes a new value only of the kind of its present one.
pub open spec fn accepts_binding(
    variables: Map<Seq<char>, ValueModel>,
    name: Seq<char>,
    value: ValueModel,
) -> bool {
    variables.contains_key(name) ==> variables[name].kind() == value.kind()
}

/// Whether `name` is one of the engine's own functions that abort on some
/// arguments where they should return an error: a shift by a count out of
/// range, the absolute value of the least integer, a substring cut inside a
/// character.
pub open spec fn aborting_builtin(name: Seq<char>) -> bool {
    name == "shl"@ || name == "shr"@ || name == "math::abs"@ || name == "str::substring"@
}

/// Whether the engine answers whatever it evaluates against `ctx`: each of
/// its own functions that abort is bound in `ctx`. The engine asks the
/// context for a function before it turns to its own, so it then never
/// reaches one of these.
pub open spec fn evaluation_returns(ctx: HashMapContext) -> bool {
    forall|name: Seq<char>| #[trigger]
        aborting_builtin(name) ==> context_functions(ctx).contains(name)
}

/// Whether `tree` is what the parser made of some text: a root with the
/// whole expression below it.
pub open spec fn parsed(tree: Node) -> bool {
    exists|text: Seq<char>| #[trigger] syntax_tree(text) == Some(tree)
}

/// Whether `tree` reads a variable that `variables` does not bind.
pub open spec fn reads_unbound_variable(
    tree: Node,
    variables: Map<Seq<char>, ValueModel>,
) -> bool {
    exists|i: int|
        0 <= i < read_variables(tree).len() && !variables.contains_key(
            #[trigger] read_variables(tree)[i],
        )
}

/// `evalexpr::build_operator_tree`: parses `text`. The outcome depends on
/// the text alone.
#[verifier::external_body]
pub(crate) fn build_tree(text: &str) -> (r: Result<Node, EvalexprError>)
    ensures
        r.ok() == syntax_tree(text@),
{
    evalexpr::build_operator_tree(text)
}

/// `Node::iter_read_variable_identifiers`: the names of the variables that
/// the tree reads.
#[verifier::external_body]
pub(crate) fn tree_variable_names(tree: &Node) -> (names: Vec<String>)
    ensures
        names@.len() == read_variables(*tree).len(),
        forall|i: int| 0 <= i < names@.len() ==> names@[i]@ == read_variables(*tree)[i],
{
    tree.iter_read_variable_identifiers().map(String::from).collect()
}

/// `Context::get_value` of `HashMapContext`: whether the context binds a
/// variable to `name`.
#[verifier::external_body]
pub(crate) fn context_has_variable(ctx: &HashMapContext, name: &String) -> (b: bool)
    ensures
        b == context_variables(*ctx).contains_key(name@),
{
    evalexpr::Context::get_value(ctx, name).is_some()
}

/// `HashMapContext::new`: a context that binds nothing.
#[verifier::external_body]
pub(crate) fn empty_context() -> (ctx: HashMapContext)
    ensures
        context_variables(ctx) =~= Map::empty(),
        context_functions(ctx) =~= Set::empty(),
        context_captures(ctx) =~= Map::empty(),
{
    HashMapContext::new()
}

/// `HashMapContext::set_value`: binds `name` to `value` where
/// `accepts_binding` allows it, and otherwise refuses and changes nothing.
/// Function bindings are never touched.
#[verifier::external_body]
pub(crate) fn context_set_value(
    ctx: &mut HashMapContext,
    name: String,
    value: evalexpr::Value,
) -> (r: Result<(), EvalexprError>)
    ensures
        r is Ok <==> accepts_binding(context_variables(*old(ctx)), name@, engine_value(value)),
        r is Ok ==> context_variables(*final(ctx)) == context_variables(*old(ctx)).insert(
            name@,
            engine_value(value),
        ),
        r is Err ==> *final(ctx) == *old(ctx),
        context_functions(*final(ctx)) == context_functions(*old(ctx)),
        context_captures(*final(ctx)) == context_captures(*old(ctx)),
{
    ctx.set_value(name, value)
}

/// `HashMapContext::set_function` on `Function::new`: binds `name` to a
/// function that, whenever the engine calls it, runs `bridge` on `closure` and
/// the engine's argument, and so hands the host the token of `closure`. It
/// always succeeds, replaces any function bound to `name` before, and touches
/// no variable.
#[verifier::external_body]
pub(crate) fn context_set_function<F>(
    ctx: &mut HashMapContext,
    name: String,
    closure: Closure<F>,
) -> (r: Result<(), EvalexprError>) where F: HostFunction + Send + Sync + Clone + 'static
    ensures
        r is Ok,
        context_functions(*final(ctx)) == context_functions(*old(ctx)).insert(name@),
        context_captures(*final(ctx)) == context_captures(*old(ctx)).insert(
            name@,
            closure.capture.addr,
        ),
        context_variables(*final(ctx)) == context_variables(*old(ctx)),
{
    ctx.set_function(name, Function::new(move |argument| bridge(&closure, argument)))
}

/// `HashMapContext::set_function` on `Function::new`: binds `name` to a
/// function that, whenever the engine calls it, runs `guarded_call` on
/// `which` and the engine's argument. It always succeeds, replaces any
/// function bound to `name` before, and touches no variable.
#[verifier::external_body]
pub(crate) fn context_set_guarded(ctx: &mut HashMapContext, name: String, which: Guarded) -> (r:
    Result<(), EvalexprError>)
    ensures
        r is Ok,
        context_functions(*final(ctx)) == context_functions(*old(ctx)).insert(name@),
        context_captures(*final(ctx)) == context_captures(*old(ctx)).remove(name@),
        context_variables(*final(ctx)) == context_variables(*old(ctx)),
{
    ctx.set_function(name, Function::new(move |argument| guarded_call(which, argument)))
}

/// `Value::Boolean`.
#[verifier::external_body]
pub(crate) fn engine_boolean(value: bool) -> (r: evalexpr::Value)
    ensures
        engine_value(r) == ValueModel::Boolean(value),
{
    evalexpr::Value::Boolean(value)
}

/// `Value::Int`.
#[verifier::external_body]
pub(crate) fn engine_int(value: i64) -> (r: evalexpr::Value)
    ensures
        engine_value(r) == ValueModel::Int(value as int),
{
    evalexpr::Value::Int(value)
}

/// `Value::Float`, of the float that `f64::from_bits` makes of `bits`.
#[verifier::external_body]
pub(crate) fn engine_float(bits: u64) -> (r: evalexpr::Value)
    ensures
        engine_value(r) == ValueModel::Float(bits),
{
    evalexpr::Value::Float(evalexpr::FloatType::from_bits(bits))
}

/// `Value::String`.
#[verifier::external_body]
pub(crate) fn engine_string(text: String) -> (r: evalexpr::Value)
    ensures
        engine_value(r) == ValueModel::String(text@),
{
    evalexpr::Value::String(text)
}

/// `Value::Tuple`.
#[verifier::external_body]
pub(crate) fn engine_tuple(items: Vec<evalexpr::Value>) -> (r: evalexpr::Value)
    ensures
        engine_value(r) == ValueModel::Tuple(engine_values(items@)),
{
    evalexpr::Value::Tuple(items)
}

/// `Value::Empty`.
#[verifier::external_body]
pub(crate) fn engine_empty() -> (r: evalexpr::Value)
    ensures
        engine_value(r) == ValueModel::Empty,
{
    evalexpr::Value::Empty
}

/// `Value::as_boolean`: the payload of a boolean, an error for any other
/// kind.
#[verifier::external_body]
pub(crate) fn value_as_boolean(value: &evalexpr::Value) -> (r: Result<bool, EvalexprError>)
    ensures
        r is Ok <==> engine_value(*value).kind() == ValueKind::Boolean,
        r is Ok ==> engine_value(*value) == ValueModel::Boolean(r->Ok_0),
{
    value.as_boolean()
}

/// `Value::as_int`: the payload of an integer, an error for any other kind.
#[verifier::external_body]
pub(crate) fn value_as_int(value: &evalexpr::Value) -> (r: Result<i64, EvalexprError>)
    ensures
        r is Ok <==> engine_value(*value).kind() == ValueKind::Int,
        r is Ok ==> engine_value(*value) == ValueModel::Int(r->Ok_0 as int),
{
    value.as_int()
}

/// `Value::as_float`: the payload of a float, here as its bits, an error for
/// any other kind (an integer included).
#[verifier::external_body]
pub(crate) fn value_as_float(value: &evalexpr::Value) -> (r: Result<u64, EvalexprError>)
    ensures
        r is Ok <==> engine_value(*value).kind() == ValueKind::Float,
        r is Ok ==> engine_value(*value) == ValueModel::Float(r->Ok_0),
{
    match value.as_float() {
        Ok(float) => Ok(float.to_bits()),
        Err(error) => Err(error),
    }
}

/// `Value::as_string`: a copy of the payload of a string, an error for any
/// other kind.
#[verifier::external_body]
pub(crate) fn value_as_string(value: &evalexpr::Value) -> (r: Result<String, EvalexprError>)
    ensures
        r is Ok <==> engine_value(*value).kind() == ValueKind::String,
        r is Ok ==> engine_value(*value) == ValueModel::String(r->Ok_0@),
{
    value.as_string()
}

/// `Value::as_tuple`: copies of the items of a tuple, in order, an error for
/// any other kind.
#[verifier::external_body]
pub(crate) fn value_as_tuple(value: &evalexpr::Value) -> (r: Result<
    Vec<evalexpr::Value>,
    EvalexprError,
>)
    ensures
        r is Ok <==> engine_value(*value).kind() == ValueKind::Tuple,
        r is Ok ==> engine_value(*value) == ValueModel::Tuple(engine_values(r->Ok_0@)),
{
    value.as_tuple()
}

/// `EvalexprError::CustomMessage`: an error that carries `message`.
#[verifier::external_body]
pub(crate) fn custom_error(message: &str) -> EvalexprError {
    EvalexprError::CustomMessage(message.to_string())
}

/// `Node::eval_boolean_with_context`. The outcome depends on what the
/// functions bound in `ctx` do when called, so nothing is promised of it.
/// The tree is one from the parser, and the engine's own functions that
/// abort are out of its reach.
#[verifier::external_body]
pub(crate) fn tree_eval_boolean(tree: &Node, ctx: &HashMapContext) -> Result<bool, EvalexprError>
    requires
        parsed(*tree),
        evaluation_returns(*ctx),
{
    tree.eval_boolean_with_context(ctx)
}

/// `Node::eval_int_with_context`. Nothing is promised of the outcome.
#[verifier::external_body]
pub(crate) fn tree_eval_int(tree: &Node, ctx: &HashMapContext) -> Result<i64, EvalexprError>
    requires
        parsed(*tree),
        evaluation_returns(*ctx),
{
    tree.eval_int_with_context(ctx)
}

/// `Node::eval_float_with_context`, the float given by its bits. Nothing is
/// promised of the outcome.
#[verifier::external_body]
pub(crate) fn tree_eval_float(tree: &Node, ctx: &HashMapContext) -> Result<u64, EvalexprError>
    requires
        parsed(*tree),
        evaluation_returns(*ctx),
{
    match tree.eval_float_with_context(ctx) {
        Ok(float) => Ok(float.to_bits()),
        Err(error) => Err(error),
    }
}

/// `Node::eval_string_with_context`. Nothing is promised of the outcome.
#[verifier::external_body]
pub(crate) fn tree_eval_string(tree: &Node, ctx: &HashMapContext) -> Result<String, EvalexprError>
    requires
        parsed(*tree),
        evaluation_returns(*ctx),
{
    tree.eval_string_with_context(ctx)
}

/// The `Debug` rendering of a tree, pretty-printed. Its format is the
/// engine's and Rust's to choose; it depends on the tree alone.
#[verifier::external_body]
pub(crate) fn tree_debug(tree: &Node) -> (text: String)
    ensures
        text@ == tree_rendering(*tree),
{
    format!("{:#?}", tree)
}

/// The `Debug` rendering of a context, pretty-printed: one of the
/// renderings that the context has.
#[verifier::external_body]
pub(crate) fn context_debug(ctx: &HashMapContext) -> (text: String)
    ensures
        context_rendering(*ctx, text@),
{
    format!("{:#?}", ctx)
}

/// The `Debug` rendering of an engine value, pretty-printed. Its format is
/// the engine's and Rust's to choose; it depends on what the value holds
/// alone.
#[verifier::external_body]
pub(crate) fn value_debug(value: &evalexpr::Value) -> (text: String)
    ensures
        text@ == value_rendering(engine_value(*value)),
{
    format!("{:#?}", value)
}

} // verus!
