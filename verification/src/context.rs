use crate::closure::{Closure, HostFunction};
use crate::convert::to_engine;
use crate::engine::{
    aborting_builtin, accepts_binding, context_captures, context_debug, context_functions,
    context_has_variable, context_rendering, context_set_function, context_set_guarded,
    context_set_value, context_variables, empty_context, read_variables,
    reads_unbound_variable, tree_eval_boolean, tree_eval_float, tree_eval_int, tree_eval_string,
    tree_variable_names,
};
use crate::expression::Expression;
use crate::guarded::Guarded;
use crate::handle::{ContextMutPtr, ContextPtr, Handle, HandleKind};
use crate::heap::{Heap, HeapModel};
use crate::transfer::{BoolOr, BorrowedString, FloatOr, IntOr, OwnedString, StringOr};
use crate::value::{ValueCell, ValueModel};
use evalexpr::{HashMapContext, Node};
use vstd::prelude::*;

verus! {

/// Whether `name` is one of `names`.
pub open spec fn listed(names: Seq<String>, name: Seq<char>) -> bool {
    exists|i: int| 0 <= i < names.len() && (#[trigger] names[i])@ == name
}

/// The names that every context binds from the start: those of the engine's
/// own functions that abort on some arguments, each bound to the function of
/// `crate::guarded` that gives an error there instead.
pub open spec fn guarded_names() -> Set<Seq<char>> {
    Set::new(|name: Seq<char>| aborting_builtin(name))
}

/// A store of named variables and named functions that expressions are
/// evaluated against.
///
/// The bindings themselves are the engine's. The context keeps the names of
/// its functions beside them.
pub struct Context {
    engine: HashMapContext,
    functions: Vec<String>,
}

impl Context {
    #[verifier::type_invariant]
    spec fn well_formed(self) -> bool {
        &&& forall|name: Seq<char>|
            #![trigger context_functions(self.engine).contains(name)]
            #![trigger listed(self.functions@, name)]
            context_functions(self.engine).contains(name) == listed(self.functions@, name)
        &&& forall|name: Seq<char>| #[trigger]
            aborting_builtin(name) ==> context_functions(self.engine).contains(name)
    }

    /// The variables that the context binds, by name.
    pub closed spec fn variables(self) -> Map<Seq<char>, ValueModel> {
        context_variables(self.engine)
    }

    /// The names to which the context binds a function.
    pub closed spec fn functions(self) -> Set<Seq<char>> {
        context_functions(self.engine)
    }

    /// The capture tokens that the context hands to its host functions, by
    /// the name of the function.
    pub closed spec fn captures(self) -> Map<Seq<char>, usize> {
        context_captures(self.engine)
    }

    /// Whether `text` is a rendering of this context. It has more than one,
    /// since the order of the bindings in it is not fixed.
    pub closed spec fn renders(self, text: Seq<char>) -> bool {
        context_rendering(self.engine, text)
    }

    /// Whether `tree` reads a variable that this context does not bind. No
    /// evaluation of such a tree comes to a value.
    pub open spec fn misses(self, tree: Node) -> bool {
        reads_unbound_variable(tree, self.variables())
    }

    /// Makes a context that binds no variable, and no function but the
    /// guarded ones.
    pub fn new() -> (context: Self)
        ensures
            context.variables() == Map::<Seq<char>, ValueModel>::empty(),
            context.functions() == guarded_names(),
            context.captures() == Map::<Seq<char>, usize>::empty(),
    {
        let mut engine = empty_context();
        let mut functions: Vec<String> = Vec::new();
        let _ = context_set_guarded(
            &mut engine,
            Guarded::ShiftLeft.engine_name(),
            Guarded::ShiftLeft,
        );
        functions.push(Guarded::ShiftLeft.engine_name());
        let _ = context_set_guarded(
            &mut engine,
            Guarded::ShiftRight.engine_name(),
            Guarded::ShiftRight,
        );
        functions.push(Guarded::ShiftRight.engine_name());
        let _ = context_set_guarded(
            &mut engine,
            Guarded::Absolute.engine_name(),
            Guarded::Absolute,
        );
        functions.push(Guarded::Absolute.engine_name());
        let _ = context_set_guarded(
            &mut engine,
            Guarded::Substring.engine_name(),
            Guarded::Substring,
        );
        functions.push(Guarded::Substring.engine_name());
        proof {
            assert forall|name: Seq<char>| listed(functions@, name) == aborting_builtin(name) by {
                if aborting_builtin(name) {
                    let i = if name == "shl"@ {
                        0int
                    } else if name == "shr"@ {
                        1int
                    } else if name == "math::abs"@ {
                        2int
                    } else {
                        3int
                    };
                    assert(functions@[i]@ == name);
                }
            }
            assert(context_functions(engine) =~= guarded_names());
            assert(context_captures(engine) =~= Map::<Seq<char>, usize>::empty());
        }
        Context { engine, functions }
    }

    /// Binds the variable `name` to `cell`, instead of whatever it was bound
    /// to, where the engine accepts the binding. Where it refuses, the context
    /// comes back as it was.
    pub fn set_value(self, name: String, cell: &ValueCell) -> (r: (Self, bool))
        ensures
            r.1 == accepts_binding(self.variables(), name@, cell@),
            r.1 ==> r.0.variables() == self.variables().insert(name@, cell@),
            r.1 ==> r.0.functions() == self.functions(),
            r.1 ==> r.0.captures() == self.captures(),
            !r.1 ==> r.0 == self,
    {
        proof {
            use_type_invariant(&self);
        }
        let Context { mut engine, functions } = self;
        let outcome = context_set_value(&mut engine, name, to_engine(cell));
        (Context { engine, functions }, outcome.is_ok())
    }

    /// Binds the function `name` to `closure`, instead of whatever function
    /// it was bound to: from now on the engine's calls of `name` reach the
    /// host function of `closure`, with the token of `closure`. Variables are
    /// untouched.
    pub fn set_function<F>(self, name: String, closure: Closure<F>) -> (context: Self) where
        F: HostFunction + Send + Sync + Clone + 'static,

        ensures
            context.functions() == self.functions().insert(name@),
            context.captures() == self.captures().insert(name@, closure.capture.addr),
            context.variables() == self.variables(),
    {
        proof {
            use_type_invariant(&self);
        }
        let known = self.binds_function(&name);
        let Context { mut engine, mut functions } = self;
        let _ = context_set_function(&mut engine, name.clone(), closure);
        if !known {
            functions.push(name);
        }
        proof {
            let before = self.functions@;
            assert forall|other: Seq<char>| listed(functions@, other) == (listed(before, other)
                || other == name@) by {
                if listed(before, other) {
                    let i = choose|i: int|
                        0 <= i < before.len() && (#[trigger] before[i])@ == other;
                    assert(functions@[i]@ == other);
                }
                if other == name@ {
                    if known {
                        assert(listed(before, other));
                    } else {
                        assert(functions@[before.len() as int]@ == other);
                    }
                }
                if listed(functions@, other) && other != name@ {
                    let i = choose|i: int|
                        0 <= i < functions@.len() && (#[trigger] functions@[i])@ == other;
                    assert(before[i]@ == other);
                }
            }
            assert forall|other: Seq<char>|
                context_functions(engine).contains(other) == listed(functions@, other) by {
                assert(context_functions(self.engine).contains(other) == listed(before, other));
            }
        }
        Context { engine, functions }
    }

    /// Tells whether the context binds a function to `name`.
    pub fn binds_function(&self, name: &String) -> (b: bool)
        ensures
            b == self.functions().contains(name@),
    {
        proof {
            use_type_invariant(self);
        }
        let mut i: usize = 0;
        while i < self.functions.len()
            invariant
                self.well_formed(),
                i <= self.functions.len(),
                forall|j: int| 0 <= j < i ==> self.functions@[j]@ != name@,
            decreases self.functions.len() - i,
        {
            if self.functions[i] == *name {
                assert(listed(self.functions@, name@));
                return true;
            }
            i = i + 1;
        }
        assert(!listed(self.functions@, name@));
        false
    }

    /// Tells whether `expression` reads a variable that the context does not
    /// bind.
    pub fn lacks_variable(&self, expression: &Expression) -> (b: bool)
        ensures
            b == self.misses(expression.tree()),
    {
        let tree = expression.node();
        let names = tree_variable_names(tree);
        let mut i: usize = 0;
        while i < names.len()
            invariant
                *tree == expression.tree(),
                i <= names.len(),
                names@.len() == read_variables(*tree).len(),
                forall|j: int| 0 <= j < names@.len() ==> names@[j]@ == read_variables(*tree)[j],
                forall|j: int|
                    0 <= j < i ==> context_variables(self.engine).contains_key(
                        #[trigger] read_variables(*tree)[j],
                    ),
            decreases names.len() - i,
        {
            if !context_has_variable(&self.engine, &names[i]) {
                assert(!context_variables(self.engine).contains_key(
                    read_variables(*tree)[i as int],
                ));
                return true;
            }
            i = i + 1;
        }
        false
    }

    /// Evaluates `expression` and asks for a boolean. Fails, before the engine
    /// is asked, where the expression reads a variable that the context does
    /// not bind, and wherever the engine fails.
    pub fn eval_bool(&self, expression: &Expression) -> (r: BoolOr)
        ensures
            self.misses(expression.tree()) ==> r == BoolOr::failure(),
            !r.ok ==> r == BoolOr::failure(),
    {
        proof {
            use_type_invariant(self);
        }
        if self.lacks_variable(expression) {
            BoolOr::default()
        } else {
            BoolOr::from_result(tree_eval_boolean(expression.node(), &self.engine))
        }
    }

    /// Evaluates `expression` and asks for an integer, as `eval_bool` does.
    pub fn eval_int(&self, expression: &Expression) -> (r: IntOr)
        ensures
            self.misses(expression.tree()) ==> r == IntOr::failure(),
            !r.ok ==> r == IntOr::failure(),
    {
        proof {
            use_type_invariant(self);
        }
        if self.lacks_variable(expression) {
            IntOr::default()
        } else {
            IntOr::from_result(tree_eval_int(expression.node(), &self.engine))
        }
    }

    /// Evaluates `expression` and asks for a float, given by its bits, as
    /// `eval_bool` does.
    pub fn eval_float(&self, expression: &Expression) -> (r: FloatOr)
        ensures
            self.misses(expression.tree()) ==> r == FloatOr::failure(),
            !r.ok ==> r == FloatOr::failure(),
    {
        proof {
            use_type_invariant(self);
        }
        if self.lacks_variable(expression) {
            FloatOr::default()
        } else {
            FloatOr::from_result(tree_eval_float(expression.node(), &self.engine))
        }
    }

    /// Evaluates `expression` and asks for a string, as `eval_bool` does.
    pub fn eval_string(&self, expression: &Expression) -> (r: StringOr)
        ensures
            self.misses(expression.tree()) ==> !r.ok,
            !r.ok ==> r.value@ == Seq::<char>::empty(),
    {
        proof {
            use_type_invariant(self);
        }
        if self.lacks_variable(expression) {
            StringOr::default()
        } else {
            StringOr::from_result(tree_eval_string(expression.node(), &self.engine))
        }
    }

    /// Renders the bindings for a human reader, in the engine's `Debug` form.
    pub fn debug_string(&self) -> (text: String)
        ensures
            self.renders(text@),
    {
        context_debug(&self.engine)
    }
}

impl HeapModel {
    /// The variables that the context of `ctx` binds, by name.
    pub open spec fn variables(self, ctx: ContextPtr) -> Map<Seq<char>, ValueModel> {
        self.contexts[ctx].variables()
    }

    /// The names to which the context of `ctx` binds a function.
    pub open spec fn functions(self, ctx: ContextPtr) -> Set<Seq<char>> {
        self.contexts[ctx].functions()
    }

    /// The capture tokens that the context of `ctx` hands to its host
    /// functions, by the name of the function.
    pub open spec fn captures(self, ctx: ContextPtr) -> Map<Seq<char>, usize> {
        self.contexts[ctx].captures()
    }

    /// Whether `self` differs from `before` in nothing but the bindings of
    /// the context of `ctx`.
    pub open spec fn differs_in_context(self, before: HeapModel, ctx: ContextPtr) -> bool {
        self == (HeapModel { contexts: before.contexts.insert(ctx, self.contexts[ctx]), ..before })
    }
}

/// The heap after the context that `ctx` owns, if any, was released.
pub open spec fn without_context(heap: HeapModel, ctx: ContextPtr) -> HeapModel {
    if heap.contexts.contains_key(ctx) {
        HeapModel { contexts: heap.contexts.remove(ctx), spent: heap.spent.insert(ctx), ..heap }
    } else {
        heap
    }
}

/// Makes a context that binds no variable, and no function but the guarded
/// ones. The caller owns the handle.
pub fn make_context(heap: &mut Heap) -> (ctx: ContextMutPtr)
    ensures
        old(heap)@.fresh(ctx),
        ctx.kind == HandleKind::Context,
        ctx != Handle::spec_null(HandleKind::Context),
        final(heap)@.contexts.contains_key(ctx),
        final(heap)@.variables(ctx) == Map::<Seq<char>, ValueModel>::empty(),
        final(heap)@.functions(ctx) == guarded_names(),
        final(heap)@.captures(ctx) == Map::<Seq<char>, usize>::empty(),
        final(heap)@.differs_in_context(old(heap)@, ctx),
{
    heap.put_context(Context::new())
}

/// Releases the context that `ctx` owns, with all that it binds. A handle
/// that owns no context releases nothing.
pub fn drop_context(heap: &mut Heap, ctx: ContextMutPtr)
    ensures
        final(heap)@ == without_context(old(heap)@, ctx),
{
    let _ = heap.take_context(ctx);
}

/// Whether binding the variable `name` to `value` in the context of `ctx`
/// succeeds: `ctx` owns a context, and the engine accepts the binding.
pub open spec fn binds(
    heap: HeapModel,
    ctx: ContextPtr,
    name: Seq<char>,
    value: ValueModel,
) -> bool {
    heap.contexts.contains_key(ctx) && accepts_binding(heap.variables(ctx), name, value)
}

/// Whether `after` is `before` with the variable `name` of the context of
/// `ctx` bound to `value`, and nothing else changed.
pub open spec fn bound(
    before: HeapModel,
    after: HeapModel,
    ctx: ContextPtr,
    name: Seq<char>,
    value: ValueModel,
) -> bool {
    &&& after.differs_in_context(before, ctx)
    &&& after.variables(ctx) == before.variables(ctx).insert(name, value)
    &&& after.functions(ctx) == before.functions(ctx)
    &&& after.captures(ctx) == before.captures(ctx)
}

/// Binds the variable `s` to `cell` in the context that `ctx` owns, instead
/// of whatever it was bound to. Answers `false`, and changes nothing, if `ctx`
/// owns no context or the engine refuses the binding.
pub fn set_value(
    heap: &mut Heap,
    ctx: ContextMutPtr,
    s: BorrowedString,
    cell: &ValueCell,
) -> (r: bool)
    ensures
        r == binds(old(heap)@, ctx, s@, cell@),
        r ==> bound(old(heap)@, final(heap)@, ctx, s@, cell@),
        !r ==> final(heap)@ == old(heap)@,
{
    let context = match heap.swap_context(ctx, Context::new()) {
        Ok(context) => context,
        Err(_) => {
            return false;
        },
    };
    let (context, accepted) = context.set_value(s.into_string(), cell);
    let ghost updated = context;
    let _ = heap.swap_context(ctx, context);
    proof {
        assert(heap@.contexts =~= old(heap)@.contexts.insert(ctx, updated));
        if !accepted {
            assert(heap@.contexts =~= old(heap)@.contexts);
        }
    }
    accepted
}

/// Binds the variable `s` to the boolean `v`, as `set_value` does.
pub fn set_bool(heap: &mut Heap, ctx: ContextMutPtr, s: BorrowedString, v: bool) -> (r: bool)
    ensures
        r == binds(old(heap)@, ctx, s@, ValueModel::Boolean(v)),
        r ==> bound(old(heap)@, final(heap)@, ctx, s@, ValueModel::Boolean(v)),
        !r ==> final(heap)@ == old(heap)@,
{
    set_value(heap, ctx, s, &ValueCell::Boolean(v))
}

/// Binds the variable `s` to the integer `v`, as `set_value` does.
pub fn set_int(heap: &mut Heap, ctx: ContextMutPtr, s: BorrowedString, v: i64) -> (r: bool)
    ensures
        r == binds(old(heap)@, ctx, s@, ValueModel::Int(v as int)),
        r ==> bound(old(heap)@, final(heap)@, ctx, s@, ValueModel::Int(v as int)),
        !r ==> final(heap)@ == old(heap)@,
{
    set_value(heap, ctx, s, &ValueCell::Int(v))
}

/// Binds the variable `s` to the float whose encoding is `bits`, as
/// `set_value` does.
pub fn set_float(heap: &mut Heap, ctx: ContextMutPtr, s: BorrowedString, bits: u64) -> (r: bool)
    ensures
        r == binds(old(heap)@, ctx, s@, ValueModel::Float(bits)),
        r ==> bound(old(heap)@, final(heap)@, ctx, s@, ValueModel::Float(bits)),
        !r ==> final(heap)@ == old(heap)@,
{
    set_value(heap, ctx, s, &ValueCell::Float(bits))
}

/// Binds the variable `s` to a copy of the string `v`, as `set_value` does.
pub fn set_string(
    heap: &mut Heap,
    ctx: ContextMutPtr,
    s: BorrowedString,
    v: BorrowedString,
) -> (r: bool)
    ensures
        r == binds(old(heap)@, ctx, s@, ValueModel::String(v@)),
        r ==> bound(old(heap)@, final(heap)@, ctx, s@, ValueModel::String(v@)),
        !r ==> final(heap)@ == old(heap)@,
{
    set_value(heap, ctx, s, &ValueCell::String(v.into_string()))
}

/// Binds the function `s` to `closure` in the context that `ctx` owns,
/// instead of whatever function it was bound to. From then on the engine
/// reaches the host function through `crate::closure::bridge` whenever an
/// expression calls `s`, and the host function gets the token of `closure`.
/// Variables of the same name are another matter and stay. Answers `false`,
/// and changes nothing, if `ctx` owns no context.
pub fn set_function<F>(
    heap: &mut Heap,
    ctx: ContextMutPtr,
    s: BorrowedString,
    closure: Closure<F>,
) -> (r: bool) where F: HostFunction + Send + Sync + Clone + 'static
    ensures
        r == old(heap)@.contexts.contains_key(ctx),
        r ==> final(heap)@.differs_in_context(old(heap)@, ctx),
        r ==> final(heap)@.functions(ctx) == old(heap)@.functions(ctx).insert(s@),
        r ==> final(heap)@.captures(ctx) == old(heap)@.captures(ctx).insert(
            s@,
            closure.capture.addr,
        ),
        r ==> final(heap)@.variables(ctx) == old(heap)@.variables(ctx),
        !r ==> final(heap)@ == old(heap)@,
{
    let context = match heap.swap_context(ctx, Context::new()) {
        Ok(context) => context,
        Err(_) => {
            return false;
        },
    };
    let context = context.set_function(s.into_string(), closure);
    let ghost updated = context;
    let _ = heap.swap_context(ctx, context);
    proof {
        assert(heap@.contexts =~= old(heap)@.contexts.insert(ctx, updated));
    }
    true
}

/// Renders the context that `ctx` owns for a human reader, in the engine's
/// `Debug` form. The caller owns the text. A handle that owns no context
/// gives the empty string.
pub fn context_debug_string(heap: &Heap, ctx: ContextPtr) -> (text: OwnedString)
    ensures
        heap@.contexts.contains_key(ctx) ==> heap@.contexts[ctx].renders(text@),
        !heap@.contexts.contains_key(ctx) ==> text@ == Seq::<char>::empty(),
{
    match heap.context(ctx) {
        Some(context) => OwnedString::from(context.debug_string()),
        None => OwnedString::default(),
    }
}

} // verus!
