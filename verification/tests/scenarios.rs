use evalbridge::{
    drop_context, drop_expr, drop_value, eval_bool, eval_float, eval_int, eval_string, get_bool,
    get_float, get_int, get_string, get_tuple, make_bool, make_context, make_float, make_int,
    make_string, parse, set_bool, set_float, set_function, set_int, set_string, BorrowedString,
    Capture, Closure, Handle, Heap, HostFunction, ValuePtrOr,
};

#[derive(Clone, Copy)]
struct Host(fn(&mut Heap, Handle, Capture) -> ValuePtrOr);

impl HostFunction for Host {
    fn call(&self, heap: &mut Heap, arg: Handle, capture: Capture) -> ValuePtrOr {
        (self.0)(heap, arg, capture)
    }
}


fn text(s: &str) -> BorrowedString<'_> {
    BorrowedString::new(s)
}

fn string_length(heap: &mut Heap, arg: Handle, _capture: Capture) -> ValuePtrOr {
    let answer = get_string(heap, arg);
    if !answer.ok {
        return ValuePtrOr::default();
    }
    ValuePtrOr::from(make_int(heap, answer.value.as_str().len() as i64))
}

fn always_fails(_heap: &mut Heap, _arg: Handle, _capture: Capture) -> ValuePtrOr {
    ValuePtrOr::default()
}

fn fails_after_making_a_cell(heap: &mut Heap, _arg: Handle, _capture: Capture) -> ValuePtrOr {
    let made = make_int(heap, 5);
    ValuePtrOr { value: made, ok: false }
}

fn capture_as_int(heap: &mut Heap, _arg: Handle, capture: Capture) -> ValuePtrOr {
    ValuePtrOr::from(make_int(heap, capture.addr as i64))
}

fn returns_its_argument(_heap: &mut Heap, arg: Handle, _capture: Capture) -> ValuePtrOr {
    ValuePtrOr::from(arg)
}

fn returns_a_released_cell(heap: &mut Heap, _arg: Handle, _capture: Capture) -> ValuePtrOr {
    let made = make_int(heap, 1);
    drop_value(heap, made);
    ValuePtrOr::from(made)
}

#[test]
fn it_works() {
    let result = 2 + 2;
    assert_eq!(result, 4);
}

#[test]
fn sum_with_host_function_over_string_length() {
    let mut heap = Heap::new();
    let expr = parse(&mut heap, text("a + b * f(c)"));
    assert!(expr.ok);
    let ctx = make_context(&mut heap);
    assert!(set_int(&mut heap, ctx, text("a"), 1));
    assert!(set_int(&mut heap, ctx, text("b"), 2));
    assert!(set_string(&mut heap, ctx, text("c"), text("hello")));
    let closure = Closure { ptr: Host(string_length), capture: Capture { addr: 0 } };
    assert!(set_function(&mut heap, ctx, text("f"), closure));
    let r = eval_int(&heap, expr.expr, ctx);
    assert_eq!((r.value, r.ok), (11, true));
    drop_expr(&mut heap, expr.expr);
    drop_context(&mut heap, ctx);
    assert_eq!(heap.live_exprs(), 0);
    assert_eq!(heap.live_contexts(), 0);
    assert_eq!(heap.live_values(), 0);
}

#[test]
fn unbound_variable_fails_every_evaluator() {
    let mut heap = Heap::new();
    let expr = parse(&mut heap, text("missing"));
    assert!(expr.ok);
    let ctx = make_context(&mut heap);
    assert!(set_int(&mut heap, ctx, text("present"), 1));
    let b = eval_bool(&heap, expr.expr, ctx);
    assert_eq!((b.value, b.ok), (false, false));
    let i = eval_int(&heap, expr.expr, ctx);
    assert_eq!((i.value, i.ok), (0, false));
    let f = eval_float(&heap, expr.expr, ctx);
    assert_eq!((f.value, f.ok), (0, false));
    let s = eval_string(&heap, expr.expr, ctx);
    assert!(!s.ok);
    assert_eq!(s.value.as_str(), "");
}

#[test]
fn evaluators_give_exact_values() {
    let mut heap = Heap::new();
    let ctx = make_context(&mut heap);
    let sum = parse(&mut heap, text("1 + 2 * 3"));
    let r = eval_int(&heap, sum.expr, ctx);
    assert_eq!((r.value, r.ok), (7, true));
    let less = parse(&mut heap, text("1 < 2"));
    let r = eval_bool(&heap, less.expr, ctx);
    assert_eq!((r.value, r.ok), (true, true));
    let product = parse(&mut heap, text("1.5 * 2.0"));
    let r = eval_float(&heap, product.expr, ctx);
    assert!(r.ok);
    assert_eq!(f64::from_bits(r.value), 3.0);
    let joined = parse(&mut heap, text("\"ab\" + \"cd\""));
    let r = eval_string(&heap, joined.expr, ctx);
    assert!(r.ok);
    assert_eq!(r.value.as_str(), "abcd");
}

#[test]
fn evaluator_of_another_type_fails() {
    let mut heap = Heap::new();
    let ctx = make_context(&mut heap);
    let expr = parse(&mut heap, text("1 + 2"));
    assert!(eval_int(&heap, expr.expr, ctx).ok);
    assert!(!eval_bool(&heap, expr.expr, ctx).ok);
    assert!(!eval_float(&heap, expr.expr, ctx).ok);
    assert!(!eval_string(&heap, expr.expr, ctx).ok);
}

#[test]
fn evaluation_needs_live_handles() {
    let mut heap = Heap::new();
    let ctx = make_context(&mut heap);
    let expr = parse(&mut heap, text("1"));
    assert!(eval_int(&heap, expr.expr, ctx).ok);
    assert!(!eval_int(&heap, ctx, expr.expr).ok);
    drop_context(&mut heap, ctx);
    assert!(!eval_int(&heap, expr.expr, ctx).ok);
    let ctx = make_context(&mut heap);
    drop_expr(&mut heap, expr.expr);
    assert!(!eval_int(&heap, expr.expr, ctx).ok);
}

#[test]
fn expression_outlives_its_context() {
    let mut heap = Heap::new();
    let expr = parse(&mut heap, text("x * 2"));
    let first = make_context(&mut heap);
    assert!(set_int(&mut heap, first, text("x"), 4));
    assert_eq!(eval_int(&heap, expr.expr, first).value, 8);
    drop_context(&mut heap, first);
    let second = make_context(&mut heap);
    assert!(set_int(&mut heap, second, text("x"), 5));
    let r = eval_int(&heap, expr.expr, second);
    assert_eq!((r.value, r.ok), (10, true));
}

#[test]
fn parse_then_release_leaves_nothing() {
    let mut heap = Heap::new();
    assert_eq!(heap.live_exprs(), 0);
    let expr = parse(&mut heap, text("a + b * f(c)"));
    assert!(expr.ok);
    assert!(!expr.expr.is_null());
    assert!(heap.contains(expr.expr));
    assert_eq!(heap.live_exprs(), 1);
    drop_expr(&mut heap, expr.expr);
    assert_eq!(heap.live_exprs(), 0);
    assert_eq!(heap.live_contexts(), 0);
    assert_eq!(heap.live_values(), 0);
}

#[test]
fn parse_failure_allocates_nothing() {
    let mut heap = Heap::new();
    let expr = parse(&mut heap, text("(1 + 2"));
    assert!(!expr.ok);
    assert!(expr.expr.is_null());
    assert_eq!(heap.live_exprs(), 0);
    let ctx = make_context(&mut heap);
    assert!(!eval_int(&heap, expr.expr, ctx).ok);
}

#[test]
fn make_then_get_bool() {
    let mut heap = Heap::new();
    for v in [true, false] {
        let ptr = make_bool(&mut heap, v);
        let r = get_bool(&heap, ptr);
        assert_eq!((r.value, r.ok), (v, true));
        assert!(!get_int(&heap, ptr).ok);
        assert!(!get_float(&heap, ptr).ok);
        assert!(!get_string(&heap, ptr).ok);
        assert!(!get_tuple(&mut heap, ptr).ok);
    }
}

#[test]
fn make_then_get_int() {
    let mut heap = Heap::new();
    for v in [0, 1, -1, i64::MAX, i64::MIN] {
        let ptr = make_int(&mut heap, v);
        let r = get_int(&heap, ptr);
        assert_eq!((r.value, r.ok), (v, true));
        let b = get_bool(&heap, ptr);
        assert_eq!((b.value, b.ok), (false, false));
        assert!(!get_float(&heap, ptr).ok);
        assert!(!get_string(&heap, ptr).ok);
        assert!(!get_tuple(&mut heap, ptr).ok);
    }
}

#[test]
fn make_then_get_float() {
    let mut heap = Heap::new();
    for v in [0.0f64, -0.0, 1.5, -2.25, f64::INFINITY, f64::MAX] {
        let ptr = make_float(&mut heap, v.to_bits());
        let r = get_float(&heap, ptr);
        assert!(r.ok);
        assert_eq!(r.value, v.to_bits());
        assert_eq!(f64::from_bits(r.value), v);
        assert!(!get_bool(&heap, ptr).ok);
        let i = get_int(&heap, ptr);
        assert_eq!((i.value, i.ok), (0, false));
        assert!(!get_string(&heap, ptr).ok);
        assert!(!get_tuple(&mut heap, ptr).ok);
    }
    let nan = make_float(&mut heap, f64::NAN.to_bits());
    assert!(f64::from_bits(get_float(&heap, nan).value).is_nan());
}

#[test]
fn make_then_get_string() {
    let mut heap = Heap::new();
    for v in ["", "hello", "white space", "h\u{e9}llo \u{4e16}\u{754c}"] {
        let ptr = make_string(&mut heap, text(v));
        let r = get_string(&heap, ptr);
        assert!(r.ok);
        assert_eq!(r.value.as_str(), v);
        assert!(!get_bool(&heap, ptr).ok);
        assert!(!get_int(&heap, ptr).ok);
        assert!(!get_float(&heap, ptr).ok);
        assert!(!get_tuple(&mut heap, ptr).ok);
    }
}

#[test]
fn getters_do_not_consume_the_cell() {
    let mut heap = Heap::new();
    let ptr = make_string(&mut heap, text("kept"));
    let first = get_string(&heap, ptr);
    let second = get_string(&heap, ptr);
    assert_eq!(first.value.as_str(), "kept");
    assert_eq!(second.value.as_str(), "kept");
    assert_eq!(heap.live_values(), 1);
}

#[test]
fn fresh_handle_needs_exactly_one_release() {
    let mut heap = Heap::new();
    let ptr = make_int(&mut heap, 9);
    assert!(heap.contains(ptr));
    assert_eq!(heap.live_values(), 1);
    assert!(get_int(&heap, ptr).ok);
    drop_value(&mut heap, ptr);
    assert!(!heap.contains(ptr));
    assert_eq!(heap.live_values(), 0);
    let r = get_int(&heap, ptr);
    assert_eq!((r.value, r.ok), (0, false));
}

#[test]
fn second_release_changes_nothing() {
    let mut heap = Heap::new();
    let kept = make_int(&mut heap, 1);
    let gone = make_int(&mut heap, 2);
    drop_value(&mut heap, gone);
    drop_value(&mut heap, gone);
    assert_eq!(heap.live_values(), 1);
    assert_eq!(get_int(&heap, kept).value, 1);
}

#[test]
fn released_handle_is_never_issued_again() {
    let mut heap = Heap::new();
    let stale = make_int(&mut heap, 1);
    drop_value(&mut heap, stale);
    let next = make_int(&mut heap, 2);
    assert_ne!(stale, next);
    assert_eq!(next.index, stale.index);
    assert!(!get_int(&heap, stale).ok);
    assert_eq!(get_int(&heap, next).value, 2);
    drop_value(&mut heap, stale);
    assert_eq!(get_int(&heap, next).value, 2);
}

#[test]
fn handle_of_another_kind_owns_nothing() {
    let mut heap = Heap::new();
    let ctx = make_context(&mut heap);
    let expr = parse(&mut heap, text("1"));
    let cell = make_int(&mut heap, 1);
    assert_eq!((ctx.index, expr.expr.index, cell.index), (0, 0, 0));
    assert!(!get_int(&heap, ctx).ok);
    assert!(!get_int(&heap, expr.expr).ok);
    drop_value(&mut heap, ctx);
    drop_expr(&mut heap, cell);
    drop_context(&mut heap, expr.expr);
    assert_eq!(heap.live_contexts(), 1);
    assert_eq!(heap.live_exprs(), 1);
    assert_eq!(heap.live_values(), 1);
    assert!(!set_int(&mut heap, cell, text("x"), 1));
}

#[test]
fn binding_is_seen_by_the_next_evaluation() {
    let mut heap = Heap::new();
    let ctx = make_context(&mut heap);
    let expr = parse(&mut heap, text("x"));
    assert!(!eval_int(&heap, expr.expr, ctx).ok);
    assert!(set_int(&mut heap, ctx, text("x"), 1));
    let r = eval_int(&heap, expr.expr, ctx);
    assert_eq!((r.value, r.ok), (1, true));
}

#[test]
fn last_write_wins() {
    let mut heap = Heap::new();
    let ctx = make_context(&mut heap);
    let expr = parse(&mut heap, text("x + y"));
    assert!(set_int(&mut heap, ctx, text("x"), 1));
    assert!(set_int(&mut heap, ctx, text("y"), 10));
    assert!(set_int(&mut heap, ctx, text("x"), 2));
    assert!(set_int(&mut heap, ctx, text("x"), 3));
    let r = eval_int(&heap, expr.expr, ctx);
    assert_eq!((r.value, r.ok), (13, true));
}

#[test]
fn binding_of_another_kind_is_refused() {
    let mut heap = Heap::new();
    let ctx = make_context(&mut heap);
    let expr = parse(&mut heap, text("x"));
    assert!(set_int(&mut heap, ctx, text("x"), 7));
    assert!(!set_bool(&mut heap, ctx, text("x"), true));
    assert!(!set_float(&mut heap, ctx, text("x"), 1.0f64.to_bits()));
    assert!(!set_string(&mut heap, ctx, text("x"), text("seven")));
    let r = eval_int(&heap, expr.expr, ctx);
    assert_eq!((r.value, r.ok), (7, true));
    assert!(!eval_bool(&heap, expr.expr, ctx).ok);
}

#[test]
fn every_kind_of_variable_can_be_bound() {
    let mut heap = Heap::new();
    let ctx = make_context(&mut heap);
    assert!(set_bool(&mut heap, ctx, text("b"), true));
    assert!(set_int(&mut heap, ctx, text("i"), -4));
    assert!(set_float(&mut heap, ctx, text("f"), 0.5f64.to_bits()));
    assert!(set_string(&mut heap, ctx, text("s"), text("str")));
    let b = parse(&mut heap, text("b"));
    let i = parse(&mut heap, text("i"));
    let f = parse(&mut heap, text("f"));
    let s = parse(&mut heap, text("s"));
    assert_eq!(eval_bool(&heap, b.expr, ctx), evalbridge::BoolOr { value: true, ok: true });
    assert_eq!(eval_int(&heap, i.expr, ctx), evalbridge::IntOr { value: -4, ok: true });
    assert_eq!(
        eval_float(&heap, f.expr, ctx),
        evalbridge::FloatOr { value: 0.5f64.to_bits(), ok: true }
    );
    assert_eq!(eval_string(&heap, s.expr, ctx).value.as_str(), "str");
}

#[test]
fn binding_in_a_released_context_fails() {
    let mut heap = Heap::new();
    let ctx = make_context(&mut heap);
    drop_context(&mut heap, ctx);
    assert!(!set_int(&mut heap, ctx, text("x"), 1));
    assert!(!set_bool(&mut heap, ctx, text("x"), true));
    assert!(!set_float(&mut heap, ctx, text("x"), 0));
    assert!(!set_string(&mut heap, ctx, text("x"), text("y")));
    let closure = Closure { ptr: Host(always_fails), capture: Capture { addr: 0 } };
    assert!(!set_function(&mut heap, ctx, text("f"), closure));
    assert_eq!(heap.live_contexts(), 0);
}

#[test]
fn contexts_are_independent() {
    let mut heap = Heap::new();
    let one = make_context(&mut heap);
    let two = make_context(&mut heap);
    let expr = parse(&mut heap, text("x"));
    assert!(set_int(&mut heap, one, text("x"), 1));
    assert!(set_int(&mut heap, two, text("x"), 2));
    assert_eq!(eval_int(&heap, expr.expr, one).value, 1);
    assert_eq!(eval_int(&heap, expr.expr, two).value, 2);
}

#[test]
fn failing_host_function_fails_every_evaluation() {
    let mut heap = Heap::new();
    let ctx = make_context(&mut heap);
    let closure = Closure { ptr: Host(always_fails), capture: Capture { addr: 0 } };
    assert!(set_function(&mut heap, ctx, text("f"), closure));
    for source in ["f(0)", "1 + f(2)", "f(\"x\") == 1", "f(1, 2)", "f()"] {
        let expr = parse(&mut heap, text(source));
        assert!(expr.ok);
        assert!(!eval_bool(&heap, expr.expr, ctx).ok);
        assert!(!eval_int(&heap, expr.expr, ctx).ok);
        assert!(!eval_float(&heap, expr.expr, ctx).ok);
        assert!(!eval_string(&heap, expr.expr, ctx).ok);
    }
    let untouched = parse(&mut heap, text("1 + 1"));
    assert_eq!(eval_int(&heap, untouched.expr, ctx).value, 2);
}

#[test]
fn failure_wins_over_the_handle_in_the_reply() {
    let mut heap = Heap::new();
    let ctx = make_context(&mut heap);
    let closure = Closure { ptr: Host(fails_after_making_a_cell), capture: Capture { addr: 0 } };
    assert!(set_function(&mut heap, ctx, text("f"), closure));
    let expr = parse(&mut heap, text("f(0)"));
    assert!(!eval_int(&heap, expr.expr, ctx).ok);
}

#[test]
fn host_function_returning_an_integer() {
    let mut heap = Heap::new();
    let ctx = make_context(&mut heap);
    let closure = Closure { ptr: Host(capture_as_int), capture: Capture { addr: 42 } };
    assert!(set_function(&mut heap, ctx, text("f"), closure));
    let expr = parse(&mut heap, text("f(0)"));
    let r = eval_int(&heap, expr.expr, ctx);
    assert_eq!((r.value, r.ok), (42, true));
    let twice = parse(&mut heap, text("f(0) + f(1)"));
    assert_eq!(eval_int(&heap, twice.expr, ctx).value, 84);
    assert_eq!(heap.live_values(), 0);
}

#[test]
fn capture_is_handed_back_on_every_call() {
    let mut heap = Heap::new();
    let ctx = make_context(&mut heap);
    let seven = Closure { ptr: Host(capture_as_int), capture: Capture { addr: 7 } };
    let nine = Closure { ptr: Host(capture_as_int), capture: Capture { addr: 9 } };
    assert!(set_function(&mut heap, ctx, text("seven"), seven));
    assert!(set_function(&mut heap, ctx, text("nine"), nine));
    let expr = parse(&mut heap, text("seven(0) * 10 + nine(0)"));
    assert_eq!(eval_int(&heap, expr.expr, ctx).value, 79);
}

#[test]
fn rebinding_a_function_replaces_it() {
    let mut heap = Heap::new();
    let ctx = make_context(&mut heap);
    let expr = parse(&mut heap, text("f(0)"));
    let first = Closure { ptr: Host(capture_as_int), capture: Capture { addr: 1 } };
    assert!(set_function(&mut heap, ctx, text("f"), first));
    assert_eq!(eval_int(&heap, expr.expr, ctx).value, 1);
    let second = Closure { ptr: Host(always_fails), capture: Capture { addr: 0 } };
    assert!(set_function(&mut heap, ctx, text("f"), second));
    assert!(!eval_int(&heap, expr.expr, ctx).ok);
}

#[test]
fn function_and_variable_of_one_name_coexist() {
    let mut heap = Heap::new();
    let ctx = make_context(&mut heap);
    assert!(set_int(&mut heap, ctx, text("f"), 100));
    let closure = Closure { ptr: Host(capture_as_int), capture: Capture { addr: 1 } };
    assert!(set_function(&mut heap, ctx, text("f"), closure));
    let expr = parse(&mut heap, text("f + f(0)"));
    assert_eq!(eval_int(&heap, expr.expr, ctx).value, 101);
}

#[test]
fn reply_that_names_the_borrowed_argument_fails() {
    let mut heap = Heap::new();
    let ctx = make_context(&mut heap);
    let closure = Closure { ptr: Host(returns_its_argument), capture: Capture { addr: 0 } };
    assert!(set_function(&mut heap, ctx, text("f"), closure));
    let expr = parse(&mut heap, text("f(1)"));
    assert!(!eval_int(&heap, expr.expr, ctx).ok);
}

#[test]
fn reply_that_names_a_released_cell_fails() {
    let mut heap = Heap::new();
    let ctx = make_context(&mut heap);
    let closure = Closure { ptr: Host(returns_a_released_cell), capture: Capture { addr: 0 } };
    assert!(set_function(&mut heap, ctx, text("f"), closure));
    let expr = parse(&mut heap, text("f(1)"));
    assert!(!eval_int(&heap, expr.expr, ctx).ok);
}

fn doubled(heap: &mut Heap, arg: Handle, _capture: Capture) -> ValuePtrOr {
    let tuple = get_tuple(heap, arg);
    match tuple.value.get(0) {
        Some(first) => ValuePtrOr::from(make_int(heap, get_int(heap, first).value * 2)),
        None => ValuePtrOr::default(),
    }
}

#[test]
fn engine_functions_that_abort_give_an_error_instead() {
    let mut heap = Heap::new();
    let ctx = make_context(&mut heap);
    for source in [
        "shl(1, 64)",
        "shl(1, -1)",
        "shr(8, 64)",
        "shr(8, -3)",
        "math::abs(-9223372036854775807 - 1)",
        "str::substring(\"h\u{e9}llo\", 2)",
        "str::substring(\"h\u{e9}llo\", 0, 2)",
        "str::substring(\"hello\", 3, 2)",
        "str::substring(\"hello\", 0, 6)",
        "str::substring(\"hello\", -1)",
        "1 + len(str::substring(\"h\u{e9}\", 2))",
        "min(1, shl(1, 64))",
    ] {
        let expr = parse(&mut heap, text(source));
        assert!(expr.ok);
        assert!(!eval_bool(&heap, expr.expr, ctx).ok);
        assert!(!eval_int(&heap, expr.expr, ctx).ok);
        assert!(!eval_float(&heap, expr.expr, ctx).ok);
        assert!(!eval_string(&heap, expr.expr, ctx).ok);
    }
}

#[test]
fn engine_functions_that_abort_work_on_all_other_arguments() {
    let mut heap = Heap::new();
    let ctx = make_context(&mut heap);
    for (source, expected) in [
        ("shl(1, 2)", 4),
        ("shl(1, 63)", i64::MIN),
        ("shl(3, 62)", -4611686018427387904),
        ("shl(-1, 0)", -1),
        ("shr(8, 1)", 4),
        ("shr(-8, 1)", -4),
        ("shr(-1, 63)", -1),
        ("shr(9223372036854775807, 62)", 1),
        ("math::abs(-1)", 1),
        ("math::abs(7)", 7),
        ("math::abs(-9223372036854775807)", i64::MAX),
        ("min(1, shl(1, 1))", 1),
        ("len(str::substring(\"hello\", 1))", 4),
    ] {
        let expr = parse(&mut heap, text(source));
        let r = eval_int(&heap, expr.expr, ctx);
        assert_eq!((r.value, r.ok), (expected, true), "{}", source);
    }
    for (source, expected) in [("math::abs(-1.5)", 1.5f64), ("math::abs(2.0)", 2.0)] {
        let expr = parse(&mut heap, text(source));
        let r = eval_float(&heap, expr.expr, ctx);
        assert!(r.ok);
        assert_eq!(f64::from_bits(r.value), expected);
    }
    for (source, expected) in [
        ("str::substring(\"hello\", 1, 3)", "el"),
        ("str::substring(\"hello\", 1)", "ello"),
        ("str::substring(\"hello\", 5)", ""),
        ("str::substring(\"hello\", 0, 0)", ""),
        ("str::substring(\"h\u{e9}llo\", 1, 3)", "\u{e9}"),
        ("str::substring(\"h\u{e9}llo\", 3)", "llo"),
    ] {
        let expr = parse(&mut heap, text(source));
        let r = eval_string(&heap, expr.expr, ctx);
        assert!(r.ok, "{}", source);
        assert_eq!(r.value.as_str(), expected);
    }
    let wrong = parse(&mut heap, text("math::abs(\"x\")"));
    assert!(!eval_int(&heap, wrong.expr, ctx).ok);
    let wrong = parse(&mut heap, text("shl(1)"));
    assert!(!eval_int(&heap, wrong.expr, ctx).ok);
    let wrong = parse(&mut heap, text("shl(1, 2.0)"));
    assert!(!eval_int(&heap, wrong.expr, ctx).ok);
    let wrong = parse(&mut heap, text("str::substring(\"hello\", 1, 2, 3)"));
    assert!(!eval_string(&heap, wrong.expr, ctx).ok);
}

#[test]
fn other_engine_functions_are_reached() {
    let mut heap = Heap::new();
    let ctx = make_context(&mut heap);
    let e = parse(&mut heap, text("len(\"hello\") + max(1, 2, 3) + if(true, 10, 20)"));
    assert_eq!(eval_int(&heap, e.expr, ctx), evalbridge::IntOr { value: 18, ok: true });
    let e = parse(&mut heap, text("typeof(1.5) + str::to_uppercase(\"x\")"));
    assert_eq!(eval_string(&heap, e.expr, ctx).value.as_str(), "floatX");
    let e = parse(&mut heap, text("floor(2.5) + math::sqrt(4.0)"));
    assert_eq!(f64::from_bits(eval_float(&heap, e.expr, ctx).value), 4.0);
    let e = parse(&mut heap, text("bitand(6, 3) == 2 && contains((1, 2), 2)"));
    assert_eq!(eval_bool(&heap, e.expr, ctx), evalbridge::BoolOr { value: true, ok: true });
}

#[test]
fn host_function_may_take_the_name_of_an_engine_function() {
    let mut heap = Heap::new();
    let ctx = make_context(&mut heap);
    let other = make_context(&mut heap);
    let expr = parse(&mut heap, text("shl(21, 64)"));
    assert!(!eval_int(&heap, expr.expr, ctx).ok);
    let closure = Closure { ptr: Host(doubled), capture: Capture { addr: 0 } };
    assert!(set_function(&mut heap, ctx, text("shl"), closure));
    let r = eval_int(&heap, expr.expr, ctx);
    assert_eq!((r.value, r.ok), (42, true));
    assert!(!eval_int(&heap, expr.expr, other).ok);
    let both = parse(&mut heap, text("shl(1, 1) + shr(16, 1)"));
    assert_eq!(eval_int(&heap, both.expr, ctx).value, 10);
    assert_eq!(eval_int(&heap, both.expr, other).value, 10);
    let closure = Closure { ptr: Host(doubled), capture: Capture { addr: 0 } };
    assert!(set_function(&mut heap, ctx, text("shr"), closure));
    assert_eq!(eval_int(&heap, both.expr, ctx).value, 34);
}

#[test]
fn odd_expressions_fail_or_evaluate_but_never_abort() {
    let pieces = [
        "+", "-", "*", "/", "%", "^", "(", ")", ",", ";", "=", "!", ">", "<", "&", "|", " ", "a",
        "b", "1", "2", "0x", "e", ".", "\"", "\\", "true", "len", "min", "if", "shl", "shr",
        "str::substring", "math::abs", "typeof", "\u{e9}", "9223372036854775807", "1e", "f",
        "//", "/*", "*/", "math::pow", "str::from", "contains", "max", "floor", "bitnot",
    ];
    let mut heap = Heap::new();
    let ctx = make_context(&mut heap);
    assert!(set_int(&mut heap, ctx, text("a"), i64::MIN));
    assert!(set_string(&mut heap, ctx, text("b"), text("h\u{e9}llo")));
    let closure = Closure { ptr: Host(string_length), capture: Capture { addr: 0 } };
    assert!(set_function(&mut heap, ctx, text("f"), closure));
    let mut state: u64 = 0x243f_6a88_85a3_08d3;
    let mut next = move || {
        state ^= state << 13;
        state ^= state >> 7;
        state ^= state << 17;
        state
    };
    let mut parsed = 0;
    let mut evaluated = 0;
    for _ in 0..50_000 {
        let mut source = String::new();
        for _ in 0..1 + next() % 9 {
            source.push_str(pieces[(next() % pieces.len() as u64) as usize]);
        }
        let expr = parse(&mut heap, text(&source));
        if !expr.ok {
            continue;
        }
        parsed += 1;
        let outcomes = [
            eval_bool(&heap, expr.expr, ctx).ok,
            eval_int(&heap, expr.expr, ctx).ok,
            eval_float(&heap, expr.expr, ctx).ok,
            eval_string(&heap, expr.expr, ctx).ok,
        ];
        let succeeded = outcomes.iter().filter(|ok| **ok).count();
        assert!(succeeded <= 1);
        evaluated += succeeded;
        drop_expr(&mut heap, expr.expr);
    }
    assert!(parsed > 1000);
    assert!(evaluated > 100);
    assert_eq!(heap.live_exprs(), 0);
    assert_eq!(heap.live_values(), 0);
}

#[test]
fn unbound_variable_fails_whatever_else_the_expression_holds() {
    let mut heap = Heap::new();
    let ctx = make_context(&mut heap);
    assert!(set_int(&mut heap, ctx, text("a"), 1));
    let closure = Closure { ptr: Host(capture_as_int), capture: Capture { addr: 3 } };
    assert!(set_function(&mut heap, ctx, text("f"), closure));
    for source in ["f(0) + missing", "missing + f(0)", "if(true, a, missing)", "a; missing; a"] {
        let expr = parse(&mut heap, text(source));
        assert!(expr.ok);
        assert_eq!(eval_int(&heap, expr.expr, ctx), evalbridge::IntOr { value: 0, ok: false });
        assert!(!eval_bool(&heap, expr.expr, ctx).ok);
        assert!(!eval_float(&heap, expr.expr, ctx).ok);
        assert!(!eval_string(&heap, expr.expr, ctx).ok);
    }
    assert!(set_int(&mut heap, ctx, text("missing"), 10));
    let expr = parse(&mut heap, text("f(0) + missing"));
    assert_eq!(eval_int(&heap, expr.expr, ctx), evalbridge::IntOr { value: 13, ok: true });
}
