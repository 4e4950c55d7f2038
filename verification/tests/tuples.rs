use evalbridge::{
    drop_tuple_slice, drop_value, eval_int, eval_string, get_bool, get_float, get_int,
    get_string, get_tuple, make_context, make_int, parse, set_function, BorrowedString, Capture,
    Closure, Handle, Heap, HostFunction, TupleSlice, ValueCell, ValuePtrOr,
};

#[derive(Clone, Copy)]
struct Host(fn(&mut Heap, Handle, Capture) -> ValuePtrOr);

impl HostFunction for Host {
    fn call(&self, heap: &mut Heap, arg: Handle, capture: Capture) -> ValuePtrOr {
        (self.0)(heap, arg, capture)
    }
}


fn one_two_three() -> ValueCell {
    ValueCell::Tuple(vec![ValueCell::Int(1), ValueCell::Int(2), ValueCell::Int(3)])
}

fn sum_of_items(heap: &mut Heap, arg: Handle, _capture: Capture) -> ValuePtrOr {
    let tuple = get_tuple(heap, arg);
    if !tuple.ok {
        return ValuePtrOr::default();
    }
    let mut sum = 0;
    for i in 0..tuple.value.length() {
        let item = get_int(heap, tuple.value.get(i).unwrap());
        if !item.ok {
            return ValuePtrOr::default();
        }
        sum += item.value;
    }
    drop_tuple_slice(heap, tuple.value);
    if heap.live_values() != 1 {
        return ValuePtrOr::default();
    }
    ValuePtrOr::from(make_int(heap, sum))
}

fn second_item(heap: &mut Heap, arg: Handle, _capture: Capture) -> ValuePtrOr {
    let tuple = get_tuple(heap, arg);
    match tuple.value.get(1) {
        Some(item) => ValuePtrOr::from(item),
        None => ValuePtrOr::default(),
    }
}

#[test]
fn tuple_extraction_yields_one_cell_per_item() {
    let mut heap = Heap::new();
    let tuple = heap.put_value(one_two_three());
    let r = get_tuple(&mut heap, tuple);
    assert!(r.ok);
    assert_eq!(r.value.length(), 3);
    for (i, expected) in [1, 2, 3].into_iter().enumerate() {
        let item = get_int(&heap, r.value.get(i).unwrap());
        assert_eq!((item.value, item.ok), (expected, true));
    }
    assert_eq!(r.value.get(3), None);
    assert_eq!(heap.live_values(), 4);
    drop_tuple_slice(&mut heap, r.value);
    assert_eq!(heap.live_values(), 1);
    drop_value(&mut heap, tuple);
    assert_eq!(heap.live_values(), 0);
}

#[test]
fn tuple_extraction_hands_out_distinct_fresh_handles() {
    let mut heap = Heap::new();
    let tuple = heap.put_value(one_two_three());
    let handles = get_tuple(&mut heap, tuple).value.into_vec();
    assert_eq!(handles.len(), 3);
    assert_ne!(handles[0], handles[1]);
    assert_ne!(handles[1], handles[2]);
    assert_ne!(handles[0], handles[2]);
    assert!(!handles.contains(&tuple));
}

#[test]
fn tuple_extraction_leaves_the_tuple_in_place() {
    let mut heap = Heap::new();
    let tuple = heap.put_value(one_two_three());
    let first = get_tuple(&mut heap, tuple);
    let second = get_tuple(&mut heap, tuple);
    assert!(first.ok && second.ok);
    drop_tuple_slice(&mut heap, first.value);
    assert_eq!(get_int(&heap, second.value.get(2).unwrap()).value, 3);
    drop_tuple_slice(&mut heap, second.value);
    assert!(get_tuple(&mut heap, tuple).ok);
}

#[test]
fn extracted_items_are_copies() {
    let mut heap = Heap::new();
    let tuple = heap.put_value(one_two_three());
    let r = get_tuple(&mut heap, tuple);
    drop_value(&mut heap, tuple);
    assert_eq!(get_int(&heap, r.value.get(0).unwrap()).value, 1);
    assert_eq!(heap.live_values(), 3);
}

#[test]
fn tuple_of_mixed_items() {
    let mut heap = Heap::new();
    let tuple = heap.put_value(ValueCell::Tuple(vec![
        ValueCell::Boolean(true),
        ValueCell::Float(2.5f64.to_bits()),
        ValueCell::String(String::from("three")),
        ValueCell::Tuple(vec![ValueCell::Int(4), ValueCell::Empty]),
        ValueCell::Empty,
    ]));
    let r = get_tuple(&mut heap, tuple);
    assert!(r.ok);
    assert_eq!(r.value.length(), 5);
    assert_eq!(get_bool(&heap, r.value.get(0).unwrap()).value, true);
    assert_eq!(f64::from_bits(get_float(&heap, r.value.get(1).unwrap()).value), 2.5);
    assert_eq!(get_string(&heap, r.value.get(2).unwrap()).value.as_str(), "three");
    let inner = get_tuple(&mut heap, r.value.get(3).unwrap());
    assert!(inner.ok);
    assert_eq!(inner.value.length(), 2);
    assert_eq!(get_int(&heap, inner.value.get(0).unwrap()).value, 4);
    let empty = r.value.get(4).unwrap();
    assert!(!get_bool(&heap, empty).ok);
    assert!(!get_int(&heap, empty).ok);
    assert!(!get_float(&heap, empty).ok);
    assert!(!get_string(&heap, empty).ok);
    assert!(!get_tuple(&mut heap, empty).ok);
}

#[test]
fn empty_tuple_gives_an_empty_buffer() {
    let mut heap = Heap::new();
    let tuple = heap.put_value(ValueCell::Tuple(Vec::new()));
    let r = get_tuple(&mut heap, tuple);
    assert!(r.ok);
    assert_eq!(r.value.length(), 0);
    assert_eq!(heap.live_values(), 1);
}

#[test]
fn tuple_extraction_fails_on_other_cells() {
    let mut heap = Heap::new();
    let cell = make_int(&mut heap, 1);
    let r = get_tuple(&mut heap, cell);
    assert!(!r.ok);
    assert_eq!(r.value.length(), 0);
    assert_eq!(heap.live_values(), 1);
    drop_value(&mut heap, cell);
    let r = get_tuple(&mut heap, cell);
    assert!(!r.ok);
    assert_eq!(heap.live_values(), 0);
}

#[test]
fn releasing_a_buffer_skips_dead_and_repeated_handles() {
    let mut heap = Heap::new();
    let kept = make_int(&mut heap, 0);
    let a = make_int(&mut heap, 1);
    let b = make_int(&mut heap, 2);
    drop_value(&mut heap, b);
    drop_tuple_slice(&mut heap, TupleSlice::from(vec![a, b, a]));
    assert_eq!(heap.live_values(), 1);
    assert_eq!(get_int(&heap, kept).value, 0);
}

#[test]
fn host_function_reads_a_tuple_argument() {
    let mut heap = Heap::new();
    let ctx = make_context(&mut heap);
    let closure = Closure { ptr: Host(sum_of_items), capture: Capture { addr: 0 } };
    assert!(set_function(&mut heap, ctx, BorrowedString::new("sum"), closure));
    let expr = parse(&mut heap, BorrowedString::new("sum(1, 2, 3) * 2"));
    let r = eval_int(&heap, expr.expr, ctx);
    assert_eq!((r.value, r.ok), (12, true));
    let wrong = parse(&mut heap, BorrowedString::new("sum(1, \"two\")"));
    assert!(!eval_int(&heap, wrong.expr, ctx).ok);
    let scalar = parse(&mut heap, BorrowedString::new("sum(1)"));
    assert!(!eval_int(&heap, scalar.expr, ctx).ok);
}

#[test]
fn host_function_returns_an_extracted_item() {
    let mut heap = Heap::new();
    let ctx = make_context(&mut heap);
    let closure = Closure { ptr: Host(second_item), capture: Capture { addr: 0 } };
    assert!(set_function(&mut heap, ctx, BorrowedString::new("second"), closure));
    let expr = parse(&mut heap, BorrowedString::new("second(1, \"two\", 3)"));
    let r = eval_string(&heap, expr.expr, ctx);
    assert!(r.ok);
    assert_eq!(r.value.as_str(), "two");
    let short = parse(&mut heap, BorrowedString::new("second(1)"));
    assert!(!eval_string(&heap, short.expr, ctx).ok);
}
