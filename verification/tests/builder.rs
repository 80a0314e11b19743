use build_array::ArrayBuilder;

#[test]
fn exact_roundtrip() {
    let mut b: ArrayBuilder<u8, 3> = ArrayBuilder::new();
    b.push(1);
    b.push(2);
    b.push(3);
    let arr = b.build_exact().unwrap();
    assert_eq!(arr, [1, 2, 3]);
}

#[test]
fn exact_zero_capacity() {
    let mut b: ArrayBuilder<u8, 0> = ArrayBuilder::new();
    let arr = b.build_exact().unwrap();
    assert_eq!(arr, []);
    b.push(1);
    let err = b.build_exact().unwrap_err();
    assert_eq!(err.expected, 0);
    assert_eq!(err.actual, 1);
}

#[test]
fn exact_too_few_then_pad() {
    let mut b: ArrayBuilder<&str, 3> = ArrayBuilder::new();
    b.push("only");
    let err = b.build_exact().unwrap_err();
    assert_eq!(err.expected, 3);
    assert_eq!(err.actual, 1);
    // The failed build left the builder unchanged.
    assert_eq!(b.as_slice(), ["only"]);
    let arr = b.build_pad("x").unwrap();
    assert_eq!(arr, ["only", "x", "x"]);
}

#[test]
fn exact_too_many() {
    let mut b: ArrayBuilder<&str, 2> = ArrayBuilder::new();
    b.push("way");
    b.push("too");
    b.push("many");
    let err = b.build_exact().unwrap_err();
    assert_eq!(err.expected, 2);
    assert_eq!(err.actual, 3);
    // Only the first two pushes were stored.
    assert_eq!(b.as_slice(), ["way", "too"]);
}

#[test]
fn exact_just_right() {
    let mut b: ArrayBuilder<&str, 2> = ArrayBuilder::new();
    b.push("just");
    b.push("right");
    assert_eq!(b.build_exact().unwrap(), ["just", "right"]);
}

#[test]
fn pad_fills_remaining_slots() {
    let mut b: ArrayBuilder<&str, 3> = ArrayBuilder::new();
    b.push("first");
    let arr = b.build_pad("padding").unwrap();
    assert_eq!(arr, ["first", "padding", "padding"]);
    // Success resets the builder to the fresh empty state.
    assert_eq!(b.as_slice().len(), 0);
}

#[test]
fn pad_rejects_excess() {
    let mut b: ArrayBuilder<&str, 1> = ArrayBuilder::new();
    b.push("first");
    b.push("too many now!");
    let err = b.build_pad("").unwrap_err();
    assert_eq!(err.expected, 1);
    assert_eq!(err.actual, 2);
    // The failed build left the builder unchanged.
    assert_eq!(b.as_slice(), ["first"]);
}

#[test]
fn pad_truncate_forgives_excess() {
    let mut b: ArrayBuilder<&str, 1> = ArrayBuilder::new();
    b.push("first");
    b.push("too many now!");
    let arr = b.build_pad_truncate("");
    assert_eq!(arr, ["first"]);
    // The excess is forgiven: a strict build now sees a fresh builder.
    let err = b.build_exact().unwrap_err();
    assert_eq!(err.expected, 1);
    assert_eq!(err.actual, 0);
}

#[test]
fn pad_truncate_reuse_after_success() {
    let mut b: ArrayBuilder<u8, 2> = ArrayBuilder::new();
    b.push(1);
    b.push(2);
    b.push(3);
    assert_eq!(b.build_pad_truncate(0), [1, 2]);
    b.push(4);
    b.push(5);
    assert_eq!(b.build_exact().unwrap(), [4, 5]);
}

#[test]
fn truncate_ignores_excess() {
    let mut b: ArrayBuilder<&str, 1> = ArrayBuilder::new();
    b.push("first");
    b.push("ignored");
    assert_eq!(b.build_truncate().unwrap(), ["first"]);
}

#[test]
fn truncate_rejects_shortfall() {
    let mut b: ArrayBuilder<&str, 1> = ArrayBuilder::new();
    let err = b.build_truncate().unwrap_err();
    assert_eq!(err.expected, 1);
    assert_eq!(err.actual, 0);
}

#[test]
fn truncate_keeps_excess_count() {
    let mut b: ArrayBuilder<u8, 1> = ArrayBuilder::new();
    b.push(1);
    b.push(2);
    assert_eq!(b.build_truncate().unwrap(), [1]);
    // Unlike build_pad_truncate, the excess count survives the success.
    let err = b.build_exact().unwrap_err();
    assert_eq!(err.expected, 1);
    assert_eq!(err.actual, 1);
}

#[test]
fn failed_build_is_idempotent() {
    let mut b: ArrayBuilder<u8, 3> = ArrayBuilder::new();
    b.push(9);
    let e1 = b.build_exact().unwrap_err();
    let e2 = b.build_exact().unwrap_err();
    assert_eq!(e1.expected, e2.expected);
    assert_eq!(e1.actual, e2.actual);
    assert_eq!(b.as_slice(), [9]);
    let p1 = b.build_truncate().unwrap_err();
    let p2 = b.build_truncate().unwrap_err();
    assert_eq!(p1.expected, p2.expected);
    assert_eq!(p1.actual, p2.actual);
    assert_eq!(b.as_slice(), [9]);
}

#[test]
fn free_new_shorthand() {
    let mut b = build_array::new::<&str, 2>();
    b.push("hello");
    b.push("world");
    assert_eq!(b.build_exact().unwrap(), ["hello", "world"]);
}

#[test]
fn default_is_empty() {
    let mut b: ArrayBuilder<u8, 2> = Default::default();
    assert_eq!(b.as_slice().len(), 0);
    let err = b.build_exact().unwrap_err();
    assert_eq!(err.actual, 0);
}

#[test]
fn extend_pushes_in_order() {
    let mut b: ArrayBuilder<u8, 3> = ArrayBuilder::new();
    b.push(1);
    b.extend(vec![2, 3, 4, 5]);
    assert_eq!(b.as_slice(), [1, 2, 3]);
    let err = b.build_exact().unwrap_err();
    assert_eq!(err.expected, 3);
    assert_eq!(err.actual, 5);
}

#[test]
fn from_vec_collects() {
    let mut b: ArrayBuilder<u8, 2> = ArrayBuilder::from_vec(vec![7, 8]);
    assert_eq!(b.build_exact().unwrap(), [7, 8]);
    let mut over: ArrayBuilder<u8, 2> = ArrayBuilder::from_vec(vec![1, 2, 3, 4]);
    assert_eq!(over.as_slice(), [1, 2]);
    assert_eq!(over.build_exact().unwrap_err().actual, 4);
}

#[test]
fn as_mut_slice_edits_stored_items() {
    let mut b: ArrayBuilder<u8, 2> = ArrayBuilder::new();
    b.push(1);
    b.push(2);
    b.as_mut_slice()[0] = 10;
    assert_eq!(b.build_exact().unwrap(), [10, 2]);
}

#[test]
fn clone_keeps_contents() {
    let mut b: ArrayBuilder<u8, 2> = ArrayBuilder::new();
    b.push(1);
    let mut c = b.clone();
    c.push(2);
    assert_eq!(b.as_slice(), [1]);
    assert_eq!(c.build_exact().unwrap(), [1, 2]);
}
