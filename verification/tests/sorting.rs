use upload_core::parts::{sort_parts, CompletedPart};

fn part(n: usize, tag: &str) -> CompletedPart {
    CompletedPart { part_number: n, e_tag: tag.to_string() }
}

#[test]
fn sorts_out_of_order_completions_ascending() {
    let collected = vec![part(3, "e3"), part(1, "e1"), part(2, "e2")];
    let sorted = sort_parts(collected);
    assert_eq!(sorted.len(), 3);
    assert_eq!(sorted[0].part_number, 1);
    assert_eq!(sorted[0].e_tag, "e1");
    assert_eq!(sorted[1].part_number, 2);
    assert_eq!(sorted[1].e_tag, "e2");
    assert_eq!(sorted[2].part_number, 3);
    assert_eq!(sorted[2].e_tag, "e3");
}

#[test]
fn sorts_sparse_part_numbers() {
    let collected = vec![part(9, "x"), part(2, "y"), part(5, "z")];
    let sorted = sort_parts(collected);
    assert_eq!(sorted[0].part_number, 2);
    assert_eq!(sorted[1].part_number, 5);
    assert_eq!(sorted[2].part_number, 9);
}

#[test]
fn sorts_empty_and_singleton() {
    assert_eq!(sort_parts(Vec::new()).len(), 0);
    let sorted = sort_parts(vec![part(1, "only")]);
    assert_eq!(sorted.len(), 1);
    assert_eq!(sorted[0].part_number, 1);
    assert_eq!(sorted[0].e_tag, "only");
}
