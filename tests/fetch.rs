use pokedex::FetchBatch;

fn urls(n: usize) -> Vec<String> {
    (0..n).map(|i| format!("https://example.org/{}", i)).collect()
}

#[test]
fn batch_hands_out_each_address_once() {
    let mut b: FetchBatch<u32> = FetchBatch::new(urls(3));
    assert_eq!(b.len(), 3);
    assert_eq!(b.next_request(), Some((0, String::from("https://example.org/0"))));
    assert_eq!(b.next_request(), Some((1, String::from("https://example.org/1"))));
    assert_eq!(b.next_request(), Some((2, String::from("https://example.org/2"))));
    assert_eq!(b.next_request(), None);
    assert!(b.is_pending(1));
    assert!(!b.is_done());
}

#[test]
fn batch_returns_exactly_the_successes_in_any_completion_order() {
    let mut b: FetchBatch<u32> = FetchBatch::new(urls(5));
    while b.next_request().is_some() {}
    let outcomes = [Some(10), None, Some(12), None, Some(14)];
    for &i in &[3usize, 0, 4, 1, 2] {
        assert!(b.is_pending(i));
        b.complete(i, outcomes[i]);
        assert!(!b.is_pending(i));
    }
    assert!(b.is_done());
    assert_eq!(b.into_results(), vec![10, 12, 14]);
}

#[test]
fn batch_where_everything_fails_returns_nothing() {
    let mut b: FetchBatch<u32> = FetchBatch::new(urls(2));
    while b.next_request().is_some() {}
    b.complete(1, None);
    b.complete(0, None);
    assert!(b.is_done());
    assert_eq!(b.into_results(), Vec::<u32>::new());
}

#[test]
fn empty_batch_requests_nothing() {
    let mut b: FetchBatch<u32> = FetchBatch::new(Vec::new());
    assert_eq!(b.next_request(), None);
    assert!(b.is_done());
    assert_eq!(b.into_results(), Vec::<u32>::new());
}
