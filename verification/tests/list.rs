use scryfall::error::Error;
use scryfall::list::{eager_step, List, ListIter};
use scryfall::uri::Uri;

fn page(items: &[i32], next: Option<&str>) -> List<i32> {
    List {
        data: items.to_vec(),
        has_more: next.is_some(),
        next_page: next.map(|u| Uri::from_url(u.to_string())),
        total_cards: None,
    }
}

#[test]
fn round_trip_three_pages_in_order() {
    // A stream over pages P1..P3, each linking to the next, yields
    // exactly the concatenation of their items in order, then ends.
    let p1 = page(&[1, 2], Some("https://api.example.com/q?page=2"));
    let p2 = page(&[3], Some("https://api.example.com/q?page=3"));
    let p3 = page(&[4, 5, 6], None);

    let mut iter = ListIter::new(p1);
    let mut seen: Vec<i32> = Vec::new();
    let mut supply = vec![p3, p2];
    loop {
        match iter.next_item() {
            Some(v) => seen.push(v),
            None => match iter.pending_next() {
                Some(link) => {
                    assert!(link.as_str().starts_with("https://api.example.com/q?page="));
                    iter.advance(Ok(supply.pop().expect("no page left to supply")));
                }
                None => break,
            },
        }
    }
    assert_eq!(seen, vec![1, 2, 3, 4, 5, 6]);
    assert!(iter.next_item().is_none());
    assert!(iter.pending_next().is_none());
}

#[test]
fn lazy_stream_absorbs_mid_stream_failure() {
    // A failed later-page fetch ends the lazy stream after the items
    // already buffered; no error value reaches the consumer.
    let p1 = page(&[1, 2], Some("https://api.example.com/q?page=2"));
    let mut iter = ListIter::new(p1);
    assert_eq!(iter.next_item(), Some(1));
    assert_eq!(iter.next_item(), Some(2));
    assert_eq!(iter.next_item(), None);
    let link = iter.pending_next().expect("a next page is pending");
    iter.advance(Err(Error::TransportError {
        message: "connection reset".to_string(),
        url: link.as_str().to_string(),
    }));
    assert!(iter.next_item().is_none());
    assert!(iter.pending_next().is_none());
}

#[test]
fn lazy_stream_pages_fetched_only_on_demand() {
    // No next-page link is surfaced while items remain buffered.
    let p1 = page(&[7], Some("https://api.example.com/q?page=2"));
    let iter = ListIter::new(p1);
    assert!(iter.pending_next().is_none());
}

#[test]
fn empty_page_with_link_asks_for_the_next_page_at_once() {
    let p1 = page(&[], Some("https://api.example.com/q?page=2"));
    let mut iter = ListIter::new(p1);
    assert_eq!(iter.next_item(), None);
    let link = iter.pending_next().expect("a next page is pending");
    assert_eq!(link.as_str(), "https://api.example.com/q?page=2");
    iter.advance(Ok(page(&[9], None)));
    assert_eq!(iter.next_item(), Some(9));
    assert_eq!(iter.next_item(), None);
    assert!(iter.pending_next().is_none());
}

#[test]
fn eager_collect_appends_in_order() {
    let p = page(&[3, 4], None);
    let (items, next) = eager_step(vec![1, 2], Ok(p)).expect("a fetched page is accumulated");
    assert_eq!(items, vec![1, 2, 3, 4]);
    assert!(next.is_none());
}

#[test]
fn eager_collect_discards_partial_result_on_failure() {
    // A failed page propagates as a hard error and the items already
    // accumulated are discarded: no partial result is returned.
    let failure = Error::HttpError {
        status: 500,
        status_text: "Internal Server Error".to_string(),
    };
    match eager_step::<i32>(vec![1, 2], Err(failure.clone())) {
        Err(e) => assert_eq!(e, failure),
        Ok(_) => panic!("expected a hard error"),
    }
}

#[test]
fn eager_collect_three_pages_with_failing_middle_page() {
    // Eager collect-all over three pages where page 2 fails: the error
    // surfaces at once and page 1's items do not survive.
    let p1 = page(&[1, 2], Some("https://api.example.com/q?page=2"));
    let failure = Error::TransportError {
        message: "connection reset".to_string(),
        url: "https://api.example.com/q?page=2".to_string(),
    };
    let (acc, next) = eager_step(Vec::new(), Ok(p1)).expect("page 1 is accumulated");
    assert_eq!(acc, vec![1, 2]);
    assert!(next.is_some());
    match eager_step::<i32>(acc, Err(failure.clone())) {
        Err(e) => assert_eq!(e, failure),
        Ok(_) => panic!("expected a hard error"),
    }
}

#[test]
fn lazy_stream_over_failing_middle_page_yields_first_page_only() {
    // The same three pages, lazily: page 1's items come out, then the
    // stream ends quietly when page 2's fetch fails.
    let p1 = page(&[1, 2], Some("https://api.example.com/q?page=2"));
    let mut iter = ListIter::new(p1);
    let mut seen: Vec<i32> = Vec::new();
    loop {
        match iter.next_item() {
            Some(v) => seen.push(v),
            None => match iter.pending_next() {
                Some(link) => iter.advance(Err(Error::TransportError {
                    message: "connection reset".to_string(),
                    url: link.as_str().to_string(),
                })),
                None => break,
            },
        }
    }
    assert_eq!(seen, vec![1, 2]);
}
