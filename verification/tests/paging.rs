//! The page envelope and the page-to-page state machine: a chained run of
//! pages yields the concatenation of their values in order, terminates, and
//! stays terminated; a mid-run failure ends the sequence early and is kept
//! in the diagnostic field.

use bitbucket::error::Error;
use bitbucket::internal_api::Page;
use bitbucket::json::{parse_json, FromJson};
use bitbucket::pagination::PageState;

fn page(values: &[&str], next: Option<&str>) -> Page<String> {
    Page {
        pagelen: 10,
        size: Some(values.len() as u16),
        page: 1,
        next: next.map(|s| s.to_string()),
        previous: None,
        values: values.iter().map(|s| s.to_string()).collect(),
    }
}

#[test]
fn page_envelope_decodes_fields_and_values_in_order() {
    let body = "{\"pagelen\":10,\"size\":2,\"page\":1,\
                \"next\":\"https://api.example.org/2.0/repositories?page=2\",\
                \"values\":[\"a\",\"b\"]}";
    let j = parse_json(body).unwrap();
    let p = Page::<String>::from_json(&j).expect("envelope must decode");
    assert_eq!(p.pagelen, 10);
    assert_eq!(p.size, Some(2));
    assert_eq!(p.page, 1);
    assert_eq!(
        p.next.as_deref(),
        Some("https://api.example.org/2.0/repositories?page=2")
    );
    assert_eq!(p.previous, None);
    assert_eq!(p.values, vec!["a".to_string(), "b".to_string()]);
}

#[test]
fn page_envelope_optional_fields_may_be_null_or_absent() {
    let body = "{\"pagelen\":10,\"size\":null,\"page\":1,\"next\":null,\"values\":[]}";
    let j = parse_json(body).unwrap();
    let p = Page::<String>::from_json(&j).expect("envelope must decode");
    assert_eq!(p.size, None);
    assert_eq!(p.next, None);
    assert!(p.values.is_empty());
}

#[test]
fn page_envelope_rejects_missing_values() {
    let body = "{\"pagelen\":10,\"page\":1}";
    let j = parse_json(body).unwrap();
    assert!(Page::<String>::from_json(&j).is_none());
}

#[test]
fn page_envelope_rejects_one_bad_element() {
    let body = "{\"pagelen\":10,\"page\":1,\"values\":[\"a\",7]}";
    let j = parse_json(body).unwrap();
    assert!(Page::<String>::from_json(&j).is_none());
}

#[test]
fn page_envelope_rejects_out_of_range_counts() {
    let body = "{\"pagelen\":700,\"page\":1,\"values\":[]}";
    let j = parse_json(body).unwrap();
    assert!(Page::<String>::from_json(&j).is_none());
}

#[test]
fn chained_pages_yield_concatenation_in_order_then_stay_terminated() {
    let p1 = page(&["a", "b"], Some("u2"));
    let p2 = page(&["c"], Some("u3"));
    let p3 = page(&["d", "e"], None);

    let mut state = PageState::seeded(p1);
    let mut yielded: Vec<String> = Vec::new();
    let script = [Ok(p2), Ok(p3)];
    let mut script = script.into_iter();

    loop {
        if let Some(item) = state.take_next() {
            yielded.push(item);
            continue;
        }
        let pending = state.pending_cursor().cloned();
        match pending {
            Some(url) => {
                // each cursor names the page that follows it
                let expected = if script.len() == 2 { "u2" } else { "u3" };
                assert_eq!(url, expected);
                state.absorb(script.next().expect("no fetch beyond the chain"));
            }
            None => break,
        }
    }

    assert_eq!(yielded, vec!["a", "b", "c", "d", "e"]);
    assert!(script.next().is_none());
    // terminated, and stays terminated on further calls
    assert!(state.take_next().is_none());
    assert!(state.take_next().is_none());
    assert!(state.pending_cursor().is_none());
    assert!(state.last_error().is_none());
}

#[test]
fn failed_fetch_ends_the_sequence_and_is_kept_as_last_error() {
    let p1 = page(&["a", "b"], Some("u2"));
    let mut state = PageState::seeded(p1);
    assert_eq!(state.take_next().as_deref(), Some("a"));
    assert_eq!(state.take_next().as_deref(), Some("b"));
    assert!(state.take_next().is_none());
    assert_eq!(state.pending_cursor().map(String::as_str), Some("u2"));

    state.absorb(Err(Error::Http {
        url: "u2".to_string(),
        detail: "connection refused".to_string(),
    }));

    // all buffered items came out, then the sequence ended without raising
    assert!(state.take_next().is_none());
    assert!(state.pending_cursor().is_none());
    match state.last_error() {
        Some(Error::Http { url, .. }) => assert_eq!(url, "u2"),
        other => panic!("expected the absorbed Http failure, got {:?}", other),
    }
}

#[test]
fn empty_fetched_page_keeps_its_cursor_for_the_next_call() {
    let p1 = page(&["a"], Some("u2"));
    let mut state = PageState::seeded(p1);
    assert_eq!(state.take_next().as_deref(), Some("a"));
    state.absorb(Ok(page(&[], Some("u3"))));
    // nothing to yield from the empty page, but the cursor stays pending
    assert!(state.take_next().is_none());
    assert_eq!(state.pending_cursor().map(String::as_str), Some("u3"));
    state.absorb(Ok(page(&["b"], None)));
    assert_eq!(state.take_next().as_deref(), Some("b"));
    assert!(state.take_next().is_none());
    assert!(state.pending_cursor().is_none());
    assert!(state.last_error().is_none());
}

#[test]
fn chain_with_an_empty_middle_page_yields_every_later_item() {
    let p1 = page(&["a"], Some("u2"));
    let p2 = page(&[], Some("u3"));
    let p3 = page(&["b", "c"], None);
    let mut state = PageState::seeded(p1);
    let mut yielded: Vec<String> = Vec::new();
    let mut script = [Ok(p2), Ok(p3)].into_iter();
    loop {
        if let Some(item) = state.take_next() {
            yielded.push(item);
            continue;
        }
        match state.pending_cursor().cloned() {
            Some(_) => state.absorb(script.next().expect("no fetch beyond the chain")),
            None => break,
        }
    }
    assert_eq!(yielded, vec!["a", "b", "c"]);
    assert!(state.take_next().is_none());
    assert!(state.pending_cursor().is_none());
    assert!(state.last_error().is_none());
}

#[test]
fn seeding_from_an_empty_last_page_yields_nothing() {
    let mut state = PageState::seeded(page(&[], None));
    assert!(state.take_next().is_none());
    assert!(state.pending_cursor().is_none());
}
