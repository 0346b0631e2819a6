use becbot::cans::CanStore;
use becbot::clock::DateStamp;
use becbot::models::{NewCan, NewQuote};
use becbot::quotes::QuoteStore;

fn stamp() -> DateStamp {
    DateStamp { year: 2024, month: 5, day: 17 }
}

fn quote_row(message: &str, author: &str) -> NewQuote {
    NewQuote {
        message: String::from(message),
        quote_author_id: 7,
        quote_author: String::from(author),
        date: stamp(),
    }
}

#[test]
fn quote_by_id_displays_the_line() {
    let mut store = QuoteStore::new();
    store.create_quote(quote_row("hello there", "ann#1234"));
    assert_eq!(store.quote(Some(1)), "\"hello there\" - ann#1234, 05/17/2024");
}

#[test]
fn quote_by_unknown_id_reports_none() {
    let store = QuoteStore::new();
    assert_eq!(store.quote(Some(3)), "No quote found!");
}

#[test]
fn deleted_quote_is_not_found() {
    let mut store = QuoteStore::new();
    store.create_quote(quote_row("first", "a#1"));
    store.create_quote(quote_row("second", "b#2"));
    assert_eq!(store.remove_quote(1), "Successfully removed quote!");
    assert!(store.get_quote(Some(1)).is_none());
    assert_eq!(store.quote(Some(1)), "No quote found!");
    assert_eq!(store.quote(Some(2)), "\"second\" - b#2, 05/17/2024");
}

#[test]
fn remove_missing_quote_reports_not_found() {
    let mut store = QuoteStore::new();
    store.create_quote(quote_row("only", "a#1"));
    assert_eq!(store.remove_quote(9), "Couldn't find quote with that ID!");
    assert_eq!(store.len(), 1);
}

#[test]
fn random_quote_on_empty_store_reports_none() {
    let store = QuoteStore::new();
    assert!(store.get_quote(None).is_none());
    assert_eq!(store.quote(None), "No quote found!");
}

#[test]
fn random_quote_never_yields_a_deleted_one() {
    let mut store = QuoteStore::new();
    store.create_quote(quote_row("first", "a#1"));
    store.create_quote(quote_row("second", "b#2"));
    store.create_quote(quote_row("third", "c#3"));
    assert!(store.delete_quote(2));
    for _ in 0..100 {
        let picked = store.get_quote(None).expect("a non-empty store yields a quote");
        assert_ne!(picked.quote_id, 2);
        assert!(picked.quote_id == 1 || picked.quote_id == 3);
    }
}

#[test]
fn add_quote_renders_the_author_tag() {
    let mut store = QuoteStore::new();
    let reply = store.add_quote(7, "ann", 1234, "wise words", stamp());
    assert_eq!(reply, "Quote added!");
    let q = store.get_quote(Some(1)).unwrap();
    assert_eq!(q.quote_author, "ann#1234");
    assert_eq!(q.message, "wise words");
    assert_eq!(q.quote_author_id, 7);
}

#[test]
fn tally_count_equals_number_of_invocations() {
    let mut store = CanStore::new();
    let n = 5;
    let mut last = 0;
    for _ in 0..n {
        last = store.add_can(NewCan { user_id: 3, user: String::from("bee#7"), date: stamp() });
    }
    assert_eq!(last, n);
    assert_eq!(store.len() as i64, n);
}

#[test]
fn addcan_reports_the_new_total() {
    let mut store = CanStore::new();
    let first = store.addcan(3, "bee", 7, stamp());
    assert_eq!(
        first,
        "You place a can on lumiDiscord. There's now 1 cans.  Someone can add another in 35 seconds."
    );
    let second = store.addcan(4, "cee", 8, stamp());
    assert_eq!(
        second,
        "You place a can on lumiDiscord. There's now 2 cans.  Someone can add another in 35 seconds."
    );
}
