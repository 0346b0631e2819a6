use becbot::clock::DateStamp;
use becbot::models::NewSuggestion;
use becbot::suggestions::{submit, submit_reply, ReactionOutcome, SubmitError, SuggestionStore};

fn stamp() -> DateStamp {
    DateStamp { year: 2024, month: 5, day: 17 }
}

fn record(text: &str, author_id: i64, message_id: i64) -> NewSuggestion {
    NewSuggestion {
        suggestion_text: String::from(text),
        suggestion_date: stamp(),
        suggestion_author_id: author_id,
        suggestion_message_id: message_id,
    }
}

#[test]
fn remove_by_id_missing_reports_not_existed() {
    let mut store = SuggestionStore::new();
    store.create_suggestion(record("add a channel", 10, 100));
    assert!(!store.remove_by_id(99));
    assert_eq!(store.len(), 1);

    let mut empty = SuggestionStore::new();
    assert!(!empty.remove_by_id(1));
    assert_eq!(empty.len(), 0);
}

#[test]
fn remove_by_id_existing_deletes() {
    let mut store = SuggestionStore::new();
    store.create_suggestion(record("first", 10, 100));
    store.create_suggestion(record("second", 11, 101));
    assert!(store.remove_by_id(1));
    assert_eq!(store.len(), 1);
    assert!(store.get_suggestion_by_message_id(100).is_none());
    assert!(store.get_suggestion_by_message_id(101).is_some());
}

#[test]
fn cancel_by_non_author_is_ignored() {
    let mut store = SuggestionStore::new();
    store.create_suggestion(record("idea", 10, 100));
    let outcome = store.handle_reaction_add("\u{274c}", 100, 11);
    assert_eq!(outcome, ReactionOutcome::Ignore);
    assert_eq!(store.len(), 1);
    assert!(store.get_suggestion_by_message_id(100).is_some());
}

#[test]
fn non_cancel_reaction_is_ignored() {
    let mut store = SuggestionStore::new();
    store.create_suggestion(record("idea", 10, 100));
    let outcome = store.handle_reaction_add("\u{2665}\u{fe0f}", 100, 10);
    assert_eq!(outcome, ReactionOutcome::Ignore);
    assert_eq!(store.len(), 1);
}

#[test]
fn reaction_on_unrelated_message_is_ignored() {
    let mut store = SuggestionStore::new();
    store.create_suggestion(record("idea", 10, 100));
    let outcome = store.handle_reaction_add("\u{274c}", 555, 10);
    assert_eq!(outcome, ReactionOutcome::Ignore);
    assert_eq!(store.len(), 1);
}

#[test]
fn cancel_by_author_deletes_exactly_once() {
    let mut store = SuggestionStore::new();
    store.create_suggestion(record("idea", 10, 100));
    store.create_suggestion(record("other", 12, 200));
    let outcome = store.handle_reaction_add("\u{274c}", 100, 10);
    assert_eq!(outcome, ReactionOutcome::CancelSuggestion { suggestion_id: 1 });
    assert!(store.remove_by_id(1));
    assert_eq!(store.len(), 1);
    let second = store.handle_reaction_add("\u{274c}", 100, 10);
    assert_eq!(second, ReactionOutcome::Ignore);
    assert_eq!(store.len(), 1);
}

#[test]
fn submit_without_channel_fails() {
    let result = submit(None, "Add a new channel");
    assert!(matches!(result, Err(SubmitError::ChannelNotFound)));
}

#[test]
fn submit_and_cancel_scenario() {
    let announcement = submit(Some(555), "Add a new channel").unwrap();
    assert_eq!(announcement.channel_id, 555);
    assert_eq!(announcement.title, "New suggestion");
    assert_eq!(
        announcement.description,
        "Add a new channel\n\nPlease vote on this suggestion using \u{2665}\u{fe0f} and \u{2660}\u{fe0f}"
    );
    assert_eq!(announcement.reactions.len(), 2);
    assert_eq!(announcement.reactions[0], "\u{2665}\u{fe0f}");
    assert_eq!(announcement.reactions[1], "\u{2660}\u{fe0f}");

    let posted_message_id: i64 = 424242;
    let mut store = SuggestionStore::new();
    store.create_suggestion(record("Add a new channel", 10, posted_message_id));
    assert_eq!(store.len(), 1);
    let row = store.get_suggestion_by_message_id(posted_message_id).unwrap();
    assert_eq!(row.suggestion_message_id, posted_message_id);
    assert_eq!(row.suggestion_text, "Add a new channel");

    let outcome = store.handle_reaction_add("\u{274c}", posted_message_id, 10);
    let ReactionOutcome::CancelSuggestion { suggestion_id } = outcome else {
        panic!("the author's cancel reaction must withdraw the suggestion");
    };
    assert!(store.remove_by_id(suggestion_id));
    assert_eq!(store.len(), 0);
}

#[test]
fn submit_reply_carries_link() {
    let reply = submit_reply("https://example.invalid/message/1");
    assert_eq!(
        reply,
        "Successfully created suggestion!\n\nhttps://example.invalid/message/1"
    );
}
