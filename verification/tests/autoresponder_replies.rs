use becbot::autoresponder::{handle_message, response_for};

fn reply(content: &str, is_moderator: bool) -> Option<String> {
    handle_message(content, false, true, is_moderator)
}

#[test]
fn keyboard_mash_gets_its_reply() {
    assert_eq!(
        reply("wkjfneasdf", false),
        Some(String::from(
            "That's not a word, but rather an oddly specific keyboard mash. Good job!"
        ))
    );
}

#[test]
fn test_replies_turing() {
    assert_eq!(reply("test", false), Some(String::from("turing")));
}

#[test]
fn exact_match_is_case_sensitive() {
    assert!(reply("TEST", false).is_none());
}

#[test]
fn leading_f_pays_respects() {
    assert_eq!(reply("F in the chat", false), Some(String::from(":regional_indicator_f:")));
    assert_eq!(reply("fine then", false), Some(String::from(":regional_indicator_f:")));
}

#[test]
fn arms_up_gets_cheered() {
    assert_eq!(reply("^^", false), Some(String::from("^u^")));
    assert_eq!(reply("^^ nice", false), Some(String::from("^u^")));
    assert_eq!(reply("\\o/ hooray", false), Some(String::from("https://imgur.com/qJYq4Xn")));
}

#[test]
fn crab_trigger_is_case_insensitive() {
    assert_eq!(
        reply("CRAB rave", false),
        Some(String::from("https://tenor.com/view/crab-safe-dance-gif-13211112"))
    );
}

#[test]
fn sock_ruse_was_a_distraction() {
    assert_eq!(reply("Sock Ruse again", false), Some(String::from("it was a DISTACTION")));
}

#[test]
fn asking_the_time_means_pizza() {
    assert_eq!(
        reply("What time is it? asking for a friend", false),
        Some(String::from("https://tenor.com/view/pizza-time-its-delivery-gif-13167414"))
    );
}

#[test]
fn radio_lag_draws_one_reply_the_mention() {
    assert_eq!(
        reply("hey the radio lags a lot", false),
        Some(String::from("<@84774207140945920>"))
    );
    assert_eq!(
        reply("the Radio is lagging again", false),
        Some(String::from("<@84774207140945920>"))
    );
}

#[test]
fn moderator_triggers_need_the_role() {
    assert_eq!(reply("chirp", true), Some(String::from("chirp chirp!")));
    assert_eq!(reply("bark loudly", true), Some(String::from("bork")));
    assert_eq!(reply("bear with me", true), Some(String::from(":bear:")));
    assert!(reply("chirp", false).is_none());
    assert!(reply("bark loudly", false).is_none());
    assert!(reply("bear with me", false).is_none());
}

#[test]
fn bots_and_direct_messages_draw_no_reply() {
    assert!(handle_message("test", true, true, false).is_none());
    assert!(handle_message("test", false, false, false).is_none());
}

#[test]
fn plain_chatter_draws_no_reply() {
    assert!(reply("good morning everyone", false).is_none());
}

#[test]
fn first_matching_trigger_wins() {
    // the folded text both starts with "crab" and would match nothing later
    assert_eq!(
        reply("crab test", false),
        Some(String::from("https://tenor.com/view/crab-safe-dance-gif-13211112"))
    );
    // an exact "test" outranks the prefix triggers below it
    assert_eq!(reply("test", true), Some(String::from("turing")));
}

#[test]
fn response_table_runs_on_the_folded_text() {
    assert_eq!(
        response_for("CRAB", "crab", false),
        Some(String::from("https://tenor.com/view/crab-safe-dance-gif-13211112"))
    );
    assert!(response_for("CRAB", "CRAB", false).is_none());
}
