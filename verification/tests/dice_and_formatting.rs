use becbot::clock::{format_mdy, DateStamp};
use becbot::colors::{
    clearcolor_reply, color_action, is_color_role_name, parse_hex_color, set_color_reply,
    ColorAction,
};
use becbot::dice::{
    active_image_url, base_description, cascader_field_body, cascader_field_title,
    cascader_title, doomsday_jackpot, final_cascader_field_body, final_field_title,
    final_result_body, final_warning_body, inactive_image_url, initial_description,
    number_to_string, prime_bubble_comment, timeout_description, DiceCascade,
};
use becbot::misc::{
    addjohn, banappeal, coinflip, copper, familyfriendly, flipcoin, flipcoin_reply, hello, help,
    hug, hydrate, ohno, ping, radio, rp,
};
use becbot::text::{join_comma, u128_string, u64_string, year_string};
use becbot::times::{format_time_reply, time_reply, ZoneChoice};

#[test]
fn die_faces_are_spelled_out() {
    assert_eq!(number_to_string(1), "one");
    assert_eq!(number_to_string(2), "two");
    assert_eq!(number_to_string(3), "three");
    assert_eq!(number_to_string(4), "four");
    assert_eq!(number_to_string(5), "five");
    assert_eq!(number_to_string(6), "six");
    assert_eq!(number_to_string(0), "nothing");
    assert_eq!(number_to_string(7), "nothing");
}

#[test]
fn prime_comments_follow_the_roll() {
    assert_eq!(prime_bubble_comment(1), "You appear to have terrible luck.");
    assert_eq!(prime_bubble_comment(6), "The most favorable result!");
}

#[test]
fn base_description_for_one_bubble() {
    assert_eq!(
        base_description(1),
        "\u{1f3b2} You press the **PRIME BUBBLE** to allocate the empty **CATENATOR CRUCIBLES** \
         with bubbles. You rolled a **one**. You appear to have terrible luck. The crucibles \
         are allocated with **1 CASCADER BUBBLE**, containing a D6. \u{1f3b2}"
    );
}

#[test]
fn base_description_for_many_bubbles() {
    assert_eq!(
        base_description(3),
        "\u{1f3b2} You press the **PRIME BUBBLE** to allocate the empty **CATENATOR CRUCIBLES** \
         with bubbles. You rolled a **three**. Lower end of the middle, but whatever. The \
         crucibles are allocated with **3 CASCADER BUBBLES**, eachcontaining a D6. \u{1f3b2}"
    );
}

#[test]
fn embed_frame_texts_are_fixed() {
    assert_eq!(cascader_title(), "CATENATIVE DOOMSDAY DICE CASCADER");
    assert_eq!(inactive_image_url(), "https://galvinism.ink/cddc_inactive.png");
    assert_eq!(active_image_url(4), "https://galvinism.ink/cddc_active_4.gif");
    assert!(initial_description().contains("PRIME BUBBLE"));
    assert_eq!(
        timeout_description(),
        "You failed to press the **PRIME BUBBLE**, the device staying turned off."
    );
}

#[test]
fn cascader_fields_render_ordinals() {
    assert_eq!(cascader_field_title(1), "\u{1f3b2} **1ST CASCADER**");
    assert_eq!(cascader_field_title(2), "\u{1f3b2} **2ND CASCADER**");
    assert_eq!(cascader_field_title(3), "\u{1f3b2} **3RD CASCADER**");
    assert_eq!(cascader_field_title(4), "\u{1f3b2} **4TH CASCADER**");
    assert_eq!(cascader_field_title(11), "\u{1f3b2} **11TH CASCADER**");
    assert_eq!(cascader_field_title(12), "\u{1f3b2} **12TH CASCADER**");
    assert_eq!(cascader_field_title(21), "\u{1f3b2} **21ST CASCADER**");
    assert_eq!(
        cascader_field_body(1, 4, 3, 6, 24),
        "The **1st** cascader is pressed for a resulting multiplier of **4**. The remaining 3 \
         dice now have **6** * **4** = **24** sides each."
    );
    assert_eq!(
        final_cascader_field_body(3, 5, 24, 120),
        "The **3rd** cascader is pressed for a resulting multiplier of **5**. The final \
         remaining die now has **24** * **5** = **120** sides!"
    );
    assert_eq!(final_field_title(), "\u{1f3b2} **FINAL CASCADER**");
    assert!(final_warning_body(120).contains("**120 HIT POINTS IN DAMAGE**!"));
    assert_eq!(final_result_body(7), "The **DOOMSDAY CASCADER** rolls a 7!");
}

#[test]
fn cascade_multiplies_the_sides() {
    let mut game = DiceCascade::prime_with(6);
    assert_eq!(game.get_prime_roll(), 6);
    assert_eq!(game.get_sides(), 6);
    let mut expected: u128 = 6;
    for step in 0..5u8 {
        let before = game.get_sides();
        let roll = game.cascade_step();
        assert!(1 <= roll && roll <= before);
        expected = before * roll;
        assert_eq!(game.get_sides(), expected);
        assert_eq!(game.get_cascades_done(), step + 1);
    }
    let result = game.final_roll();
    assert!(1 <= result && result <= game.get_sides());
}

#[test]
fn single_bubble_game_is_complete_at_once() {
    let game = DiceCascade::prime_with(1);
    assert_eq!(game.get_cascades_done(), 0);
    let result = game.final_roll();
    assert!(1 <= result && result <= 6);
}

#[test]
fn jackpot_only_on_a_one() {
    assert_eq!(
        doomsday_jackpot(1),
        Some("https://www.homestuck.com/images/extras/ps000020_9.gif")
    );
    assert_eq!(doomsday_jackpot(2), None);
    assert_eq!(doomsday_jackpot(120), None);
}

#[test]
fn dates_render_zero_padded() {
    assert_eq!(format_mdy(&DateStamp { year: 2024, month: 5, day: 1 }), "05/01/2024");
    assert_eq!(format_mdy(&DateStamp { year: 99, month: 12, day: 31 }), "12/31/0099");
    assert_eq!(format_mdy(&DateStamp { year: -1, month: 1, day: 1 }), "01/01/-0001");
    assert_eq!(year_string(123456), "123456");
}

#[test]
fn numbers_render_in_decimal() {
    assert_eq!(u64_string(0), "0");
    assert_eq!(u64_string(1234567890), "1234567890");
    assert_eq!(u128_string(340282366920938463463374607431768211455), "340282366920938463463374607431768211455");
}

#[test]
fn join_comma_separates_entries() {
    assert_eq!(join_comma(&Vec::<String>::new()), "");
    assert_eq!(join_comma(&vec![String::from("a")]), "a");
    assert_eq!(
        join_comma(&vec![String::from("a"), String::from("b"), String::from("c")]),
        "a, b, c"
    );
}

#[test]
fn hex_colors_parse_with_or_without_the_sign() {
    assert_eq!(parse_hex_color("#ff0000"), Some(0xff0000));
    assert_eq!(parse_hex_color("Ff00aB"), Some(0xff00ab));
    assert_eq!(parse_hex_color("0000000000000001"), Some(1));
    assert_eq!(parse_hex_color("00000000000000001"), Some(1));
    assert_eq!(parse_hex_color("ffffffffffffffff"), Some(u64::MAX));
    assert_eq!(parse_hex_color(""), None);
    assert_eq!(parse_hex_color("#"), None);
    assert_eq!(parse_hex_color("#zz0000"), None);
    assert_eq!(parse_hex_color("12 34"), None);
    assert_eq!(parse_hex_color("11112222333344445"), None);
}

#[test]
fn color_roles_are_recognized_by_name() {
    assert!(is_color_role_name("#AbC123"));
    assert!(is_color_role_name("#ffffff"));
    assert!(!is_color_role_name("#fffff"));
    assert!(!is_color_role_name("fffffff"));
    assert!(!is_color_role_name("#ggg999"));
    assert!(!is_color_role_name("#ffffff0"));
}

#[test]
fn color_command_decides_per_role_situation() {
    assert!(matches!(color_action("nope", 12345, true), ColorAction::InvalidColor));
    match color_action("#00ff00", 12345, true) {
        ColorAction::EditExisting { color } => assert_eq!(color, 0x00ff00),
        _ => panic!("an existing personal role is edited"),
    }
    match color_action("#00ff00", 12345, false) {
        ColorAction::CreateRole { role_name, color } => {
            assert_eq!(role_name, "12345");
            assert_eq!(color, 0x00ff00);
        },
        _ => panic!("a missing personal role is created"),
    }
}

#[test]
fn color_replies_name_the_input_and_user() {
    assert_eq!(set_color_reply("#00ff00"), "Set your color to #00ff00!");
    assert_eq!(clearcolor_reply(true, 77), "Cleared your color!");
    let notice = clearcolor_reply(false, 77);
    assert!(notice.contains("(`77`)."));
    assert!(notice.starts_with("You didn't have a color set!"));
}

#[test]
fn clock_replies_are_zero_padded() {
    assert_eq!(
        format_time_reply(&ZoneChoice::Perth, 9, 5, 0),
        "It is currently 09:05:00 AWST"
    );
    assert_eq!(
        format_time_reply(&ZoneChoice::Eastern, 23, 59, 59),
        "It is currently 23:59:59 EST"
    );
    let live = time_reply(&ZoneChoice::Paris);
    assert!(live.starts_with("It is currently "));
    assert!(live.ends_with(" CET"));
}

#[test]
fn static_replies_are_fixed() {
    assert_eq!(hydrate(), "don't forget to drink water");
    assert_eq!(familyfriendly(), "https://galvinism.ink/nff.jpg");
    assert_eq!(hello(), "Hello!");
    assert_eq!(ping(), "Pong!");
    assert_eq!(coinflip(), "it's !flipcoin");
    assert_eq!(help(), "https://www.youtube.com/watch?v=yD2FSwTy2lw");
    assert!(banappeal().starts_with("https://docs.google.com/forms/"));
    assert_eq!(addjohn(), "no");
    assert!(ohno().starts_with("https://media.discordapp.net/"));
    assert_eq!(radio(), "https://www.youtube.com/luminantAegis/live");
    assert!(rp().contains("https://mspfa.com/?s=25171&p=1"));
    assert!(copper().contains("periodic table"));
}

#[test]
fn hug_names_the_hugged() {
    assert_eq!(hug("Bob"), "*hugs Bob*");
}

#[test]
fn flipcoin_picks_one_of_three_responses() {
    let expected =
        [flipcoin_reply(0), flipcoin_reply(1), flipcoin_reply(2)];
    assert_eq!(expected[0], "You lose.");
    assert_eq!(expected[1], "it's /coinflip");
    assert_eq!(expected[2], "GAMBLING? In MY good christian server???");
    for _ in 0..50 {
        let got = flipcoin();
        assert!(expected.contains(&got));
    }
}
