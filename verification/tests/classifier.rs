use mx_xkcd_ng::bot::XkcdBot;
use mx_xkcd_ng::command::{classify, is_laughter, spell, Command};
use mx_xkcd_ng::media::ImageInfo;

fn command(m: &str) -> Option<Command> {
    XkcdBot::message_to_command(m)
}

#[test]
fn laughter_is_counted() {
    for m in ["lol", "LOOOL", "looool", "that was hilarious lol", "lolol", "lul", "LeL", "Lol!"] {
        assert_eq!(command(m), Some(Command::IncrementLolcount), "{}", m);
    }
}

#[test]
fn laughter_wins_over_the_grammar() {
    assert_eq!(command("xkcd lol"), Some(Command::IncrementLolcount));
    assert_eq!(command("lolcount set 5 lol"), Some(Command::IncrementLolcount));
    assert_eq!(command("mittwoch text lol"), Some(Command::IncrementLolcount));
    assert_eq!(command("xkcd latest lul"), Some(Command::IncrementLolcount));
}

#[test]
fn laughter_needs_a_whole_word() {
    assert!(!is_laughter("lolcount"));
    assert!(!is_laughter("hello"));
    assert!(!is_laughter("ll"));
    assert!(!is_laughter("lal"));
    assert!(!is_laughter("lola"));
    assert!(!is_laughter("xlol"));
    assert!(!is_laughter(""));
    assert!(is_laughter("(lol)"));
    assert!(is_laughter("lol,lol"));
}

#[test]
fn comic_commands() {
    assert_eq!(command("xkcd latest"), Some(Command::Comic(None)));
    assert_eq!(command("xkcd 42"), Some(Command::Comic(Some(42))));
    assert_eq!(command("xkcd banana"), Some(Command::ParseFail));
}

#[test]
fn fixed_forms_come_before_the_number() {
    assert_eq!(command("xkcd ping"), Some(Command::Ping));
    assert_eq!(command("xkcd latest"), Some(Command::Comic(None)));
    assert_eq!(command("xkcd pingx"), Some(Command::ParseFail));
}

#[test]
fn the_other_commands() {
    assert_eq!(command("inspirobot"), Some(Command::Inspirobot));
    assert_eq!(command("lolcount"), Some(Command::GetLolcount));
    assert_eq!(command("lolcount set 5"), Some(Command::SetLolcount(5)));
    assert_eq!(command("lolcount set five"), Some(Command::ParseFail));
    assert_eq!(command("mittwoch"), Some(Command::WfrogExplain));
    assert_eq!(command("mittwoch enable"), Some(Command::WfrogEnable(true)));
    assert_eq!(command("mittwoch disable"), Some(Command::WfrogEnable(false)));
}

#[test]
fn numbers_at_the_limits() {
    assert_eq!(command("xkcd 0"), Some(Command::Comic(Some(0))));
    assert_eq!(command("xkcd +7"), Some(Command::Comic(Some(7))));
    assert_eq!(command("xkcd 007"), Some(Command::Comic(Some(7))));
    assert_eq!(command("xkcd 4294967295"), Some(Command::Comic(Some(4294967295))));
    assert_eq!(command("xkcd 4294967296"), Some(Command::ParseFail));
    assert_eq!(command("xkcd 99999999999999999999999"), Some(Command::ParseFail));
    assert_eq!(command("xkcd -1"), Some(Command::ParseFail));
    assert_eq!(command("xkcd +"), Some(Command::ParseFail));
    assert_eq!(command("xkcd 4_2"), Some(Command::ParseFail));
    assert_eq!(command("lolcount set 4294967295"), Some(Command::SetLolcount(u32::MAX)));
}

#[test]
fn ordinary_chat_is_no_command() {
    for m in [
        "",
        "   ",
        "good morning",
        "xkcd",
        "xkcd 1 2",
        "xkcd latest please",
        "inspirobot now",
        "lolcount set",
        "lolcount get",
        "lolcount set 5 6",
        "lolcount reset 5",
        "mittwoch enable now",
        "mittwoch off",
        "set text hello",
    ] {
        assert_eq!(command(m), None, "{:?}", m);
    }
}

#[test]
fn case_and_whitespace_do_not_matter_for_the_fixed_words() {
    assert_eq!(command("XKCD Latest"), Some(Command::Comic(None)));
    assert_eq!(command("  xkcd   42  "), Some(Command::Comic(Some(42))));
    assert_eq!(command("\tLolCount\nSET\u{a0}9"), Some(Command::SetLolcount(9)));
    assert_eq!(command("Inspirobot"), Some(Command::Inspirobot));
    assert_eq!(command("MITTWOCH DISABLE"), Some(Command::WfrogEnable(false)));
}

#[test]
fn free_text_is_kept_as_written_and_joined_by_single_spaces() {
    assert_eq!(
        command("mittwoch text It is  Wednesday,\tmy Dudes"),
        Some(Command::WfrogSetText("It is Wednesday, my Dudes".to_string()))
    );
    assert_eq!(command("mittwoch TEXT x"), Some(Command::WfrogSetText("x".to_string())));
    assert_eq!(command("mittwoch text"), Some(Command::WfrogSetText(String::new())));
    assert_eq!(
        command("mittwoch text enable"),
        Some(Command::WfrogSetText("enable".to_string()))
    );
}

#[test]
fn classify_goes_by_the_laughter_it_is_given() {
    assert_eq!(classify(true, "xkcd 42"), Some(Command::IncrementLolcount));
    assert_eq!(classify(true, ""), Some(Command::IncrementLolcount));
    assert_eq!(classify(false, "xkcd 42"), Some(Command::Comic(Some(42))));
    assert_eq!(classify(false, "lol"), None);
}

#[test]
fn spell_reads_tokens() {
    let t: Vec<String> = vec!["lolcount".to_string(), "set".to_string(), "12".to_string()];
    assert_eq!(spell(&t), Some(Command::SetLolcount(12)));
    let none: Vec<String> = Vec::new();
    assert_eq!(spell(&none), None);
}

#[test]
fn the_sentinel_picture_configures() {
    let info = ImageInfo { mimetype: "image/png".to_string(), h: 2, w: 3, size: 73 };
    assert_eq!(
        XkcdBot::image_to_command("mittwoch.png", "mxc://example.org/frog", &info),
        Some(Command::WfrogSetImage("mxc://example.org/frog".to_string(), info.clone()))
    );
    assert_eq!(XkcdBot::image_to_command("Mittwoch.png", "mxc://example.org/frog", &info), None);
    assert_eq!(XkcdBot::image_to_command("frog.png", "mxc://example.org/frog", &info), None);
    assert_eq!(XkcdBot::image_to_command("", "mxc://example.org/frog", &info), None);
}
