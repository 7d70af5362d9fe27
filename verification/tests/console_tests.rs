use virtuoso::console_backend::{parse_command, parse_field, Command, ConsoleBackend, ConsoleReply, Field};
use virtuoso::match_info::MatchInfo;

#[test]
fn fields_by_keyword() {
    assert_eq!(parse_field("leftscore"), Field::LeftScore);
    assert_eq!(parse_field("rightscore"), Field::RightScore);
    assert_eq!(parse_field("time"), Field::Time);
    assert_eq!(parse_field("period"), Field::Period);
    assert_eq!(parse_field("leftwhiteled"), Field::LeftWhiteLed);
    assert_eq!(parse_field("leftcolorled"), Field::LeftColorLed);
    assert_eq!(parse_field("rightwhiteled"), Field::RightWhiteLed);
    assert_eq!(parse_field("rightcolorled"), Field::RightColorLed);
    assert_eq!(parse_field("LeftScore"), Field::Unknown);
    assert_eq!(parse_field(""), Field::Unknown);
    assert_eq!(parse_field("leftscore "), Field::Unknown);
}

#[test]
fn field_names() {
    assert_eq!(Field::LeftScore.to_string(), "Left Score");
    assert_eq!(Field::RightScore.to_string(), "Right Score");
    assert_eq!(Field::Time.to_string(), "Time");
    assert_eq!(Field::Period.to_string(), "Period");
    assert_eq!(Field::LeftWhiteLed.to_string(), "Left White Led");
    assert_eq!(Field::LeftColorLed.to_string(), "Left Color Led");
    assert_eq!(Field::RightWhiteLed.to_string(), "Right White Led");
    assert_eq!(Field::RightColorLed.to_string(), "Right Color Led");
    assert_eq!(Field::Unknown.to_string(), "Unknown");
}

#[test]
fn commands() {
    assert_eq!(parse_command("set leftscore 5"), Command::SetValue(Field::LeftScore, 5));
    assert_eq!(parse_command("  set   time\t300 \n"), Command::SetValue(Field::Time, 300));
    assert_eq!(parse_command("set period +2"), Command::SetValue(Field::Period, 2));
    assert_eq!(parse_command("get rightscore"), Command::Get(Field::RightScore));
    assert_eq!(parse_command("get"), Command::Unknown);
    assert_eq!(parse_command("get foo"), Command::Unknown);
    assert_eq!(parse_command("set foo 1"), Command::Unknown);
    assert_eq!(parse_command("set time -1"), Command::Unknown);
    assert_eq!(parse_command("set time 4294967296"), Command::Unknown);
    assert_eq!(parse_command("set time 1 2"), Command::Unknown);
    assert_eq!(parse_command("get time extra"), Command::Unknown);
    assert_eq!(parse_command("SET time 1"), Command::Unknown);
    assert_eq!(parse_command(""), Command::Unknown);
    assert_eq!(parse_command("set\u{3000}time\u{a0}9"), Command::SetValue(Field::Time, 9));
}

#[test]
fn replies() {
    assert_eq!(ConsoleReply::Value(12).to_string(), "12");
    assert_eq!(ConsoleReply::Flag(true).to_string(), "true");
    assert_eq!(ConsoleReply::Flag(false).to_string(), "false");
    assert_eq!(ConsoleReply::UnknownField.to_string(), "Unknown field");
    assert_eq!(ConsoleReply::UnknownCommand.to_string(), "Unknown command or invalid format");
}

#[test]
fn console_get_after_set() {
    let console = ConsoleBackend::new();
    let mut info = MatchInfo::new();
    assert_eq!(console.handle_line(&mut info, "set leftscore 7"), None);
    assert_eq!(info.left_score, 7);
    assert_eq!(console.handle_line(&mut info, "get leftscore"), Some(ConsoleReply::Value(7)));
    assert_eq!(console.handle_line(&mut info, "  SET RightScore 3 "), None);
    assert_eq!(console.handle_line(&mut info, "Get RIGHTSCORE"), Some(ConsoleReply::Value(3)));
    assert_eq!(console.handle_line(&mut info, "set time 245"), None);
    assert_eq!(console.handle_line(&mut info, "get time"), Some(ConsoleReply::Value(245)));
    assert_eq!(console.handle_line(&mut info, "set period 2"), None);
    assert_eq!(console.handle_line(&mut info, "get period"), Some(ConsoleReply::Value(2)));
    assert_eq!(console.handle_line(&mut info, "set leftcolorled 5"), None);
    assert!(info.left_red_led_on);
    assert_eq!(console.handle_line(&mut info, "get leftcolorled"), Some(ConsoleReply::Flag(true)));
    assert_eq!(console.handle_line(&mut info, "set leftcolorled 0"), None);
    assert_eq!(console.handle_line(&mut info, "get leftcolorled"), Some(ConsoleReply::Flag(false)));
    assert_eq!(console.handle_line(&mut info, "set rightwhiteled 1"), None);
    assert!(info.right_white_led_on);
    assert_eq!(console.handle_line(&mut info, "set leftwhiteled 1"), None);
    assert!(info.left_white_led_on);
    assert_eq!(console.handle_line(&mut info, "set rightcolorled 1"), None);
    assert!(info.right_green_led_on);
    // the rest of the bout is untouched
    assert_eq!(info.timer, 245);
    assert_eq!(info.left_score, 7);
}

#[test]
fn console_errors_and_blank_lines() {
    let console = ConsoleBackend::new();
    let mut info = MatchInfo::new();
    assert_eq!(console.handle_line(&mut info, ""), None);
    assert_eq!(console.handle_line(&mut info, "   \t "), None);
    assert_eq!(console.handle_line(&mut info, "hello"), Some(ConsoleReply::UnknownCommand));
    assert_eq!(console.handle_line(&mut info, "set time abc"), Some(ConsoleReply::UnknownCommand));
    assert_eq!(console.handle_line(&mut info, "get nothing"), Some(ConsoleReply::UnknownCommand));
    assert_eq!(info.timer, 300);
}

#[test]
fn display_names_read_back() {
    for f in [
        Field::LeftScore, Field::RightScore, Field::Time, Field::Period, Field::LeftWhiteLed,
        Field::LeftColorLed, Field::RightWhiteLed, Field::RightColorLed, Field::Unknown,
    ] {
        let name = f.to_string().to_ascii_lowercase().replace(' ', "");
        assert_eq!(parse_field(&name), f);
    }
}
