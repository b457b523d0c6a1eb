use lickbot2::commands::{
    chat_command, goto_args_fit, is_number, parse_command, parse_goto_args, parse_pvp_args,
    tokenize, Command, GotoTarget, PvpTarget,
};
use lickbot2::number::parse_i32;
use lickbot2::text::{split_whitespace, str_contains};

const SAMPLES: &[&str] = &[
    "", " ", "0", "1", "-1", "+1", "1.5", "-1.5", "+.5", ".5", "5.", ".", "-", "+", "1e10",
    "1E10", "1e+10", "1e-10", "1e", "1e+", "e5", ".e5", "1.e5", ".5e5", "1.2.3", "1..2", "inf",
    "INF", "Inf", "-inf", "+inf", "infinity", "Infinity", "-INFINITY", "nan", "NaN", "-nan",
    "infi", "nana", "in", " 1", "1 ", "0x10", "1_000", "abc", "12a", "a12", "2147483647",
    "2147483648", "-2147483648", "-2147483649", "00012", "-0", "+-1", "--1", "1e1e1",
    "99999999999999999999", "١", "1\u{3000}",
];

#[test]
fn is_number_agrees_with_f64_parsing() {
    for s in SAMPLES {
        assert_eq!(is_number(s), s.parse::<f64>().is_ok(), "input {:?}", s);
    }
}

#[test]
fn is_number_examples() {
    assert!(is_number("1.5"));
    assert!(is_number("-NaN"));
    assert!(is_number("1e-3"));
    assert!(!is_number("abc"));
    assert!(!is_number("1e"));
    assert!(!is_number(" 1"));
}

#[test]
fn parse_i32_agrees_with_std() {
    for s in SAMPLES {
        assert_eq!(parse_i32(s), s.parse::<i32>().ok(), "input {:?}", s);
    }
}

#[test]
fn parse_i32_limits() {
    assert_eq!(parse_i32("2147483647"), Some(i32::MAX));
    assert_eq!(parse_i32("-2147483648"), Some(i32::MIN));
    assert_eq!(parse_i32("2147483648"), None);
    assert_eq!(parse_i32("+17"), Some(17));
    assert_eq!(parse_i32("-"), None);
}

#[test]
fn split_whitespace_agrees_with_std() {
    let inputs = ["", "   ", "a", " a  b\tc\n", "\u{3000}x\u{2028}y\u{85}z", "a\u{a0}b", "é ü"];
    for s in inputs {
        let ours = split_whitespace(s);
        let std: Vec<&str> = s.split_whitespace().collect();
        assert_eq!(ours, std, "input {:?}", s);
    }
}

#[test]
fn tokenize_splits_command_and_args() {
    let (cmd, args) = tokenize("  goto  1 \t 2 ");
    assert_eq!(cmd, "goto");
    assert_eq!(args, vec!["1", "2"]);
}

#[test]
fn tokenize_empty_input() {
    let (cmd, args) = tokenize(" \t ");
    assert_eq!(cmd, "");
    assert!(args.is_empty());
}

#[test]
fn parse_command_variants() {
    assert!(matches!(parse_command("   "), Command::Empty));
    assert!(matches!(parse_command(""), Command::Empty));
    match parse_command(" goto Steve ") {
        Command::Goto(args) => assert_eq!(args, vec!["Steve"]),
        _ => panic!("expected goto"),
    }
    match parse_command("stop now") {
        Command::Stop(args) => assert_eq!(args, vec!["now"]),
        _ => panic!("expected stop"),
    }
    match parse_command("pvp Alex") {
        Command::Unknown(c) => assert_eq!(c, "pvp"),
        _ => panic!("expected unknown"),
    }
    match parse_command("GOTO") {
        Command::Unknown(c) => assert_eq!(c, "GOTO"),
        _ => panic!("expected unknown"),
    }
}

#[test]
fn goto_args_forms() {
    assert!(matches!(parse_goto_args(&vec![]), GotoTarget::Sender));
    assert!(matches!(parse_goto_args(&vec!["Steve"]), GotoTarget::Player("Steve")));
    assert!(matches!(parse_goto_args(&vec!["64"]), GotoTarget::Y(64)));
    assert!(matches!(parse_goto_args(&vec!["-10", "20"]), GotoTarget::XZ(-10, 20)));
    assert!(matches!(parse_goto_args(&vec!["1", "2", "3"]), GotoTarget::Block(1, 2, 3)));
    assert!(matches!(parse_goto_args(&vec!["1", "x"]), GotoTarget::Usage));
    assert!(matches!(parse_goto_args(&vec!["a", "b", "c"]), GotoTarget::Usage));
    assert!(matches!(parse_goto_args(&vec!["1", "2", "3", "4"]), GotoTarget::Usage));
}

#[test]
fn goto_args_that_would_fail() {
    assert!(goto_args_fit(&vec!["1", "2"]));
    assert!(goto_args_fit(&vec!["1.5", "x"]));
    assert!(goto_args_fit(&vec!["Steve"]));
    assert!(!goto_args_fit(&vec!["1.5"]));
    assert!(!goto_args_fit(&vec!["inf", "2"]));
    assert!(!goto_args_fit(&vec!["1", "2", "99999999999"]));
}

#[test]
fn pvp_args_forms() {
    assert!(matches!(parse_pvp_args(&vec![]), PvpTarget::Sender));
    assert!(matches!(parse_pvp_args(&vec!["Alex"]), PvpTarget::Player("Alex")));
    assert!(matches!(parse_pvp_args(&vec!["a", "b"]), PvpTarget::Usage));
}

#[test]
fn chat_command_filters() {
    assert_eq!(chat_command(Some("Steve"), "!goto 1 2", None), Some("goto 1 2"));
    assert_eq!(chat_command(Some("Steve"), "!goto", Some("Steve")), Some("goto"));
    assert_eq!(chat_command(Some("Alex"), "!goto", Some("Steve")), None);
    assert_eq!(chat_command(None, "!goto", None), None);
    assert_eq!(chat_command(Some("Steve"), "goto", None), None);
    assert_eq!(chat_command(Some("Steve"), "", None), None);
    assert_eq!(chat_command(Some("Steve"), "!", None), Some(""));
}

#[test]
fn contains_examples() {
    assert!(str_contains("abcabd", "abd"));
    assert!(str_contains("abc", ""));
    assert!(!str_contains("ab", "abc"));
    assert!(!str_contains("abcab", "abd"));
}

#[test]
fn decimal_reads_back() {
    for v in [0, 5, -5, 10, -10, 1234, i32::MIN, i32::MAX] {
        let mut s = String::new();
        lickbot2::number::push_i32_decimal(&mut s, v);
        assert_eq!(parse_i32(&s), Some(v));
        assert!(is_number(&s));
    }
}

#[test]
fn whitespace_agrees_with_std_on_every_char() {
    for n in 0u32..=0x10FFFF {
        if let Some(c) = char::from_u32(n) {
            assert_eq!(lickbot2::text::is_whitespace(c), c.is_whitespace(), "char {:#x}", n);
        }
    }
}
