use env_logger_timezone_fmt::ascii::{push_padded, push_spaces};
use env_logger_timezone_fmt::{
    Level, Record, Style, StyledValue, TimeZoneFormat, TimeZoneFormatEnv, TimestampPrecision,
};

const STAMP: &[u8] = b"2024-01-01 12:00:00.000 +08:00";

fn policy() -> TimeZoneFormatEnv {
    TimeZoneFormatEnv::new(Some(8 * 60 * 60), Some(TimestampPrecision::Millis))
}

fn event<'a>(level: Level, module: Option<&'a str>, target: &'a str, args: &'a str) -> Record<'a> {
    Record { level, module, target, args }
}

fn render(env: &TimeZoneFormatEnv, record: &Record, style: &Style) -> String {
    let out = TimeZoneFormat::new(Vec::new(), env).write_with_timestamp(STAMP, record, style);
    String::from_utf8(out).unwrap()
}

#[test]
fn renders_the_line_of_the_default_policy() {
    let env = policy();
    let record = event(Level::Info, Some("app::net"), "net", "connecting\nretry 1");
    assert_eq!(
        render(&env, &record, &Style::plain()),
        "[2024-01-01 12:00:00.000 +08:00 INFO  net] connecting\n    retry 1\n"
    );
}

#[test]
fn wraps_the_level_in_the_style_markers() {
    let env = policy();
    let record = event(Level::Warn, None, "db", "slow");
    let style = Style { start: "\x1b[33m", reset: "\x1b[0m" };
    assert_eq!(
        render(&env, &record, &style),
        "[2024-01-01 12:00:00.000 +08:00 \x1b[33mWARN \x1b[0m db] slow\n"
    );
}

#[test]
fn pads_each_level_to_five_bytes() {
    let mut env = policy();
    env.target = false;
    let line = |level| render(&env, &event(level, None, "", "m"), &Style::plain());
    assert_eq!(line(Level::Error), "[2024-01-01 12:00:00.000 +08:00 ERROR] m\n");
    assert_eq!(line(Level::Warn), "[2024-01-01 12:00:00.000 +08:00 WARN ] m\n");
    assert_eq!(line(Level::Info), "[2024-01-01 12:00:00.000 +08:00 INFO ] m\n");
    assert_eq!(line(Level::Debug), "[2024-01-01 12:00:00.000 +08:00 DEBUG] m\n");
    assert_eq!(line(Level::Trace), "[2024-01-01 12:00:00.000 +08:00 TRACE] m\n");
}

#[test]
fn level_names_are_in_capitals() {
    assert_eq!(Level::Error.as_str(), "ERROR");
    assert_eq!(Level::Warn.as_str(), "WARN");
    assert_eq!(Level::Info.as_str(), "INFO");
    assert_eq!(Level::Debug.as_str(), "DEBUG");
    assert_eq!(Level::Trace.as_str(), "TRACE");
}

#[test]
fn shows_all_fields_in_order() {
    let mut env = policy();
    env.show_module_path = true;
    let record = event(Level::Debug, Some("app::net"), "net", "hello");
    assert_eq!(
        render(&env, &record, &Style::plain()),
        "[2024-01-01 12:00:00.000 +08:00 DEBUG app::net net] hello\n"
    );
}

#[test]
fn a_single_field_stands_alone_in_the_brackets() {
    let mut env = policy();
    env.level = false;
    env.target = false;
    let record = event(Level::Info, Some("app"), "net", "body");
    assert_eq!(render(&env, &record, &Style::plain()), "[2024-01-01 12:00:00.000 +08:00] body\n");
}

#[test]
fn hiding_the_level_removes_only_the_level() {
    let mut env = policy();
    env.show_module_path = true;
    let record = event(Level::Info, Some("app::net"), "net", "hello");
    let shown = render(&env, &record, &Style::plain());
    env.level = false;
    let hidden = render(&env, &record, &Style::plain());
    assert_eq!(shown, "[2024-01-01 12:00:00.000 +08:00 INFO  app::net net] hello\n");
    assert_eq!(hidden, "[2024-01-01 12:00:00.000 +08:00 app::net net] hello\n");
    env.level = false;
    assert_eq!(render(&env, &record, &Style::plain()), hidden);
}

#[test]
fn hiding_the_module_path_removes_only_the_module_path() {
    let mut env = policy();
    env.show_module_path = true;
    let record = event(Level::Info, Some("app::net"), "net", "hello");
    let shown = render(&env, &record, &Style::plain());
    env.show_module_path = false;
    let hidden = render(&env, &record, &Style::plain());
    assert_eq!(shown, "[2024-01-01 12:00:00.000 +08:00 INFO  app::net net] hello\n");
    assert_eq!(hidden, "[2024-01-01 12:00:00.000 +08:00 INFO  net] hello\n");
}

#[test]
fn hiding_the_target_removes_only_the_target() {
    let mut env = policy();
    env.show_module_path = true;
    let record = event(Level::Info, Some("app::net"), "net", "hello");
    let shown = render(&env, &record, &Style::plain());
    env.target = false;
    let hidden = render(&env, &record, &Style::plain());
    assert_eq!(shown, "[2024-01-01 12:00:00.000 +08:00 INFO  app::net net] hello\n");
    assert_eq!(hidden, "[2024-01-01 12:00:00.000 +08:00 INFO  app::net] hello\n");
}

#[test]
fn skips_an_absent_module_path_and_an_empty_target() {
    let mut env = policy();
    env.show_module_path = true;
    let record = event(Level::Info, None, "", "hello");
    assert_eq!(
        render(&env, &record, &Style::plain()),
        "[2024-01-01 12:00:00.000 +08:00 INFO ] hello\n"
    );
}

#[test]
fn writes_an_empty_module_path_as_an_empty_field() {
    let mut env = policy();
    env.show_module_path = true;
    let record = event(Level::Info, Some(""), "net", "hello");
    assert_eq!(
        render(&env, &record, &Style::plain()),
        "[2024-01-01 12:00:00.000 +08:00 INFO   net] hello\n"
    );
}

#[test]
fn indents_after_each_line_break() {
    let env = policy();
    let record = event(Level::Info, None, "net", "a\nb\n\nc\n");
    assert_eq!(
        render(&env, &record, &Style::plain()),
        "[2024-01-01 12:00:00.000 +08:00 INFO  net] a\n    b\n    \n    c\n    \n"
    );
}

#[test]
fn counts_one_indentation_for_each_line_break() {
    let mut env = policy();
    env.indent = Some(3);
    for breaks in 0..6usize {
        let message = vec!["x"; breaks + 1].join("\n");
        let line = render(&env, &event(Level::Info, None, "t", &message), &Style::plain());
        assert_eq!(line.matches("\n   ").count(), breaks);
        assert_eq!(line.matches("   ").count(), breaks);
        let expected = vec!["x"; breaks + 1].join("\n   ");
        assert_eq!(line, format!("[2024-01-01 12:00:00.000 +08:00 INFO  t] {}\n", expected));
    }
}

#[test]
fn writes_the_message_as_it_is_without_indentation() {
    let mut env = policy();
    env.indent = None;
    let message = "first\nsecond\n\n  third \u{e9}\u{4e16}\u{1f600}\n";
    let line = render(&env, &event(Level::Info, None, "t", message), &Style::plain());
    assert_eq!(line, format!("[2024-01-01 12:00:00.000 +08:00 INFO  t] {}\n", message));
}

#[test]
fn an_indentation_of_nothing_keeps_the_message() {
    let mut env = policy();
    env.indent = Some(0);
    let message = "first\nsecond\n";
    let line = render(&env, &event(Level::Info, None, "t", message), &Style::plain());
    assert_eq!(line, format!("[2024-01-01 12:00:00.000 +08:00 INFO  t] {}\n", message));
}

#[test]
fn puts_the_line_ending_of_the_policy_at_each_line_break() {
    let mut env = policy();
    env.suffix = "\r\n";
    env.indent = Some(2);
    let record = event(Level::Error, None, "t", "one\ntwo");
    assert_eq!(
        render(&env, &record, &Style::plain()),
        "[2024-01-01 12:00:00.000 +08:00 ERROR t] one\r\n  two\r\n"
    );
}

#[test]
fn keeps_text_beyond_ascii() {
    let mut env = policy();
    env.show_module_path = true;
    let record = event(Level::Info, Some("m\u{f6}dule"), "z\u{ef}el", "gr\u{fc}\u{df}e\n\u{4e16}\u{754c}");
    assert_eq!(
        render(&env, &record, &Style::plain()),
        "[2024-01-01 12:00:00.000 +08:00 INFO  m\u{f6}dule z\u{ef}el] gr\u{fc}\u{df}e\n    \u{4e16}\u{754c}\n"
    );
}

#[test]
fn renders_an_empty_message() {
    let env = policy();
    let record = event(Level::Info, None, "net", "");
    assert_eq!(render(&env, &record, &Style::plain()), "[2024-01-01 12:00:00.000 +08:00 INFO  net] \n");
}

#[test]
fn writes_after_what_the_buffer_holds() {
    let env = policy();
    let record = event(Level::Info, None, "net", "second");
    let held = b"first line\n".to_vec();
    let out = TimeZoneFormat::new(held, &env).write_with_timestamp(STAMP, &record, &Style::plain());
    assert_eq!(
        String::from_utf8(out).unwrap(),
        "first line\n[2024-01-01 12:00:00.000 +08:00 INFO  net] second\n"
    );
}

#[test]
fn without_header_fields_no_bracket_is_written() {
    let mut env = policy();
    env.level = false;
    env.target = false;
    env.show_module_path = false;
    let record = event(Level::Info, Some("app"), "net", "message_body");
    let mut fmt = TimeZoneFormat::new(Vec::new(), &env);
    fmt.write_level(&record, &Style::plain());
    fmt.write_module_path(&record);
    fmt.write_target(&record);
    fmt.finish_header();
    fmt.write_args(&record);
    let mut out = fmt.into_bytes();
    out.extend_from_slice(env.suffix.as_bytes());
    assert_eq!(String::from_utf8(out).unwrap(), "message_body\n");
}

#[test]
fn the_first_field_opens_the_bracket_and_later_ones_follow_a_blank() {
    let env = policy();
    let mut fmt = TimeZoneFormat::new(Vec::new(), &env);
    fmt.write_header_value(b"one");
    fmt.write_header_value(b"two");
    fmt.write_header_value(b"three");
    fmt.finish_header();
    assert_eq!(fmt.into_bytes(), b"[one two three] ");
    let mut fmt = TimeZoneFormat::new(Vec::new(), &env);
    fmt.write_header_value(b"alone");
    fmt.finish_header();
    assert_eq!(fmt.into_bytes(), b"[alone] ");
    let mut fmt = TimeZoneFormat::new(Vec::new(), &env);
    fmt.finish_header();
    assert_eq!(fmt.into_bytes(), b"");
}

#[test]
fn write_header_writes_the_whole_header() {
    let env = policy();
    let record = event(Level::Trace, None, "net", "ignored");
    let mut fmt = TimeZoneFormat::new(Vec::new(), &env);
    fmt.write_header(STAMP, &record, &Style::plain());
    assert_eq!(fmt.into_bytes(), b"[2024-01-01 12:00:00.000 +08:00 TRACE net] ");
}

#[test]
fn a_header_that_was_begun_is_continued() {
    let env = policy();
    let record = event(Level::Info, None, "net", "body");
    let mut fmt = TimeZoneFormat::new(Vec::new(), &env);
    fmt.write_header_value(b"host");
    let out = fmt.write_with_timestamp(STAMP, &record, &Style::plain());
    assert_eq!(
        String::from_utf8(out).unwrap(),
        "[host 2024-01-01 12:00:00.000 +08:00 INFO  net] body\n"
    );
}

#[test]
fn write_timestamp_writes_a_header_field() {
    let env = policy();
    let mut fmt = TimeZoneFormat::new(Vec::new(), &env);
    fmt.write_timestamp(b"12:00");
    fmt.write_timestamp(b"13:00");
    assert_eq!(fmt.into_bytes(), b"[12:00 13:00");
}

#[test]
fn styled_value_pads_inside_the_markers() {
    let styled = StyledValue { style: Style { start: "<", reset: ">" }, value: "ab" };
    let mut out = b"x".to_vec();
    styled.fmt(&mut out, 5);
    assert_eq!(out, b"x<ab   >");
    let mut out = Vec::new();
    styled.fmt(&mut out, 1);
    assert_eq!(out, b"<ab>");
    let mut out = Vec::new();
    styled.fmt(&mut out, 2);
    assert_eq!(out, b"<ab>");
}

#[test]
fn plain_style_has_no_markers() {
    let style = Style::plain();
    assert_eq!(style.start, "");
    assert_eq!(style.reset, "");
}

#[test]
fn push_spaces_appends_blanks() {
    let mut out = b"a".to_vec();
    push_spaces(&mut out, 0);
    assert_eq!(out, b"a");
    push_spaces(&mut out, 3);
    assert_eq!(out, b"a   ");
}

#[test]
fn push_padded_fills_up_to_the_width() {
    let mut out = Vec::new();
    push_padded(&mut out, b"abc", 5);
    assert_eq!(out, b"abc  ");
    push_padded(&mut out, b"abcdef", 5);
    assert_eq!(out, b"abc  abcdef");
    push_padded(&mut out, b"", 2);
    assert_eq!(out, b"abc  abcdef  ");
}

#[test]
fn write_args_alone_writes_the_message() {
    let mut env = policy();
    env.indent = Some(1);
    let record = event(Level::Info, None, "net", "\nx\n");
    let mut fmt = TimeZoneFormat::new(b">".to_vec(), &env);
    fmt.write_args(&record);
    assert_eq!(fmt.into_bytes(), b">\n x\n ");
    env.indent = None;
    let mut fmt = TimeZoneFormat::new(b">".to_vec(), &env);
    fmt.write_args(&record);
    assert_eq!(fmt.into_bytes(), b">\nx\n");
}

#[test]
fn hidden_fields_write_nothing() {
    let mut env = policy();
    env.level = false;
    env.target = false;
    let record = event(Level::Info, Some("app"), "net", "m");
    let mut fmt = TimeZoneFormat::new(Vec::new(), &env);
    fmt.write_level(&record, &Style::plain());
    fmt.write_module_path(&record);
    fmt.write_target(&record);
    assert_eq!(fmt.into_bytes(), b"");
}

#[test]
fn shown_fields_are_written_one_by_one() {
    let mut env = policy();
    env.show_module_path = true;
    let record = event(Level::Info, Some("app"), "net", "m");
    let mut fmt = TimeZoneFormat::new(Vec::new(), &env);
    fmt.write_level(&record, &Style { start: "<", reset: ">" });
    assert_eq!(fmt.into_bytes(), b"[<INFO >");
    let mut fmt = TimeZoneFormat::new(Vec::new(), &env);
    fmt.write_module_path(&record);
    fmt.write_target(&record);
    assert_eq!(fmt.into_bytes(), b"[app net");
}

#[test]
fn a_wide_indentation_is_written_in_full() {
    let mut env = policy();
    env.indent = Some(70_000);
    let record = event(Level::Info, None, "", "a\nb");
    let out = TimeZoneFormat::new(Vec::new(), &env).write_with_timestamp(STAMP, &record, &Style::plain());
    let head = b"[2024-01-01 12:00:00.000 +08:00 INFO ] a\n".len();
    assert_eq!(out.len(), head + 70_000 + 2);
    assert!(out[head..head + 70_000].iter().all(|byte| *byte == b' '));
    assert_eq!(&out[head + 70_000..], b"b\n");
}
