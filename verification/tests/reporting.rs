use fatal::{error, error_prefix, fatal, output_of, ColorCapability, ErrWrite, Termination};

#[test]
fn the_prefix_is_the_error_literal() {
    assert_eq!(error_prefix(), "Error: ");
}

fn color_on() -> ColorCapability {
    ColorCapability { enabled: true }
}

fn color_off() -> ColorCapability {
    ColorCapability { enabled: false }
}

fn message_writes(t: &Termination) -> Vec<String> {
    let mut out: Vec<String> = Vec::new();
    for w in t.writes.iter() {
        if let ErrWrite::Message(text) = w {
            out.push(text.clone());
        }
    }
    out
}

#[test]
fn fatal_without_message_writes_nothing() {
    let t = fatal(None);
    assert_eq!(t.writes.len(), 0);
    assert_eq!(t.exit_code, 1);
    assert_eq!(output_of(&t), "");
}

#[test]
fn fatal_with_message_writes_one_line_without_prefix() {
    let t = fatal(Some(String::from("out of luck")));
    assert_eq!(t.writes.len(), 1);
    match &t.writes[0] {
        ErrWrite::Message(text) => assert_eq!(text, "out of luck"),
        ErrWrite::Prefix { .. } => panic!("no prefix expected"),
    }
    assert_eq!(t.exit_code, 1);
    assert_eq!(output_of(&t), "out of luck\n");
}

#[test]
fn error_without_message_writes_nothing() {
    let t = error(None, color_on());
    assert_eq!(t.writes.len(), 0);
    assert_eq!(t.exit_code, 1);
    assert_eq!(output_of(&t), "");
}

#[test]
fn error_with_message_writes_prefix_then_message() {
    let t = error(Some(String::from("bad input")), color_on());
    assert_eq!(t.writes.len(), 2);
    match &t.writes[0] {
        ErrWrite::Prefix { red } => assert!(*red),
        ErrWrite::Message(_) => panic!("prefix must come first"),
    }
    match &t.writes[1] {
        ErrWrite::Message(text) => assert_eq!(text, "bad input"),
        ErrWrite::Prefix { .. } => panic!("message must come second"),
    }
    assert_eq!(t.exit_code, 1);
    assert_eq!(output_of(&t), "Error: bad input\n");
}

#[test]
fn error_without_capability_marks_prefix_plain() {
    let t = error(Some(String::from("bad input")), color_off());
    assert_eq!(t.writes.len(), 2);
    match &t.writes[0] {
        ErrWrite::Prefix { red } => assert!(!*red),
        ErrWrite::Message(_) => panic!("prefix must come first"),
    }
    assert_eq!(output_of(&t), "Error: bad input\n");
}

#[test]
fn error_with_empty_message_still_writes_prefix_and_empty_line() {
    let t = error(Some(String::new()), color_off());
    assert_eq!(t.writes.len(), 2);
    assert_eq!(output_of(&t), "Error: \n");
}

#[test]
fn error_carries_exactly_one_message_write() {
    let t = error(Some(String::from("one line")), color_on());
    assert_eq!(message_writes(&t).len(), 1);
}

#[test]
fn every_terminating_path_exits_with_one() {
    assert_eq!(fatal(None).exit_code, 1);
    assert_eq!(fatal(Some(String::from("x"))).exit_code, 1);
    assert_eq!(error(None, color_on()).exit_code, 1);
    assert_eq!(error(Some(String::from("x")), color_off()).exit_code, 1);
}
