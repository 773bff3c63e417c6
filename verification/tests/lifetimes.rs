use lifetimes::program_lines;
use lifetimes::text::{narrow, output_line, output_line_for_buffer, static_str};
use lifetimes::user::User;

#[test]
fn literal_line_has_newline() {
    assert_eq!(output_line("I am a string"), "I am a string\n");
}

#[test]
fn empty_text_gives_bare_newline() {
    assert_eq!(output_line(""), "\n");
}

#[test]
fn borrowed_buffer_matches_direct_content() {
    let owned = String::from("I am an owned buffer");
    let via_reference = output_line(narrow(&owned));
    let via_contents = output_line_for_buffer(&owned);
    assert_eq!(via_reference, via_contents);
    assert_eq!(via_reference, "I am an owned buffer\n");
}

#[test]
fn static_value_stored_and_read_later() {
    let kept = static_str();
    let lines = program_lines();
    assert_eq!(lines.len(), 4);
    assert_eq!(kept, "I live forever!");
}

#[test]
fn record_name_unformatted() {
    let user = User { name: "John" };
    assert_eq!(user.name(), "John");
}

#[test]
fn greeting_for_john() {
    let user = User { name: "John" };
    assert_eq!(user.format(), "My name is John");
}

#[test]
fn greeting_for_empty_name() {
    let user = User { name: "" };
    assert_eq!(user.format(), "My name is ");
}

#[test]
fn record_borrows_from_owned_buffer() {
    let owned = String::from("John");
    let user = User { name: narrow(&owned) };
    assert_eq!(user.name(), "John");
    assert_eq!(user.format(), "My name is John");
}

#[test]
fn program_writes_four_lines_in_order() {
    let lines = program_lines();
    assert_eq!(lines.len(), 4);
    assert_eq!(lines[0], "I am a string");
    assert_eq!(lines[1], "John");
    assert_eq!(lines[2], "My name is John");
    assert_eq!(lines[3], "Lifetimes");
}
