use tiny_error::ErrorMessage;

#[test]
fn new_keeps_a_literal() {
    let message = ErrorMessage::new("Invalid input");
    assert_eq!(message.render(), "Invalid input");
}

#[test]
fn new_keeps_an_owned_string() {
    let text = String::from("disk quota exceeded");
    let message = ErrorMessage::new(text.clone());
    assert_eq!(message.render(), text);
}

#[test]
fn new_keeps_a_line_break_inside_the_text() {
    let message = ErrorMessage::new(
        "Invalid input\n\
         Correct Usage: `[crate_name] example/file/path.txt`",
    );
    assert_eq!(
        message.render(),
        "Invalid input\nCorrect Usage: `[crate_name] example/file/path.txt`"
    );
    assert_eq!(message.render().lines().count(), 2);
}

#[test]
fn new_keeps_the_empty_text() {
    let message = ErrorMessage::new("");
    assert_eq!(message.render(), "");
    assert_eq!(message.render().len(), 0);
}

#[test]
fn new_keeps_text_outside_ascii() {
    let text = "dépôt introuvable: 文件 \u{1F4C1}";
    let message = ErrorMessage::new(text);
    assert_eq!(message.render(), text);
    assert_eq!(message.render().chars().count(), text.chars().count());
}

#[test]
fn new_keeps_blanks_and_line_breaks_at_the_ends() {
    let text = "  \tpadded on both sides \n\n";
    let message = ErrorMessage::new(text);
    assert_eq!(message.render(), text);
}

#[test]
fn new_keeps_quotes_and_brackets_as_given() {
    let text = "ErrorMessage(\"already wrapped\")";
    let message = ErrorMessage::new(text);
    assert_eq!(message.render(), text);
}

#[test]
fn new_keeps_a_long_text() {
    let text = "0123456789".repeat(10_000);
    let message = ErrorMessage::new(text.clone());
    assert_eq!(message.render().len(), 100_000);
    assert_eq!(message.render(), text);
}

#[test]
fn new_takes_a_character() {
    let message = ErrorMessage::new('x');
    assert_eq!(message.render(), "x");
}

#[test]
fn new_takes_a_boxed_slice() {
    let boxed: Box<str> = Box::from("boxed text");
    let message = ErrorMessage::new(boxed);
    assert_eq!(message.render(), "boxed text");
}

#[test]
fn new_takes_a_borrowed_string() {
    let text = String::from("borrowed");
    let message = ErrorMessage::new(&text);
    assert_eq!(message.render(), "borrowed");
    assert_eq!(text, "borrowed");
}

#[test]
fn messages_of_equal_text_render_the_same() {
    let literal = ErrorMessage::new("Invalid input");
    let owned = ErrorMessage::new(String::from("Invalid input"));
    let joined = ErrorMessage::new(format!("{} {}", "Invalid", "input"));
    assert_eq!(literal.render(), owned.render());
    assert_eq!(owned.render(), joined.render());
    assert_eq!(format!("{:?}", literal), format!("{:?}", joined));
}

#[test]
fn messages_of_different_text_render_differently() {
    let first = ErrorMessage::new("Invalid input");
    let second = ErrorMessage::new("Invalid input ");
    assert_ne!(first.render(), second.render());
}

#[test]
fn render_can_be_asked_again() {
    let message = ErrorMessage::new("once and again");
    let first = message.render();
    let second = message.render();
    assert_eq!(first, "once and again");
    assert_eq!(first, second);
}
