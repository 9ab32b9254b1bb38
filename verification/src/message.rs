//! The message type: how a message is made and how it is shown.

use vstd::prelude::*;
use vstd::std_specs::convert::FromSpecImpl;
use vstd::string::to_string_from_display_ensures;
use crate::assumed::{write_text, written};

verus! {

/// The struct that holds the error message.
///
/// A message is its text and nothing more: the view is that text, and no
/// function changes it once the message is made.
pub struct ErrorMessage {
    text: String,
}

impl View for ErrorMessage {
    type V = Seq<char>;

    closed spec fn view(&self) -> Seq<char> {
        self.text@
    }
}

/// Whether `text` is the string form of `input`: what `input.into()` can
/// return, read as characters.
///
/// The conversion belongs to the type `S`, so this says no more of it than
/// `S` itself promises. For a string slice and for a `String` that promise is
/// the input's own characters.
pub open spec fn converts_into<S: Into<String>>(input: S, text: Seq<char>) -> bool {
    exists|s: String| #[trigger] call_ensures(<S as Into<String>>::into, (input,), s) && s@ == text
}

/// Whether `text` is a description of `value`: what `value.to_string()` can
/// return, read as characters. That is the rendering which the value's
/// `Display` implementation writes.
pub open spec fn displays_as<E: std::fmt::Display>(value: &E, text: Seq<char>) -> bool {
    exists|s: String| #[trigger] to_string_from_display_ensures::<E>(value, s) && s@ == text
}

impl ErrorMessage {
    /// Constructs a new [`ErrorMessage`] with the passed parameter,
    /// converting it into a [`String`].
    ///
    /// The text of the message is the string form of `message`, unchanged.
    /// Every value is accepted; the conversion itself is the code of `S`.
    pub fn new<S: Into<String>>(message: S) -> (result: Self)
        ensures
            converts_into(message, result@),
    {
        ErrorMessage { text: message.into() }
    }

    /// The message as it is shown: its text, with no quotes around it, no
    /// type name before it and no line break after it.
    pub fn render(&self) -> (rendered: String)
        ensures
            rendered@ == self@,
    {
        self.text.clone()
    }
}

/// No single value can be named as the result of displaying an `E`, so the
/// conversion promises nothing through `from_spec`. What it does promise is
/// the `ensures` of `from` below.
impl<E: std::fmt::Display> FromSpecImpl<E> for ErrorMessage {
    open spec fn obeys_from_spec() -> bool {
        false
    }

    open spec fn from_spec(value: E) -> Self {
        arbitrary()
    }
}

/// Turns any value that can display itself, as every error can, into its
/// message. With this the `?` operator converts the error of a fallible call
/// on its way out of a function that returns `Result<_, ErrorMessage>`.
impl<E: std::fmt::Display> From<E> for ErrorMessage {
    /// The text of the message is a description of `value`, unchanged.
    ///
    /// Every value is accepted, and whenever this returns, it returns a
    /// message. It does not return where the `Display` implementation of `E`
    /// reports an error while writing to a string, which never fails of
    /// itself: `to_string` panics then. Such an implementation breaks what
    /// `Display` asks of it, and nothing here can rule it out.
    fn from(value: E) -> (result: Self)
        ensures
            displays_as(&value, result@),
    {
        ErrorMessage { text: value.to_string() }
    }
}

/// Formatting a message for debugging writes its bare text, so that a
/// program which returns the message from `main` prints it as prose.
impl std::fmt::Debug for ErrorMessage {
    /// Writes what [`ErrorMessage::render`] returns, as it is. Width,
    /// precision and the other flags of the formatter are not applied: the
    /// text is neither padded nor cut.
    ///
    /// Where the answer is `Ok`, the sink has received the text of the
    /// message after what it held, and nothing else. The answer is the
    /// sink's own: this function adds no failure to it.
    fn fmt(&self, f: &mut std::fmt::Formatter<'_>) -> (answer: std::fmt::Result)
        ensures
            answer is Ok ==> written(final(f)) == written(old(f)) + self@,
    {
        let shown = self.render();
        write_text(f, shown.as_str())
    }
}

} // verus!
