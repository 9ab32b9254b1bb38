//! What holds of every message, whatever it was made from.
//!
//! Each law speaks of the functions themselves: `call_ensures(f, args, r)`
//! reads "`r` is a value that `f` can return on `args`", and
//! `call_requires(f, args)` reads "`f` accepts `args`".
//!
//! The laws on debugging speak of a formatter `before` and `after` a call of
//! `Debug::fmt` that answered `Ok`: then `written(after)` is
//! `written(before)` followed by the text of the message, which is what
//! `fmt` ensures.

use vstd::prelude::*;
use crate::assumed::written;
use crate::message::{converts_into, displays_as, ErrorMessage};

verus! {

/// Rendering a message made by `new` gives the string form of what `new` was
/// given.
pub proof fn lemma_render_after_new<S: Into<String>>(
    input: S,
    message: ErrorMessage,
    rendered: String,
)
    requires
        call_ensures(ErrorMessage::new::<S>, (input,), message),
        call_ensures(ErrorMessage::render, (&message,), rendered),
    ensures
        converts_into(input, rendered@),
{
}

/// Rendering a message made from a string slice gives back the slice,
/// character for character.
pub proof fn lemma_render_after_new_str(input: &str, message: ErrorMessage, rendered: String)
    requires
        call_ensures(ErrorMessage::new::<&str>, (input,), message),
        call_ensures(ErrorMessage::render, (&message,), rendered),
    ensures
        rendered@ == input@,
{
}

/// Rendering a message made from a `String` gives back that string,
/// character for character.
pub proof fn lemma_render_after_new_string(input: String, message: ErrorMessage, rendered: String)
    requires
        call_ensures(ErrorMessage::new::<String>, (input,), message),
        call_ensures(ErrorMessage::render, (&message,), rendered),
    ensures
        rendered@ == input@,
{
}

/// Rendering a message converted from a value gives a description of that
/// value.
pub proof fn lemma_render_after_from<E: std::fmt::Display>(
    value: E,
    message: ErrorMessage,
    rendered: String,
)
    requires
        call_ensures(<ErrorMessage as From<E>>::from, (value,), message),
        call_ensures(ErrorMessage::render, (&message,), rendered),
    ensures
        displays_as(&value, rendered@),
{
}

/// No input is refused. `new` and `from` accept every value of their
/// argument's type, `render` accepts every message, and each returns a
/// plain value: there is no error to return.
///
/// This does not say that the code of the argument's own type returns.
/// `new` runs its `Into` implementation and `from` its `Display`
/// implementation; `from` panics where the latter reports an error.
pub proof fn lemma_every_input_is_accepted<S: Into<String>, E: std::fmt::Display>(
    input: S,
    value: E,
    message: ErrorMessage,
)
    ensures
        call_requires(ErrorMessage::new::<S>, (input,)),
        call_requires(<ErrorMessage as From<E>>::from, (value,)),
        call_requires(ErrorMessage::render, (&message,)),
{
}

/// Rendering adds nothing to the text: if the rendering is the text with
/// something before it and something after it, both are empty. So there is
/// no type name, no quote or bracket and no line break that the text did not
/// hold itself.
pub proof fn lemma_render_adds_nothing(
    message: ErrorMessage,
    rendered: String,
    before: Seq<char>,
    after: Seq<char>,
)
    requires
        call_ensures(ErrorMessage::render, (&message,), rendered),
        rendered@ == before + message@ + after,
    ensures
        before.len() == 0,
        after.len() == 0,
{
}

/// Two messages with the same text render the same: nothing but the text
/// reaches the rendering.
pub proof fn lemma_same_text_renders_same(
    first: ErrorMessage,
    second: ErrorMessage,
    first_rendered: String,
    second_rendered: String,
)
    requires
        first@ == second@,
        call_ensures(ErrorMessage::render, (&first,), first_rendered),
        call_ensures(ErrorMessage::render, (&second,), second_rendered),
    ensures
        first_rendered@ == second_rendered@,
{
}

/// Debugging a message writes what rendering it returns.
pub proof fn lemma_debug_writes_the_rendering(
    message: ErrorMessage,
    rendered: String,
    before: &std::fmt::Formatter<'_>,
    after: &std::fmt::Formatter<'_>,
)
    requires
        call_ensures(ErrorMessage::render, (&message,), rendered),
        written(after) == written(before) + message@,
    ensures
        written(after) == written(before) + rendered@,
{
}

/// Debugging a message made from a string slice writes the slice,
/// character for character.
pub proof fn lemma_debug_after_new_str(
    input: &str,
    message: ErrorMessage,
    before: &std::fmt::Formatter<'_>,
    after: &std::fmt::Formatter<'_>,
)
    requires
        call_ensures(ErrorMessage::new::<&str>, (input,), message),
        written(after) == written(before) + message@,
    ensures
        written(after) == written(before) + input@,
{
}

/// Debugging a message made from a `String` writes that string, character
/// for character.
pub proof fn lemma_debug_after_new_string(
    input: String,
    message: ErrorMessage,
    before: &std::fmt::Formatter<'_>,
    after: &std::fmt::Formatter<'_>,
)
    requires
        call_ensures(ErrorMessage::new::<String>, (input,), message),
        written(after) == written(before) + message@,
    ensures
        written(after) == written(before) + input@,
{
}

/// Debugging a message converted from a value writes a description of that
/// value.
pub proof fn lemma_debug_after_from<E: std::fmt::Display>(
    value: E,
    message: ErrorMessage,
    before: &std::fmt::Formatter<'_>,
    after: &std::fmt::Formatter<'_>,
)
    requires
        call_ensures(<ErrorMessage as From<E>>::from, (value,), message),
        written(after) == written(before) + message@,
    ensures
        exists|description: Seq<char>|
            displays_as(&value, description) && written(after) == written(before) + description,
{
}

/// Debugging adds nothing to the text: if what was written is the text with
/// something before it and something after it, both are empty.
pub proof fn lemma_debug_adds_nothing(
    message: ErrorMessage,
    before: &std::fmt::Formatter<'_>,
    after: &std::fmt::Formatter<'_>,
    ahead: Seq<char>,
    behind: Seq<char>,
)
    requires
        written(after) == written(before) + message@,
        written(after) == written(before) + (ahead + message@ + behind),
    ensures
        ahead.len() == 0,
        behind.len() == 0,
{
    assert((written(before) + message@).len() == (written(before) + (ahead + message@
        + behind)).len());
}

/// Debugging two messages with the same text into formatters that have
/// written the same leaves them having written the same.
pub proof fn lemma_same_text_debugs_same(
    first: ErrorMessage,
    second: ErrorMessage,
    first_before: &std::fmt::Formatter<'_>,
    first_after: &std::fmt::Formatter<'_>,
    second_before: &std::fmt::Formatter<'_>,
    second_after: &std::fmt::Formatter<'_>,
)
    requires
        first@ == second@,
        written(first_before) == written(second_before),
        written(first_after) == written(first_before) + first@,
        written(second_after) == written(second_before) + second@,
    ensures
        written(first_after) == written(second_after),
{
}

/// Debugging a message twice writes its text twice: the first call leaves
/// the message as it was.
pub proof fn lemma_debug_twice(
    message: ErrorMessage,
    before: &std::fmt::Formatter<'_>,
    between: &std::fmt::Formatter<'_>,
    after: &std::fmt::Formatter<'_>,
)
    requires
        written(between) == written(before) + message@,
        written(after) == written(between) + message@,
    ensures
        written(after) == written(before) + (message@ + message@),
{
}

} // verus!
