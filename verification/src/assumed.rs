//! What this crate takes on trust from the standard library. Nothing in this
//! file is proved: each item states what the standard library documents, and
//! the proofs about messages rest on it.

use vstd::prelude::*;

verus! {

/// `String::from` on a string slice (`impl From<&str> for String`).
///
/// Assumed: the string that comes back holds the characters of the slice, in
/// their order, and no others.
pub assume_specification<'a, 'b>[ <String as From<&'a str>>::from ](s: &'b str) -> (r: String)
    ensures
        r@ == s@,
;

/// `From::from` of a type into itself (`impl<T> From<T> for T`).
///
/// Assumed: the argument comes back unchanged.
pub assume_specification<T>[ <T as From<T>>::from ](t: T) -> (r: T)
    ensures
        r == t,
;

/// `std::fmt::Formatter`, which stands between a `Debug` implementation and
/// the sink that it writes to. Nothing inside it can be read; [`written`]
/// names what has gone through it.
#[verifier::external_type_specification]
#[verifier::external_body]
pub struct ExFormatter<'a>(std::fmt::Formatter<'a>);

/// `std::fmt::Error`, which a formatter reports when its sink fails.
#[verifier::external_type_specification]
#[verifier::external_body]
pub struct ExFmtError(std::fmt::Error);

/// The characters that have been written to the sink underneath `f`, in the
/// order in which they were written.
pub uninterp spec fn written(f: &std::fmt::Formatter<'_>) -> Seq<char>;

/// `std::fmt::Formatter::write_str`: writes `text` to the sink underneath the
/// formatter, without applying the formatter's flags.
///
/// Assumed: where the call answers `Ok`, the whole of `text` was written
/// after what was there, and nothing else. A sink may only answer `Ok` when
/// it has taken the entire slice. Where the call answers `Err`, nothing is
/// assumed of how much was written.
#[verifier::external_body]
pub(crate) fn write_text(f: &mut std::fmt::Formatter<'_>, text: &str) -> (answer: std::fmt::Result)
    ensures
        answer is Ok ==> written(final(f)) == written(old(f)) + text@,
{
    f.write_str(text)
}

} // verus!
