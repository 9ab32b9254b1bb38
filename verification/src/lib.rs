//! A tiny crate for error handling. It turns any value that can display
//! itself, which every error can, into its message, allowing for easy
//! propagation: failures of many kinds leave a function as one type.
//!
//! An [`ErrorMessage`] is made from a text with [`ErrorMessage::new`] or from
//! an error with `From`, which is what the `?` operator calls. Shown with
//! [`ErrorMessage::render`], or formatted for debugging, it is that text and
//! nothing else.
//!
//! ```rust
//! use tiny_error::ErrorMessage;
//!
//! // Text when failed:
//! // Error: invalid digit found in string
//! fn parse(input: &str) -> Result<u32, ErrorMessage> {
//!     let number = input.parse::<u32>()?;
//!
//!     Ok(number)
//! }
//!
//! // Text when failed:
//! // Error: Invalid input
//! // Correct Usage: `[crate_name] 42`
//! fn first(arguments: &[&str]) -> Result<u32, ErrorMessage> {
//!     match arguments {
//!         [input] => parse(input),
//!         _ => Err(ErrorMessage::new(
//!             "Invalid input\n\
//!              Correct Usage: `[crate_name] 42`",
//!         )),
//!     }
//! }
//! ```

pub mod assumed;
pub mod laws;
pub mod message;

pub use message::ErrorMessage;
