//! Pretty-printing of a metadata text, as it is emitted.
//!
//! The text is read into a tree and the tree is written out again with one
//! element to a line, children indented under their parent. Both steps are
//! the work of the `xmlem` crate.

use vstd::prelude::*;

verus! {

/// The error with which `xmlem` declines to read a text.
#[verifier::external_type_specification]
#[verifier::external_body]
pub struct ExReadError(xmlem::ReadError);

/// The pretty-printed form of a text: what `xmlem` writes for the tree that
/// it reads from the text, or `None` where it reads no tree from it.
pub uninterp spec fn pretty_printed(text: Seq<char>) -> Option<Seq<char>>;

/// Why a text was not pretty-printed.
#[derive(Clone, Debug)]
pub struct XmlError {
    /// The reader's own description of what it met.
    pub message: String,
}

/// Trusted: `<xmlem::Document as FromStr>::from_str` followed, on the tree
/// that it gives, by `xmlem::Document::to_string_pretty`. The contract claims
/// only that the outcome is a function of the text: the same text is
/// refused again, or gives the same output again.
#[verifier::external_body]
fn read_and_print(text: &str) -> (out: Result<String, xmlem::ReadError>)
    ensures
        match out {
            Ok(printed) => pretty_printed(text@) == Some(printed@),
            Err(_) => pretty_printed(text@).is_none(),
        },
{
    match text.parse::<xmlem::Document>() {
        Ok(document) => Ok(document.to_string_pretty()),
        Err(reason) => Err(reason),
    }
}

/// Trusted: the `Display` form of an `xmlem::ReadError`. Nothing is claimed
/// of the message.
#[verifier::external_body]
fn describe(reason: &xmlem::ReadError) -> (message: String) {
    format!("{}", reason)
}

/// Pretty-prints a metadata text. A text that cannot be read is refused with
/// the reader's description; no other text is.
pub fn pretty_print(text: &str) -> (out: Result<String, XmlError>)
    ensures
        match pretty_printed(text@) {
            Some(printed) => out.is_ok() && out.unwrap()@ == printed,
            None => out.is_err(),
        },
{
    match read_and_print(text) {
        Ok(printed) => Ok(printed),
        Err(reason) => Err(XmlError { message: describe(&reason) }),
    }
}

} // verus!
