//! A marker error for unit tests, and the text it carries.
//!
//! A test that returns [`TestResult`] can end every fallible step with `?`.
//! The first failure is then turned into a panic at the place where it
//! happened, so the test report shows the failing line and its stack trace
//! instead of a bare `Err`.
//!
//! This crate holds what such a conversion says: the message a failure
//! panics with, and the text of the marker itself. Raising the panic is left
//! to the caller.

use vstd::prelude::*;

verus! {

/// Error with stacktrace
///
/// Any other error is meant to be turned into a panic on its way into this
/// type, so a value of it carries nothing and is never inspected.
///
/// This type is useful only in unit tests.
#[derive(Debug)]
pub struct ErrorWithStacktrace;

/// Unit test result
///
/// The return type of a test function that uses `?` on its fallible steps.
pub type TestResult = Result<(), ErrorWithStacktrace>;

impl ErrorWithStacktrace {
    /// The text a value renders as. It is the same for every value.
    pub open spec fn rendering(&self) -> Seq<char> {
        "This is an error with stacktrace"@
    }

    /// Renders the value as text.
    pub fn to_string(&self) -> (text: String)
        ensures
            text@ == self.rendering(),
            text@.len() > 0,
    {
        proof {
            reveal_strlit("This is an error with stacktrace");
        }
        "This is an error with stacktrace".to_owned()
    }

    /// The message that turning an error into this type panics with, given
    /// the text `rendered` that the error renders as: `"Error: "` and then
    /// that text.
    pub open spec fn panic_message_spec(rendered: Seq<char>) -> Seq<char> {
        "Error: "@ + rendered
    }

    /// Builds the panic message for an error that renders as `rendered`.
    pub fn panic_message(rendered: &str) -> (message: String)
        ensures
            message@ == Self::panic_message_spec(rendered@),
    {
        "Error: ".to_owned().concat(rendered)
    }

    /// Builds the panic message for `error`, whatever its type, from what
    /// its `Display` renders.
    pub fn panic_message_of<T: core::fmt::Display + ?Sized>(error: &T) -> (message: String)
        ensures
            exists|rendered: String| #[trigger]
                vstd::string::to_string_from_display_ensures::<T>(error, rendered) && message@
                    == Self::panic_message_spec(rendered@),
    {
        let rendered = error.to_string();
        Self::panic_message(rendered.as_str())
    }
}

/// The panic message keeps the error's text whole: it is `"Error: "`, seven
/// characters, and then the rendering, unchanged, up to the end.
pub proof fn lemma_panic_message_contains_rendering(rendered: Seq<char>)
    ensures
        ErrorWithStacktrace::panic_message_spec(rendered).len() == 7 + rendered.len(),
        ErrorWithStacktrace::panic_message_spec(rendered).take(7) == "Error: "@,
        ErrorWithStacktrace::panic_message_spec(rendered).skip(7) == rendered,
{
    reveal_strlit("Error: ");
}

/// Two errors panic with the same message only if they render alike.
pub proof fn lemma_panic_message_is_injective(first: Seq<char>, second: Seq<char>)
    requires
        ErrorWithStacktrace::panic_message_spec(first) == ErrorWithStacktrace::panic_message_spec(
            second,
        ),
    ensures
        first == second,
{
    lemma_panic_message_contains_rendering(first);
    lemma_panic_message_contains_rendering(second);
}

/// Every value renders as the same text, and that text is not empty.
pub proof fn lemma_rendering_is_constant(first: ErrorWithStacktrace, second: ErrorWithStacktrace)
    ensures
        first.rendering() == second.rendering(),
        first.rendering().len() > 0,
{
    reveal_strlit("This is an error with stacktrace");
}

} // verus!
