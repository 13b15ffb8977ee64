//! The syntactic model of an annotated function.
//!
//! Every entity here is a plain-text fragment of the host language: the
//! caller parses the annotated item once and hands the pieces over as
//! strings, so the whole transformation can be stated and checked over
//! sequences of characters.

use vstd::prelude::*;

verus! {

/// A typed parameter: its binding pattern and its type, both as source text.
pub struct Param {
    /// The binding pattern, e.g. `id`.
    pub pat: String,
    /// The type annotation, e.g. `u32`.
    pub ty: String,
}

/// One entry of a function's parameter list.
pub enum FnInput {
    /// A self-receiver, with its source text (e.g. `&self`).
    Receiver(String),
    /// An ordinary `pattern: type` parameter.
    Typed(Param),
}

/// A parsed, not yet validated, function declaration.
///
/// Qualifiers are flags, every other piece is kept as the source text the
/// host grammar gave it; the transformation never looks inside those texts.
pub struct RawFn {
    /// Whether the `async` qualifier is present.
    pub is_async: bool,
    /// Whether the `const` qualifier is present.
    pub is_const: bool,
    /// Whether the parameter list ends in a variadic marker.
    pub is_variadic: bool,
    /// Outer attributes, one text each.
    pub attrs: Vec<String>,
    /// The visibility text (empty for inherited visibility).
    pub vis: String,
    /// Whether the `unsafe` qualifier is present.
    pub is_unsafe: bool,
    /// The calling-convention text (e.g. `extern "C"`), if any.
    pub abi: Option<String>,
    /// The function's name.
    pub name: String,
    /// The generic-parameter list as one text, angle brackets included
    /// (empty when the function declares no generics).
    pub generics: String,
    /// The declared lifetime parameters, one text each, in order.
    pub lifetimes: Vec<String>,
    /// The parameter list, in order.
    pub inputs: Vec<FnInput>,
    /// The return-type text, or `None` for implicit unit.
    pub output: Option<String>,
    /// The body, braces included.
    pub body: String,
}

impl FnInput {
    /// Whether this entry is a self-receiver.
    pub fn is_receiver(&self) -> (r: bool)
        ensures
            r == (self is Receiver),
    {
        matches!(self, FnInput::Receiver(_))
    }
}

impl RawFn {
    /// Whether the first parameter is a self-receiver, which would make the
    /// declaration an instance method.
    pub open spec fn first_input_is_receiver(self) -> bool {
        self.inputs@.len() > 0 && self.inputs@[0] is Receiver
    }
}

/// Why an expansion was refused.
#[derive(Debug)]
pub enum ExpandError {
    /// The attribute text is not a comma-separated list of trait bounds.
    /// The message is the one the underlying parser reported.
    MalformedBounds { message: String },
    /// The annotated item lacks the `async` qualifier.
    NotAsync,
    /// The annotated item is a `const` function.
    ConstFn,
    /// The annotated item declares a variadic parameter.
    Variadic,
    /// The annotated item's first parameter is a self-receiver.
    MethodReceiver,
}

impl ExpandError {
    /// The diagnostic text for this error, as shown to the user.
    ///
    /// The malformed-bounds case carries the parser's own message; the four
    /// structural refusals have fixed texts.
    pub fn message(&self) -> (r: String)
        ensures
            r@ == self.spec_message(),
    {
        match self {
            ExpandError::MalformedBounds { message, .. } => message.clone(),
            ExpandError::NotAsync => String::from_str(
                "`async-into-future` can only be used on async functions"),
            ExpandError::ConstFn => String::from_str(
                "`async-into-future` cannot be used on const functions"),
            ExpandError::Variadic => String::from_str(
                "`async-into-future` cannot be used on variadic functions"),
            ExpandError::MethodReceiver => String::from_str(
                "`async-into-future` cannot be used inside impl blocks"),
        }
    }

    /// The diagnostic text, at the specification level.
    pub open spec fn spec_message(self) -> Seq<char> {
        match self {
            ExpandError::MalformedBounds { message, .. } => message@,
            ExpandError::NotAsync => "`async-into-future` can only be used on async functions"@,
            ExpandError::ConstFn => "`async-into-future` cannot be used on const functions"@,
            ExpandError::Variadic => "`async-into-future` cannot be used on variadic functions"@,
            ExpandError::MethodReceiver => "`async-into-future` cannot be used inside impl blocks"@,
        }
    }
}

} // verus!
