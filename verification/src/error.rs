//! The diagnostics that the analysis reports: a position, a rule, a message.

use vstd::prelude::*;
use vstd::string::*;

use proc_macro2::Span;

verus! {

/// The rule that a rejected declaration has broken.
#[derive(Clone, Copy, Debug, PartialEq, Eq, Structural)]
pub enum ErrorKind {
    /// `get`, `set` or `name` came without a value.
    RequiresValue,
    /// A name is the reserved name of the index getter.
    UseIndexGet,
    /// A name is the reserved name of the index setter.
    UseIndexSet,
    /// A name begins with the prefix of property getters.
    UseGetter,
    /// A name begins with the prefix of property setters.
    UseSetter,
    /// A name holds the separator character `$`.
    DollarInName,
    /// A name holds the member-access character `.`.
    DotInName,
    /// `set` came after another special access.
    ConflictingSetter,
    /// `get` came after another special access.
    ConflictingGetter,
    /// `index_get` came after another special access.
    ConflictingIndexGet,
    /// `index_set` came after another special access.
    ConflictingIndexSet,
    /// A flag was given a value.
    ExtraneousValue,
    /// The key is none of the known ones.
    UnknownAttribute,
    /// The function item carries a `cfg` attribute.
    CfgNotAllowed,
    /// A parameter after the first is neither taken by value nor `&str`.
    PassesByValue,
    /// The function returns a raw pointer.
    ReturnsPointer,
    /// The function returns a reference.
    ReturnsReference,
    /// A raw result was asked of a function that returns nothing.
    RawWithoutResult,
    /// A property getter does not take exactly one argument.
    GetterArity,
    /// A property getter returns nothing.
    GetterWithoutValue,
    /// A property setter does not take exactly two arguments.
    SetterArity,
    /// A property setter returns a value.
    SetterWithValue,
    /// An index getter does not take exactly two arguments.
    IndexGetterArity,
    /// An index getter returns nothing.
    IndexGetterWithoutValue,
    /// An index setter does not take exactly three arguments.
    IndexSetterArity,
    /// An index setter returns a value.
    IndexSetterWithValue,
}

/// A diagnostic as a mathematical value.
pub struct Fault {
    pub span: Span,
    pub kind: ErrorKind,
    /// The text that the message quotes; empty where it quotes none.
    pub detail: Seq<char>,
}

/// The diagnostic of `kind` at `span` that quotes nothing.
pub open spec fn plain_fault(span: Span, kind: ErrorKind) -> Fault {
    Fault { span, kind, detail: Seq::empty() }
}

/// A diagnostic: where, which rule, and the text that its message quotes.
#[derive(Clone, Debug)]
pub struct Error {
    pub span: Span,
    pub kind: ErrorKind,
    pub detail: String,
}

impl View for Error {
    type V = Fault;

    open spec fn view(&self) -> Fault {
        Fault { span: self.span, kind: self.kind, detail: self.detail@ }
    }
}

/// The message of a diagnostic of `kind` that quotes `detail`.
pub open spec fn message_text(kind: ErrorKind, detail: Seq<char>) -> Seq<char> {
    match kind {
        ErrorKind::RequiresValue => "requires value"@,
        ErrorKind::UseIndexGet => "use attribute 'index_get' instead"@,
        ErrorKind::UseIndexSet => "use attribute 'index_set' instead"@,
        ErrorKind::UseGetter => "use attribute 'getter = \""@ + detail + "\"' instead"@,
        ErrorKind::UseSetter => "use attribute 'setter = \""@ + detail + "\"' instead"@,
        ErrorKind::DollarInName => "Rhai function names may not contain dollar sign"@,
        ErrorKind::DotInName => "Rhai function names may not contain dot"@,
        ErrorKind::ConflictingSetter => "conflicting setter"@,
        ErrorKind::ConflictingGetter => "conflicting getter"@,
        ErrorKind::ConflictingIndexGet => "conflicting index_get"@,
        ErrorKind::ConflictingIndexSet => "conflicting index_set"@,
        ErrorKind::ExtraneousValue => "extraneous value"@,
        ErrorKind::UnknownAttribute => "unknown attribute '"@ + detail + "'"@,
        ErrorKind::CfgNotAllowed => "cfg attributes not allowed on this item"@,
        ErrorKind::PassesByValue => "this type in this position passes from Rhai by value"@,
        ErrorKind::ReturnsPointer => "cannot return a pointer to Rhai"@,
        ErrorKind::ReturnsReference => "cannot return a reference to Rhai"@,
        ErrorKind::RawWithoutResult => "return_raw functions must return Result<T>"@,
        ErrorKind::GetterArity => "property getter requires exactly 1 argument"@,
        ErrorKind::GetterWithoutValue => "property getter must return a value"@,
        ErrorKind::SetterArity => "property setter requires exactly 2 arguments"@,
        ErrorKind::SetterWithValue => "property setter must return no value"@,
        ErrorKind::IndexGetterArity => "index getter requires exactly 2 arguments"@,
        ErrorKind::IndexGetterWithoutValue => "index getter must return a value"@,
        ErrorKind::IndexSetterArity => "index setter requires exactly 3 arguments"@,
        ErrorKind::IndexSetterWithValue => "index setter must return no value"@,
    }
}

fn quoting(before: &str, detail: &str, after: &str) -> (text: String)
    ensures
        text@ == before@ + detail@ + after@,
{
    let mut text = String::from_str(before);
    text.append(detail);
    text.append(after);
    text
}

impl Error {
    /// A diagnostic of `kind` at `span` that quotes nothing.
    pub fn new(span: Span, kind: ErrorKind) -> (e: Error)
        ensures
            e@ == plain_fault(span, kind),
    {
        Error { span, kind, detail: String::new() }
    }

    /// A diagnostic of `kind` at `span` whose message quotes `detail`.
    pub fn quoting(span: Span, kind: ErrorKind, detail: String) -> (e: Error)
        ensures
            e@ == (Fault { span, kind, detail: detail@ }),
    {
        Error { span, kind, detail }
    }

    /// The message to show at the position of the diagnostic.
    pub fn message(&self) -> (text: String)
        ensures
            text@ == message_text(self.kind, self.detail@),
    {
        match self.kind {
            ErrorKind::RequiresValue => String::from_str("requires value"),
            ErrorKind::UseIndexGet => String::from_str("use attribute 'index_get' instead"),
            ErrorKind::UseIndexSet => String::from_str("use attribute 'index_set' instead"),
            ErrorKind::UseGetter => quoting(
                "use attribute 'getter = \"",
                self.detail.as_str(),
                "\"' instead",
            ),
            ErrorKind::UseSetter => quoting(
                "use attribute 'setter = \"",
                self.detail.as_str(),
                "\"' instead",
            ),
            ErrorKind::DollarInName => String::from_str(
                "Rhai function names may not contain dollar sign",
            ),
            ErrorKind::DotInName => String::from_str("Rhai function names may not contain dot"),
            ErrorKind::ConflictingSetter => String::from_str("conflicting setter"),
            ErrorKind::ConflictingGetter => String::from_str("conflicting getter"),
            ErrorKind::ConflictingIndexGet => String::from_str("conflicting index_get"),
            ErrorKind::ConflictingIndexSet => String::from_str("conflicting index_set"),
            ErrorKind::ExtraneousValue => String::from_str("extraneous value"),
            ErrorKind::UnknownAttribute => quoting("unknown attribute '", self.detail.as_str(), "'"),
            ErrorKind::CfgNotAllowed => String::from_str("cfg attributes not allowed on this item"),
            ErrorKind::PassesByValue => String::from_str(
                "this type in this position passes from Rhai by value",
            ),
            ErrorKind::ReturnsPointer => String::from_str("cannot return a pointer to Rhai"),
            ErrorKind::ReturnsReference => String::from_str("cannot return a reference to Rhai"),
            ErrorKind::RawWithoutResult => String::from_str(
                "return_raw functions must return Result<T>",
            ),
            ErrorKind::GetterArity => String::from_str(
                "property getter requires exactly 1 argument",
            ),
            ErrorKind::GetterWithoutValue => String::from_str(
                "property getter must return a value",
            ),
            ErrorKind::SetterArity => String::from_str(
                "property setter requires exactly 2 arguments",
            ),
            ErrorKind::SetterWithValue => String::from_str("property setter must return no value"),
            ErrorKind::IndexGetterArity => String::from_str(
                "index getter requires exactly 2 arguments",
            ),
            ErrorKind::IndexGetterWithoutValue => String::from_str(
                "index getter must return a value",
            ),
            ErrorKind::IndexSetterArity => String::from_str(
                "index setter requires exactly 3 arguments",
            ),
            ErrorKind::IndexSetterWithValue => String::from_str(
                "index setter must return no value",
            ),
        }
    }
}

} // verus!
