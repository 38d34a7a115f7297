//! The declaration of a function as the analysis reads it: the shape of each
//! type, and the text of each part for what is written out later.

use vstd::prelude::*;

use crate::error::{Error, ErrorKind, Fault, plain_fault};
use proc_macro2::Span;
use crate::search::{first_index, lemma_first_index_found, lemma_first_index_none};
use crate::text::text_eq;

verus! {

/// What the analysis tells apart in a type.
#[derive(Debug)]
pub enum Shape {
    /// A type in parentheses or in an invisible group: it stands for the type inside.
    Group(Box<Type>),
    /// A reference to another type.
    Reference { mutable: bool, elem: Box<Type> },
    /// A path, with the text of the path as written: `str`, `String`, `a::B<C>`.
    Path(String),
    /// A raw pointer.
    Pointer,
    /// Tokens that were not read as a type.
    Verbatim,
    /// Any other type.
    Other,
}

/// A type: where it stands, how it is written, and its shape.
#[derive(Debug)]
pub struct Type {
    pub span: Span,
    pub tokens: String,
    pub shape: Shape,
}

/// One parameter of a function.
#[derive(Debug)]
pub enum FnArg {
    /// `self`, or with `reference` a borrow of it: `&self`, `&mut self`.
    Receiver { reference: bool, tokens: String },
    /// A pattern with a type. `ident` is the bound name where the pattern is one identifier.
    Typed { ident: Option<String>, pattern: String, ty: Type },
}

/// The return clause of a function that returns a value.
#[derive(Debug)]
pub struct Output {
    /// The position of the whole clause.
    pub span: Span,
    pub ty: Type,
}

/// The signature of a function.
#[derive(Debug)]
pub struct Signature {
    pub span: Span,
    /// What is written before `fn`, such as `unsafe`.
    pub qualifiers: String,
    pub ident: String,
    /// The generic parameters with their angle brackets, or nothing.
    pub generics: String,
    pub inputs: Vec<FnArg>,
    pub output: Option<Output>,
    /// The `where` clause, or nothing.
    pub where_clause: String,
}

/// An attribute of an item: where it stands, and its path as written.
#[derive(Clone, Debug)]
pub struct Attribute {
    pub span: Span,
    pub path: String,
}

/// A function item.
#[derive(Debug)]
pub struct ItemFn {
    pub span: Span,
    pub attrs: Vec<Attribute>,
    pub is_public: bool,
    pub sig: Signature,
}

/// How a parameter crosses the boundary.
#[derive(Clone, Copy, Debug, PartialEq, Eq, Structural)]
pub enum PassingMode {
    ByValue,
    ByImmutableStringRef,
    ByMutableReceiverRef,
}

/// The type that `ty` stands for once groups and parentheses are taken off.
pub open spec fn flatten(ty: Type) -> Type
    decreases ty,
{
    match ty.shape {
        Shape::Group(inner) => flatten(*inner),
        _ => ty,
    }
}

/// Whether `ty` is the path `path`, groups aside.
pub open spec fn is_path(ty: Type, path: Seq<char>) -> bool {
    match flatten(ty).shape {
        Shape::Path(written) => written@ == path,
        _ => false,
    }
}

/// Whether `ty` is `&str`, groups aside.
pub open spec fn is_str_ref(ty: Type) -> bool {
    match flatten(ty).shape {
        Shape::Reference { mutable, elem } => !mutable && is_path(*elem, "str"@),
        _ => false,
    }
}

/// Whether `ty` is a reference, groups aside.
pub open spec fn is_reference(ty: Type) -> bool {
    flatten(ty).shape is Reference
}

/// Whether a parameter of type `ty` after the first can be passed: by value,
/// or as `&str`.
pub open spec fn passes_by_value(ty: Type) -> bool {
    match flatten(ty).shape {
        Shape::Reference { .. } => is_str_ref(ty),
        Shape::Verbatim => false,
        _ => true,
    }
}

/// Whether only the first parameter may be a receiver.
pub open spec fn receivers_lead(inputs: Seq<FnArg>) -> bool {
    forall|i: int| 1 <= i < inputs.len() ==> inputs[i] is Typed
}

/// Whether the first parameter is a receiver taken by value: `self`.
pub open spec fn takes_self_by_value(inputs: Seq<FnArg>) -> bool {
    inputs.len() > 0 && match inputs[0] {
        FnArg::Receiver { reference, .. } => !reference,
        FnArg::Typed { .. } => false,
    }
}

/// Whether the function is called as a method: its first parameter is a
/// borrow of `self`, or a reference to anything but `str`.
pub open spec fn method_style(inputs: Seq<FnArg>) -> bool {
    inputs.len() > 0 && match inputs[0] {
        FnArg::Receiver { reference, .. } => reference,
        FnArg::Typed { ty, .. } => is_reference(ty) && !is_str_ref(ty),
    }
}

/// How the parameter at `i` crosses the boundary.
pub open spec fn passing_mode(inputs: Seq<FnArg>, i: int) -> PassingMode
    recommends
        0 <= i < inputs.len(),
{
    if i == 0 && method_style(inputs) {
        PassingMode::ByMutableReceiverRef
    } else {
        match inputs[i] {
            FnArg::Typed { ty, .. } => if is_str_ref(ty) {
                PassingMode::ByImmutableStringRef
            } else {
                PassingMode::ByValue
            },
            FnArg::Receiver { .. } => PassingMode::ByValue,
        }
    }
}

/// Whether the parameter `arg` cannot stand after the first: it has a type
/// that does not pass by value. A receiver is not held against this rule.
pub open spec fn cannot_pass() -> spec_fn(FnArg) -> bool {
    |arg: FnArg|
        match arg {
            FnArg::Typed { ty, .. } => !passes_by_value(ty),
            FnArg::Receiver { .. } => false,
        }
}

/// The position of the first parameter after the first that cannot be passed.
pub open spec fn first_unpassable(inputs: Seq<FnArg>) -> Option<int> {
    first_index(inputs, cannot_pass(), 1)
}

/// The fault of a return clause, if it has one: a pointer or a reference.
pub open spec fn output_fault(output: Option<Output>) -> Option<Fault> {
    match output {
        Some(clause) => match clause.ty.shape {
            Shape::Pointer => Some(plain_fault(clause.span, ErrorKind::ReturnsPointer)),
            Shape::Reference { .. } => Some(plain_fault(clause.span, ErrorKind::ReturnsReference)),
            _ => None,
        },
        None => None,
    }
}

/// The position that a diagnostic about the type of `arg` is tied to.
pub open spec fn type_span(arg: FnArg) -> Span
    recommends
        arg is Typed,
{
    arg->ty.span
}

/// The fault of a signature, if it has one: that of the first parameter after
/// the first that cannot be passed, else that of the return clause.
pub open spec fn signature_fault(sig: Signature) -> Option<Fault> {
    match first_unpassable(sig.inputs@) {
        Some(i) => Some(plain_fault(type_span(sig.inputs@[i]), ErrorKind::PassesByValue)),
        None => output_fault(sig.output),
    }
}

/// Whether an attribute is `cfg`.
pub open spec fn is_cfg() -> spec_fn(Attribute) -> bool {
    |attr: Attribute| attr.path@ == "cfg"@
}

/// The fault of a function item, if it has one: that of its first `cfg`
/// attribute, which what is generated for the item could not follow, else
/// that of its signature.
pub open spec fn item_fault(item: ItemFn) -> Option<Fault> {
    match first_index(item.attrs@, is_cfg(), 0) {
        Some(i) => Some(plain_fault(item.attrs@[i].span, ErrorKind::CfgNotAllowed)),
        None => signature_fault(item.sig),
    }
}

/// Refuses attributes among which one is `cfg`.
pub fn deny_cfg_attr(attrs: &Vec<Attribute>) -> (r: Result<(), Error>)
    ensures
        match r {
            Ok(_) => first_index(attrs@, is_cfg(), 0) is None,
            Err(e) => first_index(attrs@, is_cfg(), 0) matches Some(i) && e@ == plain_fault(
                attrs@[i].span,
                ErrorKind::CfgNotAllowed,
            ),
        },
{
    let mut i: usize = 0;
    while i < attrs.len()
        invariant
            i <= attrs.len(),
            forall|j: int| 0 <= j < i ==> !is_cfg()(#[trigger] attrs@[j]),
        decreases attrs.len() - i,
    {
        if text_eq(attrs[i].path.as_str(), "cfg") {
            proof {
                lemma_first_index_found(attrs@, is_cfg(), 0, i as int);
            }
            return Err(Error::new(attrs[i].span, ErrorKind::CfgNotAllowed));
        }
        i += 1;
    }
    proof {
        lemma_first_index_none(attrs@, is_cfg(), 0);
    }
    Ok(())
}

/// The type that `ty` stands for once groups and parentheses are taken off.
pub fn flatten_type_groups(ty: &Type) -> (flat: &Type)
    ensures
        *flat == flatten(*ty),
        !(flat.shape is Group),
    decreases ty,
{
    match &ty.shape {
        Shape::Group(inner) => flatten_type_groups(inner),
        _ => ty,
    }
}

impl Type {
    /// Whether this type is the path `path`, groups aside.
    pub fn is_path(&self, path: &str) -> (found: bool)
        ensures
            found == is_path(*self, path@),
    {
        match &flatten_type_groups(self).shape {
            Shape::Path(written) => text_eq(written.as_str(), path),
            _ => false,
        }
    }

    /// Whether this type is `&str`, groups aside.
    pub fn is_str_ref(&self) -> (found: bool)
        ensures
            found == is_str_ref(*self),
    {
        match &flatten_type_groups(self).shape {
            Shape::Reference { mutable, elem } => !*mutable && elem.is_path("str"),
            _ => false,
        }
    }

    /// Whether this type is a reference, groups aside.
    pub fn is_reference(&self) -> (found: bool)
        ensures
            found == is_reference(*self),
    {
        match &flatten_type_groups(self).shape {
            Shape::Reference { .. } => true,
            _ => false,
        }
    }

    /// Whether a parameter of this type after the first can be passed.
    pub fn passes_by_value(&self) -> (passes: bool)
        ensures
            passes == passes_by_value(*self),
    {
        match &flatten_type_groups(self).shape {
            Shape::Reference { .. } => self.is_str_ref(),
            Shape::Verbatim => false,
            _ => true,
        }
    }
}

impl Signature {
    /// Whether only the first parameter may be a receiver.
    pub fn receivers_lead(&self) -> (lead: bool)
        ensures
            lead == receivers_lead(self.inputs@),
    {
        let mut i: usize = 1;
        while i < self.inputs.len()
            invariant
                1 <= i,
                forall|j: int| 1 <= j < i && j < self.inputs@.len() ==> self.inputs@[j] is Typed,
            decreases self.inputs.len() - i,
        {
            match &self.inputs[i] {
                FnArg::Receiver { .. } => {
                    return false;
                },
                FnArg::Typed { .. } => {},
            }
            i += 1;
        }
        true
    }

    /// Whether the function is called as a method.
    pub fn method_style(&self) -> (method: bool)
        ensures
            method == method_style(self.inputs@),
    {
        if self.inputs.len() == 0 {
            return false;
        }
        match &self.inputs[0] {
            FnArg::Receiver { reference, .. } => *reference,
            FnArg::Typed { ty, .. } => ty.is_reference() && !ty.is_str_ref(),
        }
    }

    /// Whether the first parameter is `self`, taken by value.
    pub fn takes_self_by_value(&self) -> (found: bool)
        ensures
            found == takes_self_by_value(self.inputs@),
    {
        if self.inputs.len() == 0 {
            return false;
        }
        match &self.inputs[0] {
            FnArg::Receiver { reference, .. } => !*reference,
            FnArg::Typed { .. } => false,
        }
    }

    /// How the parameter at `i` crosses the boundary.
    pub fn passing_mode(&self, i: usize) -> (mode: PassingMode)
        requires
            i < self.inputs@.len(),
        ensures
            mode == passing_mode(self.inputs@, i as int),
    {
        if i == 0 && self.method_style() {
            PassingMode::ByMutableReceiverRef
        } else {
            match &self.inputs[i] {
                FnArg::Typed { ty, .. } => if ty.is_str_ref() {
                    PassingMode::ByImmutableStringRef
                } else {
                    PassingMode::ByValue
                },
                FnArg::Receiver { .. } => PassingMode::ByValue,
            }
        }
    }

    /// Holds the signature against what the boundary can pass. Every
    /// parameter after the first must be taken by value or be `&str`, and the
    /// function may not return a reference or a pointer.
    pub fn check(&self) -> (r: Result<(), Error>)
        ensures
            match r {
                Ok(_) => signature_fault(*self) is None,
                Err(e) => signature_fault(*self) == Some(e@),
            },
    {
        let n = self.inputs.len();
        let mut i: usize = 1;
        while i < n
            invariant
                1 <= i,
                n == self.inputs@.len(),
                forall|j: int| 1 <= j < i && j < n ==> !cannot_pass()(#[trigger] self.inputs@[j]),
            decreases n - i,
        {
            match &self.inputs[i] {
                FnArg::Typed { ty, .. } => {
                    if !ty.passes_by_value() {
                        proof {
                            lemma_first_index_found(self.inputs@, cannot_pass(), 1, i as int);
                        }
                        return Err(Error::new(ty.span, ErrorKind::PassesByValue));
                    }
                },
                FnArg::Receiver { .. } => {},
            }
            i += 1;
        }
        proof {
            lemma_first_index_none(self.inputs@, cannot_pass(), 1);
        }
        match &self.output {
            Some(clause) => match &clause.ty.shape {
                Shape::Pointer => Err(Error::new(clause.span, ErrorKind::ReturnsPointer)),
                Shape::Reference { .. } => Err(Error::new(clause.span, ErrorKind::ReturnsReference)),
                _ => Ok(()),
            },
            None => Ok(()),
        }
    }
}

} // verus!
