//! The export options of a function: the declarations that come with it, and
//! the validated record that they are folded into.

use vstd::prelude::*;

use crate::error::{Error, ErrorKind, Fault, plain_fault};
use proc_macro2::Span;
use crate::text::{contains_char, push_text, starts_with, tail_from, text_eq, texts};

verus! {

/// The name under which an index getter is exported.
pub const FN_IDX_GET: &'static str = "index$get$";

/// The name under which an index setter is exported.
pub const FN_IDX_SET: &'static str = "index$set$";

/// Access by index.
#[derive(Clone, Debug, PartialEq, Eq)]
pub enum Index {
    /// The function reads the element at an index.
    Get,
    /// The function writes the element at an index.
    Put,
}

/// Access to the property of the given name.
#[derive(Clone, Debug, PartialEq, Eq)]
pub enum Property {
    /// The function reads the property.
    Get(String),
    /// The function writes the property.
    Put(String),
}

/// The special calling convention that a function is exported under, if any.
#[derive(Clone, Debug, PartialEq, Eq)]
pub enum FnSpecialAccess {
    /// The function is called by its name.
    Unset,
    Index(Index),
    Property(Property),
}

/// A special access as a mathematical value.
pub enum Access {
    Unset,
    IndexGet,
    IndexSet,
    PropertyGet(Seq<char>),
    PropertySet(Seq<char>),
}

impl View for FnSpecialAccess {
    type V = Access;

    open spec fn view(&self) -> Access {
        match self {
            FnSpecialAccess::Unset => Access::Unset,
            FnSpecialAccess::Index(Index::Get) => Access::IndexGet,
            FnSpecialAccess::Index(Index::Put) => Access::IndexSet,
            FnSpecialAccess::Property(Property::Get(name)) => Access::PropertyGet(name@),
            FnSpecialAccess::Property(Property::Put(name)) => Access::PropertySet(name@),
        }
    }
}

impl Default for FnSpecialAccess {
    fn default() -> (access: FnSpecialAccess)
        ensures
            access@ == Access::Unset,
    {
        FnSpecialAccess::Unset
    }
}

impl FnSpecialAccess {
    /// Whether no special access is set.
    pub fn is_none(&self) -> (none: bool)
        ensures
            none == (self@ is Unset),
    {
        match self {
            FnSpecialAccess::Unset => true,
            _ => false,
        }
    }
}

/// The value of a declaration, as written between the quotes.
#[derive(Clone, Debug)]
pub struct AttrValue {
    pub text: String,
    pub span: Span,
}

/// One declaration: a key, its value if it has one, and where they stand.
#[derive(Clone, Debug)]
pub struct AttrItem {
    pub key: String,
    pub key_span: Span,
    pub value: Option<AttrValue>,
    /// The position of the whole declaration.
    pub span: Span,
}

/// The declarations that come with one function, in the order written.
#[derive(Clone, Debug)]
pub struct ExportInfo {
    pub item_span: Span,
    pub items: Vec<AttrItem>,
}

/// The validated export options of a function.
#[derive(Clone, Debug)]
pub struct ExportedFnParams {
    /// The declared names, in the order written; `None` where none was declared.
    pub name: Option<Vec<String>>,
    pub return_raw: bool,
    pub skip: bool,
    pub span: Option<Span>,
    pub special: FnSpecialAccess,
}

/// Export options as a mathematical value.
pub struct Options {
    pub name: Option<Seq<Seq<char>>>,
    pub return_raw: bool,
    pub skip: bool,
    pub span: Option<Span>,
    pub special: Access,
}

impl View for ExportedFnParams {
    type V = Options;

    open spec fn view(&self) -> Options {
        Options {
            name: match self.name {
                Some(names) => Some(texts(names@)),
                None => None,
            },
            return_raw: self.return_raw,
            skip: self.skip,
            span: self.span,
            special: self.special@,
        }
    }
}

/// The options of a function that comes with no declaration.
pub open spec fn no_options() -> Options {
    Options { name: None, return_raw: false, skip: false, span: None, special: Access::Unset }
}

impl Default for ExportedFnParams {
    fn default() -> (params: ExportedFnParams)
        ensures
            params@ == no_options(),
    {
        ExportedFnParams {
            name: None,
            return_raw: false,
            skip: false,
            span: None,
            special: FnSpecialAccess::Unset,
        }
    }
}

/// What the declarations read so far have settled.
pub struct Settled {
    pub names: Seq<Seq<char>>,
    pub return_raw: bool,
    pub skip: bool,
    pub special: Access,
}

/// What is settled before the first declaration.
pub open spec fn nothing_settled() -> Settled {
    Settled { names: Seq::empty(), return_raw: false, skip: false, special: Access::Unset }
}

/// The fault of `text` as a declared name, if it has one. A reserved name or
/// prefix is reported at the declaration, which stands at `item_span`, with
/// what follows the prefix as the detail; a reserved character at the value,
/// which stands at `value_span`.
pub open spec fn name_fault(text: Seq<char>, value_span: Span, item_span: Span) -> Option<Fault> {
    if text == FN_IDX_GET@ {
        Some(plain_fault(item_span, ErrorKind::UseIndexGet))
    } else if text == FN_IDX_SET@ {
        Some(plain_fault(item_span, ErrorKind::UseIndexSet))
    } else if "get$"@.is_prefix_of(text) {
        Some(
            Fault {
                span: item_span,
                kind: ErrorKind::UseGetter,
                detail: text.skip("get$"@.len() as int),
            },
        )
    } else if "set$"@.is_prefix_of(text) {
        Some(
            Fault {
                span: item_span,
                kind: ErrorKind::UseSetter,
                detail: text.skip("set$"@.len() as int),
            },
        )
    } else if text.contains('$') {
        Some(plain_fault(value_span, ErrorKind::DollarInName))
    } else if text.contains('.') {
        Some(plain_fault(value_span, ErrorKind::DotInName))
    } else {
        None
    }
}

/// Sets the special access, which must not be set yet: else the fault is `conflict`.
pub open spec fn claim(before: Settled, access: Access, span: Span, conflict: ErrorKind) -> Result<
    Settled,
    Fault,
> {
    if before.special is Unset {
        Ok(Settled { special: access, ..before })
    } else {
        Err(plain_fault(span, conflict))
    }
}

/// What is settled after the declaration `item`, or the fault of that declaration.
pub open spec fn apply(before: Settled, item: AttrItem) -> Result<Settled, Fault> {
    let key = item.key@;
    match item.value {
        Some(value) => {
            if key == "name"@ {
                match name_fault(value.text@, value.span, item.span) {
                    Some(fault) => Err(fault),
                    None => Ok(Settled { names: before.names.push(value.text@), ..before }),
                }
            } else if key == "set"@ {
                claim(
                    before,
                    Access::PropertySet(value.text@),
                    item.span,
                    ErrorKind::ConflictingSetter,
                )
            } else if key == "get"@ {
                claim(
                    before,
                    Access::PropertyGet(value.text@),
                    item.span,
                    ErrorKind::ConflictingGetter,
                )
            } else if key == "index_get"@ || key == "index_set"@ || key == "return_raw"@ || key
                == "skip"@ {
                Err(plain_fault(value.span, ErrorKind::ExtraneousValue))
            } else {
                Err(Fault { span: item.key_span, kind: ErrorKind::UnknownAttribute, detail: key })
            }
        },
        None => {
            if key == "get"@ || key == "set"@ || key == "name"@ {
                Err(plain_fault(item.key_span, ErrorKind::RequiresValue))
            } else if key == "index_get"@ {
                claim(before, Access::IndexGet, item.span, ErrorKind::ConflictingIndexGet)
            } else if key == "index_set"@ {
                claim(before, Access::IndexSet, item.span, ErrorKind::ConflictingIndexSet)
            } else if key == "return_raw"@ {
                Ok(Settled { return_raw: true, ..before })
            } else if key == "skip"@ {
                Ok(Settled { skip: true, ..before })
            } else {
                Err(Fault { span: item.key_span, kind: ErrorKind::UnknownAttribute, detail: key })
            }
        },
    }
}

/// What the first `n` declarations settle, or the fault of the first one that has a fault.
pub open spec fn settle(items: Seq<AttrItem>, n: nat) -> Result<Settled, Fault>
    decreases n,
{
    if n == 0 {
        Ok(nothing_settled())
    } else {
        match settle(items, (n - 1) as nat) {
            Ok(before) => apply(before, items[n - 1]),
            Err(fault) => Err(fault),
        }
    }
}

/// The options that the declarations `info` stand for, or their first fault.
pub open spec fn options_of(info: ExportInfo) -> Result<Options, Fault> {
    match settle(info.items@, info.items@.len()) {
        Ok(all) => Ok(
            Options {
                name: if all.names.len() == 0 {
                    None
                } else {
                    Some(all.names)
                },
                return_raw: all.return_raw,
                skip: all.skip,
                span: Some(info.item_span),
                special: all.special,
            },
        ),
        Err(fault) => Err(fault),
    }
}

/// A fault, once met, is the result whatever follows.
pub proof fn lemma_fault_stays(items: Seq<AttrItem>, m: nat, n: nat)
    requires
        m <= n,
        settle(items, m) is Err,
    ensures
        settle(items, n) == settle(items, m),
    decreases n - m,
{
    if m < n {
        lemma_fault_stays(items, m, (n - 1) as nat);
    }
}

/// A declared name that holds `$` or `.` is never accepted, wherever it
/// stands among the declarations and whatever the others are.
pub proof fn lemma_reserved_character_rejected(info: ExportInfo, i: int)
    requires
        0 <= i < info.items@.len(),
        info.items@[i].key@ == "name"@,
        info.items@[i].value matches Some(value) && (value.text@.contains('$')
            || value.text@.contains('.')),
    ensures
        options_of(info) is Err,
{
    let items = info.items@;
    assert(settle(items, (i + 1) as nat) is Err);
    lemma_fault_stays(items, (i + 1) as nat, items.len());
}

/// Whether `text` may stand as an exported name: it holds neither `$` nor `.`.
pub open spec fn plain_name(text: Seq<char>) -> bool {
    !text.contains('$') && !text.contains('.')
}

/// Every name that the first `n` declarations settle is a plain one.
pub proof fn lemma_settled_names_are_plain(items: Seq<AttrItem>, n: nat)
    requires
        n <= items.len(),
    ensures
        settle(items, n) matches Ok(settled) ==> forall|k: int|
            0 <= k < settled.names.len() ==> plain_name(#[trigger] settled.names[k]),
    decreases n,
{
    if n > 0 {
        lemma_settled_names_are_plain(items, (n - 1) as nat);
    }
}

/// The names of accepted declarations are plain, and there is at least one
/// where there are any.
pub proof fn lemma_declared_names_are_plain(info: ExportInfo)
    ensures
        options_of(info) matches Ok(options) ==> (options.name matches Some(names) ==> names.len()
            > 0 && forall|k: int| 0 <= k < names.len() ==> plain_name(#[trigger] names[k])),
{
    lemma_settled_names_are_plain(info.items@, info.items@.len());
}

/// The options while the declarations are read.
struct Pending {
    names: Vec<String>,
    return_raw: bool,
    skip: bool,
    special: FnSpecialAccess,
}

impl View for Pending {
    type V = Settled;

    closed spec fn view(&self) -> Settled {
        Settled {
            names: texts(self.names@),
            return_raw: self.return_raw,
            skip: self.skip,
            special: self.special@,
        }
    }
}

fn check_name(value: &AttrValue, item_span: Span) -> (r: Result<(), Error>)
    ensures
        match r {
            Ok(_) => name_fault(value.text@, value.span, item_span) is None,
            Err(e) => name_fault(value.text@, value.span, item_span) == Some(e@),
        },
{
    let text = value.text.as_str();
    if text_eq(text, FN_IDX_GET) {
        Err(Error::new(item_span, ErrorKind::UseIndexGet))
    } else if text_eq(text, FN_IDX_SET) {
        Err(Error::new(item_span, ErrorKind::UseIndexSet))
    } else if starts_with(text, "get$") {
        proof {
            reveal_strlit("get$");
        }
        Err(Error::quoting(item_span, ErrorKind::UseGetter, tail_from(text, 4)))
    } else if starts_with(text, "set$") {
        proof {
            reveal_strlit("set$");
        }
        Err(Error::quoting(item_span, ErrorKind::UseSetter, tail_from(text, 4)))
    } else if contains_char(text, '$') {
        Err(Error::new(value.span, ErrorKind::DollarInName))
    } else if contains_char(text, '.') {
        Err(Error::new(value.span, ErrorKind::DotInName))
    } else {
        Ok(())
    }
}

impl Pending {
    fn claim(self, access: FnSpecialAccess, span: Span, conflict: ErrorKind) -> (r: Result<
        Pending,
        Error,
    >)
        ensures
            match r {
                Ok(after) => claim(self@, access@, span, conflict) == Ok::<Settled, Fault>(after@),
                Err(e) => claim(self@, access@, span, conflict) == Err::<Settled, Fault>(e@),
            },
    {
        if self.special.is_none() {
            Ok(
                Pending {
                    names: self.names,
                    return_raw: self.return_raw,
                    skip: self.skip,
                    special: access,
                },
            )
        } else {
            Err(Error::new(span, conflict))
        }
    }

    fn apply(self, item: &AttrItem) -> (r: Result<Pending, Error>)
        ensures
            match r {
                Ok(after) => apply(self@, *item) == Ok::<Settled, Fault>(after@),
                Err(e) => apply(self@, *item) == Err::<Settled, Fault>(e@),
            },
    {
        let key = item.key.as_str();
        match &item.value {
            Some(value) => {
                if text_eq(key, "name") {
                    match check_name(value, item.span) {
                        Err(e) => Err(e),
                        Ok(_) => {
                            let mut names = self.names;
                            push_text(&mut names, value.text.clone());
                            Ok(
                                Pending {
                                    names,
                                    return_raw: self.return_raw,
                                    skip: self.skip,
                                    special: self.special,
                                },
                            )
                        },
                    }
                } else if text_eq(key, "set") {
                    let access = FnSpecialAccess::Property(Property::Put(value.text.clone()));
                    self.claim(access, item.span, ErrorKind::ConflictingSetter)
                } else if text_eq(key, "get") {
                    let access = FnSpecialAccess::Property(Property::Get(value.text.clone()));
                    self.claim(access, item.span, ErrorKind::ConflictingGetter)
                } else if text_eq(key, "index_get") || text_eq(key, "index_set") || text_eq(
                    key,
                    "return_raw",
                ) || text_eq(key, "skip") {
                    Err(Error::new(value.span, ErrorKind::ExtraneousValue))
                } else {
                    Err(Error::quoting(item.key_span, ErrorKind::UnknownAttribute, item.key.clone()))
                }
            },
            None => {
                if text_eq(key, "get") || text_eq(key, "set") || text_eq(key, "name") {
                    Err(Error::new(item.key_span, ErrorKind::RequiresValue))
                } else if text_eq(key, "index_get") {
                    self.claim(
                        FnSpecialAccess::Index(Index::Get),
                        item.span,
                        ErrorKind::ConflictingIndexGet,
                    )
                } else if text_eq(key, "index_set") {
                    self.claim(
                        FnSpecialAccess::Index(Index::Put),
                        item.span,
                        ErrorKind::ConflictingIndexSet,
                    )
                } else if text_eq(key, "return_raw") {
                    Ok(
                        Pending {
                            names: self.names,
                            return_raw: true,
                            skip: self.skip,
                            special: self.special,
                        },
                    )
                } else if text_eq(key, "skip") {
                    Ok(
                        Pending {
                            names: self.names,
                            return_raw: self.return_raw,
                            skip: true,
                            special: self.special,
                        },
                    )
                } else {
                    Err(Error::quoting(item.key_span, ErrorKind::UnknownAttribute, item.key.clone()))
                }
            },
        }
    }
}

impl ExportedFnParams {
    /// The options of a function that comes with no declaration.
    pub fn no_attrs() -> (params: ExportedFnParams)
        ensures
            params@ == no_options(),
    {
        ExportedFnParams {
            name: None,
            return_raw: false,
            skip: false,
            span: None,
            special: FnSpecialAccess::Unset,
        }
    }

    /// Validates the declarations of one function and folds them into its
    /// options. The first declaration that breaks a rule is reported, and
    /// nothing after it is read.
    pub fn from_info(info: ExportInfo) -> (r: Result<ExportedFnParams, Error>)
        ensures
            match r {
                Ok(params) => options_of(info) == Ok::<Options, Fault>(params@),
                Err(e) => options_of(info) == Err::<Options, Fault>(e@),
            },
    {
        let mut pending = Pending {
            names: Vec::new(),
            return_raw: false,
            skip: false,
            special: FnSpecialAccess::Unset,
        };
        assert(texts(pending.names@) =~= Seq::<Seq<char>>::empty());
        let mut i: usize = 0;
        while i < info.items.len()
            invariant
                i <= info.items.len(),
                settle(info.items@, i as nat) == Ok::<Settled, Fault>(pending@),
            decreases info.items.len() - i,
        {
            match pending.apply(&info.items[i]) {
                Ok(after) => {
                    pending = after;
                },
                Err(e) => {
                    proof {
                        lemma_fault_stays(info.items@, (i + 1) as nat, info.items@.len());
                    }
                    return Err(e);
                },
            }
            i += 1;
        }
        let name = if pending.names.len() == 0 {
            None
        } else {
            Some(pending.names)
        };
        Ok(
            ExportedFnParams {
                name,
                return_raw: pending.return_raw,
                skip: pending.skip,
                span: Some(info.item_span),
                special: pending.special,
            },
        )
    }
}

} // verus!
