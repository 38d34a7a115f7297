use std::str::FromStr;

use proc_macro2::{Span, TokenStream};
use rhai_codegen::error::{Error, ErrorKind};
use rhai_codegen::params::{
    AttrItem, AttrValue, ExportInfo, ExportedFnParams, FnSpecialAccess, Index, Property,
    FN_IDX_GET, FN_IDX_SET,
};

// The position of the token that stands at `index` in a text of tokens.
fn at(index: usize) -> Span {
    let text = "x ".repeat(index + 1);
    TokenStream::from_str(&text).unwrap().into_iter().nth(index).unwrap().span()
}

// The index that the position `span` was made with.
fn place(span: Span) -> usize {
    span.start().column / 2
}

// A declaration `key`: the key stands at `start`, the whole declaration at
// `start + 2`.
fn flag(key: &str, start: usize) -> AttrItem {
    AttrItem { key: key.to_string(), key_span: at(start), value: None, span: at(start + 2) }
}

// A declaration `key = "value"`: the key stands at `start`, the value at
// `start + 1`, the whole declaration at `start + 2`.
fn pair(key: &str, value: &str, start: usize) -> AttrItem {
    AttrItem {
        key: key.to_string(),
        key_span: at(start),
        value: Some(AttrValue { text: value.to_string(), span: at(start + 1) }),
        span: at(start + 2),
    }
}

fn info(items: Vec<AttrItem>) -> ExportInfo {
    ExportInfo { item_span: at(1000), items }
}

fn parse(items: Vec<AttrItem>) -> Result<ExportedFnParams, Error> {
    ExportedFnParams::from_info(info(items))
}

fn rejected(items: Vec<AttrItem>) -> (ErrorKind, usize, String) {
    let e = parse(items).unwrap_err();
    (e.kind, place(e.span), e.message())
}

#[test]
fn no_declarations_give_no_options() {
    let params = parse(vec![]).unwrap();
    assert_eq!(params.name, None);
    assert!(!params.return_raw);
    assert!(!params.skip);
    assert_eq!(params.span.map(place), Some(1000));
    assert_eq!(params.special, FnSpecialAccess::Unset);
}

#[test]
fn no_attrs_sets_nothing() {
    let params = ExportedFnParams::no_attrs();
    assert_eq!(params.name, None);
    assert!(!params.return_raw);
    assert!(!params.skip);
    assert!(params.span.is_none());
    assert_eq!(params.special, FnSpecialAccess::Unset);
    let params = ExportedFnParams::default();
    assert_eq!(params.name, None);
    assert!(!params.return_raw);
    assert!(!params.skip);
    assert!(params.span.is_none());
    assert_eq!(params.special, FnSpecialAccess::Unset);
    assert_eq!(FnSpecialAccess::default(), FnSpecialAccess::Unset);
}

#[test]
fn only_the_unset_access_is_none() {
    assert!(FnSpecialAccess::Unset.is_none());
    assert!(!FnSpecialAccess::Index(Index::Get).is_none());
    assert!(!FnSpecialAccess::Index(Index::Put).is_none());
    assert!(!FnSpecialAccess::Property(Property::Get("x".to_string())).is_none());
    assert!(!FnSpecialAccess::Property(Property::Put("x".to_string())).is_none());
}

#[test]
fn names_are_kept_in_declaration_order() {
    let params = parse(vec![pair("name", "add", 0), pair("name", "plus", 10)]).unwrap();
    assert_eq!(params.name, Some(vec!["add".to_string(), "plus".to_string()]));
    assert_eq!(params.special, FnSpecialAccess::Unset);
}

#[test]
fn a_name_declared_twice_is_kept_twice() {
    let params = parse(vec![pair("name", "add", 0), pair("name", "add", 10)]).unwrap();
    assert_eq!(params.name, Some(vec!["add".to_string(), "add".to_string()]));
}

#[test]
fn flags_are_recorded() {
    let params = parse(vec![flag("return_raw", 0)]).unwrap();
    assert!(params.return_raw);
    assert!(!params.skip);
    let params = parse(vec![flag("skip", 0)]).unwrap();
    assert!(!params.return_raw);
    assert!(params.skip);
    let params = parse(vec![flag("skip", 0), flag("return_raw", 10), flag("skip", 20)]).unwrap();
    assert!(params.return_raw);
    assert!(params.skip);
}

#[test]
fn every_special_access_is_recorded() {
    let params = parse(vec![flag("index_get", 0)]).unwrap();
    assert_eq!(params.special, FnSpecialAccess::Index(Index::Get));
    let params = parse(vec![flag("index_set", 0)]).unwrap();
    assert_eq!(params.special, FnSpecialAccess::Index(Index::Put));
    let params = parse(vec![pair("get", "len", 0)]).unwrap();
    assert_eq!(params.special, FnSpecialAccess::Property(Property::Get("len".to_string())));
    let params = parse(vec![pair("set", "len", 0)]).unwrap();
    assert_eq!(params.special, FnSpecialAccess::Property(Property::Put("len".to_string())));
    assert_eq!(params.name, None);
}

#[test]
fn names_and_special_access_go_together() {
    let params =
        parse(vec![pair("name", "size", 0), pair("get", "len", 10), flag("return_raw", 20)])
            .unwrap();
    assert_eq!(params.name, Some(vec!["size".to_string()]));
    assert_eq!(params.special, FnSpecialAccess::Property(Property::Get("len".to_string())));
    assert!(params.return_raw);
}

#[test]
fn a_key_that_needs_a_value_is_rejected_without_one() {
    for key in ["get", "set", "name"] {
        assert_eq!(
            rejected(vec![flag(key, 5)]),
            (ErrorKind::RequiresValue, 5, "requires value".to_string())
        );
    }
}

#[test]
fn the_reserved_index_names_are_rejected() {
    assert_eq!(FN_IDX_GET, "index$get$");
    assert_eq!(FN_IDX_SET, "index$set$");
    assert_eq!(
        rejected(vec![pair("name", "index$get$", 5)]),
        (ErrorKind::UseIndexGet, 7, "use attribute 'index_get' instead".to_string())
    );
    assert_eq!(
        rejected(vec![pair("name", "index$set$", 5)]),
        (ErrorKind::UseIndexSet, 7, "use attribute 'index_set' instead".to_string())
    );
}

#[test]
fn a_name_with_an_accessor_prefix_is_rejected() {
    let e = parse(vec![pair("name", "get$len", 5)]).unwrap_err();
    assert_eq!(e.kind, ErrorKind::UseGetter);
    assert_eq!(place(e.span), 7);
    assert_eq!(e.detail, "len");
    assert_eq!(e.message(), "use attribute 'getter = \"len\"' instead");
    let e = parse(vec![pair("name", "set$width", 5)]).unwrap_err();
    assert_eq!(e.kind, ErrorKind::UseSetter);
    assert_eq!(place(e.span), 7);
    assert_eq!(e.detail, "width");
    assert_eq!(e.message(), "use attribute 'setter = \"width\"' instead");
    let e = parse(vec![pair("name", "get$", 5)]).unwrap_err();
    assert_eq!(e.kind, ErrorKind::UseGetter);
    assert_eq!(e.detail, "");
    assert_eq!(e.message(), "use attribute 'getter = \"\"' instead");
}

#[test]
fn dollar_in_name_is_rejected() {
    assert_eq!(
        rejected(vec![pair("name", "a$b", 10)]),
        (
            ErrorKind::DollarInName,
            11,
            "Rhai function names may not contain dollar sign".to_string()
        )
    );
    assert_eq!(rejected(vec![pair("name", "$", 10)]).0, ErrorKind::DollarInName);
    assert_eq!(rejected(vec![pair("name", "get$x.y", 10)]).0, ErrorKind::UseGetter);
    assert_eq!(rejected(vec![pair("name", "a.b$", 10)]).0, ErrorKind::DollarInName);
}

#[test]
fn dot_in_name_is_rejected() {
    assert_eq!(
        rejected(vec![pair("name", "a.b", 10)]),
        (ErrorKind::DotInName, 11, "Rhai function names may not contain dot".to_string())
    );
}

#[test]
fn reserved_characters_are_rejected_among_any_other_options() {
    for bad in ["pre$fix", "a.b", "$", ".", "x.$"] {
        let before = vec![
            vec![],
            vec![flag("skip", 0)],
            vec![pair("name", "fine", 0), flag("return_raw", 10)],
            vec![pair("get", "len", 0)],
            vec![flag("index_set", 0), pair("name", "other", 10)],
        ];
        for mut items in before {
            items.push(pair("name", bad, 100));
            items.push(pair("name", "later", 200));
            items.push(flag("skip", 300));
            assert!(parse(items).is_err(), "{bad}");
        }
    }
}

#[test]
fn a_second_special_access_conflicts() {
    assert_eq!(
        rejected(vec![pair("get", "a", 0), pair("set", "b", 10)]),
        (ErrorKind::ConflictingSetter, 12, "conflicting setter".to_string())
    );
    assert_eq!(
        rejected(vec![pair("set", "a", 0), pair("get", "b", 10)]),
        (ErrorKind::ConflictingGetter, 12, "conflicting getter".to_string())
    );
    assert_eq!(
        rejected(vec![pair("get", "a", 0), pair("get", "a", 10)]),
        (ErrorKind::ConflictingGetter, 12, "conflicting getter".to_string())
    );
    assert_eq!(
        rejected(vec![pair("set", "a", 0), pair("set", "a", 10)]),
        (ErrorKind::ConflictingSetter, 12, "conflicting setter".to_string())
    );
    assert_eq!(
        rejected(vec![pair("set", "a", 0), flag("index_get", 10)]),
        (ErrorKind::ConflictingIndexGet, 12, "conflicting index_get".to_string())
    );
    assert_eq!(
        rejected(vec![flag("index_get", 0), flag("index_get", 10)]),
        (ErrorKind::ConflictingIndexGet, 12, "conflicting index_get".to_string())
    );
    assert_eq!(
        rejected(vec![flag("index_get", 0), flag("index_set", 10)]),
        (ErrorKind::ConflictingIndexSet, 12, "conflicting index_set".to_string())
    );
    assert_eq!(
        rejected(vec![flag("index_set", 0), pair("get", "a", 10)]),
        (ErrorKind::ConflictingGetter, 12, "conflicting getter".to_string())
    );
}

#[test]
fn a_flag_with_a_value_is_rejected() {
    for key in ["return_raw", "index_get", "index_set", "skip"] {
        assert_eq!(
            rejected(vec![pair(key, "yes", 20)]),
            (ErrorKind::ExtraneousValue, 21, "extraneous value".to_string())
        );
    }
}

#[test]
fn an_unknown_key_is_rejected_by_name() {
    let e = parse(vec![flag("unknown", 20)]).unwrap_err();
    assert_eq!(e.kind, ErrorKind::UnknownAttribute);
    assert_eq!(place(e.span), 20);
    assert_eq!(e.detail, "unknown");
    assert_eq!(e.message(), "unknown attribute 'unknown'");
    let e = parse(vec![pair("getter", "len", 20)]).unwrap_err();
    assert_eq!(e.kind, ErrorKind::UnknownAttribute);
    assert_eq!(place(e.span), 20);
    assert_eq!(e.message(), "unknown attribute 'getter'");
    let e = parse(vec![flag("", 20)]).unwrap_err();
    assert_eq!(e.message(), "unknown attribute ''");
    let e = parse(vec![flag("Name", 20)]).unwrap_err();
    assert_eq!(e.message(), "unknown attribute 'Name'");
}

#[test]
fn the_first_fault_is_the_one_reported() {
    let e = parse(vec![
        pair("name", "fine", 0),
        flag("bogus", 10),
        pair("name", "a.b", 20),
        flag("get", 30),
    ])
    .unwrap_err();
    assert_eq!(e.kind, ErrorKind::UnknownAttribute);
    assert_eq!(place(e.span), 10);
    let e = parse(vec![pair("name", "a.b", 20), flag("bogus", 30)]).unwrap_err();
    assert_eq!(e.kind, ErrorKind::DotInName);
}

#[test]
fn every_message_is_worded_as_documented() {
    let plain = [
        (ErrorKind::RequiresValue, "requires value"),
        (ErrorKind::UseIndexGet, "use attribute 'index_get' instead"),
        (ErrorKind::UseIndexSet, "use attribute 'index_set' instead"),
        (ErrorKind::DollarInName, "Rhai function names may not contain dollar sign"),
        (ErrorKind::DotInName, "Rhai function names may not contain dot"),
        (ErrorKind::ConflictingSetter, "conflicting setter"),
        (ErrorKind::ConflictingGetter, "conflicting getter"),
        (ErrorKind::ConflictingIndexGet, "conflicting index_get"),
        (ErrorKind::ConflictingIndexSet, "conflicting index_set"),
        (ErrorKind::ExtraneousValue, "extraneous value"),
        (ErrorKind::PassesByValue, "this type in this position passes from Rhai by value"),
        (ErrorKind::ReturnsPointer, "cannot return a pointer to Rhai"),
        (ErrorKind::ReturnsReference, "cannot return a reference to Rhai"),
        (ErrorKind::RawWithoutResult, "return_raw functions must return Result<T>"),
        (ErrorKind::GetterArity, "property getter requires exactly 1 argument"),
        (ErrorKind::GetterWithoutValue, "property getter must return a value"),
        (ErrorKind::SetterArity, "property setter requires exactly 2 arguments"),
        (ErrorKind::SetterWithValue, "property setter must return no value"),
        (ErrorKind::IndexGetterArity, "index getter requires exactly 2 arguments"),
        (ErrorKind::IndexGetterWithoutValue, "index getter must return a value"),
        (ErrorKind::IndexSetterArity, "index setter requires exactly 3 arguments"),
        (ErrorKind::IndexSetterWithValue, "index setter must return no value"),
    ];
    for (kind, text) in plain {
        let e = Error::new(at(0), kind);
        assert_eq!(e.detail, "");
        assert_eq!(e.message(), text);
    }
    let quoting = [
        (ErrorKind::UseGetter, "use attribute 'getter = \"x\"' instead"),
        (ErrorKind::UseSetter, "use attribute 'setter = \"x\"' instead"),
        (ErrorKind::UnknownAttribute, "unknown attribute 'x'"),
    ];
    for (kind, text) in quoting {
        let e = Error::quoting(at(3), kind, "x".to_string());
        assert_eq!(place(e.span), 3);
        assert_eq!(e.kind, kind);
        assert_eq!(e.message(), text);
    }
}
