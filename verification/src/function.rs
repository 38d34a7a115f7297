//! An exported function: its analysed signature together with its export
//! options, which are held against each other before they are accepted.

use vstd::prelude::*;
use vstd::string::*;

use crate::adapter::{AdapterPlan, plan_of};
use crate::emit::{
    callable_source, callable_text, dynamic_fn_source, dynamic_fn_text, impl_text,
    input_types_source, input_types_text, lowercased, module_source, module_text, to_lowercase,
};
use crate::error::{Error, ErrorKind, plain_fault};
use proc_macro2::Span;
use crate::params::{Access, AttrItem, ExportInfo, Options, no_options, options_of, settle};
pub use crate::params::{
    ExportedFnParams, FN_IDX_GET, FN_IDX_SET, FnSpecialAccess, Index, Property,
};
use crate::signature::{
    FnArg, ItemFn, Signature, Type, deny_cfg_attr, item_fault, method_style, receivers_lead,
    signature_fault, takes_self_by_value,
};
use crate::text::{push_text, starts_with, texts};

verus! {

/// Which functions of a module are exported.
#[derive(Clone, Debug, PartialEq, Eq)]
pub enum ExportScope {
    /// The public ones.
    PubOnly,
    /// Those whose name begins with the given text.
    Prefix(String),
    /// All of them.
    All,
}

/// An exported function as a mathematical value.
pub struct Descriptor {
    pub entire_span: Span,
    pub signature: Signature,
    pub is_public: bool,
    pub mut_receiver: bool,
    pub params: Options,
}

/// The rule that the options break on a function with `arg_count` parameters
/// that returns a value or, with `gives_value` false, none: if they break one.
pub open spec fn shape_fault(options: Options, arg_count: nat, gives_value: bool) -> Option<
    ErrorKind,
> {
    if options.return_raw && !gives_value {
        Some(ErrorKind::RawWithoutResult)
    } else {
        match options.special {
            Access::Unset => None,
            Access::PropertyGet(_) => if arg_count != 1 {
                Some(ErrorKind::GetterArity)
            } else if !gives_value {
                Some(ErrorKind::GetterWithoutValue)
            } else {
                None
            },
            Access::PropertySet(_) => if arg_count != 2 {
                Some(ErrorKind::SetterArity)
            } else if gives_value {
                Some(ErrorKind::SetterWithValue)
            } else {
                None
            },
            Access::IndexGet => if arg_count != 2 {
                Some(ErrorKind::IndexGetterArity)
            } else if !gives_value {
                Some(ErrorKind::IndexGetterWithoutValue)
            } else {
                None
            },
            Access::IndexSet => if arg_count != 3 {
                Some(ErrorKind::IndexSetterArity)
            } else if gives_value {
                Some(ErrorKind::IndexSetterWithValue)
            } else {
                None
            },
        }
    }
}

/// The rule that `options` break on the signature `sig`, if they break one.
pub open spec fn mismatch(options: Options, sig: Signature) -> Option<ErrorKind> {
    shape_fault(options, sig.inputs@.len(), sig.output is Some)
}

/// The name that a special access is exported under, if one is set.
pub open spec fn access_name(access: Access) -> Option<Seq<char>> {
    match access {
        Access::Unset => None,
        Access::IndexGet => Some(FN_IDX_GET@),
        Access::IndexSet => Some(FN_IDX_SET@),
        Access::PropertyGet(name) => Some("get$"@ + name),
        Access::PropertySet(name) => Some("set$"@ + name),
    }
}

/// The names that a function `ident` with `options` is exported under: the
/// declared names in their order, then that of the special access; where
/// there is neither, `ident` alone.
pub open spec fn exported_names(options: Options, ident: Seq<char>) -> Seq<Seq<char>> {
    let declared = match options.name {
        Some(names) => names,
        None => Seq::empty(),
    };
    let all = match access_name(options.special) {
        Some(name) => declared.push(name),
        None => declared,
    };
    if all.len() == 0 {
        seq![ident]
    } else {
        all
    }
}

/// The name that stands for a function `ident` with `options`: the last
/// declared one, or `ident` where none was declared.
pub open spec fn exported_name(options: Options, ident: Seq<char>) -> Seq<char> {
    match options.name {
        Some(names) => names.last(),
        None => ident,
    }
}

/// Whether a function stays exported under `scope`.
pub open spec fn kept(function: Descriptor, scope: ExportScope) -> bool {
    !function.params.skip && match scope {
        ExportScope::PubOnly => function.is_public,
        ExportScope::Prefix(prefix) => prefix@.is_prefix_of(function.signature.ident@),
        ExportScope::All => true,
    }
}

/// All that is generated for a function: the module with its adapter
/// `Token`, the two functions that hand the adapter out, and the function
/// with the uniform result.
pub open spec fn generated_text(function: Descriptor) -> Seq<char> {
    module_text(
        function.signature.ident@,
        impl_text(plan_of(function.signature, function.params.return_raw), "Token"@),
        callable_text(lowercased("Token"@), "Token"@),
        input_types_text(lowercased("Token"@), "Token"@),
        dynamic_fn_text(function.signature, function.params.return_raw),
    )
}

/// A raw result cannot be asked of a function that returns nothing, whatever
/// else the options hold.
pub proof fn lemma_raw_needs_result(options: Options, sig: Signature)
    requires
        options.return_raw,
        sig.output is None,
    ensures
        mismatch(options, sig) == Some(ErrorKind::RawWithoutResult),
{
}

/// The options of a property getter fit exactly the functions with one
/// parameter that return a value; on any other function they break the rule
/// that is stated here.
pub proof fn lemma_getter_shape(options: Options, sig: Signature)
    requires
        options.special is PropertyGet,
    ensures
        mismatch(options, sig) is None <==> sig.inputs@.len() == 1 && sig.output is Some,
        sig.inputs@.len() != 1 && !(options.return_raw && sig.output is None) ==> mismatch(
            options,
            sig,
        ) == Some(ErrorKind::GetterArity),
        sig.inputs@.len() == 1 && sig.output is None && !options.return_raw ==> mismatch(
            options,
            sig,
        ) == Some(ErrorKind::GetterWithoutValue),
{
}

/// The options of a property setter fit exactly the functions with two
/// parameters that return nothing.
pub proof fn lemma_setter_shape(options: Options, sig: Signature)
    requires
        options.special is PropertySet,
    ensures
        mismatch(options, sig) is None <==> sig.inputs@.len() == 2 && sig.output is None
            && !options.return_raw,
        sig.inputs@.len() != 2 && !(options.return_raw && sig.output is None) ==> mismatch(
            options,
            sig,
        ) == Some(ErrorKind::SetterArity),
        sig.inputs@.len() == 2 && sig.output is Some ==> mismatch(options, sig) == Some(
            ErrorKind::SetterWithValue,
        ),
{
}

/// The options of an index getter fit exactly the functions with two
/// parameters that return a value.
pub proof fn lemma_index_getter_shape(options: Options, sig: Signature)
    requires
        options.special is IndexGet,
    ensures
        mismatch(options, sig) is None <==> sig.inputs@.len() == 2 && sig.output is Some,
        sig.inputs@.len() != 2 && !(options.return_raw && sig.output is None) ==> mismatch(
            options,
            sig,
        ) == Some(ErrorKind::IndexGetterArity),
        sig.inputs@.len() == 2 && sig.output is None && !options.return_raw ==> mismatch(
            options,
            sig,
        ) == Some(ErrorKind::IndexGetterWithoutValue),
{
}

/// The options of an index setter fit exactly the functions with three
/// parameters that return nothing.
pub proof fn lemma_index_setter_shape(options: Options, sig: Signature)
    requires
        options.special is IndexSet,
    ensures
        mismatch(options, sig) is None <==> sig.inputs@.len() == 3 && sig.output is None
            && !options.return_raw,
        sig.inputs@.len() != 3 && !(options.return_raw && sig.output is None) ==> mismatch(
            options,
            sig,
        ) == Some(ErrorKind::IndexSetterArity),
        sig.inputs@.len() == 3 && sig.output is Some ==> mismatch(options, sig) == Some(
            ErrorKind::IndexSetterWithValue,
        ),
{
}

/// Declarations none of which is a `name` settle no name.
pub proof fn lemma_no_name_settled(items: Seq<AttrItem>, n: nat)
    requires
        n <= items.len(),
        forall|i: int| 0 <= i < items.len() ==> items[i].key@ != "name"@,
    ensures
        settle(items, n) matches Ok(settled) ==> settled.names.len() == 0,
    decreases n,
{
    if n > 0 {
        lemma_no_name_settled(items, (n - 1) as nat);
    }
}

/// Where the declarations of a function declare no name, the name that
/// stands for the function is its own identifier.
pub proof fn lemma_undeclared_name_is_identifier(info: ExportInfo, ident: Seq<char>)
    requires
        forall|i: int| 0 <= i < info.items@.len() ==> info.items@[i].key@ != "name"@,
    ensures
        options_of(info) matches Ok(options) ==> options.name is None && exported_name(
            options,
            ident,
        ) == ident,
{
    lemma_no_name_settled(info.items@, info.items@.len());
}

/// Where the declarations of a function declare no name and set no special
/// access, the function is exported under its own identifier and no other
/// name.
pub proof fn lemma_identifier_is_sole_name(info: ExportInfo, ident: Seq<char>)
    requires
        forall|i: int| 0 <= i < info.items@.len() ==> info.items@[i].key@ != "name"@,
        options_of(info) matches Ok(options) ==> options.special is Unset,
    ensures
        options_of(info) matches Ok(options) ==> exported_names(options, ident) == seq![ident],
{
    lemma_no_name_settled(info.items@, info.items@.len());
}

/// Where the declarations of a function declare no name but set a special
/// access, the function is exported under the name of that access and no
/// other name.
pub proof fn lemma_special_access_is_sole_name(info: ExportInfo, ident: Seq<char>)
    requires
        forall|i: int| 0 <= i < info.items@.len() ==> info.items@[i].key@ != "name"@,
    ensures
        options_of(info) matches Ok(options) ==> (access_name(options.special) matches Some(name)
            ==> exported_names(options, ident) == seq![name]),
{
    lemma_no_name_settled(info.items@, info.items@.len());
}

impl Descriptor {
    /// What holds of every exported function: its signature has passed the
    /// analysis, and its options fit the signature.
    pub open spec fn wf(self) -> bool {
        &&& receivers_lead(self.signature.inputs@)
        &&& signature_fault(self.signature) is None
        &&& self.mut_receiver == method_style(self.signature.inputs@)
        &&& mismatch(self.params, self.signature) is None
    }
}

/// An exported function.
#[derive(Debug)]
pub struct ExportedFn {
    entire_span: Span,
    signature: Signature,
    is_public: bool,
    mut_receiver: bool,
    params: ExportedFnParams,
}

impl View for ExportedFn {
    type V = Descriptor;

    closed spec fn view(&self) -> Descriptor {
        Descriptor {
            entire_span: self.entire_span,
            signature: self.signature,
            is_public: self.is_public,
            mut_receiver: self.mut_receiver,
            params: self.params@,
        }
    }
}

fn access_text(access: &FnSpecialAccess) -> (name: Option<String>)
    ensures
        match name {
            Some(text) => access_name(access@) == Some(text@),
            None => access_name(access@) is None,
        },
{
    match access {
        FnSpecialAccess::Unset => None,
        FnSpecialAccess::Index(Index::Get) => Some(String::from_str(FN_IDX_GET)),
        FnSpecialAccess::Index(Index::Put) => Some(String::from_str(FN_IDX_SET)),
        FnSpecialAccess::Property(Property::Get(name)) => {
            let mut text = String::from_str("get$");
            text.append(name.as_str());
            Some(text)
        },
        FnSpecialAccess::Property(Property::Put(name)) => {
            let mut text = String::from_str("set$");
            text.append(name.as_str());
            Some(text)
        },
    }
}

impl ExportedFn {
    #[verifier::type_invariant]
    spec fn inv(self) -> bool {
        self@.wf()
    }

    /// Analyses a function item. The function is accepted with no options set
    /// where its signature has no fault, and rejected with that fault where
    /// it has one.
    pub fn parse(item: ItemFn) -> (r: Result<ExportedFn, Error>)
        requires
            receivers_lead(item.sig.inputs@),
        ensures
            match r {
                Ok(function) => {
                    &&& item_fault(item) is None
                    &&& function@ == Descriptor {
                        entire_span: item.span,
                        signature: item.sig,
                        is_public: item.is_public,
                        mut_receiver: method_style(item.sig.inputs@),
                        params: no_options(),
                    }
                    &&& function@.wf()
                },
                Err(e) => item_fault(item) == Some(e@),
            },
    {
        match deny_cfg_attr(&item.attrs) {
            Err(e) => {
                return Err(e);
            },
            Ok(_) => {},
        }
        let mut_receiver = item.sig.method_style();
        match item.sig.check() {
            Err(e) => Err(e),
            Ok(_) => Ok(
                ExportedFn {
                    entire_span: item.span,
                    signature: item.sig,
                    is_public: item.is_public,
                    mut_receiver,
                    params: ExportedFnParams::no_attrs(),
                },
            ),
        }
    }

    /// The export options.
    pub fn params(&self) -> (params: &ExportedFnParams)
        ensures
            params@ == self@.params,
            self@.wf(),
    {
        proof {
            use_type_invariant(self);
        }
        &self.params
    }

    /// Narrows the export to what `parent_scope` admits: a function that is
    /// skipped stays so, and one that the scope leaves out becomes so.
    pub fn update_scope(&mut self, parent_scope: &ExportScope)
        ensures
            final(self)@ == (Descriptor {
                params: Options { skip: !kept(old(self)@, *parent_scope), ..old(self)@.params },
                ..old(self)@
            }),
            old(self)@.params.skip ==> final(self)@.params.skip,
    {
        proof {
            use_type_invariant(&*self);
        }
        let keep = if self.params.skip {
            false
        } else {
            match parent_scope {
                ExportScope::PubOnly => self.is_public,
                ExportScope::Prefix(prefix) => starts_with(
                    self.signature.ident.as_str(),
                    prefix.as_str(),
                ),
                ExportScope::All => true,
            }
        };
        self.params.skip = !keep;
    }

    /// Whether the function is left out of what is generated.
    pub fn skipped(&self) -> (skip: bool)
        ensures
            skip == self@.params.skip,
    {
        self.params.skip
    }

    /// The signature.
    pub fn signature(&self) -> (sig: &Signature)
        ensures
            *sig == self@.signature,
            self@.wf(),
    {
        proof {
            use_type_invariant(self);
        }
        &self.signature
    }

    /// Whether the function is called as a method.
    pub fn mutable_receiver(&self) -> (method: bool)
        ensures
            method == self@.mut_receiver,
            method == method_style(self@.signature.inputs@),
    {
        proof {
            use_type_invariant(self);
        }
        self.mut_receiver
    }

    /// Whether the function is public.
    pub fn is_public(&self) -> (public: bool)
        ensures
            public == self@.is_public,
    {
        self.is_public
    }

    /// The position of the whole function item.
    pub fn span(&self) -> (span: &Span)
        ensures
            *span == self@.entire_span,
    {
        &self.entire_span
    }

    /// The declared name of the function.
    pub fn name(&self) -> (ident: &String)
        ensures
            *ident == self@.signature.ident,
    {
        &self.signature.ident
    }

    /// The names that the function is exported under.
    pub fn exported_names(&self) -> (names: Vec<String>)
        ensures
            texts(names@) == exported_names(self@.params, self@.signature.ident@),
    {
        let mut names: Vec<String> = Vec::new();
        match &self.params.name {
            Some(declared) => {
                let mut i: usize = 0;
                while i < declared.len()
                    invariant
                        i <= declared.len(),
                        texts(names@) == texts(declared@).take(i as int),
                    decreases declared.len() - i,
                {
                    push_text(&mut names, declared[i].clone());
                    i += 1;
                }
            },
            None => {},
        }
        match access_text(&self.params.special) {
            Some(name) => {
                push_text(&mut names, name);
            },
            None => {},
        }
        if names.len() == 0 {
            push_text(&mut names, self.signature.ident.clone());
        }
        names
    }

    /// The name that stands for the function where one name is wanted.
    pub fn exported_name(&self) -> (name: String)
        requires
            self@.params.name matches Some(names) ==> names.len() > 0,
        ensures
            name@ == exported_name(self@.params, self@.signature.ident@),
            self@.params.name is None ==> name@ == self@.signature.ident@,
    {
        match &self.params.name {
            Some(names) => names[names.len() - 1].clone(),
            None => self.signature.ident.clone(),
        }
    }

    /// The parameters, in their order.
    pub fn arg_list(&self) -> (args: &Vec<FnArg>)
        ensures
            *args == self@.signature.inputs,
    {
        &self.signature.inputs
    }

    /// The number of parameters, the receiver included.
    pub fn arg_count(&self) -> (count: usize)
        ensures
            count == self@.signature.inputs@.len(),
    {
        self.signature.inputs.len()
    }

    /// The type of what the function gives_value, if it gives_value a value.
    pub fn return_type(&self) -> (ty: Option<&Type>)
        ensures
            match ty {
                Some(ty) => self@.signature.output matches Some(clause) && *ty == clause.ty,
                None => self@.signature.output is None,
            },
    {
        match &self.signature.output {
            Some(clause) => Some(&clause.ty),
            None => None,
        }
    }

    /// Holds `params` against the signature and, where they fit, makes them
    /// the options of the function. Where they do not, the function is left
    /// as it was and the rule that they break is reported at the signature.
    pub fn set_params(&mut self, params: ExportedFnParams) -> (r: Result<(), Error>)
        ensures
            match r {
                Ok(_) => {
                    &&& mismatch(params@, old(self)@.signature) is None
                    &&& final(self)@ == Descriptor { params: params@, ..old(self)@ }
                },
                Err(e) => {
                    &&& mismatch(params@, old(self)@.signature) == Some(e.kind)
                    &&& e@ == plain_fault(old(self)@.signature.span, e.kind)
                    &&& final(self)@ == old(self)@
                },
            },
            final(self)@.wf(),
    {
        proof {
            use_type_invariant(&*self);
        }
        let arg_count = self.signature.inputs.len();
        let gives_value = self.signature.output.is_some();
        let span = self.signature.span;
        if params.return_raw && !gives_value {
            return Err(Error::new(span, ErrorKind::RawWithoutResult));
        }
        match &params.special {
            FnSpecialAccess::Property(Property::Get(_)) => {
                if arg_count != 1 {
                    return Err(Error::new(span, ErrorKind::GetterArity));
                }
                if !gives_value {
                    return Err(Error::new(span, ErrorKind::GetterWithoutValue));
                }
            },
            FnSpecialAccess::Property(Property::Put(_)) => {
                if arg_count != 2 {
                    return Err(Error::new(span, ErrorKind::SetterArity));
                }
                if gives_value {
                    return Err(Error::new(span, ErrorKind::SetterWithValue));
                }
            },
            FnSpecialAccess::Index(Index::Get) => {
                if arg_count != 2 {
                    return Err(Error::new(span, ErrorKind::IndexGetterArity));
                }
                if !gives_value {
                    return Err(Error::new(span, ErrorKind::IndexGetterWithoutValue));
                }
            },
            FnSpecialAccess::Index(Index::Put) => {
                if arg_count != 3 {
                    return Err(Error::new(span, ErrorKind::IndexSetterArity));
                }
                if gives_value {
                    return Err(Error::new(span, ErrorKind::IndexSetterWithValue));
                }
            },
            FnSpecialAccess::Unset => {},
        }
        self.params = params;
        Ok(())
    }

    /// Plans the adapter of the function. A function that takes `self` by
    /// value has no adapter.
    pub fn plan(&self) -> (plan: AdapterPlan)
        requires
            !takes_self_by_value(self@.signature.inputs@),
        ensures
            plan@ == plan_of(self@.signature, self@.params.return_raw),
    {
        proof {
            use_type_invariant(self);
        }
        AdapterPlan::new(&self.signature, self.params.return_raw)
    }

    /// Writes all that is generated for the function.
    pub fn generate(self) -> (text: String)
        requires
            !takes_self_by_value(self@.signature.inputs@),
        ensures
            text@ == generated_text(self@),
    {
        let impl_block = self.generate_impl("Token");
        let callable_block = self.generate_callable("Token");
        let input_types_block = self.generate_input_types("Token");
        let dyn_result_fn_block = self.generate_dynamic_fn();
        module_source(
            self.signature.ident.as_str(),
            impl_block.as_str(),
            callable_block.as_str(),
            input_types_block.as_str(),
            dyn_result_fn_block.as_str(),
        )
    }

    /// Writes the function `dynamic_result_fn`, which returns a dynamic value
    /// or an error whatever the exported function returns.
    pub fn generate_dynamic_fn(&self) -> (text: String)
        ensures
            text@ == dynamic_fn_text(self@.signature, self@.params.return_raw),
    {
        dynamic_fn_source(&self.signature, self.params.return_raw)
    }

    /// Writes the function that hands out the adapter `on_type_name` as a
    /// callable. Its name is the lower-case form of `on_type_name` and
    /// `_callable`.
    pub fn generate_callable(&self, on_type_name: &str) -> (text: String)
        ensures
            text@ == callable_text(lowercased(on_type_name@), on_type_name@),
    {
        callable_source(to_lowercase(on_type_name).as_str(), on_type_name)
    }

    /// Writes the function that hands out the types that the adapter
    /// `on_type_name` accepts. Its name is the lower-case form of
    /// `on_type_name` and `_input_types`.
    pub fn generate_input_types(&self, on_type_name: &str) -> (text: String)
        ensures
            text@ == input_types_text(lowercased(on_type_name@), on_type_name@),
    {
        input_types_source(to_lowercase(on_type_name).as_str(), on_type_name)
    }

    /// Writes the adapter: the implementation of the plugin interface for
    /// the type `on_type_name`, which carries out the plan of the function.
    pub fn generate_impl(&self, on_type_name: &str) -> (text: String)
        requires
            !takes_self_by_value(self@.signature.inputs@),
        ensures
            text@ == impl_text(
                plan_of(self@.signature, self@.params.return_raw),
                on_type_name@,
            ),
    {
        self.plan().impl_source(on_type_name)
    }
}

} // verus!
