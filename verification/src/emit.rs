//! The source text of what is generated for an exported function. Each text
//! is stated as a sequence of characters, and written out piece by piece.

use vstd::prelude::*;
use vstd::string::*;

use crate::adapter::{
    AdapterPlan, CallArg, Plan, Step, Strategy, UnpackStep, plan_of, receiver_type, steps_of,
};
use crate::signature::{FnArg, Signature, method_style};
use crate::text::{decimal, push_decimal, push_text, texts};

verus! {

/// The first `n` of `parts`, with `", "` between them.
pub open spec fn joined(parts: Seq<Seq<char>>, n: nat) -> Seq<char>
    decreases n,
{
    if n == 0 {
        Seq::empty()
    } else if n == 1 {
        parts[0]
    } else {
        joined(parts, (n - 1) as nat) + ", "@ + parts[n - 1]
    }
}

/// The name that the value of `slot` is bound to.
pub open spec fn binding(slot: usize) -> Seq<char> {
    "arg"@ + decimal(slot as nat)
}

/// The place of `slot` in the argument array.
pub open spec fn slot_text(slot: usize) -> Seq<char> {
    "args["@ + decimal(slot as nat) + "usize]"@
}

/// The unpack statement `step` as source text.
pub open spec fn step_text(step: Step) -> Seq<char> {
    match step.strategy {
        Strategy::Receiver => "let "@ + binding(step.slot) + ": &mut _ = &mut "@ + slot_text(
            step.slot,
        ) + ".write_lock::<"@ + step.ty + ">().unwrap();"@,
        Strategy::BorrowedText => "let "@ + binding(step.slot) + " = mem::take("@ + slot_text(
            step.slot,
        ) + ").take_immutable_string().unwrap();"@,
        Strategy::OwnedText => "let "@ + binding(step.slot) + " = mem::take("@ + slot_text(
            step.slot,
        ) + ").take_string().unwrap();"@,
        Strategy::Value => "let "@ + binding(step.slot) + " = mem::take("@ + slot_text(step.slot)
            + ").cast::<"@ + step.ty + ">();"@,
    }
}

/// The first `n` unpack statements, one on each line.
pub open spec fn block_text(steps: Seq<Step>, n: nat) -> Seq<char>
    decreases n,
{
    if n == 0 {
        Seq::empty()
    } else {
        block_text(steps, (n - 1) as nat) + "        "@ + step_text(steps[n - 1]) + "\n"@
    }
}

/// The argument `arg` of the call as source text.
pub open spec fn arg_text(arg: CallArg) -> Seq<char> {
    if arg.borrowed {
        "&"@ + binding(arg.slot)
    } else {
        binding(arg.slot)
    }
}

/// The arguments of the call as source texts.
pub open spec fn arg_texts(call: Seq<CallArg>) -> Seq<Seq<char>> {
    Seq::new(call.len(), |i: int| arg_text(call[i]))
}

/// The call of `function` on the arguments `args`.
pub open spec fn invocation_text(function: Seq<char>, args: Seq<Seq<char>>) -> Seq<char> {
    function + "("@ + joined(args, args.len()) + ")"@
}

/// What the adapter returns: the value of `invocation` handed on as it is, or
/// wrapped as a dynamic value.
pub open spec fn result_text(raw_result: bool, invocation: Seq<char>) -> Seq<char> {
    if raw_result {
        invocation
    } else {
        "Ok(Dynamic::from("@ + invocation + "))"@
    }
}

/// The identifier of the type `ty` as source text.
pub open spec fn type_id_text(ty: Seq<char>) -> Seq<char> {
    "TypeId::of::<"@ + ty + ">()"@
}

/// The identifiers of the types `types` as source texts.
pub open spec fn type_id_texts(types: Seq<Seq<char>>) -> Seq<Seq<char>> {
    Seq::new(types.len(), |i: int| type_id_text(types[i]))
}

/// A truth value as source text.
pub open spec fn bool_text(b: bool) -> Seq<char> {
    if b {
        "true"@
    } else {
        "false"@
    }
}

/// A count as source text.
pub open spec fn count_text(n: nat) -> Seq<char> {
    decimal(n) + "usize"@
}

/// The implementation of the plugin interface for the type `adapter`,
/// which carries out `plan`.
pub open spec fn impl_text(plan: Plan, adapter: Seq<char>) -> Seq<char> {
    "impl PluginFunction for "@ + adapter
        + " {\n    fn call(&self, args: &mut [&mut Dynamic]) -> Result<Dynamic, Box<EvalAltResult>> {\n        debug_assert_eq!(args.len(), "@
        + count_text(plan.steps.len()) + ", \"wrong arg count: {} != {}\", args.len(), "@
        + count_text(plan.steps.len()) + ");\n"@ + block_text(plan.steps, plan.steps.len())
        + "        "@ + result_text(
        plan.raw_result,
        invocation_text(plan.function, arg_texts(plan.call)),
    ) + "\n    }\n\n    fn is_method_call(&self) -> bool { "@ + bool_text(plan.is_method_call)
        + " }\n    fn is_varadic(&self) -> bool { false }\n    fn clone_boxed(&self) -> Box<dyn PluginFunction> { Box::new("@
        + adapter + "()) }\n    fn input_types(&self) -> Box<[TypeId]> {\n        new_vec!["@
        + joined(type_id_texts(plan.input_types), plan.input_types.len())
        + "].into_boxed_slice()\n    }\n}\n"@
}

/// The parameter `arg` as it is written in a signature.
pub open spec fn param_text(arg: FnArg) -> Seq<char> {
    match arg {
        FnArg::Receiver { tokens, .. } => tokens@,
        FnArg::Typed { pattern, ty, .. } => pattern@ + ": "@ + ty.tokens@,
    }
}

/// The parameters `inputs` as they are written in a signature.
pub open spec fn param_texts(inputs: Seq<FnArg>) -> Seq<Seq<char>> {
    Seq::new(inputs.len(), |i: int| param_text(inputs[i]))
}

/// The names that the first `n` parameters bind: one for each parameter whose
/// pattern is a single identifier, in their order.
pub open spec fn bound_names(inputs: Seq<FnArg>, n: nat) -> Seq<Seq<char>>
    decreases n,
{
    if n == 0 {
        Seq::empty()
    } else {
        let before = bound_names(inputs, (n - 1) as nat);
        match inputs[n - 1] {
            FnArg::Typed { ident: Some(name), .. } => before.push(name@),
            _ => before,
        }
    }
}

/// The function `dynamic_result_fn` for the signature `sig`: it takes what
/// the exported function takes, hands its named parameters on to it, and
/// returns a dynamic value or an error whatever the function returns.
pub open spec fn dynamic_fn_text(sig: Signature, raw_result: bool) -> Seq<char> {
    "type EvalBox = Box<EvalAltResult>;\npub "@ + sig.qualifiers@ + " fn dynamic_result_fn"@
        + sig.generics@ + "("@ + joined(param_texts(sig.inputs@), sig.inputs@.len())
        + ") -> Result<Dynamic, EvalBox> "@ + sig.where_clause@ + " {\n    "@ + result_text(
        raw_result,
        invocation_text("super::"@ + sig.ident@, bound_names(sig.inputs@, sig.inputs@.len())),
    ) + "\n}\n"@
}

/// The function that hands out the adapter `adapter` as a callable; `lower`
/// is what its name begins with.
pub open spec fn callable_text(lower: Seq<char>, adapter: Seq<char>) -> Seq<char> {
    "pub fn "@ + lower + "_callable() -> CallableFunction {\n    CallableFunction::from_plugin("@
        + adapter + "())\n}\n"@
}

/// The function that hands out the types that the adapter `adapter`
/// accepts; `lower` is what its name begins with.
pub open spec fn input_types_text(lower: Seq<char>, adapter: Seq<char>) -> Seq<char> {
    "pub fn "@ + lower + "_input_types() -> Box<[TypeId]> {\n    "@ + adapter
        + "().input_types()\n}\n"@
}

/// The module that holds what is generated for the function `ident`.
pub open spec fn module_text(
    ident: Seq<char>,
    implementation: Seq<char>,
    callable: Seq<char>,
    input_types: Seq<char>,
    dynamic_fn: Seq<char>,
) -> Seq<char> {
    "#[allow(unused)]\npub mod rhai_fn_"@ + ident
        + " {\n    use super::*;\n    struct Token();\n"@ + implementation + callable
        + input_types + dynamic_fn + "}\n"@
}

/// In the adapter of a method, the statement that takes the exclusive view of
/// the receiver is the last unpack statement that is written.
pub proof fn lemma_receiver_written_last(sig: Signature, raw_result: bool)
    requires
        method_style(sig.inputs@),
    ensures
        ({
            let steps = plan_of(sig, raw_result).steps;
            let receiver = Step {
                slot: 0,
                strategy: Strategy::Receiver,
                ty: receiver_type(sig.inputs@[0]),
            };
            block_text(steps, steps.len()) == block_text(steps, (steps.len() - 1) as nat)
                + "        "@ + step_text(receiver) + "\n"@
        }),
{
}

/// The lower-case form of a text, as `str::to_lowercase` of the standard
/// library gives it.
pub uninterp spec fn lowercased(text: Seq<char>) -> Seq<char>;

/// Calls `str::to_lowercase`. Nothing is proved of the result: the contract
/// only gives it its name, `lowercased`.
#[verifier::external_body]
pub(crate) fn to_lowercase(text: &str) -> (lower: String)
    ensures
        lower@ == lowercased(text@),
{
    text.to_lowercase()
}

/// Writes `parts` with `", "` between them.
pub fn join(parts: &Vec<String>) -> (text: String)
    ensures
        text@ == joined(texts(parts@), parts@.len()),
{
    let mut text = String::new();
    let mut i: usize = 0;
    while i < parts.len()
        invariant
            i <= parts.len(),
            text@ == joined(texts(parts@), i as nat),
        decreases parts.len() - i,
    {
        if i > 0 {
            text.append(", ");
        }
        text.append(parts[i].as_str());
        i += 1;
    }
    text
}

fn binding_source(slot: usize) -> (text: String)
    ensures
        text@ == binding(slot),
{
    let mut text = String::from_str("arg");
    push_decimal(&mut text, slot);
    text
}

fn slot_source(slot: usize) -> (text: String)
    ensures
        text@ == slot_text(slot),
{
    let mut text = String::from_str("args[");
    push_decimal(&mut text, slot);
    text.append("usize]");
    text
}

fn step_source(step: &UnpackStep) -> (text: String)
    ensures
        text@ == step_text(step@),
{
    let mut text = String::from_str("let ");
    text.append(binding_source(step.slot).as_str());
    match step.strategy {
        Strategy::Receiver => {
            text.append(": &mut _ = &mut ");
            text.append(slot_source(step.slot).as_str());
            text.append(".write_lock::<");
            text.append(step.ty.as_str());
            text.append(">().unwrap();");
        },
        Strategy::BorrowedText => {
            text.append(" = mem::take(");
            text.append(slot_source(step.slot).as_str());
            text.append(").take_immutable_string().unwrap();");
        },
        Strategy::OwnedText => {
            text.append(" = mem::take(");
            text.append(slot_source(step.slot).as_str());
            text.append(").take_string().unwrap();");
        },
        Strategy::Value => {
            text.append(" = mem::take(");
            text.append(slot_source(step.slot).as_str());
            text.append(").cast::<");
            text.append(step.ty.as_str());
            text.append(">();");
        },
    }
    text
}

fn block_source(steps: &Vec<UnpackStep>) -> (text: String)
    ensures
        text@ == block_text(steps_of(steps@), steps@.len()),
{
    let mut text = String::new();
    let mut i: usize = 0;
    while i < steps.len()
        invariant
            i <= steps.len(),
            text@ == block_text(steps_of(steps@), i as nat),
        decreases steps.len() - i,
    {
        text.append("        ");
        text.append(step_source(&steps[i]).as_str());
        text.append("\n");
        i += 1;
    }
    text
}

fn arg_source(arg: &CallArg) -> (text: String)
    ensures
        text@ == arg_text(*arg),
{
    if arg.borrowed {
        let mut text = String::from_str("&");
        text.append(binding_source(arg.slot).as_str());
        text
    } else {
        binding_source(arg.slot)
    }
}

fn arg_sources(call: &Vec<CallArg>) -> (parts: Vec<String>)
    ensures
        texts(parts@) == arg_texts(call@),
        parts@.len() == call@.len(),
{
    let mut parts: Vec<String> = Vec::new();
    let mut i: usize = 0;
    while i < call.len()
        invariant
            i <= call.len(),
            parts@.len() == i,
            forall|k: int| 0 <= k < i ==> (#[trigger] parts@[k])@ == arg_text(call@[k]),
        decreases call.len() - i,
    {
        parts.push(arg_source(&call[i]));
        i += 1;
    }
    parts
}

fn type_id_sources(types: &Vec<String>) -> (parts: Vec<String>)
    ensures
        texts(parts@) == type_id_texts(texts(types@)),
        parts@.len() == types@.len(),
{
    let mut parts: Vec<String> = Vec::new();
    let mut i: usize = 0;
    while i < types.len()
        invariant
            i <= types.len(),
            parts@.len() == i,
            forall|k: int| 0 <= k < i ==> (#[trigger] parts@[k])@ == type_id_text(types@[k]@),
        decreases types.len() - i,
    {
        let mut part = String::from_str("TypeId::of::<");
        part.append(types[i].as_str());
        part.append(">()");
        parts.push(part);
        i += 1;
    }
    parts
}

fn invocation_source(function: &str, args: &Vec<String>) -> (text: String)
    ensures
        text@ == invocation_text(function@, texts(args@)),
{
    let mut text = String::from_str(function);
    text.append("(");
    text.append(join(args).as_str());
    text.append(")");
    text
}

fn result_source(raw_result: bool, invocation: String) -> (text: String)
    ensures
        text@ == result_text(raw_result, invocation@),
{
    if raw_result {
        invocation
    } else {
        let mut text = String::from_str("Ok(Dynamic::from(");
        text.append(invocation.as_str());
        text.append("))");
        text
    }
}

fn count_source(n: usize) -> (text: String)
    ensures
        text@ == count_text(n as nat),
{
    let mut text = String::new();
    push_decimal(&mut text, n);
    text.append("usize");
    text
}

impl AdapterPlan {
    /// Writes the implementation of the plugin interface for the type
    /// `adapter`, which carries out this plan.
    pub fn impl_source(&self, adapter: &str) -> (text: String)
        ensures
            text@ == impl_text(self@, adapter@),
    {
        let count = count_source(self.steps.len());
        let invocation = invocation_source(self.function.as_str(), &arg_sources(&self.call));
        let mut text = String::from_str("impl PluginFunction for ");
        text.append(adapter);
        text.append(
            " {\n    fn call(&self, args: &mut [&mut Dynamic]) -> Result<Dynamic, Box<EvalAltResult>> {\n        debug_assert_eq!(args.len(), ",
        );
        text.append(count.as_str());
        text.append(", \"wrong arg count: {} != {}\", args.len(), ");
        text.append(count.as_str());
        text.append(");\n");
        text.append(block_source(&self.steps).as_str());
        text.append("        ");
        text.append(result_source(self.raw_result, invocation).as_str());
        text.append("\n    }\n\n    fn is_method_call(&self) -> bool { ");
        text.append(
            if self.is_method_call {
                "true"
            } else {
                "false"
            },
        );
        text.append(
            " }\n    fn is_varadic(&self) -> bool { false }\n    fn clone_boxed(&self) -> Box<dyn PluginFunction> { Box::new(",
        );
        text.append(adapter);
        text.append("()) }\n    fn input_types(&self) -> Box<[TypeId]> {\n        new_vec![");
        text.append(join(&type_id_sources(&self.input_types)).as_str());
        text.append("].into_boxed_slice()\n    }\n}\n");
        text
    }
}

fn param_source(arg: &FnArg) -> (text: String)
    ensures
        text@ == param_text(*arg),
{
    match arg {
        FnArg::Receiver { tokens, .. } => tokens.clone(),
        FnArg::Typed { pattern, ty, .. } => {
            let mut text = pattern.clone();
            text.append(": ");
            text.append(ty.tokens.as_str());
            text
        },
    }
}

fn param_sources(inputs: &Vec<FnArg>) -> (parts: Vec<String>)
    ensures
        texts(parts@) == param_texts(inputs@),
        parts@.len() == inputs@.len(),
{
    let mut parts: Vec<String> = Vec::new();
    let mut i: usize = 0;
    while i < inputs.len()
        invariant
            i <= inputs.len(),
            parts@.len() == i,
            forall|k: int| 0 <= k < i ==> (#[trigger] parts@[k])@ == param_text(inputs@[k]),
        decreases inputs.len() - i,
    {
        parts.push(param_source(&inputs[i]));
        i += 1;
    }
    parts
}

fn bound_name_sources(inputs: &Vec<FnArg>) -> (names: Vec<String>)
    ensures
        texts(names@) == bound_names(inputs@, inputs@.len()),
{
    let mut names: Vec<String> = Vec::new();
    let mut i: usize = 0;
    while i < inputs.len()
        invariant
            i <= inputs.len(),
            texts(names@) == bound_names(inputs@, i as nat),
        decreases inputs.len() - i,
    {
        match &inputs[i] {
            FnArg::Typed { ident: Some(name), .. } => {
                push_text(&mut names, name.clone());
            },
            _ => {},
        }
        i += 1;
    }
    names
}

/// Writes the function `dynamic_result_fn` for the signature `sig`.
pub fn dynamic_fn_source(sig: &Signature, raw_result: bool) -> (text: String)
    ensures
        text@ == dynamic_fn_text(*sig, raw_result),
{
    let mut target = String::from_str("super::");
    target.append(sig.ident.as_str());
    let invocation = invocation_source(target.as_str(), &bound_name_sources(&sig.inputs));
    let mut text = String::from_str("type EvalBox = Box<EvalAltResult>;\npub ");
    text.append(sig.qualifiers.as_str());
    text.append(" fn dynamic_result_fn");
    text.append(sig.generics.as_str());
    text.append("(");
    text.append(join(&param_sources(&sig.inputs)).as_str());
    text.append(") -> Result<Dynamic, EvalBox> ");
    text.append(sig.where_clause.as_str());
    text.append(" {\n    ");
    text.append(result_source(raw_result, invocation).as_str());
    text.append("\n}\n");
    text
}

/// Writes the function that hands out the adapter `adapter` as a callable.
/// Its name is `lower` and `_callable`.
pub fn callable_source(lower: &str, adapter: &str) -> (text: String)
    ensures
        text@ == callable_text(lower@, adapter@),
{
    let mut text = String::from_str("pub fn ");
    text.append(lower);
    text.append("_callable() -> CallableFunction {\n    CallableFunction::from_plugin(");
    text.append(adapter);
    text.append("())\n}\n");
    text
}

/// Writes the function that hands out the types that the adapter `adapter`
/// accepts. Its name is `lower` and `_input_types`.
pub fn input_types_source(lower: &str, adapter: &str) -> (text: String)
    ensures
        text@ == input_types_text(lower@, adapter@),
{
    let mut text = String::from_str("pub fn ");
    text.append(lower);
    text.append("_input_types() -> Box<[TypeId]> {\n    ");
    text.append(adapter);
    text.append("().input_types()\n}\n");
    text
}

/// Writes the module that holds what is generated for the function `ident`.
pub fn module_source(
    ident: &str,
    implementation: &str,
    callable: &str,
    input_types: &str,
    dynamic_fn: &str,
) -> (text: String)
    ensures
        text@ == module_text(ident@, implementation@, callable@, input_types@, dynamic_fn@),
{
    let mut text = String::from_str("#[allow(unused)]\npub mod rhai_fn_");
    text.append(ident);
    text.append(" {\n    use super::*;\n    struct Token();\n");
    text.append(implementation);
    text.append(callable);
    text.append(input_types);
    text.append(dynamic_fn);
    text.append("}\n");
    text
}

} // verus!
