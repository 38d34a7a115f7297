//! The adapter of an exported function: the plan of how the engine's
//! arguments are unpacked and handed on, and the source text of the plan.

use vstd::prelude::*;
use vstd::string::*;

use crate::signature::{
    FnArg, Shape, Signature, Type, flatten, flatten_type_groups, is_path, is_str_ref, method_style,
    receivers_lead, takes_self_by_value,
};
use crate::text::texts;

verus! {

/// How the value in a slot of the argument array becomes an argument.
#[derive(Clone, Copy, Debug, PartialEq, Eq, Structural)]
pub enum Strategy {
    /// An exclusive typed view into the slot, which keeps its value.
    Receiver,
    /// The text is taken out of the slot and lent to the call.
    BorrowedText,
    /// The text is taken out of the slot and given to the call.
    OwnedText,
    /// The value is taken out of the slot and cast to its type.
    Value,
}

/// One unpack statement: the slot it reads, how, and as which type.
#[derive(Clone, Debug, PartialEq, Eq)]
pub struct UnpackStep {
    pub slot: usize,
    pub strategy: Strategy,
    pub ty: String,
}

/// An unpack statement as a mathematical value.
pub struct Step {
    pub slot: usize,
    pub strategy: Strategy,
    pub ty: Seq<char>,
}

impl View for UnpackStep {
    type V = Step;

    open spec fn view(&self) -> Step {
        Step { slot: self.slot, strategy: self.strategy, ty: self.ty@ }
    }
}

/// One argument of the call: the binding of a slot, lent or given.
#[derive(Clone, Copy, Debug, PartialEq, Eq, Structural)]
pub struct CallArg {
    pub slot: usize,
    pub borrowed: bool,
}

/// The plan of an adapter.
#[derive(Clone, Debug, PartialEq, Eq)]
pub struct AdapterPlan {
    /// The function that the adapter calls.
    pub function: String,
    pub is_method_call: bool,
    /// The unpack statements in the order in which they are written.
    pub steps: Vec<UnpackStep>,
    /// The arguments of the call, in the order of the parameters.
    pub call: Vec<CallArg>,
    /// The type that the adapter accepts in each slot.
    pub input_types: Vec<String>,
    /// Whether the function's own result is handed on as it is.
    pub raw_result: bool,
}

/// The plan of an adapter as a mathematical value.
pub struct Plan {
    pub function: Seq<char>,
    pub is_method_call: bool,
    pub steps: Seq<Step>,
    pub call: Seq<CallArg>,
    pub input_types: Seq<Seq<char>>,
    pub raw_result: bool,
}

/// The unpack statements of a sequence as mathematical values.
pub open spec fn steps_of(steps: Seq<UnpackStep>) -> Seq<Step> {
    Seq::new(steps.len(), |i: int| steps[i]@)
}

impl View for AdapterPlan {
    type V = Plan;

    open spec fn view(&self) -> Plan {
        Plan {
            function: self.function@,
            is_method_call: self.is_method_call,
            steps: steps_of(self.steps@),
            call: self.call@,
            input_types: texts(self.input_types@),
            raw_result: self.raw_result,
        }
    }
}

/// The type that a receiver is viewed as: `Self` for a borrow of `self`, else
/// the type that the first parameter refers to.
pub open spec fn receiver_type(arg: FnArg) -> Seq<char> {
    match arg {
        FnArg::Receiver { .. } => "Self"@,
        FnArg::Typed { ty, .. } => match flatten(ty).shape {
            Shape::Reference { elem, .. } => elem.tokens@,
            _ => flatten(ty).tokens@,
        },
    }
}

/// How a parameter of type `ty` that is no receiver is unpacked.
pub open spec fn strategy_for(ty: Type) -> Strategy {
    if is_str_ref(ty) {
        Strategy::BorrowedText
    } else if is_path(ty, "String"@) {
        Strategy::OwnedText
    } else {
        Strategy::Value
    }
}

/// The unpack statement of the parameter at `i`. A function that takes `self`
/// by value has no adapter: what this says of such a parameter is never used.
pub open spec fn step_for(inputs: Seq<FnArg>, i: int) -> Step
    recommends
        0 <= i < inputs.len(),
{
    if i == 0 && method_style(inputs) {
        Step { slot: 0, strategy: Strategy::Receiver, ty: receiver_type(inputs[0]) }
    } else {
        match inputs[i] {
            FnArg::Typed { ty, .. } => Step {
                slot: i as usize,
                strategy: strategy_for(ty),
                ty: ty.tokens@,
            },
            FnArg::Receiver { tokens, .. } => Step {
                slot: i as usize,
                strategy: Strategy::Value,
                ty: tokens@,
            },
        }
    }
}

/// The slot that the `k`-th unpack statement reads. A receiver binds slot 0
/// and is unpacked last: the exclusive view of it is taken when every other
/// slot has been read.
pub open spec fn emitted_slot(inputs: Seq<FnArg>, k: int) -> int {
    if method_style(inputs) {
        if k == inputs.len() - 1 {
            0
        } else {
            k + 1
        }
    } else {
        k
    }
}

/// The type that the adapter accepts in the slot of `step`.
pub open spec fn input_type(step: Step) -> Seq<char> {
    match step.strategy {
        Strategy::BorrowedText | Strategy::OwnedText => "ImmutableString"@,
        _ => step.ty,
    }
}

/// The argument that stands for the parameter at `i`.
pub open spec fn call_arg(inputs: Seq<FnArg>, i: int) -> CallArg {
    CallArg { slot: i as usize, borrowed: step_for(inputs, i).strategy is BorrowedText }
}

/// The plan of the adapter of a function with the signature `sig`.
pub open spec fn plan_of(sig: Signature, raw_result: bool) -> Plan {
    let inputs = sig.inputs@;
    Plan {
        function: sig.ident@,
        is_method_call: method_style(inputs),
        steps: Seq::new(inputs.len(), |k: int| step_for(inputs, emitted_slot(inputs, k))),
        call: Seq::new(inputs.len(), |i: int| call_arg(inputs, i)),
        input_types: Seq::new(inputs.len(), |i: int| input_type(step_for(inputs, i))),
        raw_result,
    }
}

/// In the adapter of a method the receiver is unpacked last, whatever the
/// other parameters are, and no statement before it reads slot 0 or takes an
/// exclusive view.
pub proof fn lemma_receiver_unpacked_last(sig: Signature, raw_result: bool)
    requires
        method_style(sig.inputs@),
    ensures
        ({
            let steps = plan_of(sig, raw_result).steps;
            &&& steps.len() == sig.inputs@.len()
            &&& steps.len() > 0
            &&& steps.last().slot == 0
            &&& steps.last().strategy is Receiver
            &&& forall|k: int|
                0 <= k < steps.len() - 1 ==> steps[k].slot != 0 && !(steps[k].strategy is Receiver)
        }),
{
    // The parameters are as many as a vector holds, so every slot is a `usize`.
    assert(sig.inputs@.len() == sig.inputs.len());
}

/// Every slot is read by exactly one unpack statement.
pub proof fn lemma_each_slot_unpacked_once(sig: Signature, raw_result: bool, slot: int)
    requires
        0 <= slot < sig.inputs@.len(),
    ensures
        ({
            let steps = plan_of(sig, raw_result).steps;
            exists|k: int|
                0 <= k < steps.len() && #[trigger] steps[k].slot == slot && forall|j: int|
                    0 <= j < steps.len() && #[trigger] steps[j].slot == slot ==> j == k
        }),
{
    let inputs = sig.inputs@;
    let steps = plan_of(sig, raw_result).steps;
    let k = if method_style(inputs) {
        if slot == 0 {
            inputs.len() - 1
        } else {
            slot - 1
        }
    } else {
        slot
    };
    // The parameters are as many as a vector holds, so every slot is a `usize`.
    assert(inputs.len() == sig.inputs.len());
    assert(steps[k].slot == slot);
}

fn receiver_type_of(arg: &FnArg) -> (ty: String)
    ensures
        ty@ == receiver_type(*arg),
{
    match arg {
        FnArg::Receiver { .. } => String::from_str("Self"),
        FnArg::Typed { ty, .. } => {
            let flat = flatten_type_groups(ty);
            match &flat.shape {
                Shape::Reference { elem, .. } => elem.tokens.clone(),
                _ => flat.tokens.clone(),
            }
        },
    }
}

fn strategy_of(ty: &Type) -> (strategy: Strategy)
    ensures
        strategy == strategy_for(*ty),
{
    if ty.is_str_ref() {
        Strategy::BorrowedText
    } else if ty.is_path("String") {
        Strategy::OwnedText
    } else {
        Strategy::Value
    }
}

fn unpack_step(inputs: &Vec<FnArg>, method: bool, i: usize) -> (step: UnpackStep)
    requires
        i < inputs@.len(),
        method == method_style(inputs@),
    ensures
        step@ == step_for(inputs@, i as int),
{
    if i == 0 && method {
        UnpackStep { slot: 0, strategy: Strategy::Receiver, ty: receiver_type_of(&inputs[0]) }
    } else {
        match &inputs[i] {
            FnArg::Typed { ty, .. } => UnpackStep {
                slot: i,
                strategy: strategy_of(ty),
                ty: ty.tokens.clone(),
            },
            FnArg::Receiver { tokens, .. } => UnpackStep {
                slot: i,
                strategy: Strategy::Value,
                ty: tokens.clone(),
            },
        }
    }
}

fn accepted_type(step: &UnpackStep) -> (ty: String)
    ensures
        ty@ == input_type(step@),
{
    match step.strategy {
        Strategy::BorrowedText | Strategy::OwnedText => String::from_str("ImmutableString"),
        _ => step.ty.clone(),
    }
}

impl AdapterPlan {
    /// Plans the adapter of a function with the signature `sig`. A function
    /// that takes `self` by value has no adapter.
    pub(crate) fn new(sig: &Signature, raw_result: bool) -> (plan: AdapterPlan)
        requires
            receivers_lead(sig.inputs@),
            !takes_self_by_value(sig.inputs@),
        ensures
            plan@ == plan_of(*sig, raw_result),
    {
        let n = sig.inputs.len();
        let method = sig.method_style();
        let first: usize = if method {
            1
        } else {
            0
        };
        let mut steps: Vec<UnpackStep> = Vec::new();
        let mut i: usize = first;
        while i < n
            invariant
                first <= i <= n,
                n == sig.inputs@.len(),
                method == method_style(sig.inputs@),
                first == if method {
                    1usize
                } else {
                    0usize
                },
                steps@.len() == i - first,
                forall|k: int|
                    0 <= k < steps@.len() ==> (#[trigger] steps@[k])@ == step_for(
                        sig.inputs@,
                        k + first,
                    ),
            decreases n - i,
        {
            steps.push(unpack_step(&sig.inputs, method, i));
            i += 1;
        }
        if method {
            steps.push(unpack_step(&sig.inputs, method, 0));
        }
        let mut call: Vec<CallArg> = Vec::new();
        let mut input_types: Vec<String> = Vec::new();
        let mut j: usize = 0;
        while j < n
            invariant
                j <= n,
                n == sig.inputs@.len(),
                method == method_style(sig.inputs@),
                call@.len() == j,
                input_types@.len() == j,
                forall|k: int| 0 <= k < j ==> #[trigger] call@[k] == call_arg(sig.inputs@, k),
                forall|k: int|
                    0 <= k < j ==> (#[trigger] input_types@[k])@ == input_type(
                        step_for(sig.inputs@, k),
                    ),
            decreases n - j,
        {
            let step = unpack_step(&sig.inputs, method, j);
            let borrowed = match step.strategy {
                Strategy::BorrowedText => true,
                _ => false,
            };
            call.push(CallArg { slot: j, borrowed });
            input_types.push(accepted_type(&step));
            j += 1;
        }
        let plan = AdapterPlan {
            function: sig.ident.clone(),
            is_method_call: method,
            steps,
            call,
            input_types,
            raw_result,
        };
        proof {
            let wanted = plan_of(*sig, raw_result);
            assert(plan@.steps =~= wanted.steps);
            assert(plan@.call =~= wanted.call);
            assert(plan@.input_types =~= wanted.input_types);
        }
        plan
    }
}

} // verus!
