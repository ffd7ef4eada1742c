//! The data model of a function's shape, and the signature analyzer.
//!
//! A function definition is modeled by what the transformation reads of it:
//! its name, its ordered parameter list (an optional receiver first, then
//! named parameters), whether it is suspending (asynchronous), and the
//! written form of its return type. The analyzer derives from that shape an
//! argument-binding list, the suspending flag, and the return-shape
//! classification.

use vstd::prelude::*;

verus! {

/// How a receiver parameter is bound to its owning instance.
#[derive(Clone, Copy, PartialEq, Eq, Structural, Debug)]
pub enum ReceiverKind {
    ByValue,
    ByRef,
    ByRefMut,
}

/// One parameter of a function: either the receiver, or a named, typed
/// parameter whose binding pattern is kept as text.
#[derive(PartialEq, Eq, Debug)]
pub enum Param {
    Receiver { kind: ReceiverKind },
    Named { pat: String },
}

/// The written form of a declared return type, as far as the
/// transformation reads it: absent (the unit type), a named-path type whose
/// last path segment is kept as text, or any other (structural) type.
#[derive(PartialEq, Eq, Debug)]
pub enum RetType {
    Unit,
    Path { last_segment: String },
    Other,
}

/// Classification of a return type: `ErrorCarrying` means a two-variant
/// (success-value, error-value) sum type that asks for two-armed branching
/// in the log decision; everything else is `Plain`.
#[derive(Clone, Copy, PartialEq, Eq, Structural, Debug)]
pub enum ReturnShape {
    Plain,
    ErrorCarrying,
}

/// The shape of the function definition being instrumented. The transformed
/// definition preserves everything here; only the body is replaced.
#[derive(PartialEq, Eq, Debug)]
pub struct FnSig {
    pub name: String,
    pub params: Vec<Param>,
    pub is_async: bool,
    pub ret: RetType,
}

/// The textual expression that debug-renders a parameter's value at call
/// time. A receiver, however it is bound, renders through a reference to
/// the receiver (formatting is read-only); a named parameter renders
/// through its own binding pattern.
pub open spec fn binding_spec(p: Param) -> Seq<char> {
    match p {
        Param::Receiver { .. } => "&self"@,
        Param::Named { pat } => pat@,
    }
}

/// The binding expressions of a whole parameter list, in declaration order.
pub open spec fn bindings_spec(params: Seq<Param>) -> Seq<Seq<char>> {
    params.map_values(|p: Param| binding_spec(p))
}

/// The return-shape judgment: error-carrying iff the return type is a
/// named-path type whose last segment reads `Result`. This is a syntactic
/// heuristic over the written name, not a type-checked judgment: a type
/// merely named like the standard error-carrying sum type is classified as
/// error-carrying too.
pub open spec fn return_shape_spec(ret: RetType) -> ReturnShape {
    match ret {
        RetType::Path { last_segment } => if last_segment@ == "Result"@ {
            ReturnShape::ErrorCarrying
        } else {
            ReturnShape::Plain
        },
        _ => ReturnShape::Plain,
    }
}

/// One ArgumentBinding, rendered as text.
pub fn param_binding(p: &Param) -> (r: String)
    ensures
        r@ == binding_spec(*p),
{
    match p {
        Param::Receiver { .. } => String::from_str("&self"),
        Param::Named { pat } => pat.clone(),
    }
}

/// The ordered argument-binding list of a parameter list: one binding per
/// parameter, in declaration order; empty for a parameter-free function.
pub fn argument_bindings(params: &Vec<Param>) -> (r: Vec<String>)
    ensures
        r@.len() == params@.len(),
        forall|i: int| 0 <= i < params@.len() ==> r@[i]@ == binding_spec(params@[i]),
{
    let mut r: Vec<String> = Vec::new();
    let mut i: usize = 0;
    while i < params.len()
        invariant
            0 <= i <= params@.len(),
            r@.len() == i,
            forall|j: int| 0 <= j < i ==> r@[j]@ == binding_spec(params@[j]),
        decreases params@.len() - i,
    {
        r.push(param_binding(&params[i]));
        i += 1;
    }
    r
}

/// The return-shape classification of a declared return type.
pub fn classify_return(ret: &RetType) -> (r: ReturnShape)
    ensures
        r == return_shape_spec(*ret),
{
    match ret {
        RetType::Path { last_segment } => {
            let conventional = String::from_str("Result");
            if *last_segment == conventional {
                ReturnShape::ErrorCarrying
            } else {
                ReturnShape::Plain
            }
        },
        _ => ReturnShape::Plain,
    }
}

/// The signature analyzer: from a function's shape, its argument-binding
/// list (in declaration order), its suspending flag, and its return shape.
/// It never fails: every parameter and every return type has a defined
/// reading.
pub fn analyze(sig: &FnSig) -> (r: (Vec<String>, bool, ReturnShape))
    ensures
        r.0@.len() == sig.params@.len(),
        forall|i: int| 0 <= i < sig.params@.len() ==> r.0@[i]@ == binding_spec(sig.params@[i]),
        r.1 == sig.is_async,
        r.2 == return_shape_spec(sig.ret),
{
    (argument_bindings(&sig.params), sig.is_async, classify_return(&sig.ret))
}

} // verus!
