//! Code generation: from a validated declaration, its decomposed
//! signature, and the parsed bound list, build the three generated
//! declarations as structured values.
//!
//! Everything here is a single construction with no failure mode: by the
//! time generation runs, every input has already been validated.

use vstd::prelude::*;
use crate::decompose::{decompose, input_texts, output_text, pattern_texts};
use crate::text::{clone_opt_text, clone_texts, concat_texts};
use crate::validate::FnItem;

verus! {

/// The name of the generated auxiliary type: a fixed prefix, delimited by
/// double underscores so it cannot collide with an ordinary identifier,
/// followed by the original function's name.
pub open spec fn aux_type_name(name: Seq<char>) -> Seq<char> {
    "__AsyncIntoFuture__"@ + name
}

/// The generated data-holder type: one field per original typed
/// parameter, generic over the original generics.
pub struct AuxType {
    /// The synthesized type name.
    pub name: String,
    /// The original generic-parameter list, verbatim.
    pub generics: String,
    /// One field per parameter-list entry, as `pattern: type` text.
    pub fields: Vec<String>,
}

/// The generated conversion implementation: it turns an auxiliary value
/// into a boxed, pinned, dynamically-dispatched deferred computation that
/// evaluates the original body.
pub struct CapabilityImpl {
    /// The original generic-parameter list, verbatim.
    pub generics: String,
    /// The auxiliary type the implementation is for.
    pub ty_name: String,
    /// The extra bounds on the deferred-computation type: the caller's
    /// bound list first, then every original lifetime parameter, in order.
    pub future_bounds: Vec<String>,
    /// The computation's result type: the original return type, `()` when
    /// the original had none.
    pub output_ty: String,
    /// The pattern names the conversion destructures the auxiliary value
    /// into: exactly the original parameter names.
    pub patterns: Vec<String>,
    /// The original body, verbatim.
    pub body: String,
}

/// The generated replacement function: the original signature with the
/// asynchronous qualifier dropped and the return type changed to the
/// auxiliary type; its body constructs an auxiliary value from the
/// original parameters.
pub struct ReplacementFn {
    /// The original outer attributes, verbatim.
    pub attrs: Vec<String>,
    /// The original visibility, verbatim.
    pub vis: String,
    /// Whether the original was `unsafe`.
    pub is_unsafe: bool,
    /// The original calling convention, if any, verbatim.
    pub abi: Option<String>,
    /// The original name, verbatim.
    pub name: String,
    /// The original generic-parameter list, verbatim.
    pub generics: String,
    /// The original typed parameter list, entry by entry.
    pub params: Vec<String>,
    /// The return type: the auxiliary type's name.
    pub ret_ty: String,
    /// The field names the body initializes, positionally: exactly the
    /// original parameter names.
    pub ctor_fields: Vec<String>,
}

/// The whole output of one expansion, in emission order: type definition,
/// conversion implementation, replacement function.
pub struct GeneratedArtifact {
    /// The data-holder type definition.
    pub aux: AuxType,
    /// The conversion implementation for it.
    pub cap: CapabilityImpl,
    /// The replacement function.
    pub repl: ReplacementFn,
}

/// Builds the synthesized type name for a function name.
pub fn make_aux_type_name(name: &String) -> (r: String)
    ensures
        r@ == aux_type_name(name@),
{
    let mut r = String::from_str("__AsyncIntoFuture__");
    r.append(name.as_str());
    r
}

/// Builds the three generated declarations from a validated declaration
/// and the parsed bound list.
///
/// Every piece of the output is pinned to the input: names, generics,
/// visibility, calling convention and parameter texts are carried over
/// verbatim; the deferred computation's extra bounds are the caller's
/// bounds followed by the original lifetimes; the constructor's field
/// names, the conversion's destructuring patterns and the original
/// parameter names are one and the same sequence.
pub fn generate(f: &FnItem, bounds: &Vec<String>) -> (g: GeneratedArtifact)
    ensures
        g.aux.name@ == aux_type_name(f.decl.name@),
        g.aux.generics@ == f.decl.generics@,
        g.aux.fields.deep_view() == input_texts(f.decl.inputs@),
        g.cap.generics@ == f.decl.generics@,
        g.cap.ty_name@ == aux_type_name(f.decl.name@),
        g.cap.future_bounds.deep_view() == bounds.deep_view() + f.decl.lifetimes.deep_view(),
        g.cap.output_ty@ == output_text(f.decl.output),
        g.cap.patterns.deep_view() == pattern_texts(f.decl.inputs@),
        g.cap.body@ == f.decl.body@,
        g.repl.attrs.deep_view() == f.decl.attrs.deep_view(),
        g.repl.vis@ == f.decl.vis@,
        g.repl.is_unsafe == f.decl.is_unsafe,
        g.repl.abi.deep_view() == f.decl.abi.deep_view(),
        g.repl.name@ == f.decl.name@,
        g.repl.generics@ == f.decl.generics@,
        g.repl.params.deep_view() == input_texts(f.decl.inputs@),
        g.repl.ret_ty@ == aux_type_name(f.decl.name@),
        g.repl.ctor_fields.deep_view() == pattern_texts(f.decl.inputs@),
{
    let d = decompose(f);
    let ty_name = make_aux_type_name(&f.decl.name);
    let aux = AuxType {
        name: ty_name.clone(),
        generics: f.decl.generics.clone(),
        fields: clone_texts(&d.typed_params),
    };
    let cap = CapabilityImpl {
        generics: f.decl.generics.clone(),
        ty_name: ty_name.clone(),
        future_bounds: concat_texts(bounds, &f.decl.lifetimes),
        output_ty: d.output_ty,
        patterns: clone_texts(&d.patterns),
        body: f.decl.body.clone(),
    };
    let repl = ReplacementFn {
        attrs: clone_texts(&f.decl.attrs),
        vis: f.decl.vis.clone(),
        is_unsafe: f.decl.is_unsafe,
        abi: clone_opt_text(&f.decl.abi),
        name: f.decl.name.clone(),
        generics: f.decl.generics.clone(),
        params: d.typed_params,
        ret_ty: ty_name,
        ctor_fields: d.patterns,
    };
    GeneratedArtifact { aux, cap, repl }
}

} // verus!
