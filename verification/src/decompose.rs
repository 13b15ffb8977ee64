//! Decomposition of a validated signature into the two renderings of its
//! parameter list, plus the return type.
//!
//! The generated type definition needs each parameter as `pattern: type`
//! text, while the generated constructor call and the conversion body need
//! only the bound pattern names; both renderings are produced here, once,
//! and never change afterwards.

use vstd::prelude::*;
use crate::model::FnInput;
use crate::validate::FnItem;

verus! {

/// The text of one parameter-list entry as it appears in the original
/// declaration: a receiver verbatim, an ordinary parameter as
/// `pattern: type`.
pub open spec fn input_text(i: FnInput) -> Seq<char> {
    match i {
        FnInput::Receiver(s) => s@,
        FnInput::Typed(p) => p.pat@ + ": "@ + p.ty@,
    }
}

/// The full typed parameter list, entry by entry, in order.
pub open spec fn input_texts(inputs: Seq<FnInput>) -> Seq<Seq<char>> {
    inputs.map_values(|i: FnInput| input_text(i))
}

/// The bare pattern names of the ordinary parameters, in order; receivers
/// contribute nothing.
pub open spec fn pattern_texts(inputs: Seq<FnInput>) -> Seq<Seq<char>>
    decreases inputs.len(),
{
    if inputs.len() == 0 {
        Seq::empty()
    } else {
        pattern_texts(inputs.drop_last()) + (match inputs.last() {
            FnInput::Typed(p) => seq![p.pat@],
            FnInput::Receiver(_) => Seq::empty(),
        })
    }
}

/// The return type as written, or the unit type where the declaration has
/// no return-type annotation.
pub open spec fn output_text(o: Option<String>) -> Seq<char> {
    match o {
        Some(t) => t@,
        None => "()"@,
    }
}

/// The read-only view over a validated signature that code generation
/// consumes: both parameter-list renderings and the (defaulted) return
/// type.
pub struct DecomposedSignature {
    /// Each parameter as `pattern: type` text, receivers verbatim.
    pub typed_params: Vec<String>,
    /// The bound pattern names of the ordinary parameters.
    pub patterns: Vec<String>,
    /// The return type, `()` where the original had none.
    pub output_ty: String,
}

/// Renders one parameter-list entry.
fn input_to_text(i: &FnInput) -> (r: String)
    ensures
        r@ == input_text(*i),
{
    match i {
        FnInput::Receiver(s) => s.clone(),
        FnInput::Typed(p) => {
            let mut t = p.pat.clone();
            t.append(": ");
            t.append(p.ty.as_str());
            t
        },
    }
}

/// Splits a validated signature into its two parameter-list renderings and
/// its defaulted return type. Total: every validated declaration can be
/// decomposed.
pub fn decompose(f: &FnItem) -> (d: DecomposedSignature)
    ensures
        d.typed_params.deep_view() == input_texts(f.decl.inputs@),
        d.patterns.deep_view() == pattern_texts(f.decl.inputs@),
        d.output_ty@ == output_text(f.decl.output),
{
    let n = f.decl.inputs.len();
    let mut typed_params: Vec<String> = Vec::new();
    let mut patterns: Vec<String> = Vec::new();
    let mut i: usize = 0;
    while i < n
        invariant
            n == f.decl.inputs@.len(),
            i <= n,
            typed_params.deep_view() == input_texts(f.decl.inputs@.take(i as int)),
            patterns.deep_view() == pattern_texts(f.decl.inputs@.take(i as int)),
        decreases n - i,
    {
        let ghost prefix = f.decl.inputs@.take(i as int);
        let ghost step = f.decl.inputs@.take(i as int + 1);
        let ghost tp_before = typed_params.deep_view();
        let ghost pat_before = patterns.deep_view();
        let entry = &f.decl.inputs[i];
        let rendered = input_to_text(entry);
        let ghost rendered_view = rendered@;
        typed_params.push(rendered);
        proof {
            assert(step.drop_last() =~= prefix);
            assert(step.last() == f.decl.inputs@[i as int]);
            assert(typed_params.deep_view() =~~= tp_before.push(rendered_view));
            assert(typed_params.deep_view() =~~= input_texts(step));
        }
        match entry {
            FnInput::Typed(p) => {
                let bound_pat = p.pat.clone();
                let ghost bound_view = bound_pat@;
                patterns.push(bound_pat);
                proof {
                    assert(patterns.deep_view() =~~= pat_before.push(bound_view));
                    assert(patterns.deep_view() =~~= pattern_texts(step));
                }
            },
            FnInput::Receiver(_) => {
                proof {
                    assert(patterns.deep_view() =~~= pattern_texts(step));
                }
            },
        }
        i = i + 1;
    }
    proof {
        assert(f.decl.inputs@.take(n as int) =~= f.decl.inputs@);
    }
    let output_ty = match &f.decl.output {
        Some(t) => t.clone(),
        None => String::from_str("()"),
    };
    DecomposedSignature { typed_params, patterns, output_ty }
}

} // verus!
