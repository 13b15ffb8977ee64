//! Emission: turning the structured generated declarations into source
//! text.
//!
//! Each declaration's text is stated as a specification-level template —
//! a concatenation of fixed fragments and the carried-over pieces — and
//! the executable renderers are proved to produce exactly that text.

use vstd::prelude::*;
use crate::generate::{AuxType, CapabilityImpl, GeneratedArtifact, ReplacementFn};

verus! {

/// The parts joined by `, `: empty for no parts, otherwise the parts in
/// order with a separator between each neighbouring pair.
pub open spec fn join_comma(parts: Seq<Seq<char>>) -> Seq<char>
    decreases parts.len(),
{
    if parts.len() == 0 {
        Seq::empty()
    } else if parts.len() == 1 {
        parts[0]
    } else {
        join_comma(parts.drop_last()) + ", "@ + parts.last()
    }
}

/// Each part prefixed by ` + `, in order: the extra-bound tail of a
/// trait-object type.
pub open spec fn plus_clauses(parts: Seq<Seq<char>>) -> Seq<char>
    decreases parts.len(),
{
    if parts.len() == 0 {
        Seq::empty()
    } else {
        plus_clauses(parts.drop_last()) + " + "@ + parts.last()
    }
}

/// Each part suffixed by a space, in order: a run of outer attributes.
pub open spec fn space_suffixed(parts: Seq<Seq<char>>) -> Seq<char>
    decreases parts.len(),
{
    if parts.len() == 0 {
        Seq::empty()
    } else {
        space_suffixed(parts.drop_last()) + parts.last() + " "@
    }
}

/// The `unsafe ` qualifier, or nothing.
pub open spec fn unsafe_text(is_unsafe: bool) -> Seq<char> {
    if is_unsafe {
        "unsafe "@
    } else {
        Seq::empty()
    }
}

/// The calling-convention text followed by a space, or nothing.
pub open spec fn abi_text(abi: Option<Seq<char>>) -> Seq<char> {
    match abi {
        Some(a) => a + " "@,
        None => Seq::empty(),
    }
}

/// The deferred-computation type: an owned, heap-allocated, pinned,
/// dynamically-dispatched future yielding the original return type,
/// constrained by every extra bound in order.
pub open spec fn future_ty_text(output_ty: Seq<char>, extra_bounds: Seq<Seq<char>>) -> Seq<char> {
    "::std::pin::Pin<::std::boxed::Box<dyn ::std::future::Future<Output = "@ + output_ty + ">"@
        + plus_clauses(extra_bounds) + ">>"@
}

/// The auxiliary type definition, with the naming-convention warning
/// suppressed for the intentionally non-conventional type name.
pub open spec fn type_decl_text(name: Seq<char>, generics: Seq<char>, fields: Seq<Seq<char>>) -> Seq<char> {
    "#[allow(non_camel_case_types)] struct "@ + name + " "@ + generics + " { "@
        + join_comma(fields) + " }"@
}

/// The conversion implementation: it destructures the auxiliary value
/// back into the original parameter names and boxes and pins the original
/// body as a deferred computation.
pub open spec fn impl_decl_text(
    generics: Seq<char>,
    ty_name: Seq<char>,
    output_ty: Seq<char>,
    extra_bounds: Seq<Seq<char>>,
    patterns: Seq<Seq<char>>,
    body: Seq<char>,
) -> Seq<char> {
    "impl "@ + generics + " ::std::future::IntoFuture for "@ + ty_name + " "@ + generics
        + " { type IntoFuture = "@
        + future_ty_text(output_ty, extra_bounds)
        + "; type Output = "@ + output_ty
        + "; fn into_future(self) -> Self::IntoFuture { let Self { "@
        + join_comma(patterns)
        + " } = self; ::std::boxed::Box::pin(async move "@ + body + ") } }"@
}

/// The replacement function: the original attributes, visibility,
/// unsafety, calling convention, name, generics and parameters, returning
/// the auxiliary type and constructing it from the parameter names.
pub open spec fn fn_decl_text(
    attrs: Seq<Seq<char>>,
    vis: Seq<char>,
    is_unsafe: bool,
    abi: Option<Seq<char>>,
    name: Seq<char>,
    generics: Seq<char>,
    params: Seq<Seq<char>>,
    ret_ty: Seq<char>,
    ctor_fields: Seq<Seq<char>>,
) -> Seq<char> {
    space_suffixed(attrs) + vis + " "@ + unsafe_text(is_unsafe)
        + abi_text(abi) + "fn "@ + name + " "@ + generics + " ("@
        + join_comma(params) + ") -> "@ + ret_ty + " { "@ + ret_ty
        + " { "@ + join_comma(ctor_fields) + " } }"@
}

/// The whole emitted output, in order: type definition, conversion
/// implementation, replacement function.
pub open spec fn rendered_decls(g: GeneratedArtifact) -> Seq<Seq<char>> {
    seq![
        type_decl_text(g.aux.name@, g.aux.generics@, g.aux.fields.deep_view()),
        impl_decl_text(
            g.cap.generics@,
            g.cap.ty_name@,
            g.cap.output_ty@,
            g.cap.future_bounds.deep_view(),
            g.cap.patterns.deep_view(),
            g.cap.body@,
        ),
        fn_decl_text(
            g.repl.attrs.deep_view(),
            g.repl.vis@,
            g.repl.is_unsafe,
            g.repl.abi.deep_view(),
            g.repl.name@,
            g.repl.generics@,
            g.repl.params.deep_view(),
            g.repl.ret_ty@,
            g.repl.ctor_fields.deep_view(),
        ),
    ]
}

/// Joins texts with `, `.
fn join_comma_exec(parts: &Vec<String>) -> (r: String)
    ensures
        r@ == join_comma(parts.deep_view()),
{
    let ghost dv = parts.deep_view();
    let mut r = String::new();
    let mut i: usize = 0;
    while i < parts.len()
        invariant
            dv == parts.deep_view(),
            i <= parts@.len(),
            r@ == join_comma(dv.take(i as int)),
        decreases parts@.len() - i,
    {
        if i > 0 {
            r.append(", ");
        }
        r.append(parts[i].as_str());
        proof {
            let step = dv.take(i as int + 1);
            assert(step.drop_last() =~= dv.take(i as int));
            assert(step.last() == dv[i as int]);
            assert(r@ == join_comma(step));
        }
        i = i + 1;
    }
    proof {
        assert(dv.take(parts@.len() as int) =~= dv);
    }
    r
}

/// Prefixes each text with ` + ` and concatenates.
fn plus_clauses_exec(parts: &Vec<String>) -> (r: String)
    ensures
        r@ == plus_clauses(parts.deep_view()),
{
    let ghost dv = parts.deep_view();
    let mut r = String::new();
    let mut i: usize = 0;
    while i < parts.len()
        invariant
            dv == parts.deep_view(),
            i <= parts@.len(),
            r@ == plus_clauses(dv.take(i as int)),
        decreases parts@.len() - i,
    {
        r.append(" + ");
        r.append(parts[i].as_str());
        proof {
            let step = dv.take(i as int + 1);
            assert(step.drop_last() =~= dv.take(i as int));
            assert(step.last() == dv[i as int]);
            assert(r@ == plus_clauses(step));
        }
        i = i + 1;
    }
    proof {
        assert(dv.take(parts@.len() as int) =~= dv);
    }
    r
}

/// Suffixes each text with a space and concatenates.
fn space_suffixed_exec(parts: &Vec<String>) -> (r: String)
    ensures
        r@ == space_suffixed(parts.deep_view()),
{
    let ghost dv = parts.deep_view();
    let mut r = String::new();
    let mut i: usize = 0;
    while i < parts.len()
        invariant
            dv == parts.deep_view(),
            i <= parts@.len(),
            r@ == space_suffixed(dv.take(i as int)),
        decreases parts@.len() - i,
    {
        r.append(parts[i].as_str());
        r.append(" ");
        proof {
            let step = dv.take(i as int + 1);
            assert(step.drop_last() =~= dv.take(i as int));
            assert(step.last() == dv[i as int]);
            assert(r@ == space_suffixed(step));
        }
        i = i + 1;
    }
    proof {
        assert(dv.take(parts@.len() as int) =~= dv);
    }
    r
}

/// Renders the optional `unsafe ` qualifier.
fn unsafe_text_exec(is_unsafe: bool) -> (r: String)
    ensures
        r@ == unsafe_text(is_unsafe),
{
    if is_unsafe {
        String::from_str("unsafe ")
    } else {
        String::new()
    }
}

/// Renders the optional calling convention, space-suffixed.
fn abi_text_exec(abi: &Option<String>) -> (r: String)
    ensures
        r@ == abi_text(abi.deep_view()),
{
    match abi {
        Some(a) => {
            let mut t = a.clone();
            t.append(" ");
            t
        },
        None => String::new(),
    }
}

/// Renders the auxiliary type definition.
pub fn render_type_decl(t: &AuxType) -> (r: String)
    ensures
        r@ == type_decl_text(t.name@, t.generics@, t.fields.deep_view()),
{
    let mut r = String::from_str("#[allow(non_camel_case_types)] struct ");
    r.append(t.name.as_str());
    r.append(" ");
    r.append(t.generics.as_str());
    r.append(" { ");
    let fields = join_comma_exec(&t.fields);
    r.append(fields.as_str());
    r.append(" }");
    r
}

/// Renders the conversion implementation.
pub fn render_impl_decl(c: &CapabilityImpl) -> (r: String)
    ensures
        r@ == impl_decl_text(
            c.generics@,
            c.ty_name@,
            c.output_ty@,
            c.future_bounds.deep_view(),
            c.patterns.deep_view(),
            c.body@,
        ),
{
    let mut r = String::from_str("impl ");
    r.append(c.generics.as_str());
    r.append(" ::std::future::IntoFuture for ");
    r.append(c.ty_name.as_str());
    r.append(" ");
    r.append(c.generics.as_str());
    r.append(" { type IntoFuture = ");
    let mut future = String::from_str(
        "::std::pin::Pin<::std::boxed::Box<dyn ::std::future::Future<Output = ");
    future.append(c.output_ty.as_str());
    future.append(">");
    let extra = plus_clauses_exec(&c.future_bounds);
    future.append(extra.as_str());
    future.append(">>");
    r.append(future.as_str());
    r.append("; type Output = ");
    r.append(c.output_ty.as_str());
    r.append("; fn into_future(self) -> Self::IntoFuture { let Self { ");
    let pats = join_comma_exec(&c.patterns);
    r.append(pats.as_str());
    r.append(" } = self; ::std::boxed::Box::pin(async move ");
    r.append(c.body.as_str());
    r.append(") } }");
    r
}

/// Renders the replacement function.
pub fn render_fn_decl(rf: &ReplacementFn) -> (r: String)
    ensures
        r@ == fn_decl_text(
            rf.attrs.deep_view(),
            rf.vis@,
            rf.is_unsafe,
            rf.abi.deep_view(),
            rf.name@,
            rf.generics@,
            rf.params.deep_view(),
            rf.ret_ty@,
            rf.ctor_fields.deep_view(),
        ),
{
    let mut r = space_suffixed_exec(&rf.attrs);
    r.append(rf.vis.as_str());
    r.append(" ");
    let unsafety = unsafe_text_exec(rf.is_unsafe);
    r.append(unsafety.as_str());
    let abi = abi_text_exec(&rf.abi);
    r.append(abi.as_str());
    r.append("fn ");
    r.append(rf.name.as_str());
    r.append(" ");
    r.append(rf.generics.as_str());
    r.append(" (");
    let params = join_comma_exec(&rf.params);
    r.append(params.as_str());
    r.append(") -> ");
    r.append(rf.ret_ty.as_str());
    r.append(" { ");
    r.append(rf.ret_ty.as_str());
    r.append(" { ");
    let ctor = join_comma_exec(&rf.ctor_fields);
    r.append(ctor.as_str());
    r.append(" } }");
    r
}

/// Renders the whole artifact: exactly three declaration texts, in the
/// fixed emission order — type, implementation, function.
pub fn render(g: &GeneratedArtifact) -> (r: Vec<String>)
    ensures
        r.deep_view() == rendered_decls(*g),
        r@.len() == 3,
{
    let mut r: Vec<String> = Vec::new();
    r.push(render_type_decl(&g.aux));
    r.push(render_impl_decl(&g.cap));
    r.push(render_fn_decl(&g.repl));
    proof {
        assert(r.deep_view() =~~= rendered_decls(*g));
    }
    r
}

} // verus!
