//! Compile-time rewriting of an asynchronous function into a data-holder
//! type, an `IntoFuture` implementation for it, and a replacement
//! function that constructs the holder from the original arguments.
//!
//! The whole pipeline is syntactic: a function declaration, modelled as
//! plain text fragments, is checked against four structural rules in a
//! fixed priority order, the attribute text is parsed as a trait-bound
//! list, and the validated pieces are mapped to exactly three generated
//! declarations whose texts are pinned down to the character.

use vstd::prelude::*;

pub mod bounds;
pub mod decompose;
pub mod generate;
pub mod model;
pub mod render;
pub mod text;
pub mod validate;

use crate::bounds::{parse_bounds, parsed_bounds};
use crate::decompose::{input_texts, output_text, pattern_texts};
use crate::generate::{aux_type_name, generate};
use crate::model::{ExpandError, RawFn};
use crate::render::{fn_decl_text, impl_decl_text, render, type_decl_text};
use crate::validate::{spec_validation, validate};

verus! {

/// The three declaration texts a successful expansion emits for a
/// declaration and a bound list, in emission order: the auxiliary type
/// definition, the conversion implementation, the replacement function.
pub open spec fn expansion_decls(f: RawFn, bound_list: Seq<Seq<char>>) -> Seq<Seq<char>> {
    seq![
        type_decl_text(aux_type_name(f.name@), f.generics@, input_texts(f.inputs@)),
        impl_decl_text(
            f.generics@,
            aux_type_name(f.name@),
            output_text(f.output),
            bound_list + f.lifetimes.deep_view(),
            pattern_texts(f.inputs@),
            f.body@,
        ),
        fn_decl_text(
            f.attrs.deep_view(),
            f.vis@,
            f.is_unsafe,
            f.abi.deep_view(),
            f.name@,
            f.generics@,
            input_texts(f.inputs@),
            aux_type_name(f.name@),
            pattern_texts(f.inputs@),
        ),
    ]
}

/// The whole transformation: validate the annotated declaration, parse
/// the attribute text, and emit the three generated declaration texts.
///
/// The outcome is a function of the two inputs alone. Expansion succeeds
/// exactly when the declaration passes the four structural checks and the
/// attribute text is a valid bound list; the declaration's checks run
/// first, in their fixed priority order, so of several violations the
/// user always sees the same single diagnostic. No partial output exists:
/// failure returns the error alone, success returns all three
/// declarations.
pub fn async_into_future(attr: &str, item: RawFn) -> (r: Result<Vec<String>, ExpandError>)
    ensures
        r is Ok <==> (spec_validation(item) is None && parsed_bounds(attr@) is Some),
        r matches Ok(decls) ==> {
            &&& decls@.len() == 3
            &&& decls.deep_view() == expansion_decls(item, parsed_bounds(attr@).unwrap())
        },
        r matches Err(e) ==> (if spec_validation(item) is Some {
            spec_validation(item) == Some(e)
        } else {
            parsed_bounds(attr@) is None && e is MalformedBounds
        }),
{
    let validated = match validate(item) {
        Ok(v) => v,
        Err(e) => {
            return Err(e);
        },
    };
    let bound_list = match parse_bounds(attr) {
        Ok(b) => b,
        Err(e) => {
            return Err(e);
        },
    };
    let artifact = generate(&validated, &bound_list);
    let decls = render(&artifact);
    proof {
        assert(decls.deep_view() =~~= expansion_decls(item, parsed_bounds(attr@).unwrap()));
    }
    Ok(decls)
}

/// With an empty bound list, the generated deferred-computation type
/// carries no bounds beyond the base capability and the original
/// generics' lifetimes: its extra-bound tail is exactly the lifetime
/// list.
pub proof fn lemma_empty_bound_list_adds_nothing(f: RawFn)
    ensures
        expansion_decls(f, Seq::empty())[1] == impl_decl_text(
            f.generics@,
            aux_type_name(f.name@),
            output_text(f.output),
            f.lifetimes.deep_view(),
            pattern_texts(f.inputs@),
            f.body@,
        ),
{
    assert(Seq::<Seq<char>>::empty() + f.lifetimes.deep_view() =~= f.lifetimes.deep_view());
}

/// Diagnostics are deterministic: the same attribute text and the same
/// declaration always produce the same outcome, error kind included,
/// because the outcome is a function of the two inputs alone.
pub proof fn lemma_expansion_deterministic(
    attr1: Seq<char>,
    item1: RawFn,
    attr2: Seq<char>,
    item2: RawFn,
)
    requires
        attr1 == attr2,
        item1 == item2,
    ensures
        spec_validation(item1) == spec_validation(item2),
        parsed_bounds(attr1) == parsed_bounds(attr2),
        expansion_decls(item1, parsed_bounds(attr1).unwrap()) == expansion_decls(
            item2,
            parsed_bounds(attr2).unwrap(),
        ),
{
}

} // verus!
