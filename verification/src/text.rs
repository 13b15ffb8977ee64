//! Small helpers over vectors of text fragments, stated over their deep
//! views so callers can reason about them as sequences of character
//! sequences.

use vstd::prelude::*;

verus! {

/// Copies a vector of texts; the copy reads back exactly as the original.
pub fn clone_texts(v: &Vec<String>) -> (r: Vec<String>)
    ensures
        r.deep_view() == v.deep_view(),
{
    let mut r: Vec<String> = Vec::new();
    let mut i: usize = 0;
    while i < v.len()
        invariant
            i <= v@.len(),
            r.deep_view() =~~= v.deep_view().take(i as int),
        decreases v@.len() - i,
    {
        let ghost before = r.deep_view();
        let s = v[i].clone();
        let ghost sv = s@;
        r.push(s);
        proof {
            assert(r.deep_view() =~~= before.push(sv));
            assert(r.deep_view() =~~= v.deep_view().take(i as int + 1));
        }
        i = i + 1;
    }
    proof {
        assert(v.deep_view().take(v@.len() as int) =~= v.deep_view());
    }
    r
}

/// Concatenates two vectors of texts into a fresh one, first left then
/// right, order preserved.
pub fn concat_texts(a: &Vec<String>, b: &Vec<String>) -> (r: Vec<String>)
    ensures
        r.deep_view() == a.deep_view() + b.deep_view(),
{
    let mut r = clone_texts(a);
    let mut i: usize = 0;
    while i < b.len()
        invariant
            i <= b@.len(),
            r.deep_view() =~~= a.deep_view() + b.deep_view().take(i as int),
        decreases b@.len() - i,
    {
        let ghost before = r.deep_view();
        let s = b[i].clone();
        let ghost sv = s@;
        r.push(s);
        proof {
            assert(r.deep_view() =~~= before.push(sv));
            assert(r.deep_view() =~~= a.deep_view() + b.deep_view().take(i as int + 1));
        }
        i = i + 1;
    }
    proof {
        assert(b.deep_view().take(b@.len() as int) =~= b.deep_view());
        assert(a.deep_view() + b.deep_view().take(b@.len() as int) =~~= a.deep_view()
            + b.deep_view());
    }
    r
}

/// Copies an optional text.
pub fn clone_opt_text(o: &Option<String>) -> (r: Option<String>)
    ensures
        r.deep_view() == o.deep_view(),
{
    match o {
        Some(s) => Some(s.clone()),
        None => None,
    }
}

} // verus!
