//! Query parameters and the order in which they are signed.

use crate::text::{
    bytes_le, lemma_lex_le_antisymmetric, lemma_lex_le_reflexive, lemma_lex_le_total,
    lemma_lex_le_transitive, lex_le,
};
use vstd::multiset::*;
use vstd::prelude::*;
use vstd::relations::*;
use vstd::seq_lib::*;
use vstd::string::*;
use vstd::utf8::*;

verus! {

/// A query parameter of a request.
#[derive(Clone, Debug, PartialEq, Eq)]
pub struct QueryParam {
    pub name: String,
    pub value: String,
}

/// A parameter as a pair of name and value.
pub type ParamView = (Seq<char>, Seq<char>);

impl View for QueryParam {
    type V = ParamView;

    open spec fn view(&self) -> ParamView {
        (self.name@, self.value@)
    }
}

/// The parameters of a list, in its order.
pub open spec fn param_views(params: Seq<QueryParam>) -> Seq<ParamView> {
    params.map_values(|p: QueryParam| p@)
}

/// Whether `a` is signed before `b`, or equals it: parameters are ordered by
/// the UTF-8 bytes of their names, and under one name by those of their
/// values.
pub open spec fn param_le(a: ParamView, b: ParamView) -> bool {
    if encode_utf8(a.0) == encode_utf8(b.0) {
        lex_le(encode_utf8(a.1), encode_utf8(b.1))
    } else {
        lex_le(encode_utf8(a.0), encode_utf8(b.0))
    }
}

/// [`param_le`] as a relation.
pub open spec fn param_order() -> spec_fn(ParamView, ParamView) -> bool {
    |a: ParamView, b: ParamView| param_le(a, b)
}

/// The parameters in the order in which they are signed.
pub open spec fn canonical_order(params: Seq<ParamView>) -> Seq<ParamView> {
    params.sort_by(param_order())
}

/// The signing order is a total order.
pub proof fn lemma_param_order_total()
    ensures
        total_ordering(param_order()),
{
    let r = param_order();
    assert forall|x: ParamView| #[trigger] r(x, x) by {
        lemma_lex_le_reflexive(encode_utf8(x.1));
    }
    assert forall|x: ParamView, y: ParamView| #[trigger] r(x, y) && #[trigger] r(y, x) implies x
        == y by {
        if encode_utf8(x.0) == encode_utf8(y.0) {
            lemma_lex_le_antisymmetric(encode_utf8(x.1), encode_utf8(y.1));
        } else {
            lemma_lex_le_antisymmetric(encode_utf8(x.0), encode_utf8(y.0));
        }
        encode_utf8_decode_utf8(x.0);
        encode_utf8_decode_utf8(y.0);
        encode_utf8_decode_utf8(x.1);
        encode_utf8_decode_utf8(y.1);
    }
    assert forall|x: ParamView, y: ParamView, z: ParamView| #[trigger]
        r(x, y) && #[trigger] r(y, z) implies r(x, z) by {
        lemma_param_le_transitive(x, y, z);
    }
    assert forall|x: ParamView, y: ParamView| #[trigger] r(x, y) || #[trigger] r(y, x) by {
        lemma_lex_le_total(encode_utf8(x.0), encode_utf8(y.0));
        lemma_lex_le_total(encode_utf8(x.1), encode_utf8(y.1));
    }
}

proof fn lemma_param_le_transitive(x: ParamView, y: ParamView, z: ParamView)
    requires
        param_le(x, y),
        param_le(y, z),
    ensures
        param_le(x, z),
{
    let (xn, yn, zn) = (encode_utf8(x.0), encode_utf8(y.0), encode_utf8(z.0));
    let (xv, yv, zv) = (encode_utf8(x.1), encode_utf8(y.1), encode_utf8(z.1));
    lemma_lex_le_reflexive(xn);
    lemma_lex_le_reflexive(yn);
    lemma_lex_le_transitive(xn, yn, zn);
    if xn == zn {
        lemma_lex_le_antisymmetric(xn, yn);
        lemma_lex_le_transitive(xv, yv, zv);
    }
}

proof fn lemma_no_params()
    ensures
        Seq::<ParamView>::empty().to_multiset() =~= Multiset::<ParamView>::empty(),
{
    to_multiset_len(Seq::<ParamView>::empty());
    lemma_multiset_empty_len(Seq::<ParamView>::empty().to_multiset());
}

/// Whether `a` is signed before `b`, or equals it.
pub fn param_before(a: &QueryParam, b: &QueryParam) -> (r: bool)
    ensures
        r == param_le(a@, b@),
{
    let a_name = a.name.as_str().as_bytes();
    let b_name = b.name.as_str().as_bytes();
    proof {
        lemma_lex_le_reflexive(a_name@);
        if lex_le(a_name@, b_name@) && lex_le(b_name@, a_name@) {
            lemma_lex_le_antisymmetric(a_name@, b_name@);
        }
    }
    if !bytes_le(a_name, b_name) {
        false
    } else if !bytes_le(b_name, a_name) {
        true
    } else {
        bytes_le(a.value.as_str().as_bytes(), b.value.as_str().as_bytes())
    }
}

/// Puts parameters into the order in which they are signed.
pub fn sort_params(params: Vec<QueryParam>) -> (sorted: Vec<QueryParam>)
    ensures
        param_views(sorted@) == canonical_order(param_views(params@)),
{
    broadcast use vstd::multiset::group_multiset_axioms;

    let ghost given = param_views(params@);
    let mut rest = params;
    let mut sorted: Vec<QueryParam> = Vec::new();
    assert(param_views(sorted@).to_multiset().add(param_views(rest@).to_multiset())
        =~= given.to_multiset()) by {
        assert(param_views(sorted@) =~= Seq::<ParamView>::empty());
        lemma_no_params();
    }
    while rest.len() > 0
        invariant
            sorted_by(param_views(sorted@), param_order()),
            param_views(sorted@).to_multiset().add(param_views(rest@).to_multiset())
                == given.to_multiset(),
        decreases rest@.len(),
    {
        let ghost rest_before = param_views(rest@);
        let ghost sorted_before = param_views(sorted@);
        let p = rest.pop().unwrap();
        proof {
            assert(rest_before =~= param_views(rest@).push(p@));
            to_multiset_build(param_views(rest@), p@);
        }
        let mut j: usize = 0;
        while j < sorted.len() && param_before(&sorted[j], &p)
            invariant
                j <= sorted@.len(),
                forall|k: int| 0 <= k < j ==> param_le(#[trigger] sorted@[k]@, p@),
            decreases sorted@.len() - j,
        {
            j += 1;
        }
        proof {
            lemma_param_order_total();
            assert forall|k: int| j <= k < sorted@.len() implies param_le(
                p@,
                #[trigger] sorted@[k]@,
            ) by {
                assert(param_order()(sorted_before[j as int], p@) || param_order()(
                    p@,
                    sorted_before[j as int],
                ));
                if k > j {
                    assert(param_order()(sorted_before[j as int], sorted_before[k]));
                    lemma_param_le_transitive(p@, sorted@[j as int]@, sorted@[k]@);
                }
            }
        }
        sorted.insert(j, p);
        proof {
            let now = param_views(sorted@);
            assert(now =~= sorted_before.insert(j as int, p@));
            to_multiset_insert(sorted_before, j as int, p@);
            assert forall|a: int, b: int| 0 <= a < b < now.len() implies #[trigger] param_order()(
                now[a],
                now[b],
            ) by {
                let was_a = if a < j { a } else { a - 1 };
                let was_b = if b < j { b } else { b - 1 };
                if a != j && b != j {
                    assert(param_order()(sorted_before[was_a], sorted_before[was_b]));
                }
            }
        }
    }
    proof {
        lemma_param_order_total();
        assert(param_views(rest@) =~= Seq::<ParamView>::empty());
        lemma_no_params();
        assert(param_views(sorted@).to_multiset() =~= given.to_multiset());
        given.lemma_sort_by_ensures(param_order());
        lemma_sorted_unique(param_views(sorted@), canonical_order(given), param_order());
    }
    sorted
}

/// The signing order does not depend on the order in which the parameters
/// were given: two lists that hold the same parameters are signed alike.
pub proof fn lemma_canonical_order_ignores_given_order(a: Seq<ParamView>, b: Seq<ParamView>)
    requires
        a.to_multiset() == b.to_multiset(),
    ensures
        canonical_order(a) == canonical_order(b),
{
    lemma_param_order_total();
    a.lemma_sort_by_ensures(param_order());
    b.lemma_sort_by_ensures(param_order());
    lemma_sorted_unique(canonical_order(a), canonical_order(b), param_order());
}

/// The signed parameters are those given, each as often as it was given, and
/// their names ascend in the byte-wise lexicographic order.
pub proof fn lemma_canonical_order_sorts_by_name(params: Seq<ParamView>)
    ensures
        canonical_order(params).to_multiset() == params.to_multiset(),
        canonical_order(params).len() == params.len(),
        forall|i: int, j: int|
            0 <= i < j < params.len() ==> lex_le(
                encode_utf8(#[trigger] canonical_order(params)[i].0),
                encode_utf8(#[trigger] canonical_order(params)[j].0),
            ),
{
    broadcast use to_multiset_len;

    lemma_param_order_total();
    params.lemma_sort_by_ensures(param_order());
    let sorted = canonical_order(params);
    assert(sorted.len() == params.len()) by {
        assert(sorted.to_multiset().len() == params.to_multiset().len());
    }
    assert forall|i: int, j: int| 0 <= i < j < params.len() implies lex_le(
        encode_utf8(#[trigger] sorted[i].0),
        encode_utf8(#[trigger] sorted[j].0),
    ) by {
        assert(param_order()(sorted[i], sorted[j]));
        lemma_lex_le_reflexive(encode_utf8(sorted[i].0));
    }
}

} // verus!
