//! The laws the bound filter and the variant emitter obey, proved for every
//! declaration and every marker set.

use vstd::prelude::*;

use crate::ast::BoundView;
use crate::ast::DeclarationView;
use crate::ast::GenericParamView;
use crate::ast::MemberView;
use crate::ast::PredicateView;
use crate::ast::ReturnTypeView;
use crate::ast::SignatureView;
use crate::emit::gate_admits;
use crate::filter::bound_is_marker;
use crate::filter::bounds_have_marker;
use crate::filter::declaration_has_marker;
use crate::filter::filter_bounds;
use crate::filter::filter_declaration;
use crate::filter::filter_member;
use crate::filter::filter_members;
use crate::filter::filter_param;
use crate::filter::filter_params;
use crate::filter::filter_predicate;
use crate::filter::filter_predicates;
use crate::filter::filter_return;
use crate::filter::filter_signature;
use crate::filter::keep_pred;
use crate::filter::lemma_filter_singleton;
use crate::filter::member_has_marker;
use crate::filter::members_have_marker;
use crate::filter::param_has_marker;
use crate::filter::params_have_marker;
use crate::filter::predicate_has_marker;
use crate::filter::predicates_have_marker;
use crate::filter::return_has_marker;
use crate::filter::signature_has_marker;

verus! {

// ----------------------------------------------------------------------
// Marker-freedom: after filtering, no marker bound remains at any of the
// four filtered position kinds.

proof fn lemma_filter_bounds_marker_free(bs: Seq<BoundView>, markers: Set<Seq<char>>)
    ensures
        !bounds_have_marker(filter_bounds(bs, markers), markers),
{
    let pred = keep_pred(markers);
    let f = filter_bounds(bs, markers);
    if bounds_have_marker(f, markers) {
        let i = choose|i: int| 0 <= i < f.len() && bound_is_marker(f[i], markers);
        bs.lemma_filter_pred(pred, i);
        assert(false);
    }
}

proof fn lemma_filter_param_marker_free(p: GenericParamView, markers: Set<Seq<char>>)
    ensures
        !param_has_marker(filter_param(p, markers), markers),
{
    match p {
        GenericParamView::Type { bounds, .. } => {
            lemma_filter_bounds_marker_free(bounds, markers);
        },
        GenericParamView::Other { .. } => {},
    }
}

proof fn lemma_filter_predicate_marker_free(p: PredicateView, markers: Set<Seq<char>>)
    ensures
        !predicate_has_marker(filter_predicate(p, markers), markers),
{
    match p {
        PredicateView::Type { bounds, .. } => {
            lemma_filter_bounds_marker_free(bounds, markers);
        },
        PredicateView::Other { .. } => {},
    }
}

proof fn lemma_filter_signature_marker_free(s: SignatureView, markers: Set<Seq<char>>)
    ensures
        !signature_has_marker(filter_signature(s, markers), markers),
{
    let fs = filter_signature(s, markers);
    assert forall|i: int| 0 <= i < fs.generics.len() implies !param_has_marker(
        fs.generics[i],
        markers,
    ) by {
        lemma_filter_param_marker_free(s.generics[i], markers);
    }
    assert(!params_have_marker(fs.generics, markers));
    match s.where_clause {
        Some(preds) => {
            let fp = filter_predicates(preds, markers);
            assert forall|i: int| 0 <= i < fp.len() implies !predicate_has_marker(
                fp[i],
                markers,
            ) by {
                lemma_filter_predicate_marker_free(preds[i], markers);
            }
            assert(!predicates_have_marker(fp, markers));
        },
        None => {},
    }
    match s.output {
        ReturnTypeView::Opaque { bounds } => {
            lemma_filter_bounds_marker_free(bounds, markers);
        },
        _ => {},
    }
    assert(!return_has_marker(filter_return(s.output, markers), markers));
}

proof fn lemma_filter_member_marker_free(m: MemberView, markers: Set<Seq<char>>)
    ensures
        !member_has_marker(filter_member(m, markers), markers),
{
    match m {
        MemberView::Method(f) => {
            lemma_filter_signature_marker_free(f.sig, markers);
        },
        MemberView::Other { .. } => {},
    }
}

proof fn lemma_filter_members_marker_free(ms: Seq<MemberView>, markers: Set<Seq<char>>)
    ensures
        !members_have_marker(filter_members(ms, markers), markers),
{
    let fm = filter_members(ms, markers);
    assert forall|i: int| 0 <= i < fm.len() implies !member_has_marker(fm[i], markers) by {
        lemma_filter_member_marker_free(ms[i], markers);
    }
}

/// Marker-freedom: whatever the declaration and the marker set, no bound
/// remaining after filtering — on a generic parameter, in a where clause, on
/// an opaque return type, or in a supertrait list — names a marker.
pub proof fn lemma_marker_freedom(d: DeclarationView, markers: Set<Seq<char>>)
    ensures
        !declaration_has_marker(filter_declaration(d, markers), markers),
{
    match d {
        DeclarationView::Function(f) => {
            lemma_filter_signature_marker_free(f.sig, markers);
        },
        DeclarationView::Trait(t) => {
            lemma_filter_bounds_marker_free(t.supertraits, markers);
            lemma_filter_members_marker_free(t.members, markers);
        },
        DeclarationView::Impl(i) => {
            lemma_filter_members_marker_free(i.members, markers);
        },
    }
}

// ----------------------------------------------------------------------
// Idempotence: filtering a filtered declaration changes nothing.

/// Filtering keeps a sequence unchanged when every element is kept.
proof fn lemma_filter_keeps_all(s: Seq<BoundView>, pred: spec_fn(BoundView) -> bool)
    requires
        forall|i: int| 0 <= i < s.len() ==> pred(s[i]),
    ensures
        s.filter(pred) == s,
    decreases s.len(),
{
    reveal(Seq::filter);
    if s.len() == 0 {
        assert(s.filter(pred) =~= s);
    } else {
        let d = s.drop_last();
        assert(forall|i: int| 0 <= i < d.len() ==> pred(d[i]));
        lemma_filter_keeps_all(d, pred);
        assert(pred(s.last()));
        assert(d.push(s.last()) =~= s);
    }
}

proof fn lemma_filter_bounds_idempotent(bs: Seq<BoundView>, markers: Set<Seq<char>>)
    ensures
        filter_bounds(filter_bounds(bs, markers), markers) == filter_bounds(bs, markers),
{
    let pred = keep_pred(markers);
    let f = filter_bounds(bs, markers);
    lemma_filter_bounds_marker_free(bs, markers);
    assert forall|i: int| 0 <= i < f.len() implies pred(f[i]) by {
        if bound_is_marker(f[i], markers) {
            assert(bounds_have_marker(f, markers));
        }
    }
    lemma_filter_keeps_all(f, pred);
}

proof fn lemma_filter_param_idempotent(p: GenericParamView, markers: Set<Seq<char>>)
    ensures
        filter_param(filter_param(p, markers), markers) == filter_param(p, markers),
{
    match p {
        GenericParamView::Type { bounds, .. } => {
            lemma_filter_bounds_idempotent(bounds, markers);
        },
        GenericParamView::Other { .. } => {},
    }
}

proof fn lemma_filter_params_idempotent(ps: Seq<GenericParamView>, markers: Set<Seq<char>>)
    ensures
        filter_params(filter_params(ps, markers), markers) == filter_params(ps, markers),
{
    let f1 = filter_params(ps, markers);
    let f2 = filter_params(f1, markers);
    assert forall|i: int| 0 <= i < f2.len() implies f2[i] == f1[i] by {
        lemma_filter_param_idempotent(ps[i], markers);
    }
    assert(f2 =~= f1);
}

proof fn lemma_filter_predicate_idempotent(p: PredicateView, markers: Set<Seq<char>>)
    ensures
        filter_predicate(filter_predicate(p, markers), markers) == filter_predicate(p, markers),
{
    match p {
        PredicateView::Type { bounds, .. } => {
            lemma_filter_bounds_idempotent(bounds, markers);
        },
        PredicateView::Other { .. } => {},
    }
}

proof fn lemma_filter_predicates_idempotent(ps: Seq<PredicateView>, markers: Set<Seq<char>>)
    ensures
        filter_predicates(filter_predicates(ps, markers), markers) == filter_predicates(
            ps,
            markers,
        ),
{
    let f1 = filter_predicates(ps, markers);
    let f2 = filter_predicates(f1, markers);
    assert forall|i: int| 0 <= i < f2.len() implies f2[i] == f1[i] by {
        lemma_filter_predicate_idempotent(ps[i], markers);
    }
    assert(f2 =~= f1);
}

proof fn lemma_filter_signature_idempotent(s: SignatureView, markers: Set<Seq<char>>)
    ensures
        filter_signature(filter_signature(s, markers), markers) == filter_signature(s, markers),
{
    lemma_filter_params_idempotent(s.generics, markers);
    match s.where_clause {
        Some(preds) => {
            lemma_filter_predicates_idempotent(preds, markers);
        },
        None => {},
    }
    match s.output {
        ReturnTypeView::Opaque { bounds } => {
            lemma_filter_bounds_idempotent(bounds, markers);
        },
        _ => {},
    }
}

proof fn lemma_filter_member_idempotent(m: MemberView, markers: Set<Seq<char>>)
    ensures
        filter_member(filter_member(m, markers), markers) == filter_member(m, markers),
{
    match m {
        MemberView::Method(f) => {
            lemma_filter_signature_idempotent(f.sig, markers);
        },
        MemberView::Other { .. } => {},
    }
}

proof fn lemma_filter_members_idempotent(ms: Seq<MemberView>, markers: Set<Seq<char>>)
    ensures
        filter_members(filter_members(ms, markers), markers) == filter_members(ms, markers),
{
    let f1 = filter_members(ms, markers);
    let f2 = filter_members(f1, markers);
    assert forall|i: int| 0 <= i < f2.len() implies f2[i] == f1[i] by {
        lemma_filter_member_idempotent(ms[i], markers);
    }
    assert(f2 =~= f1);
}

/// Idempotence: filtering an already-filtered declaration gives it back
/// unchanged, whatever the declaration and the marker set.
pub proof fn lemma_filter_idempotent(d: DeclarationView, markers: Set<Seq<char>>)
    ensures
        filter_declaration(filter_declaration(d, markers), markers) == filter_declaration(
            d,
            markers,
        ),
{
    match d {
        DeclarationView::Function(f) => {
            lemma_filter_signature_idempotent(f.sig, markers);
        },
        DeclarationView::Trait(t) => {
            lemma_filter_bounds_idempotent(t.supertraits, markers);
            lemma_filter_members_idempotent(t.members, markers);
        },
        DeclarationView::Impl(i) => {
            lemma_filter_members_idempotent(i.members, markers);
        },
    }
}

// ----------------------------------------------------------------------
// With no markers, filtering is the identity: the disabled mode of the
// transformation (which returns its input untouched) behaves exactly like
// the filter run with an empty marker set.

proof fn lemma_filter_bounds_empty_identity(bs: Seq<BoundView>)
    ensures
        filter_bounds(bs, Set::empty()) == bs,
{
    let markers = Set::<Seq<char>>::empty();
    assert(forall|i: int| 0 <= i < bs.len() ==> keep_pred(markers)(bs[i]));
    lemma_filter_keeps_all(bs, keep_pred(markers));
}

proof fn lemma_filter_signature_empty_identity(s: SignatureView)
    ensures
        filter_signature(s, Set::empty()) == s,
{
    let markers = Set::<Seq<char>>::empty();
    let fs = filter_signature(s, markers);
    assert forall|i: int| 0 <= i < s.generics.len() implies fs.generics[i] == s.generics[i] by {
        match s.generics[i] {
            GenericParamView::Type { bounds, .. } => {
                lemma_filter_bounds_empty_identity(bounds);
            },
            GenericParamView::Other { .. } => {},
        }
    }
    assert(fs.generics =~= s.generics);
    match s.where_clause {
        Some(preds) => {
            let fp = filter_predicates(preds, markers);
            assert forall|i: int| 0 <= i < preds.len() implies fp[i] == preds[i] by {
                match preds[i] {
                    PredicateView::Type { bounds, .. } => {
                        lemma_filter_bounds_empty_identity(bounds);
                    },
                    PredicateView::Other { .. } => {},
                }
            }
            assert(fp =~= preds);
        },
        None => {},
    }
    match s.output {
        ReturnTypeView::Opaque { bounds } => {
            lemma_filter_bounds_empty_identity(bounds);
        },
        _ => {},
    }
    assert(fs =~= s);
}

proof fn lemma_filter_members_empty_identity(ms: Seq<MemberView>)
    ensures
        filter_members(ms, Set::empty()) == ms,
{
    let fm = filter_members(ms, Set::empty());
    assert forall|i: int| 0 <= i < ms.len() implies fm[i] == ms[i] by {
        match ms[i] {
            MemberView::Method(f) => {
                lemma_filter_signature_empty_identity(f.sig);
            },
            MemberView::Other { .. } => {},
        }
    }
    assert(fm =~= ms);
}

/// With an empty marker set, the filter gives every declaration back
/// unchanged: the disabled mode, which skips the transformation altogether,
/// is indistinguishable from filtering with no markers.
pub proof fn lemma_no_markers_filter_is_identity(d: DeclarationView)
    ensures
        filter_declaration(d, Set::empty()) == d,
{
    match d {
        DeclarationView::Function(f) => {
            lemma_filter_signature_empty_identity(f.sig);
        },
        DeclarationView::Trait(t) => {
            lemma_filter_bounds_empty_identity(t.supertraits);
            lemma_filter_members_empty_identity(t.members);
            assert(filter_declaration(d, Set::empty()) =~= d);
        },
        DeclarationView::Impl(i) => {
            lemma_filter_members_empty_identity(i.members);
        },
    }
}

// ----------------------------------------------------------------------
// Non-marker preservation: every retained bound survives, and retained
// bounds keep their relative order.

/// Where a kept bound of the original list lands in the filtered list: the
/// number of bounds kept before it.
pub open spec fn retained_position(bs: Seq<BoundView>, markers: Set<Seq<char>>, i: int) -> int {
    bs.take(i).filter(keep_pred(markers)).len() as int
}

proof fn lemma_filter_split(s: Seq<BoundView>, pred: spec_fn(BoundView) -> bool, i: int)
    requires
        0 <= i <= s.len(),
    ensures
        s.filter(pred) == s.take(i).filter(pred) + s.skip(i).filter(pred),
{
    assert(s.take(i) + s.skip(i) =~= s);
    Seq::filter_distributes_over_add(s.take(i), s.skip(i), pred);
}

proof fn lemma_filter_take_succ(s: Seq<BoundView>, pred: spec_fn(BoundView) -> bool, i: int)
    requires
        0 <= i < s.len(),
    ensures
        s.take(i + 1).filter(pred) == s.take(i).filter(pred) + (if pred(s[i]) {
            seq![s[i]]
        } else {
            Seq::<BoundView>::empty()
        }),
{
    assert(s.take(i + 1) =~= s.take(i) + seq![s[i]]);
    Seq::filter_distributes_over_add(s.take(i), seq![s[i]], pred);
    lemma_filter_singleton(s[i], pred);
}

proof fn lemma_retained_position_in_range(bs: Seq<BoundView>, markers: Set<Seq<char>>, i: int)
    requires
        0 <= i < bs.len(),
        !bound_is_marker(bs[i], markers),
    ensures
        0 <= retained_position(bs, markers, i) < filter_bounds(bs, markers).len(),
        filter_bounds(bs, markers)[retained_position(bs, markers, i)] == bs[i],
{
    let pred = keep_pred(markers);
    let p = retained_position(bs, markers, i);
    lemma_filter_take_succ(bs, pred, i);
    assert(bs.take(i + 1).filter(pred) == bs.take(i).filter(pred) + seq![bs[i]]);
    assert(bs.take(i + 1).filter(pred).len() == p + 1);
    assert(bs.take(i + 1).filter(pred)[p] == bs[i]);
    lemma_filter_split(bs, pred, i + 1);
    assert(bs.take(i + 1) == bs.take(i + 1).take(i + 1));
    assert(filter_bounds(bs, markers) == bs.take(i + 1).filter(pred) + bs.skip(i + 1).filter(
        pred,
    ));
    assert(filter_bounds(bs, markers)[p] == bs[i]);
}

proof fn lemma_retained_position_monotone(
    bs: Seq<BoundView>,
    markers: Set<Seq<char>>,
    i: int,
    j: int,
)
    requires
        0 <= i < j < bs.len(),
        !bound_is_marker(bs[i], markers),
    ensures
        retained_position(bs, markers, i) < retained_position(bs, markers, j),
{
    let pred = keep_pred(markers);
    lemma_filter_take_succ(bs, pred, i);
    assert(bs.take(i + 1).filter(pred).len() == retained_position(bs, markers, i) + 1);
    assert(bs.take(j).take(i + 1) =~= bs.take(i + 1));
    lemma_filter_split(bs.take(j), pred, i + 1);
    assert(bs.take(j).filter(pred).len() >= bs.take(i + 1).filter(pred).len());
}

/// Non-marker preservation: every bound that does not name a marker is still
/// present after filtering, at `retained_position`, and any two such bounds
/// keep their relative order. The filter applies `filter_bounds` at each of
/// the four position kinds of a declaration, so this holds position by
/// position over the whole tree.
pub proof fn lemma_non_marker_preservation(bs: Seq<BoundView>, markers: Set<Seq<char>>)
    ensures
        forall|i: int|
            0 <= i < bs.len() && !bound_is_marker(bs[i], markers) ==> 0 <= #[trigger] retained_position(
                bs,
                markers,
                i,
            ) < filter_bounds(bs, markers).len() && filter_bounds(bs, markers)[retained_position(
                bs,
                markers,
                i,
            )] == bs[i],
        forall|i: int, j: int|
            0 <= i < j < bs.len() && !bound_is_marker(bs[i], markers) && !bound_is_marker(
                bs[j],
                markers,
            ) ==> #[trigger] retained_position(bs, markers, i) < #[trigger] retained_position(
                bs,
                markers,
                j,
            ),
{
    assert forall|i: int|
        0 <= i < bs.len() && !bound_is_marker(bs[i], markers) implies 0
        <= #[trigger] retained_position(bs, markers, i) < filter_bounds(bs, markers).len()
        && filter_bounds(bs, markers)[retained_position(bs, markers, i)] == bs[i] by {
        lemma_retained_position_in_range(bs, markers, i);
    }
    assert forall|i: int, j: int|
        0 <= i < j < bs.len() && !bound_is_marker(bs[i], markers) && !bound_is_marker(
            bs[j],
            markers,
        ) implies #[trigger] retained_position(bs, markers, i) < #[trigger] retained_position(
        bs,
        markers,
        j,
    ) by {
        lemma_retained_position_monotone(bs, markers, i, j);
    }
}

// ----------------------------------------------------------------------
// Mutual exclusivity of the emitted variants.

/// Under every truth value of the condition, exactly one of the two emitted
/// copies is active: the first gate admits a build exactly when the second
/// does not.
pub proof fn lemma_variants_mutually_exclusive(cond: bool)
    ensures
        gate_admits(false, cond) != gate_admits(true, cond),
{
}

} // verus!
