//! The bound filter: a pure, structural transformation that removes marker
//! trait bounds from every bound-bearing position of a declaration and
//! preserves the rest of the tree verbatim.
//!
//! A bound is removed only when it is a trait reference whose path is a
//! single segment equal to one of the marker identifiers. Qualified paths
//! (`marker::Send`) and non-trait bounds are never removed, even when they
//! would imply a marker trait semantically: the filter is syntactic by
//! design.

use vstd::prelude::*;

use crate::ast::Bound;
use crate::ast::BoundView;
use crate::ast::Declaration;
use crate::ast::DeclarationView;
use crate::ast::FunctionDecl;
use crate::ast::FunctionDeclView;
use crate::ast::GenericParam;
use crate::ast::GenericParamView;
use crate::ast::ImplDecl;
use crate::ast::ImplDeclView;
use crate::ast::MarkerSet;
use crate::ast::Member;
use crate::ast::MemberView;
use crate::ast::ParseOutcome;
use crate::ast::Predicate;
use crate::ast::PredicateView;
use crate::ast::ReturnType;
use crate::ast::ReturnTypeView;
use crate::ast::Signature;
use crate::ast::SignatureView;
use crate::ast::TraitDecl;
use crate::ast::TraitDeclView;
use crate::ast::bounds_view;
use crate::ast::idents_view;
use crate::ast::members_view;
use crate::ast::params_view;
use crate::ast::predicates_view;

verus! {

// ----------------------------------------------------------------------
// What the filter computes, stated over the ghost views.

/// Whether one bound is eligible for removal: a trait reference whose path
/// is exactly one segment naming a marker.
pub open spec fn bound_is_marker(b: BoundView, markers: Set<Seq<char>>) -> bool {
    match b {
        BoundView::TraitName { segments } => segments.len() == 1 && markers.contains(
            segments[0],
        ),
        BoundView::Other { .. } => false,
    }
}

/// The predicate that decides whether a bound survives filtering.
pub open spec fn keep_pred(markers: Set<Seq<char>>) -> spec_fn(BoundView) -> bool {
    |b: BoundView| !bound_is_marker(b, markers)
}

/// A bound list with the markers removed; retained bounds keep their order.
pub open spec fn filter_bounds(bs: Seq<BoundView>, markers: Set<Seq<char>>) -> Seq<BoundView> {
    bs.filter(keep_pred(markers))
}

pub open spec fn filter_param(p: GenericParamView, markers: Set<Seq<char>>) -> GenericParamView {
    match p {
        GenericParamView::Type { name, bounds } => GenericParamView::Type {
            name,
            bounds: filter_bounds(bounds, markers),
        },
        GenericParamView::Other { .. } => p,
    }
}

pub open spec fn filter_predicate(p: PredicateView, markers: Set<Seq<char>>) -> PredicateView {
    match p {
        PredicateView::Type { target, bounds } => PredicateView::Type {
            target,
            bounds: filter_bounds(bounds, markers),
        },
        PredicateView::Other { .. } => p,
    }
}

pub open spec fn filter_return(r: ReturnTypeView, markers: Set<Seq<char>>) -> ReturnTypeView {
    match r {
        ReturnTypeView::Opaque { bounds } => ReturnTypeView::Opaque {
            bounds: filter_bounds(bounds, markers),
        },
        _ => r,
    }
}

pub open spec fn filter_params(
    ps: Seq<GenericParamView>,
    markers: Set<Seq<char>>,
) -> Seq<GenericParamView> {
    ps.map_values(|p: GenericParamView| filter_param(p, markers))
}

pub open spec fn filter_predicates(
    ps: Seq<PredicateView>,
    markers: Set<Seq<char>>,
) -> Seq<PredicateView> {
    ps.map_values(|p: PredicateView| filter_predicate(p, markers))
}

/// A signature with the markers removed from its generic parameter bounds,
/// its where-clause predicates, and its opaque return type; the head and the
/// argument list are copied unchanged.
pub open spec fn filter_signature(s: SignatureView, markers: Set<Seq<char>>) -> SignatureView {
    SignatureView {
        head: s.head,
        generics: filter_params(s.generics, markers),
        inputs: s.inputs,
        output: filter_return(s.output, markers),
        where_clause: match s.where_clause {
            Some(preds) => Some(filter_predicates(preds, markers)),
            None => None,
        },
    }
}

/// A function with its signature filtered; attributes and body unchanged.
pub open spec fn filter_function(f: FunctionDeclView, markers: Set<Seq<char>>) -> FunctionDeclView {
    FunctionDeclView { attrs: f.attrs, sig: filter_signature(f.sig, markers), body: f.body }
}

/// Only methods are filtered; every other member is copied unchanged.
pub open spec fn filter_member(m: MemberView, markers: Set<Seq<char>>) -> MemberView {
    match m {
        MemberView::Method(f) => MemberView::Method(filter_function(f, markers)),
        MemberView::Other { .. } => m,
    }
}

pub open spec fn filter_members(
    ms: Seq<MemberView>,
    markers: Set<Seq<char>>,
) -> Seq<MemberView> {
    ms.map_values(|m: MemberView| filter_member(m, markers))
}

/// A trait with its supertrait list and every method filtered.
pub open spec fn filter_trait(t: TraitDeclView, markers: Set<Seq<char>>) -> TraitDeclView {
    TraitDeclView {
        attrs: t.attrs,
        head: t.head,
        supertraits: filter_bounds(t.supertraits, markers),
        members: filter_members(t.members, markers),
    }
}

/// An implementation block with every method filtered; the block's own
/// header (including its generics) is copied unchanged.
pub open spec fn filter_impl(i: ImplDeclView, markers: Set<Seq<char>>) -> ImplDeclView {
    ImplDeclView { attrs: i.attrs, head: i.head, members: filter_members(i.members, markers) }
}

/// The whole transformation over one recognized declaration.
pub open spec fn filter_declaration(d: DeclarationView, markers: Set<Seq<char>>) -> DeclarationView {
    match d {
        DeclarationView::Function(f) => DeclarationView::Function(filter_function(f, markers)),
        DeclarationView::Trait(t) => DeclarationView::Trait(filter_trait(t, markers)),
        DeclarationView::Impl(i) => DeclarationView::Impl(filter_impl(i, markers)),
    }
}

// ----------------------------------------------------------------------
// The executable filter.

/// Whether `ident` is one of the marker identifiers.
fn is_marker_ident(ident: &String, markers: &MarkerSet) -> (r: bool)
    ensures
        r == markers@.contains(ident@),
{
    let mut i: usize = 0;
    while i < markers.idents.len()
        invariant
            0 <= i <= markers.idents.len(),
            forall|j: int| 0 <= j < i ==> markers.idents@[j]@ != ident@,
        decreases markers.idents.len() - i,
    {
        if markers.idents[i] == *ident {
            proof {
                assert(idents_view(markers.idents@)[i as int] == ident@);
                assert(idents_view(markers.idents@).contains(ident@));
            }
            return true;
        }
        i += 1;
    }
    proof {
        assert(!idents_view(markers.idents@).contains(ident@)) by {
            if idents_view(markers.idents@).contains(ident@) {
                let j = choose|j: int|
                    0 <= j < idents_view(markers.idents@).len() && idents_view(
                        markers.idents@,
                    )[j] == ident@;
                assert(markers.idents@[j]@ != ident@);
            }
        }
    }
    false
}

/// Whether one bound is eligible for removal.
fn is_marker_bound(b: &Bound, markers: &MarkerSet) -> (r: bool)
    ensures
        r == bound_is_marker(b@, markers@),
{
    match b {
        Bound::TraitName { segments } => {
            if segments.len() == 1 {
                proof {
                    assert(idents_view(segments@)[0] == segments@[0]@);
                }
                is_marker_ident(&segments[0], markers)
            } else {
                false
            }
        },
        Bound::Other { .. } => false,
    }
}

/// `seq![b]` filtered is either `seq![b]` or empty, by whether `b` is kept.
pub(crate) proof fn lemma_filter_singleton(b: BoundView, pred: spec_fn(BoundView) -> bool)
    ensures
        seq![b].filter(pred) == if pred(b) {
            seq![b]
        } else {
            Seq::<BoundView>::empty()
        },
{
    reveal(Seq::filter);
    assert(seq![b].drop_last() =~= Seq::<BoundView>::empty());
    assert(Seq::<BoundView>::empty().filter(pred) =~= Seq::<BoundView>::empty());
    if pred(b) {
        assert(seq![b].filter(pred) =~= seq![b]);
    }
}

/// Removes the marker bounds from a bound list, keeping all other bounds in
/// their original order.
pub fn filter_send_bounds(bounds: Vec<Bound>, markers: &MarkerSet) -> (res: Vec<Bound>)
    ensures
        bounds_view(res@) == filter_bounds(bounds_view(bounds@), markers@),
{
    let ghost all = bounds_view(bounds@);
    let ghost keep = keep_pred(markers@);
    let mut rest = bounds;
    let mut out: Vec<Bound> = Vec::new();
    let ghost mut k: int = 0;
    proof {
        assert(all.take(0) =~= Seq::<BoundView>::empty());
        assert(Seq::<BoundView>::empty().filter(keep) =~= Seq::<BoundView>::empty()) by {
            reveal(Seq::filter);
        }
        assert(bounds_view(rest@) =~= all.skip(0));
        assert(bounds_view(out@) =~= all.take(0).filter(keep));
    }
    while rest.len() > 0
        invariant
            0 <= k <= all.len(),
            bounds_view(rest@) == all.skip(k),
            bounds_view(out@) == all.take(k).filter(keep),
            keep == keep_pred(markers@),
        decreases rest.len(),
    {
        proof {
            assert(bounds_view(rest@).len() == rest@.len());
            assert(k < all.len());
        }
        let ghost rest_before = rest@;
        let b = rest.remove(0);
        proof {
            assert(b@ == bounds_view(rest_before)[0]);
            assert(b@ == all[k]);
            rest_before.remove_ensures(0);
            assert(forall|i: int|
                0 <= i < rest@.len() ==> rest@[i] == rest_before[i + 1]);
            assert(forall|i: int|
                0 <= i < rest@.len() ==> bounds_view(rest@)[i] == bounds_view(
                    rest_before,
                )[i + 1]);
            assert(bounds_view(rest@) =~= all.skip(k + 1));
        }
        let is_marker = is_marker_bound(&b, markers);
        let ghost out_before = bounds_view(out@);
        if !is_marker {
            out.push(b);
        }
        proof {
            lemma_filter_singleton(all[k], keep);
            assert(all.take(k + 1) =~= all.take(k) + seq![all[k]]);
            Seq::filter_distributes_over_add(all.take(k), seq![all[k]], keep);
            if !bound_is_marker(all[k], markers@) {
                assert(bounds_view(out@) =~= out_before.push(all[k]));
                assert(all.take(k + 1).filter(keep) =~= out_before.push(all[k]));
            } else {
                assert(all.take(k + 1).filter(keep) =~= out_before);
            }
            k = k + 1;
        }
    }
    proof {
        assert(all.skip(k).len() == 0);
        assert(k == all.len());
        assert(all.take(k) =~= all);
    }
    out
}

/// Removes the marker bounds from every type parameter of a generic
/// parameter list; other parameter kinds are copied unchanged.
fn rm_from_generic_params(params: Vec<GenericParam>, markers: &MarkerSet) -> (res: Vec<
    GenericParam,
>)
    ensures
        params_view(res@) == filter_params(params_view(params@), markers@),
{
    let ghost all = params_view(params@);
    let ghost all_f = filter_params(all, markers@);
    let mut rest = params;
    let mut out: Vec<GenericParam> = Vec::new();
    let ghost mut k: int = 0;
    proof {
        assert(params_view(rest@) =~= all.skip(0));
        assert(params_view(out@) =~= all_f.take(0));
    }
    while rest.len() > 0
        invariant
            0 <= k <= all.len(),
            all_f == filter_params(all, markers@),
            params_view(rest@) == all.skip(k),
            params_view(out@) == all_f.take(k),
        decreases rest.len(),
    {
        proof {
            assert(params_view(rest@).len() == rest@.len());
            assert(k < all.len());
        }
        let ghost rest_before = rest@;
        let p = rest.remove(0);
        proof {
            assert(p@ == params_view(rest_before)[0]);
            assert(p@ == all[k]);
            rest_before.remove_ensures(0);
            assert(forall|i: int| 0 <= i < rest@.len() ==> rest@[i] == rest_before[i + 1]);
            assert(forall|i: int|
                0 <= i < rest@.len() ==> params_view(rest@)[i] == params_view(
                    rest_before,
                )[i + 1]);
            assert(params_view(rest@) =~= all.skip(k + 1));
        }
        let ghost out_before = params_view(out@);
        match p {
            GenericParam::Type { name, bounds } => {
                let bounds = filter_send_bounds(bounds, markers);
                out.push(GenericParam::Type { name, bounds });
            },
            other => {
                out.push(other);
            },
        }
        proof {
            assert(params_view(out@) =~= out_before.push(filter_param(all[k], markers@)));
            assert(all_f.take(k + 1) =~= all_f.take(k).push(all_f[k]));
            k = k + 1;
        }
    }
    proof {
        assert(all.skip(k).len() == 0);
        assert(k == all.len());
        assert(all_f.take(k) =~= all_f);
    }
    out
}

/// Removes the marker bounds from every type-constraining predicate of a
/// where clause; other predicate kinds are copied unchanged.
fn rm_from_predicates(preds: Vec<Predicate>, markers: &MarkerSet) -> (res: Vec<Predicate>)
    ensures
        predicates_view(res@) == filter_predicates(predicates_view(preds@), markers@),
{
    let ghost all = predicates_view(preds@);
    let ghost all_f = filter_predicates(all, markers@);
    let mut rest = preds;
    let mut out: Vec<Predicate> = Vec::new();
    let ghost mut k: int = 0;
    proof {
        assert(predicates_view(rest@) =~= all.skip(0));
        assert(predicates_view(out@) =~= all_f.take(0));
    }
    while rest.len() > 0
        invariant
            0 <= k <= all.len(),
            all_f == filter_predicates(all, markers@),
            predicates_view(rest@) == all.skip(k),
            predicates_view(out@) == all_f.take(k),
        decreases rest.len(),
    {
        proof {
            assert(predicates_view(rest@).len() == rest@.len());
            assert(k < all.len());
        }
        let ghost rest_before = rest@;
        let p = rest.remove(0);
        proof {
            assert(p@ == predicates_view(rest_before)[0]);
            assert(p@ == all[k]);
            rest_before.remove_ensures(0);
            assert(forall|i: int| 0 <= i < rest@.len() ==> rest@[i] == rest_before[i + 1]);
            assert(forall|i: int|
                0 <= i < rest@.len() ==> predicates_view(rest@)[i] == predicates_view(
                    rest_before,
                )[i + 1]);
            assert(predicates_view(rest@) =~= all.skip(k + 1));
        }
        let ghost out_before = predicates_view(out@);
        match p {
            Predicate::Type { target, bounds } => {
                let bounds = filter_send_bounds(bounds, markers);
                out.push(Predicate::Type { target, bounds });
            },
            other => {
                out.push(other);
            },
        }
        proof {
            assert(predicates_view(out@) =~= out_before.push(
                filter_predicate(all[k], markers@),
            ));
            assert(all_f.take(k + 1) =~= all_f.take(k).push(all_f[k]));
            k = k + 1;
        }
    }
    proof {
        assert(all.skip(k).len() == 0);
        assert(k == all.len());
        assert(all_f.take(k) =~= all_f);
    }
    out
}

/// Removes the marker bounds from every bound position of one signature:
/// generic parameter bounds, where-clause predicates, and an opaque return
/// type. Everything else is left as it was.
pub fn rm_from_fn_sig(sig: &mut Signature, markers: &MarkerSet)
    ensures
        final(sig)@ == filter_signature(old(sig)@, markers@),
{
    let mut generics: Vec<GenericParam> = Vec::new();
    core::mem::swap(&mut generics, &mut sig.generics);
    sig.generics = rm_from_generic_params(generics, markers);

    let where_clause = sig.where_clause.take();
    sig.where_clause = match where_clause {
        Some(preds) => Some(rm_from_predicates(preds, markers)),
        None => None,
    };

    let mut output = ReturnType::Default;
    core::mem::swap(&mut output, &mut sig.output);
    sig.output = match output {
        ReturnType::Opaque { bounds } => ReturnType::Opaque {
            bounds: filter_send_bounds(bounds, markers),
        },
        other => other,
    };
}

/// Filters the signature of a standalone function; its attributes and body
/// are copied unchanged.
pub fn rm_from_item_fn(ast: FunctionDecl, markers: &MarkerSet) -> (res: FunctionDecl)
    ensures
        res@ == filter_function(ast@, markers@),
{
    let FunctionDecl { attrs, mut sig, body } = ast;
    rm_from_fn_sig(&mut sig, markers);
    FunctionDecl { attrs, sig, body }
}

/// Filters the signature of every method in a member list; all other members
/// are copied unchanged.
fn rm_from_members(members: Vec<Member>, markers: &MarkerSet) -> (res: Vec<Member>)
    ensures
        members_view(res@) == filter_members(members_view(members@), markers@),
{
    let ghost all = members_view(members@);
    let ghost all_f = filter_members(all, markers@);
    let mut rest = members;
    let mut out: Vec<Member> = Vec::new();
    let ghost mut k: int = 0;
    proof {
        assert(members_view(rest@) =~= all.skip(0));
        assert(members_view(out@) =~= all_f.take(0));
    }
    while rest.len() > 0
        invariant
            0 <= k <= all.len(),
            all_f == filter_members(all, markers@),
            members_view(rest@) == all.skip(k),
            members_view(out@) == all_f.take(k),
        decreases rest.len(),
    {
        proof {
            assert(members_view(rest@).len() == rest@.len());
            assert(k < all.len());
        }
        let ghost rest_before = rest@;
        let m = rest.remove(0);
        proof {
            assert(m@ == members_view(rest_before)[0]);
            assert(m@ == all[k]);
            rest_before.remove_ensures(0);
            assert(forall|i: int| 0 <= i < rest@.len() ==> rest@[i] == rest_before[i + 1]);
            assert(forall|i: int|
                0 <= i < rest@.len() ==> members_view(rest@)[i] == members_view(
                    rest_before,
                )[i + 1]);
            assert(members_view(rest@) =~= all.skip(k + 1));
        }
        let ghost out_before = members_view(out@);
        match m {
            Member::Method(f) => {
                let f = rm_from_item_fn(f, markers);
                out.push(Member::Method(f));
            },
            other => {
                out.push(other);
            },
        }
        proof {
            assert(members_view(out@) =~= out_before.push(filter_member(all[k], markers@)));
            assert(all_f.take(k + 1) =~= all_f.take(k).push(all_f[k]));
            k = k + 1;
        }
    }
    proof {
        assert(all.skip(k).len() == 0);
        assert(k == all.len());
        assert(all_f.take(k) =~= all_f);
    }
    out
}

/// Filters the signature of every method of an implementation block; the
/// block's own header and every other member are copied unchanged.
pub fn rm_from_impl(ast: ImplDecl, markers: &MarkerSet) -> (res: ImplDecl)
    ensures
        res@ == filter_impl(ast@, markers@),
{
    let ImplDecl { attrs, head, members } = ast;
    let members = rm_from_members(members, markers);
    ImplDecl { attrs, head, members }
}

/// Filters the supertrait list of a trait and the signature of every one of
/// its methods (default bodies included); everything else is copied
/// unchanged.
pub fn rm_from_item_trait(ast: TraitDecl, markers: &MarkerSet) -> (res: TraitDecl)
    ensures
        res@ == filter_trait(ast@, markers@),
{
    let TraitDecl { attrs, head, supertraits, members } = ast;
    let supertraits = filter_send_bounds(supertraits, markers);
    let members = rm_from_members(members, markers);
    TraitDecl { attrs, head, supertraits, members }
}

/// The declaration dispatcher composed with the filter: a recognized
/// function, trait, or implementation comes back filtered; anything else
/// yields `None`, the signal to pass the input through unchanged.
pub fn rm_send(outcome: ParseOutcome, markers: &MarkerSet) -> (res: Option<Declaration>)
    ensures
        match outcome {
            ParseOutcome::Recognized(d) => res matches Some(f) && f@ == filter_declaration(
                d@,
                markers@,
            ),
            ParseOutcome::Unrecognized => res is None,
        },
{
    match outcome {
        ParseOutcome::Recognized(Declaration::Function(f)) => Some(
            Declaration::Function(rm_from_item_fn(f, markers)),
        ),
        ParseOutcome::Recognized(Declaration::Trait(t)) => Some(
            Declaration::Trait(rm_from_item_trait(t, markers)),
        ),
        ParseOutcome::Recognized(Declaration::Impl(i)) => Some(
            Declaration::Impl(rm_from_impl(i, markers)),
        ),
        ParseOutcome::Unrecognized => None,
    }
}

// ----------------------------------------------------------------------
// Whether a marker bound occurs anywhere in a tree. The executable query
// lets a caller test what filtering removed; the ghost predicates are what
// the marker-freedom law is stated over.

pub open spec fn bounds_have_marker(bs: Seq<BoundView>, markers: Set<Seq<char>>) -> bool {
    exists|i: int| 0 <= i < bs.len() && bound_is_marker(bs[i], markers)
}

pub open spec fn param_has_marker(p: GenericParamView, markers: Set<Seq<char>>) -> bool {
    match p {
        GenericParamView::Type { bounds, .. } => bounds_have_marker(bounds, markers),
        GenericParamView::Other { .. } => false,
    }
}

pub open spec fn params_have_marker(ps: Seq<GenericParamView>, markers: Set<Seq<char>>) -> bool {
    exists|i: int| 0 <= i < ps.len() && param_has_marker(ps[i], markers)
}

pub open spec fn predicate_has_marker(p: PredicateView, markers: Set<Seq<char>>) -> bool {
    match p {
        PredicateView::Type { bounds, .. } => bounds_have_marker(bounds, markers),
        PredicateView::Other { .. } => false,
    }
}

pub open spec fn predicates_have_marker(ps: Seq<PredicateView>, markers: Set<Seq<char>>) -> bool {
    exists|i: int| 0 <= i < ps.len() && predicate_has_marker(ps[i], markers)
}

pub open spec fn return_has_marker(r: ReturnTypeView, markers: Set<Seq<char>>) -> bool {
    match r {
        ReturnTypeView::Opaque { bounds } => bounds_have_marker(bounds, markers),
        _ => false,
    }
}

pub open spec fn signature_has_marker(s: SignatureView, markers: Set<Seq<char>>) -> bool {
    ||| params_have_marker(s.generics, markers)
    ||| match s.where_clause {
        Some(preds) => predicates_have_marker(preds, markers),
        None => false,
    }
    ||| return_has_marker(s.output, markers)
}

pub open spec fn member_has_marker(m: MemberView, markers: Set<Seq<char>>) -> bool {
    match m {
        MemberView::Method(f) => signature_has_marker(f.sig, markers),
        MemberView::Other { .. } => false,
    }
}

pub open spec fn members_have_marker(ms: Seq<MemberView>, markers: Set<Seq<char>>) -> bool {
    exists|i: int| 0 <= i < ms.len() && member_has_marker(ms[i], markers)
}

/// Whether any marker bound remains at any of the four filtered position
/// kinds of a declaration.
pub open spec fn declaration_has_marker(d: DeclarationView, markers: Set<Seq<char>>) -> bool {
    match d {
        DeclarationView::Function(f) => signature_has_marker(f.sig, markers),
        DeclarationView::Trait(t) => bounds_have_marker(t.supertraits, markers)
            || members_have_marker(t.members, markers),
        DeclarationView::Impl(i) => members_have_marker(i.members, markers),
    }
}

fn bounds_mention_marker(bounds: &Vec<Bound>, markers: &MarkerSet) -> (r: bool)
    ensures
        r == bounds_have_marker(bounds_view(bounds@), markers@),
{
    let mut i: usize = 0;
    while i < bounds.len()
        invariant
            0 <= i <= bounds.len(),
            forall|j: int| 0 <= j < i ==> !bound_is_marker(bounds_view(bounds@)[j], markers@),
        decreases bounds.len() - i,
    {
        if is_marker_bound(&bounds[i], markers) {
            proof {
                assert(bounds_view(bounds@)[i as int] == bounds@[i as int]@);
            }
            return true;
        }
        proof {
            assert(bounds_view(bounds@)[i as int] == bounds@[i as int]@);
        }
        i += 1;
    }
    false
}

fn param_mentions_marker(p: &GenericParam, markers: &MarkerSet) -> (r: bool)
    ensures
        r == param_has_marker(p@, markers@),
{
    match p {
        GenericParam::Type { bounds, .. } => bounds_mention_marker(bounds, markers),
        GenericParam::Other { .. } => false,
    }
}

fn predicate_mentions_marker(p: &Predicate, markers: &MarkerSet) -> (r: bool)
    ensures
        r == predicate_has_marker(p@, markers@),
{
    match p {
        Predicate::Type { bounds, .. } => bounds_mention_marker(bounds, markers),
        Predicate::Other { .. } => false,
    }
}

/// Whether any marker bound occurs in one signature.
pub fn signature_mentions_marker(sig: &Signature, markers: &MarkerSet) -> (r: bool)
    ensures
        r == signature_has_marker(sig@, markers@),
{
    let mut i: usize = 0;
    while i < sig.generics.len()
        invariant
            0 <= i <= sig.generics.len(),
            forall|j: int| 0 <= j < i ==> !param_has_marker(params_view(sig.generics@)[j], markers@),
        decreases sig.generics.len() - i,
    {
        if param_mentions_marker(&sig.generics[i], markers) {
            proof {
                assert(params_view(sig.generics@)[i as int] == sig.generics@[i as int]@);
            }
            return true;
        }
        proof {
            assert(params_view(sig.generics@)[i as int] == sig.generics@[i as int]@);
        }
        i += 1;
    }
    match sig.where_clause.as_ref() {
        Some(preds) => {
            proof {
                assert(sig.where_clause == Some(*preds));
            }
            let mut i: usize = 0;
            while i < preds.len()
                invariant
                    sig.where_clause == Some(*preds),
                    0 <= i <= preds.len(),
                    forall|j: int|
                        0 <= j < i ==> !predicate_has_marker(
                            predicates_view(preds@)[j],
                            markers@,
                        ),
                decreases preds.len() - i,
            {
                if predicate_mentions_marker(&preds[i], markers) {
                    proof {
                        assert(predicates_view(preds@)[i as int] == preds@[i as int]@);
                        assert(sig@.where_clause is Some);
                        assert(sig@.where_clause->0 == predicates_view(preds@));
                        assert(predicates_have_marker(predicates_view(preds@), markers@));
                    }
                    return true;
                }
                proof {
                    assert(predicates_view(preds@)[i as int] == preds@[i as int]@);
                }
                i += 1;
            }
        },
        None => {},
    }
    match &sig.output {
        ReturnType::Opaque { bounds } => bounds_mention_marker(bounds, markers),
        _ => false,
    }
}

fn members_mention_marker(members: &Vec<Member>, markers: &MarkerSet) -> (r: bool)
    ensures
        r == members_have_marker(members_view(members@), markers@),
{
    let mut i: usize = 0;
    while i < members.len()
        invariant
            0 <= i <= members.len(),
            forall|j: int| 0 <= j < i ==> !member_has_marker(members_view(members@)[j], markers@),
        decreases members.len() - i,
    {
        let mentions = match &members[i] {
            Member::Method(f) => signature_mentions_marker(&f.sig, markers),
            Member::Other { .. } => false,
        };
        proof {
            assert(members_view(members@)[i as int] == members@[i as int]@);
        }
        if mentions {
            return true;
        }
        i += 1;
    }
    false
}

/// Whether any marker bound occurs at any of the four filtered position
/// kinds of a declaration.
pub fn declaration_mentions_marker(d: &Declaration, markers: &MarkerSet) -> (r: bool)
    ensures
        r == declaration_has_marker(d@, markers@),
{
    match d {
        Declaration::Function(f) => signature_mentions_marker(&f.sig, markers),
        Declaration::Trait(t) => {
            let supers = bounds_mention_marker(&t.supertraits, markers);
            if supers {
                true
            } else {
                members_mention_marker(&t.members, markers)
            }
        },
        Declaration::Impl(i) => members_mention_marker(&i.members, markers),
    }
}

} // verus!
