//! The declaration tree that the bound filter works on, and its ghost view.
//!
//! Every part of a declaration that the filter never inspects (attributes and
//! documentation, argument lists, method bodies, concrete return types) is
//! carried verbatim as text, so the contracts can state exactly that those
//! parts are copied unchanged.

use vstd::prelude::*;

verus! {

/// One bound attached to a type parameter, a where-clause predicate, an
/// opaque return type, or a supertrait list.
#[derive(Debug, PartialEq)]
pub enum Bound {
    /// A trait reference, as the segments of its path (`Send` has one
    /// segment; `marker::Send` has two).
    TraitName { segments: Vec<String> },
    /// Any other bound kind (a lifetime, a higher-ranked bound, ...),
    /// preserved verbatim.
    Other { text: String },
}

/// One generic parameter of a signature.
#[derive(Debug, PartialEq)]
pub enum GenericParam {
    /// A type parameter with its bounds.
    Type { name: String, bounds: Vec<Bound> },
    /// A lifetime or const parameter, preserved verbatim.
    Other { text: String },
}

/// One predicate of a where clause.
#[derive(Debug, PartialEq)]
pub enum Predicate {
    /// A type-constraining predicate: `target: bound + bound + ...`.
    Type { target: String, bounds: Vec<Bound> },
    /// Any other predicate kind, preserved verbatim.
    Other { text: String },
}

/// The return type of a signature.
#[derive(Debug, PartialEq)]
pub enum ReturnType {
    /// No declared return value.
    Default,
    /// An opaque (`impl Trait`) return type with its bounds.
    Opaque { bounds: Vec<Bound> },
    /// Any other return type, preserved verbatim.
    Other { text: String },
}

/// The callable shape of one function or method.
#[derive(Debug, PartialEq)]
pub struct Signature {
    /// Everything before the generic parameter list (qualifiers, the `fn`
    /// keyword, the name), verbatim.
    pub head: String,
    pub generics: Vec<GenericParam>,
    /// The parenthesized argument list, verbatim.
    pub inputs: String,
    pub output: ReturnType,
    pub where_clause: Option<Vec<Predicate>>,
}

/// A standalone function, or one method of a trait or of an implementation.
#[derive(Debug, PartialEq)]
pub struct FunctionDecl {
    /// Attributes and documentation, verbatim.
    pub attrs: String,
    pub sig: Signature,
    /// The body (or the trailing `;` of a bodiless method), verbatim.
    pub body: String,
}

/// One member of a trait or of an implementation body.
#[derive(Debug, PartialEq)]
pub enum Member {
    Method(FunctionDecl),
    /// An associated type, a constant, ... — preserved verbatim.
    Other { text: String },
}

/// A trait definition.
#[derive(Debug, PartialEq)]
pub struct TraitDecl {
    /// Attributes and documentation, verbatim.
    pub attrs: String,
    /// Everything from the `trait` keyword through the name and its generic
    /// parameters, verbatim.
    pub head: String,
    pub supertraits: Vec<Bound>,
    pub members: Vec<Member>,
}

/// An implementation block.
#[derive(Debug, PartialEq)]
pub struct ImplDecl {
    /// Attributes and documentation, verbatim.
    pub attrs: String,
    /// Everything from `impl` through the implemented type (and any trait),
    /// verbatim; the block's own generics are never filtered.
    pub head: String,
    pub members: Vec<Member>,
}

/// A declaration the filter recognizes.
#[derive(Debug, PartialEq)]
pub enum Declaration {
    Function(FunctionDecl),
    Trait(TraitDecl),
    Impl(ImplDecl),
}

/// The outcome of classifying one piece of input text: either one of the
/// three recognized declaration kinds, or anything else (including text the
/// parser rejects), which is passed through untransformed.
#[derive(Debug, PartialEq)]
pub enum ParseOutcome {
    Recognized(Declaration),
    Unrecognized,
}

/// The set of trait identifiers eligible for removal.
#[derive(Debug, PartialEq)]
pub struct MarkerSet {
    pub idents: Vec<String>,
}

// ----------------------------------------------------------------------
// Ghost views: the same tree over `Seq` and `Seq<char>`.

#[verifier::ext_equal]
pub enum BoundView {
    TraitName { segments: Seq<Seq<char>> },
    Other { text: Seq<char> },
}

#[verifier::ext_equal]
pub enum GenericParamView {
    Type { name: Seq<char>, bounds: Seq<BoundView> },
    Other { text: Seq<char> },
}

#[verifier::ext_equal]
pub enum PredicateView {
    Type { target: Seq<char>, bounds: Seq<BoundView> },
    Other { text: Seq<char> },
}

#[verifier::ext_equal]
pub enum ReturnTypeView {
    Default,
    Opaque { bounds: Seq<BoundView> },
    Other { text: Seq<char> },
}

#[verifier::ext_equal]
pub struct SignatureView {
    pub head: Seq<char>,
    pub generics: Seq<GenericParamView>,
    pub inputs: Seq<char>,
    pub output: ReturnTypeView,
    pub where_clause: Option<Seq<PredicateView>>,
}

#[verifier::ext_equal]
pub struct FunctionDeclView {
    pub attrs: Seq<char>,
    pub sig: SignatureView,
    pub body: Seq<char>,
}

#[verifier::ext_equal]
pub enum MemberView {
    Method(FunctionDeclView),
    Other { text: Seq<char> },
}

#[verifier::ext_equal]
pub struct TraitDeclView {
    pub attrs: Seq<char>,
    pub head: Seq<char>,
    pub supertraits: Seq<BoundView>,
    pub members: Seq<MemberView>,
}

#[verifier::ext_equal]
pub struct ImplDeclView {
    pub attrs: Seq<char>,
    pub head: Seq<char>,
    pub members: Seq<MemberView>,
}

#[verifier::ext_equal]
pub enum DeclarationView {
    Function(FunctionDeclView),
    Trait(TraitDeclView),
    Impl(ImplDeclView),
}

/// The view of a vector of bounds.
pub open spec fn bounds_view(v: Seq<Bound>) -> Seq<BoundView> {
    v.map_values(|b: Bound| b@)
}

/// The view of a vector of identifiers.
pub open spec fn idents_view(v: Seq<String>) -> Seq<Seq<char>> {
    v.map_values(|s: String| s@)
}

/// The view of a vector of generic parameters.
pub open spec fn params_view(v: Seq<GenericParam>) -> Seq<GenericParamView> {
    v.map_values(|p: GenericParam| p@)
}

/// The view of a vector of predicates.
pub open spec fn predicates_view(v: Seq<Predicate>) -> Seq<PredicateView> {
    v.map_values(|p: Predicate| p@)
}

/// The view of a vector of members.
pub open spec fn members_view(v: Seq<Member>) -> Seq<MemberView> {
    v.map_values(|m: Member| m@)
}

impl View for Bound {
    type V = BoundView;

    open spec fn view(&self) -> BoundView {
        match self {
            Bound::TraitName { segments } => BoundView::TraitName {
                segments: idents_view(segments@),
            },
            Bound::Other { text } => BoundView::Other { text: text@ },
        }
    }
}

impl View for GenericParam {
    type V = GenericParamView;

    open spec fn view(&self) -> GenericParamView {
        match self {
            GenericParam::Type { name, bounds } => GenericParamView::Type {
                name: name@,
                bounds: bounds_view(bounds@),
            },
            GenericParam::Other { text } => GenericParamView::Other { text: text@ },
        }
    }
}

impl View for Predicate {
    type V = PredicateView;

    open spec fn view(&self) -> PredicateView {
        match self {
            Predicate::Type { target, bounds } => PredicateView::Type {
                target: target@,
                bounds: bounds_view(bounds@),
            },
            Predicate::Other { text } => PredicateView::Other { text: text@ },
        }
    }
}

impl View for ReturnType {
    type V = ReturnTypeView;

    open spec fn view(&self) -> ReturnTypeView {
        match self {
            ReturnType::Default => ReturnTypeView::Default,
            ReturnType::Opaque { bounds } => ReturnTypeView::Opaque {
                bounds: bounds_view(bounds@),
            },
            ReturnType::Other { text } => ReturnTypeView::Other { text: text@ },
        }
    }
}

impl View for Signature {
    type V = SignatureView;

    open spec fn view(&self) -> SignatureView {
        SignatureView {
            head: self.head@,
            generics: params_view(self.generics@),
            inputs: self.inputs@,
            output: self.output@,
            where_clause: match self.where_clause {
                Some(preds) => Some(predicates_view(preds@)),
                None => None,
            },
        }
    }
}

impl View for FunctionDecl {
    type V = FunctionDeclView;

    open spec fn view(&self) -> FunctionDeclView {
        FunctionDeclView { attrs: self.attrs@, sig: self.sig@, body: self.body@ }
    }
}

impl View for Member {
    type V = MemberView;

    open spec fn view(&self) -> MemberView {
        match self {
            Member::Method(f) => MemberView::Method(f@),
            Member::Other { text } => MemberView::Other { text: text@ },
        }
    }
}

impl View for TraitDecl {
    type V = TraitDeclView;

    open spec fn view(&self) -> TraitDeclView {
        TraitDeclView {
            attrs: self.attrs@,
            head: self.head@,
            supertraits: bounds_view(self.supertraits@),
            members: members_view(self.members@),
        }
    }
}

impl View for ImplDecl {
    type V = ImplDeclView;

    open spec fn view(&self) -> ImplDeclView {
        ImplDeclView {
            attrs: self.attrs@,
            head: self.head@,
            members: members_view(self.members@),
        }
    }
}

impl View for Declaration {
    type V = DeclarationView;

    open spec fn view(&self) -> DeclarationView {
        match self {
            Declaration::Function(f) => DeclarationView::Function(f@),
            Declaration::Trait(t) => DeclarationView::Trait(t@),
            Declaration::Impl(i) => DeclarationView::Impl(i@),
        }
    }
}

impl View for MarkerSet {
    type V = Set<Seq<char>>;

    /// A marker set is viewed as the set of identifiers it lists.
    open spec fn view(&self) -> Set<Seq<char>> {
        Set::new(|x: Seq<char>| idents_view(self.idents@).contains(x))
    }
}

impl MarkerSet {
    /// The richest behaviour: both the `Send` and the `Sync` identifiers are
    /// eligible for removal.
    pub fn send_sync() -> (res: MarkerSet)
        ensures
            res@ == set!["Send"@, "Sync"@],
    {
        let mut idents: Vec<String> = Vec::new();
        idents.push(String::from_str("Send"));
        idents.push(String::from_str("Sync"));
        let res = MarkerSet { idents };
        proof {
            assert(idents_view(res.idents@) =~= seq!["Send"@, "Sync"@]);
            assert(res@ =~= set!["Send"@, "Sync"@]);
        }
        res
    }
}

} // verus!
