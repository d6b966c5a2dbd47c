use fred_macros::ast::Bound;
use fred_macros::ast::Declaration;
use fred_macros::ast::FunctionDecl;
use fred_macros::ast::GenericParam;
use fred_macros::ast::ImplDecl;
use fred_macros::ast::MarkerSet;
use fred_macros::ast::Member;
use fred_macros::ast::ParseOutcome;
use fred_macros::ast::Predicate;
use fred_macros::ast::ReturnType;
use fred_macros::ast::Signature;
use fred_macros::ast::TraitDecl;
use fred_macros::emit::passthrough;
use fred_macros::emit::rm_send_if;
use fred_macros::emit::wrap_cfg_attr;
use fred_macros::filter::declaration_mentions_marker;
use fred_macros::filter::rm_send;

fn s(text: &str) -> String {
    text.to_string()
}

fn trait_bound(name: &str) -> Bound {
    Bound::TraitName { segments: vec![s(name)] }
}

fn other_bound(text: &str) -> Bound {
    Bound::Other { text: s(text) }
}

fn type_param(name: &str, bounds: Vec<Bound>) -> GenericParam {
    GenericParam::Type { name: s(name), bounds }
}

fn predicate(target: &str, bounds: Vec<Bound>) -> Predicate {
    Predicate::Type { target: s(target), bounds }
}

fn only(name: &str) -> MarkerSet {
    MarkerSet { idents: vec![s(name)] }
}

fn filter(decl: Declaration, markers: &MarkerSet) -> Declaration {
    rm_send(ParseOutcome::Recognized(decl), markers).unwrap()
}

// pub async fn foo<R, A, B: Baz>(a: B, b: B) -> impl Future<Output = R> + Send
//   where R: Send, A: Foo + Send, B: Bar + Send + Sync
fn basic_send_sync_fn() -> Declaration {
    Declaration::Function(FunctionDecl {
        attrs: s(""),
        sig: Signature {
            head: s("pub async fn foo"),
            generics: vec![
                type_param("R", vec![]),
                type_param("A", vec![]),
                type_param("B", vec![trait_bound("Baz")]),
            ],
            inputs: s("(a: B, b: B)"),
            output: ReturnType::Opaque {
                bounds: vec![other_bound("Future<Output = R>"), trait_bound("Send")],
            },
            where_clause: Some(vec![
                predicate("R", vec![trait_bound("Send")]),
                predicate("A", vec![trait_bound("Foo"), trait_bound("Send")]),
                predicate(
                    "B",
                    vec![trait_bound("Bar"), trait_bound("Send"), trait_bound("Sync")],
                ),
            ]),
        },
        body: s("{ async move { Ok(()) } }"),
    })
}

#[test]
fn should_remove_basic_send_and_sync() {
    let modified = filter(basic_send_sync_fn(), &MarkerSet::send_sync());
    assert!(!declaration_mentions_marker(&modified, &only("Send")));
    assert!(!declaration_mentions_marker(&modified, &only("Sync")));
}

// pub async fn foo<R, A, B>(a: B, b: B) -> impl Future<Output = R> + Send
//   where R: Send, A: Into<Foo> + Send, B: Into<Bar> + Send
#[test]
fn should_remove_into_send() {
    let input = Declaration::Function(FunctionDecl {
        attrs: s(""),
        sig: Signature {
            head: s("pub async fn foo"),
            generics: vec![
                type_param("R", vec![]),
                type_param("A", vec![]),
                type_param("B", vec![]),
            ],
            inputs: s("(a: B, b: B)"),
            output: ReturnType::Opaque {
                bounds: vec![other_bound("Future<Output = R>"), trait_bound("Send")],
            },
            where_clause: Some(vec![
                predicate("R", vec![trait_bound("Send")]),
                predicate("A", vec![other_bound("Into<Foo>"), trait_bound("Send")]),
                predicate("B", vec![other_bound("Into<Bar>"), trait_bound("Send")]),
            ]),
        },
        body: s("{ async move { Ok(()) } }"),
    });
    let modified = filter(input, &MarkerSet::send_sync());
    assert!(!declaration_mentions_marker(&modified, &only("Send")));
}

// pub async fn foo<R, A, B>(a: B, b: B) -> impl Future<Output = Result<R>> + Send
//   where R: Send, A: TryInto<Foo> + Send, A::Error: Into<Error> + Send,
//         B: TryInto<Bar> + Send, B::Error: Into<Error> + Send
#[test]
fn should_remove_try_into_send() {
    let input = Declaration::Function(FunctionDecl {
        attrs: s(""),
        sig: Signature {
            head: s("pub async fn foo"),
            generics: vec![
                type_param("R", vec![]),
                type_param("A", vec![]),
                type_param("B", vec![]),
            ],
            inputs: s("(a: B, b: B)"),
            output: ReturnType::Opaque {
                bounds: vec![other_bound("Future<Output = Result<R>>"), trait_bound("Send")],
            },
            where_clause: Some(vec![
                predicate("R", vec![trait_bound("Send")]),
                predicate("A", vec![other_bound("TryInto<Foo>"), trait_bound("Send")]),
                predicate("A::Error", vec![other_bound("Into<Error>"), trait_bound("Send")]),
                predicate("B", vec![other_bound("TryInto<Bar>"), trait_bound("Send")]),
                predicate("B::Error", vec![other_bound("Into<Error>"), trait_bound("Send")]),
            ]),
        },
        body: s("{ async move { Ok(()) } }"),
    });
    let modified = filter(input, &MarkerSet::send_sync());
    assert!(!declaration_mentions_marker(&modified, &only("Send")));
}

// pub async fn foo<R, A, B, F>(a: B, b: B) -> impl Future<Output = Result<R>> + Send
//   where ..., F: Fn(()) -> Result<(), ()> + Send + 'static
#[test]
fn should_remove_fn_args_send() {
    let input = Declaration::Function(FunctionDecl {
        attrs: s(""),
        sig: Signature {
            head: s("pub async fn foo"),
            generics: vec![
                type_param("R", vec![]),
                type_param("A", vec![]),
                type_param("B", vec![]),
                type_param("F", vec![]),
            ],
            inputs: s("(a: B, b: B)"),
            output: ReturnType::Opaque {
                bounds: vec![other_bound("Future<Output = Result<R>>"), trait_bound("Send")],
            },
            where_clause: Some(vec![
                predicate("R", vec![trait_bound("Send")]),
                predicate("A", vec![other_bound("TryInto<Foo>"), trait_bound("Send")]),
                predicate("A::Error", vec![other_bound("Into<Error>"), trait_bound("Send")]),
                predicate("B", vec![other_bound("TryInto<Bar>"), trait_bound("Send")]),
                predicate("B::Error", vec![other_bound("Into<Error>"), trait_bound("Send")]),
                predicate(
                    "F",
                    vec![
                        other_bound("Fn(()) -> Result<(), ()>"),
                        trait_bound("Send"),
                        other_bound("'static"),
                    ],
                ),
            ]),
        },
        body: s("{ async move { Ok(()) } }"),
    });
    let modified = filter(input, &MarkerSet::send_sync());
    assert!(!declaration_mentions_marker(&modified, &only("Send")));
}

// impl T4 for Foo {
//   fn bar<A, B>(&self, _a: A, _b: B) -> impl Future<Output = ()> + Send
//     where A: T1 + Send, B: T2 + Send + Sync { ... }
// }
fn impl_with_marked_method() -> Declaration {
    Declaration::Impl(ImplDecl {
        attrs: s(""),
        head: s("impl T4 for Foo"),
        members: vec![Member::Method(FunctionDecl {
            attrs: s(""),
            sig: Signature {
                head: s("fn bar"),
                generics: vec![type_param("A", vec![]), type_param("B", vec![])],
                inputs: s("(&self, _a: A, _b: B)"),
                output: ReturnType::Opaque {
                    bounds: vec![other_bound("Future<Output = ()>"), trait_bound("Send")],
                },
                where_clause: Some(vec![
                    predicate("A", vec![trait_bound("T1"), trait_bound("Send")]),
                    predicate(
                        "B",
                        vec![trait_bound("T2"), trait_bound("Send"), trait_bound("Sync")],
                    ),
                ]),
            },
            body: s("{ async move { () } }"),
        })],
    })
}

#[test]
fn should_remove_trait_impl() {
    let modified = filter(impl_with_marked_method(), &MarkerSet::send_sync());
    assert!(!declaration_mentions_marker(&modified, &only("Send")));
}

// fn foo<A: T1 + Send, B: T2 + Send + Sync>() -> impl Future + Send where A: Send,
// with markers {Send, Sync}: the filtered form keeps `A: T1`, `B: T2`, drops
// `Send` from the return bounds, and leaves an empty bound list on the
// where-clause predicate for `A`.
fn generic_markers_fn() -> Declaration {
    Declaration::Function(FunctionDecl {
        attrs: s(""),
        sig: Signature {
            head: s("fn foo"),
            generics: vec![
                type_param("A", vec![trait_bound("T1"), trait_bound("Send")]),
                type_param(
                    "B",
                    vec![trait_bound("T2"), trait_bound("Send"), trait_bound("Sync")],
                ),
            ],
            inputs: s("()"),
            output: ReturnType::Opaque {
                bounds: vec![trait_bound("Future"), trait_bound("Send")],
            },
            where_clause: Some(vec![predicate("A", vec![trait_bound("Send")])]),
        },
        body: s("{ async move { () } }"),
    })
}

#[test]
fn filters_every_position_of_a_function() {
    let filtered = filter(generic_markers_fn(), &MarkerSet::send_sync());
    let expected = Declaration::Function(FunctionDecl {
        attrs: s(""),
        sig: Signature {
            head: s("fn foo"),
            generics: vec![
                type_param("A", vec![trait_bound("T1")]),
                type_param("B", vec![trait_bound("T2")]),
            ],
            inputs: s("()"),
            output: ReturnType::Opaque { bounds: vec![trait_bound("Future")] },
            where_clause: Some(vec![predicate("A", vec![])]),
        },
        body: s("{ async move { () } }"),
    });
    assert_eq!(filtered, expected);
}

#[test]
fn emits_filtered_copy_first_then_original_under_negation() {
    let out = rm_send_if(
        "feature = \"glommio\"",
        Some("fn foo<A: T1>() {}"),
        "fn foo<A: T1 + Send>() {}",
    );
    assert_eq!(
        out,
        "#[cfg(feature = \"glommio\")]\nfn foo<A: T1>() {}\n#[cfg(not(feature = \"glommio\"))]\nfn foo<A: T1 + Send>() {}",
    );
}

// A trait with supertraits `Clone + Send + Sync` and one documented default
// method using `Send` in its return type.
fn documented_trait() -> Declaration {
    Declaration::Trait(TraitDecl {
        attrs: s("/// Test trait documentation.\n"),
        head: s("pub trait T3"),
        supertraits: vec![trait_bound("Clone"), trait_bound("Send"), trait_bound("Sync")],
        members: vec![Member::Method(FunctionDecl {
            attrs: s("/// Test fn documentation\n"),
            sig: Signature {
                head: s("fn bar"),
                generics: vec![type_param("A", vec![]), type_param("B", vec![])],
                inputs: s("(&self, _a: A, _b: B)"),
                output: ReturnType::Opaque {
                    bounds: vec![other_bound("Future<Output = ()>"), trait_bound("Send")],
                },
                where_clause: Some(vec![
                    predicate("A", vec![trait_bound("T1"), trait_bound("Send")]),
                    predicate(
                        "B",
                        vec![trait_bound("T2"), trait_bound("Send"), trait_bound("Sync")],
                    ),
                ]),
            },
            body: s("{ async move { () } }"),
        })],
    })
}

#[test]
fn trait_supertraits_filtered_and_documentation_kept() {
    let original = documented_trait();
    let filtered = filter(documented_trait(), &MarkerSet::send_sync());
    let (orig_trait, filt_trait) = match (&original, &filtered) {
        (Declaration::Trait(o), Declaration::Trait(f)) => (o, f),
        _ => panic!("expected trait declarations"),
    };
    assert_eq!(filt_trait.supertraits, vec![trait_bound("Clone")]);
    let (orig_method, filt_method) = match (&orig_trait.members[0], &filt_trait.members[0]) {
        (Member::Method(o), Member::Method(f)) => (o, f),
        _ => panic!("expected methods"),
    };
    assert_eq!(
        filt_method.sig.output,
        ReturnType::Opaque { bounds: vec![other_bound("Future<Output = ()>")] },
    );
    // Documentation is identical on both copies, on the trait and the method.
    assert_eq!(filt_trait.attrs, orig_trait.attrs);
    assert_eq!(filt_method.attrs, orig_method.attrs);
    assert_eq!(filt_method.body, orig_method.body);
}

// An implementation block with two methods, only one of which has marker
// bounds: the untouched method is identical in the filtered copy.
#[test]
fn impl_only_marked_method_changes() {
    let plain_method = || {
        Member::Method(FunctionDecl {
            attrs: s(""),
            sig: Signature {
                head: s("fn plain"),
                generics: vec![],
                inputs: s("(&self)"),
                output: ReturnType::Other { text: s("-> u32") },
                where_clause: None,
            },
            body: s("{ 7 }"),
        })
    };
    let marked_method = || {
        Member::Method(FunctionDecl {
            attrs: s(""),
            sig: Signature {
                head: s("fn marked"),
                generics: vec![type_param("A", vec![trait_bound("T1"), trait_bound("Send")])],
                inputs: s("(&self, _a: A)"),
                output: ReturnType::Default,
                where_clause: None,
            },
            body: s("{}"),
        })
    };
    let make = || {
        Declaration::Impl(ImplDecl {
            attrs: s(""),
            head: s("impl Widget"),
            members: vec![marked_method(), plain_method()],
        })
    };
    let filtered = filter(make(), &MarkerSet::send_sync());
    let filt_impl = match &filtered {
        Declaration::Impl(i) => i,
        _ => panic!("expected an impl declaration"),
    };
    assert_eq!(filt_impl.members[1], plain_method());
    let expected_marked = Member::Method(FunctionDecl {
        attrs: s(""),
        sig: Signature {
            head: s("fn marked"),
            generics: vec![type_param("A", vec![trait_bound("T1")])],
            inputs: s("(&self, _a: A)"),
            output: ReturnType::Default,
            where_clause: None,
        },
        body: s("{}"),
    });
    assert_eq!(filt_impl.members[0], expected_marked);
}

// An unrecognized declaration kind passes through with no gates added.
#[test]
fn unrecognized_kind_passes_through_unchanged() {
    let markers = MarkerSet::send_sync();
    assert_eq!(rm_send(ParseOutcome::Unrecognized, &markers), None);
    let input = "pub struct Plain { field: u32 }";
    let out = rm_send_if("feature = \"glommio\"", None, input);
    assert_eq!(out, input);
    assert!(!out.contains("cfg"));
}

#[test]
fn filtering_twice_equals_filtering_once() {
    let markers = MarkerSet::send_sync();
    let once = filter(generic_markers_fn(), &markers);
    let twice = filter(filter(generic_markers_fn(), &markers), &markers);
    assert_eq!(twice, once);

    let once = filter(documented_trait(), &markers);
    let twice = filter(filter(documented_trait(), &markers), &markers);
    assert_eq!(twice, once);

    let once = filter(impl_with_marked_method(), &markers);
    let twice = filter(filter(impl_with_marked_method(), &markers), &markers);
    assert_eq!(twice, once);
}

#[test]
fn non_markers_keep_their_relative_order() {
    let input = Declaration::Function(FunctionDecl {
        attrs: s(""),
        sig: Signature {
            head: s("fn foo"),
            generics: vec![type_param(
                "A",
                vec![
                    trait_bound("T1"),
                    trait_bound("Send"),
                    trait_bound("T2"),
                    trait_bound("Sync"),
                    other_bound("'static"),
                ],
            )],
            inputs: s("()"),
            output: ReturnType::Default,
            where_clause: None,
        },
        body: s("{}"),
    });
    let filtered = filter(input, &MarkerSet::send_sync());
    let expected_param = type_param(
        "A",
        vec![trait_bound("T1"), trait_bound("T2"), other_bound("'static")],
    );
    match &filtered {
        Declaration::Function(f) => assert_eq!(f.sig.generics[0], expected_param),
        _ => panic!("expected a function declaration"),
    }
}

// The matching rule is syntactic: a qualified path is never removed, even
// when it names a marker trait.
#[test]
fn qualified_marker_path_is_kept() {
    let input = Declaration::Function(FunctionDecl {
        attrs: s(""),
        sig: Signature {
            head: s("fn foo"),
            generics: vec![type_param(
                "A",
                vec![
                    Bound::TraitName { segments: vec![s("marker"), s("Send")] },
                    trait_bound("Send"),
                ],
            )],
            inputs: s("()"),
            output: ReturnType::Default,
            where_clause: None,
        },
        body: s("{}"),
    });
    let filtered = filter(input, &MarkerSet::send_sync());
    let expected_param = type_param(
        "A",
        vec![Bound::TraitName { segments: vec![s("marker"), s("Send")] }],
    );
    match &filtered {
        Declaration::Function(f) => assert_eq!(f.sig.generics[0], expected_param),
        _ => panic!("expected a function declaration"),
    }
}

#[test]
fn marker_query_sees_markers_before_filtering() {
    let decl = basic_send_sync_fn();
    assert!(declaration_mentions_marker(&decl, &only("Send")));
    assert!(declaration_mentions_marker(&decl, &only("Sync")));
    assert!(!declaration_mentions_marker(&decl, &only("Unpin")));
}

#[test]
fn wrap_cfg_attr_exact_output() {
    let out = wrap_cfg_attr("test", "MODIFIED", "INPUT");
    assert_eq!(out, "#[cfg(test)]\nMODIFIED\n#[cfg(not(test))]\nINPUT");
}

#[test]
fn passthrough_returns_input_unchanged() {
    let input = s("#[weird] enum E { A, B }");
    assert_eq!(passthrough(input.clone()), "#[weird] enum E { A, B }");
}

#[test]
fn empty_marker_set_changes_nothing() {
    let markers = MarkerSet { idents: vec![] };
    let filtered = filter(basic_send_sync_fn(), &markers);
    assert_eq!(filtered, basic_send_sync_fn());
}
