use thin_delegate::derive_delegate_args::DeriveDelegateArgs;
use thin_delegate::gen::TraitData;
use thin_delegate::gen::gen_impl;
use thin_delegate::model::DelegateToArg;
use thin_delegate::model::Error;
use thin_delegate::model::Expr;
use thin_delegate::model::FieldDesignator;
use thin_delegate::model::FuncPath;
use thin_delegate::model::GenericArg;
use thin_delegate::model::GenericParam;
use thin_delegate::model::MatchArm;
use thin_delegate::model::MethodImpl;
use thin_delegate::model::MethodParam;
use thin_delegate::model::MethodSignature;
use thin_delegate::model::Pat;
use thin_delegate::model::ReceiverKind;
use thin_delegate::model::SchemeClosure;
use thin_delegate::model::SchemePat;
use thin_delegate::model::StructEnum;
use thin_delegate::model::TraitPath;
use thin_delegate::model::TypeExpr;
use thin_delegate::model::Variant;

fn s(x: &str) -> String {
    x.to_string()
}

fn ty(name: &str) -> TypeExpr {
    TypeExpr::Named { name: s(name), args: vec![] }
}

fn shared_ref(inner: TypeExpr) -> TypeExpr {
    TypeExpr::Reference { is_mut: false, lifetime: None, inner: Box::new(inner) }
}

fn default_args() -> DeriveDelegateArgs {
    DeriveDelegateArgs {
        external_trait_def: None,
        scheme: None,
        delegate_fn_with_default_impl: false,
    }
}

fn bare_path(name: &str) -> TraitPath {
    TraitPath { segments: vec![s(name)], args: vec![] }
}

/// `fn <name>(<receiver>) -> String;`
fn hello_sig(name: &str, receiver: ReceiverKind) -> MethodSignature {
    MethodSignature {
        name: s(name),
        receiver: Some(receiver),
        params: vec![],
        ret: Some(ty("String")),
        has_default_body: false,
    }
}

fn named_variant(variant: &str, field: &str) -> Variant {
    Variant {
        name: s(variant),
        fields: vec![FieldDesignator::Named { name: s(field) }],
        delegate_to: None,
    }
}

fn unnamed_variant(variant: &str) -> Variant {
    Variant {
        name: s(variant),
        fields: vec![FieldDesignator::Positional { index: 0 }],
        delegate_to: None,
    }
}

fn func(trait_path: TraitPath, method: &str) -> FuncPath {
    FuncPath { trait_path, method: s(method) }
}

fn call(fp: FuncPath, args: Vec<Expr>) -> Expr {
    Expr::Call { func: Box::new(Expr::Method { path: fp }), args }
}

fn path_expr(name: &str) -> Expr {
    Expr::Path { name: s(name) }
}

fn self_field(field: FieldDesignator) -> Expr {
    Expr::Field { base: Box::new(path_expr("self")), field }
}

fn gen_one(
    args: &DeriveDelegateArgs,
    trait_path: TraitPath,
    generics: Vec<GenericParam>,
    sigs: Vec<MethodSignature>,
    target: StructEnum,
    already: Vec<String>,
) -> Result<Vec<MethodImpl>, Error> {
    let trait_data = TraitData::new(args, trait_path, generics, sigs);
    gen_impl(args, &trait_data, &target, &already)
}

#[test]
fn enum_dispatch() {
    // trait Hello { fn hello(&self) -> String; } for
    // enum Hoge { Named { named: String }, Unnamed(char) }.
    let got = gen_one(
        &default_args(),
        bare_path("Hello"),
        vec![],
        vec![hello_sig("hello", ReceiverKind::Ref)],
        StructEnum::Enum {
            name: s("Hoge"),
            variants: vec![named_variant("Named", "named"), unnamed_variant("Unnamed")],
        },
        vec![],
    )
    .unwrap();
    let expected = vec![MethodImpl {
        sig: hello_sig("hello", ReceiverKind::Ref),
        body: Expr::MatchSelf {
            arms: vec![
                MatchArm {
                    pat: Pat::VariantNamed { variant: s("Named"), field: s("named") },
                    body: call(func(bare_path("Hello"), "hello"), vec![path_expr("named")]),
                },
                MatchArm {
                    pat: Pat::VariantPositional { variant: s("Unnamed"), binder: s("x") },
                    body: call(func(bare_path("Hello"), "hello"), vec![path_expr("x")]),
                },
            ],
        },
    }];
    assert_eq!(got, expected);
}

#[test]
fn enum_ref_mut_receiver() {
    let got = gen_one(
        &default_args(),
        bare_path("Hello"),
        vec![],
        vec![hello_sig("hello", ReceiverKind::MutRef)],
        StructEnum::Enum {
            name: s("Hoge"),
            variants: vec![named_variant("Named", "named"), unnamed_variant("Unnamed")],
        },
        vec![],
    )
    .unwrap();
    // The dispatch arms bind the payload and forward it as it stands.
    assert_eq!(got.len(), 1);
    assert_eq!(got[0].sig, hello_sig("hello", ReceiverKind::MutRef));
    match &got[0].body {
        Expr::MatchSelf { arms } => {
            assert_eq!(arms.len(), 2);
            assert_eq!(
                arms[0].body,
                call(func(bare_path("Hello"), "hello"), vec![path_expr("named")])
            );
            assert_eq!(
                arms[1].body,
                call(func(bare_path("Hello"), "hello"), vec![path_expr("x")])
            );
        }
        other => panic!("expected dispatch, got {:?}", other),
    }
}

#[test]
fn enum_consume_receiver() {
    let got = gen_one(
        &default_args(),
        bare_path("Hello"),
        vec![],
        vec![hello_sig("hello", ReceiverKind::Value)],
        StructEnum::Enum {
            name: s("Hoge"),
            variants: vec![named_variant("Named", "named"), unnamed_variant("Unnamed")],
        },
        vec![],
    )
    .unwrap();
    assert_eq!(got[0].sig, hello_sig("hello", ReceiverKind::Value));
    match &got[0].body {
        Expr::MatchSelf { arms } => assert_eq!(arms.len(), 2),
        other => panic!("expected dispatch, got {:?}", other),
    }
}

#[test]
fn struct_with_named_field() {
    // trait Hello { fn hello(&self) -> String; } for struct Hoge { s: String }:
    // the body calls Hello::hello(&self.s).
    let got = gen_one(
        &default_args(),
        bare_path("Hello"),
        vec![],
        vec![hello_sig("hello", ReceiverKind::Ref)],
        StructEnum::Struct {
            name: s("Hoge"),
            fields: vec![FieldDesignator::Named { name: s("s") }],
        },
        vec![],
    )
    .unwrap();
    let expected = vec![MethodImpl {
        sig: hello_sig("hello", ReceiverKind::Ref),
        body: call(
            func(bare_path("Hello"), "hello"),
            vec![Expr::Reference {
                is_mut: false,
                inner: Box::new(self_field(FieldDesignator::Named { name: s("s") })),
            }],
        ),
    }];
    assert_eq!(got, expected);
}

#[test]
fn struct_with_unnamed_field() {
    // struct Hoge(String): the body calls Hello::hello(&self.0).
    let got = gen_one(
        &default_args(),
        bare_path("Hello"),
        vec![],
        vec![hello_sig("hello", ReceiverKind::Ref)],
        StructEnum::Struct {
            name: s("Hoge"),
            fields: vec![FieldDesignator::Positional { index: 0 }],
        },
        vec![],
    )
    .unwrap();
    let expected_body = call(
        func(bare_path("Hello"), "hello"),
        vec![Expr::Reference {
            is_mut: false,
            inner: Box::new(self_field(FieldDesignator::Positional { index: 0 })),
        }],
    );
    assert_eq!(got[0].body, expected_body);
}

#[test]
fn struct_ref_mut_receiver() {
    let got = gen_one(
        &default_args(),
        bare_path("Hello"),
        vec![],
        vec![hello_sig("hello", ReceiverKind::MutRef)],
        StructEnum::Struct {
            name: s("Hoge"),
            fields: vec![FieldDesignator::Named { name: s("s") }],
        },
        vec![],
    )
    .unwrap();
    let expected_body = call(
        func(bare_path("Hello"), "hello"),
        vec![Expr::Reference {
            is_mut: true,
            inner: Box::new(self_field(FieldDesignator::Named { name: s("s") })),
        }],
    );
    assert_eq!(got[0].body, expected_body);
}

#[test]
fn struct_consume_receiver() {
    // fn hello(self): the receiver expression carries no prefix.
    let got = gen_one(
        &default_args(),
        bare_path("Hello"),
        vec![],
        vec![hello_sig("hello", ReceiverKind::Value)],
        StructEnum::Struct {
            name: s("Hoge"),
            fields: vec![FieldDesignator::Named { name: s("s") }],
        },
        vec![],
    )
    .unwrap();
    let expected_body = call(
        func(bare_path("Hello"), "hello"),
        vec![self_field(FieldDesignator::Named { name: s("s") })],
    );
    assert_eq!(got[0].body, expected_body);
}

#[test]
fn method_with_args() {
    // trait Hello { fn hello(&self, prefix: &str) -> String; } for
    // enum Hoge { A(String), B(char) }: each arm appends `prefix`.
    let sig = MethodSignature {
        name: s("hello"),
        receiver: Some(ReceiverKind::Ref),
        params: vec![MethodParam { name: s("prefix"), param_type: shared_ref(ty("str")) }],
        ret: Some(ty("String")),
        has_default_body: false,
    };
    let got = gen_one(
        &default_args(),
        bare_path("Hello"),
        vec![],
        vec![sig.clone()],
        StructEnum::Enum {
            name: s("Hoge"),
            variants: vec![unnamed_variant("A"), unnamed_variant("B")],
        },
        vec![],
    )
    .unwrap();
    let expected = vec![MethodImpl {
        sig,
        body: Expr::MatchSelf {
            arms: vec![
                MatchArm {
                    pat: Pat::VariantPositional { variant: s("A"), binder: s("x") },
                    body: call(
                        func(bare_path("Hello"), "hello"),
                        vec![path_expr("x"), path_expr("prefix")],
                    ),
                },
                MatchArm {
                    pat: Pat::VariantPositional { variant: s("B"), binder: s("x") },
                    body: call(
                        func(bare_path("Hello"), "hello"),
                        vec![path_expr("x"), path_expr("prefix")],
                    ),
                },
            ],
        },
    }];
    assert_eq!(got, expected);
}

#[test]
fn generics_struct() {
    // trait AsRef<T> { fn as_ref(&self) -> &T; } at AsRef<str> for
    // struct Hoge { s: String }: every occurrence of T in the emitted
    // method's types is replaced by str.
    let instantiated = TraitPath {
        segments: vec![s("AsRef")],
        args: vec![GenericArg::Type { type_expr: ty("str") }],
    };
    let sig = MethodSignature {
        name: s("as_ref"),
        receiver: Some(ReceiverKind::Ref),
        params: vec![],
        ret: Some(shared_ref(ty("T"))),
        has_default_body: false,
    };
    let got = gen_one(
        &default_args(),
        instantiated.clone(),
        vec![GenericParam::Type { name: s("T") }],
        vec![sig],
        StructEnum::Struct {
            name: s("Hoge"),
            fields: vec![FieldDesignator::Named { name: s("s") }],
        },
        vec![],
    )
    .unwrap();
    let expected = vec![MethodImpl {
        sig: MethodSignature {
            name: s("as_ref"),
            receiver: Some(ReceiverKind::Ref),
            params: vec![],
            ret: Some(shared_ref(ty("str"))),
            has_default_body: false,
        },
        body: call(
            func(instantiated, "as_ref"),
            vec![Expr::Reference {
                is_mut: false,
                inner: Box::new(self_field(FieldDesignator::Named { name: s("s") })),
            }],
        ),
    }];
    assert_eq!(got, expected);
}

#[test]
fn generics_enum() {
    // The same instantiation dispatched over enum Hoge { A(String), B(char) }.
    let instantiated = TraitPath {
        segments: vec![s("AsRef")],
        args: vec![GenericArg::Type { type_expr: ty("str") }],
    };
    let sig = MethodSignature {
        name: s("as_ref"),
        receiver: Some(ReceiverKind::Ref),
        params: vec![],
        ret: Some(shared_ref(ty("T"))),
        has_default_body: false,
    };
    let got = gen_one(
        &default_args(),
        instantiated.clone(),
        vec![GenericParam::Type { name: s("T") }],
        vec![sig],
        StructEnum::Enum {
            name: s("Hoge"),
            variants: vec![unnamed_variant("A"), unnamed_variant("B")],
        },
        vec![],
    )
    .unwrap();
    assert_eq!(got.len(), 1);
    assert_eq!(got[0].sig.ret, Some(shared_ref(ty("str"))));
    match &got[0].body {
        Expr::MatchSelf { arms } => {
            assert_eq!(arms.len(), 2);
            assert_eq!(
                arms[0].body,
                call(func(instantiated.clone(), "as_ref"), vec![path_expr("x")])
            );
        }
        other => panic!("expected dispatch, got {:?}", other),
    }
}

#[test]
fn items_in_impl() {
    // Methods the user already implemented are never overwritten, and
    // methods with a default body are skipped under the default policy.
    let sigs = vec![
        hello_sig("filled", ReceiverKind::Ref),
        hello_sig("override_", ReceiverKind::Ref),
        MethodSignature { has_default_body: true, ..hello_sig("skipped", ReceiverKind::Ref) },
    ];
    let got = gen_one(
        &default_args(),
        bare_path("Hello"),
        vec![],
        sigs,
        StructEnum::Struct {
            name: s("Hoge"),
            fields: vec![FieldDesignator::Positional { index: 0 }],
        },
        vec![s("override_")],
    )
    .unwrap();
    assert_eq!(got.len(), 1);
    assert_eq!(got[0].sig.name, s("filled"));
}

#[test]
fn delegate_fn_with_default_impl() {
    // With the policy flag set, a method with a default body is filled too.
    let mut args = default_args();
    args.delegate_fn_with_default_impl = true;
    let got = gen_one(
        &args,
        bare_path("Hello"),
        vec![],
        vec![MethodSignature {
            has_default_body: true,
            ..hello_sig("skipped_if_fn_has_default_impl", ReceiverKind::Ref)
        }],
        StructEnum::Struct {
            name: s("Hoge"),
            fields: vec![FieldDesignator::Positional { index: 0 }],
        },
        vec![],
    )
    .unwrap();
    assert_eq!(got.len(), 1);
    assert_eq!(got[0].sig.name, s("skipped_if_fn_has_default_impl"));
}

fn scheme_args(template: Expr) -> DeriveDelegateArgs {
    DeriveDelegateArgs {
        external_trait_def: None,
        scheme: Some(SchemeClosure {
            has_lifetimes: false,
            has_constness: false,
            has_movability: false,
            has_asyncness: false,
            has_capture: false,
            inputs: vec![SchemePat::Ident {
                has_attrs: false,
                has_by_ref: false,
                has_mut: false,
                has_subpat: false,
                name: s("f"),
            }],
            body: template,
        }),
        delegate_fn_with_default_impl: false,
    }
}

#[test]
fn scheme() {
    // scheme = |f| f(&self.key()) with fn hello(&self, prefix: &str):
    // the emitted body is Hello::hello(&self.key(), prefix).
    let template = Expr::Call {
        func: Box::new(path_expr("f")),
        args: vec![Expr::Reference {
            is_mut: false,
            inner: Box::new(Expr::Opaque { text: s("self.key()") }),
        }],
    };
    let args = scheme_args(template);
    let sig = MethodSignature {
        name: s("hello"),
        receiver: Some(ReceiverKind::Ref),
        params: vec![MethodParam { name: s("prefix"), param_type: shared_ref(ty("str")) }],
        ret: Some(ty("String")),
        has_default_body: false,
    };
    let got = gen_one(
        &args,
        bare_path("Hello"),
        vec![],
        vec![sig.clone()],
        StructEnum::Struct {
            name: s("Hoge"),
            fields: vec![FieldDesignator::Positional { index: 0 }],
        },
        vec![],
    )
    .unwrap();
    let expected = vec![MethodImpl {
        sig,
        body: call(
            func(bare_path("Hello"), "hello"),
            vec![
                Expr::Reference {
                    is_mut: false,
                    inner: Box::new(Expr::Opaque { text: s("self.key()") }),
                },
                path_expr("prefix"),
            ],
        ),
    }];
    assert_eq!(got, expected);
}

#[test]
fn scheme_enum() {
    // scheme = |f| match self { Self::A(v) => f(&v.to_string()), Self::B(c) => f(c) }.
    let template = Expr::MatchSelf {
        arms: vec![
            MatchArm {
                pat: Pat::Opaque { text: s("Self::A(v)") },
                body: Expr::Call {
                    func: Box::new(path_expr("f")),
                    args: vec![Expr::Reference {
                        is_mut: false,
                        inner: Box::new(Expr::Opaque { text: s("v.to_string()") }),
                    }],
                },
            },
            MatchArm {
                pat: Pat::Opaque { text: s("Self::B(c)") },
                body: Expr::Call { func: Box::new(path_expr("f")), args: vec![path_expr("c")] },
            },
        ],
    };
    let args = scheme_args(template);
    let sig = MethodSignature {
        name: s("hello"),
        receiver: Some(ReceiverKind::Ref),
        params: vec![MethodParam { name: s("prefix"), param_type: shared_ref(ty("str")) }],
        ret: Some(ty("String")),
        has_default_body: false,
    };
    let got = gen_one(
        &args,
        bare_path("Hello"),
        vec![],
        vec![sig],
        StructEnum::Enum {
            name: s("Hoge"),
            variants: vec![unnamed_variant("A"), unnamed_variant("B")],
        },
        vec![],
    )
    .unwrap();
    let expected_body = Expr::MatchSelf {
        arms: vec![
            MatchArm {
                pat: Pat::Opaque { text: s("Self::A(v)") },
                body: call(
                    func(bare_path("Hello"), "hello"),
                    vec![
                        Expr::Reference {
                            is_mut: false,
                            inner: Box::new(Expr::Opaque { text: s("v.to_string()") }),
                        },
                        path_expr("prefix"),
                    ],
                ),
            },
            MatchArm {
                pat: Pat::Opaque { text: s("Self::B(c)") },
                body: call(
                    func(bare_path("Hello"), "hello"),
                    vec![path_expr("c"), path_expr("prefix")],
                ),
            },
        ],
    };
    assert_eq!(got[0].body, expected_body);
}

#[test]
fn variant_with_two_fields_rejected() {
    // A variant with two payload fields fails with InvalidFieldArity and
    // nothing is generated for the whole request.
    let bad = Variant {
        name: s("Pair"),
        fields: vec![
            FieldDesignator::Positional { index: 0 },
            FieldDesignator::Positional { index: 1 },
        ],
        delegate_to: None,
    };
    let got = gen_one(
        &default_args(),
        bare_path("Hello"),
        vec![],
        vec![hello_sig("hello", ReceiverKind::Ref)],
        StructEnum::Enum { name: s("Hoge"), variants: vec![unnamed_variant("A"), bad] },
        vec![],
    );
    assert_eq!(got.unwrap_err(), Error::InvalidFieldArity { construct: s("Pair"), found: 2 });
}

#[test]
fn struct_with_two_fields_rejected() {
    let got = gen_one(
        &default_args(),
        bare_path("Hello"),
        vec![],
        vec![hello_sig("hello", ReceiverKind::Ref)],
        StructEnum::Struct {
            name: s("Hoge"),
            fields: vec![
                FieldDesignator::Named { name: s("a") },
                FieldDesignator::Named { name: s("b") },
            ],
        },
        vec![],
    );
    assert_eq!(got.unwrap_err(), Error::InvalidFieldArity { construct: s("Hoge"), found: 2 });
}

#[test]
fn missing_receiver_rejected() {
    // A method without a receiver names itself in the failure.
    let sig = MethodSignature {
        name: s("hello"),
        receiver: None,
        params: vec![],
        ret: Some(ty("String")),
        has_default_body: false,
    };
    let got = gen_one(
        &default_args(),
        bare_path("Hello"),
        vec![],
        vec![sig],
        StructEnum::Struct {
            name: s("Hoge"),
            fields: vec![FieldDesignator::Positional { index: 0 }],
        },
        vec![],
    );
    assert_eq!(got.unwrap_err(), Error::MissingReceiver { method: s("hello") });
}

#[test]
fn unsupported_receiver_rejected() {
    // A smart-pointer-like receiver is rejected, never approximated.
    let sig = MethodSignature {
        name: s("hello"),
        receiver: Some(ReceiverKind::Explicit { text: s("self: Box<Self>") }),
        params: vec![],
        ret: Some(ty("String")),
        has_default_body: false,
    };
    let got = gen_one(
        &default_args(),
        bare_path("Hello"),
        vec![],
        vec![sig],
        StructEnum::Struct {
            name: s("Hoge"),
            fields: vec![FieldDesignator::Positional { index: 0 }],
        },
        vec![],
    );
    assert_eq!(got.unwrap_err(), Error::UnsupportedReceiver { method: s("hello") });
}

#[test]
fn custom_extraction() {
    // A variant with a custom extraction forwards the template applied to
    // the payload binder instead of the payload itself.
    let v = Variant::new(
        s("A"),
        vec![FieldDesignator::Positional { index: 0 }],
        vec![DelegateToArg {
            ident: s("x"),
            expr: Expr::Reference {
                is_mut: false,
                inner: Box::new(Expr::Field {
                    base: Box::new(path_expr("x")),
                    field: FieldDesignator::Positional { index: 0 },
                }),
            },
        }],
    )
    .unwrap();
    let got = gen_one(
        &default_args(),
        bare_path("Hello"),
        vec![],
        vec![hello_sig("hello", ReceiverKind::Ref)],
        StructEnum::Enum { name: s("Hoge"), variants: vec![v] },
        vec![],
    )
    .unwrap();
    let expected_body = Expr::MatchSelf {
        arms: vec![MatchArm {
            pat: Pat::VariantPositional { variant: s("A"), binder: s("x") },
            body: call(
                func(bare_path("Hello"), "hello"),
                vec![Expr::Reference {
                    is_mut: false,
                    inner: Box::new(Expr::Field {
                        base: Box::new(path_expr("x")),
                        field: FieldDesignator::Positional { index: 0 },
                    }),
                }],
            ),
        }],
    };
    assert_eq!(got[0].body, expected_body);
}

#[test]
fn duplicate_custom_extraction_rejected() {
    let d = DelegateToArg { ident: s("x"), expr: path_expr("x") };
    let r = Variant::new(
        s("A"),
        vec![FieldDesignator::Positional { index: 0 }],
        vec![d.clone(), d],
    );
    assert_eq!(r.unwrap_err(), Error::DuplicateCustomExtraction { variant: s("A") });
}

#[test]
fn invalid_scheme_fails_generation() {
    // A malformed scheme is rejected before any method is synthesized.
    let mut args = scheme_args(path_expr("f"));
    if let Some(ref mut c) = args.scheme {
        c.has_asyncness = true;
    }
    let got = gen_one(
        &args,
        bare_path("Hello"),
        vec![],
        vec![hello_sig("hello", ReceiverKind::Ref)],
        StructEnum::Struct {
            name: s("Hoge"),
            fields: vec![FieldDesignator::Positional { index: 0 }],
        },
        vec![],
    );
    assert!(matches!(got, Err(Error::InvalidSchemeShape { .. })));
}

#[test]
fn empty_trait_yields_no_methods() {
    let got = gen_one(
        &default_args(),
        bare_path("Hello"),
        vec![],
        vec![],
        StructEnum::Struct {
            name: s("Hoge"),
            fields: vec![FieldDesignator::Positional { index: 0 }],
        },
        vec![],
    )
    .unwrap();
    assert!(got.is_empty());
}

#[test]
fn all_methods_already_implemented() {
    let got = gen_one(
        &default_args(),
        bare_path("Hello"),
        vec![],
        vec![hello_sig("hello", ReceiverKind::Ref)],
        StructEnum::Struct {
            name: s("Hoge"),
            fields: vec![FieldDesignator::Positional { index: 0 }],
        },
        vec![s("hello")],
    )
    .unwrap();
    assert!(got.is_empty());
}

#[test]
fn defaulted_method_skipped_at_generation() {
    // Even when the trait data still carries a defaulted method (as a
    // store that keeps every method hands it over), the synthesizer itself
    // skips it under the default policy.
    let trait_data = TraitData {
        trait_path: bare_path("Hello"),
        generics: vec![],
        sigs: vec![
            hello_sig("plain", ReceiverKind::Ref),
            MethodSignature { has_default_body: true, ..hello_sig("defaulted", ReceiverKind::Ref) },
        ],
    };
    let got = gen_impl(
        &default_args(),
        &trait_data,
        &StructEnum::Struct {
            name: s("Hoge"),
            fields: vec![FieldDesignator::Positional { index: 0 }],
        },
        &vec![],
    )
    .unwrap();
    assert_eq!(got.len(), 1);
    assert_eq!(got[0].sig.name, s("plain"));
}
