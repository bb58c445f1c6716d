use thin_delegate::derive_delegate_args::DeriveDelegateArgs;
use thin_delegate::fill_delegate;
use thin_delegate::fn_call_replacer::replace_fn_call_in_expr;
use thin_delegate::gen::FnIngredient;
use thin_delegate::gen::TraitData;
use thin_delegate::ident_replacer::replace_ident_in_expr;
use thin_delegate::model::Error;
use thin_delegate::model::Expr;
use thin_delegate::model::FieldDesignator;
use thin_delegate::model::FuncPath;
use thin_delegate::model::MatchArm;
use thin_delegate::model::MethodSignature;
use thin_delegate::model::Pat;
use thin_delegate::model::ReceiverKind;
use thin_delegate::model::StructEnum;
use thin_delegate::model::TraitPath;
use thin_delegate::model::TypeExpr;
use thin_delegate::register;
use thin_delegate::storage::Storage;
use thin_delegate::util::trim_generic_param;

fn s(x: &str) -> String {
    x.to_string()
}

fn ty(name: &str) -> TypeExpr {
    TypeExpr::Named { name: s(name), args: vec![] }
}

fn bare_path(name: &str) -> TraitPath {
    TraitPath { segments: vec![s(name)], args: vec![] }
}

fn default_args() -> DeriveDelegateArgs {
    DeriveDelegateArgs {
        external_trait_def: None,
        scheme: None,
        delegate_fn_with_default_impl: false,
    }
}

fn hello_sig(receiver: ReceiverKind) -> MethodSignature {
    MethodSignature {
        name: s("hello"),
        receiver: Some(receiver),
        params: vec![],
        ret: Some(ty("String")),
        has_default_body: false,
    }
}

fn hello_trait() -> TraitData {
    TraitData::new(
        &default_args(),
        bare_path("Hello"),
        vec![],
        vec![hello_sig(ReceiverKind::Ref)],
    )
}

fn path_expr(name: &str) -> Expr {
    Expr::Path { name: s(name) }
}

fn call_path(name: &str, args: Vec<Expr>) -> Expr {
    Expr::Call { func: Box::new(path_expr(name)), args }
}

fn call_method(fp: FuncPath, args: Vec<Expr>) -> Expr {
    Expr::Call { func: Box::new(Expr::Method { path: fp }), args }
}

#[test]
fn store_and_get() {
    let mut storage = Storage::global();
    let td = hello_trait();
    assert!(storage.store(&bare_path("Hello"), &td).is_ok());
    let got = storage.get(&bare_path("Hello")).unwrap();
    assert_eq!(got.sigs, td.sigs);
    assert!(storage.get(&bare_path("Other")).is_none());
}

#[test]
fn get_ignores_generic_arguments() {
    // A trait registered under its bare name is found by an instantiated
    // request: the key strips the generic-argument suffix.
    let mut storage = Storage::global();
    let td = hello_trait();
    assert!(storage.store(&bare_path("Hello"), &td).is_ok());
    let instantiated = TraitPath {
        segments: vec![s("Hello")],
        args: vec![thin_delegate::model::GenericArg::Type { type_expr: ty("str") }],
    };
    assert!(storage.get(&instantiated).is_some());
}

#[test]
fn store_conflict() {
    let mut storage = Storage::global();
    let td = hello_trait();
    assert!(storage.store(&bare_path("Hello"), &td).is_ok());
    let r = storage.store(&bare_path("Hello"), &td);
    assert_eq!(r.unwrap_err(), Error::NameConflict { name: s("Hello") });
    assert_eq!(
        Error::NameConflict { name: s("Hello") }.message(),
        s("type name conflicted, already registered")
    );
}

#[test]
fn register_validates() {
    // Registration checks every method signature: a receiver-less method
    // is reported and nothing is stored.
    let mut storage = Storage::global();
    let bad = TraitData::new(
        &default_args(),
        bare_path("Hello"),
        vec![],
        vec![MethodSignature {
            name: s("hello"),
            receiver: None,
            params: vec![],
            ret: None,
            has_default_body: false,
        }],
    );
    let r = register(&mut storage, &bare_path("Hello"), &bad);
    assert_eq!(r.unwrap_err(), Error::MissingReceiver { method: s("hello") });
    assert!(storage.get(&bare_path("Hello")).is_none());

    let good = hello_trait();
    assert!(register(&mut storage, &bare_path("Hello"), &good).is_ok());
    assert!(storage.get(&bare_path("Hello")).is_some());
}

#[test]
fn fill_delegate_unresolved() {
    let mut storage = Storage::global();
    let r = fill_delegate(
        &mut storage,
        &default_args(),
        &bare_path("Hello"),
        &StructEnum::Struct {
            name: s("Hoge"),
            fields: vec![FieldDesignator::Positional { index: 0 }],
        },
        &vec![],
    );
    assert_eq!(r.unwrap_err(), Error::UnresolvedInterface { name: s("Hello") });
}

#[test]
fn fill_delegate_end_to_end() {
    // Register, then generate: the struct target receives the forwarding
    // body for the one registered method.
    let mut storage = Storage::global();
    assert!(register(&mut storage, &bare_path("Hello"), &hello_trait()).is_ok());
    let got = fill_delegate(
        &mut storage,
        &default_args(),
        &bare_path("Hello"),
        &StructEnum::Struct {
            name: s("Hoge"),
            fields: vec![FieldDesignator::Named { name: s("s") }],
        },
        &vec![],
    )
    .unwrap();
    assert_eq!(got.len(), 1);
    let expected_body = call_method(
        FuncPath { trait_path: bare_path("Hello"), method: s("hello") },
        vec![Expr::Reference {
            is_mut: false,
            inner: Box::new(Expr::Field {
                base: Box::new(path_expr("self")),
                field: FieldDesignator::Named { name: s("s") },
            }),
        }],
    );
    assert_eq!(got[0].body, expected_body);
}

#[test]
fn trim_generic_param_strips_arguments() {
    let instantiated = TraitPath {
        segments: vec![s("mod_a"), s("Hello")],
        args: vec![thin_delegate::model::GenericArg::Type { type_expr: ty("str") }],
    };
    let trimmed = trim_generic_param(&instantiated);
    assert_eq!(trimmed.segments, vec![s("mod_a"), s("Hello")]);
    assert!(trimmed.args.is_empty());
}

#[test]
fn receiver_prefix() {
    let fi = |receiver: ReceiverKind| FnIngredient {
        trait_path: bare_path("Hello"),
        sig: hello_sig(receiver),
    };
    assert_eq!(fi(ReceiverKind::Value).receiver_prefix().unwrap(), s(""));
    assert_eq!(fi(ReceiverKind::Ref).receiver_prefix().unwrap(), s("&"));
    assert_eq!(fi(ReceiverKind::MutRef).receiver_prefix().unwrap(), s("&mut"));
    let bad = FnIngredient {
        trait_path: bare_path("Hello"),
        sig: MethodSignature {
            name: s("hello"),
            receiver: Some(ReceiverKind::Explicit { text: s("self: Rc<Self>") }),
            params: vec![],
            ret: None,
            has_default_body: false,
        },
    };
    assert_eq!(
        bad.receiver_prefix().unwrap_err(),
        Error::UnsupportedReceiver { method: s("hello") }
    );
}

#[test]
fn fn_ingredient_args() {
    let fi = FnIngredient {
        trait_path: bare_path("Hello"),
        sig: MethodSignature {
            name: s("hello"),
            receiver: Some(ReceiverKind::Ref),
            params: vec![
                thin_delegate::model::MethodParam { name: s("a"), param_type: ty("usize") },
                thin_delegate::model::MethodParam { name: s("b"), param_type: ty("u8") },
            ],
            ret: None,
            has_default_body: false,
        },
    };
    assert_eq!(fi.args(), vec![s("a"), s("b")]);
}

fn hello_fp() -> FuncPath {
    FuncPath { trait_path: bare_path("Hello"), method: s("hello") }
}

#[test]
fn no_args() {
    // f(self.key()) becomes Hello::hello(self.key()).
    let target = call_path("f", vec![Expr::Opaque { text: s("self.key()") }]);
    let got = replace_fn_call_in_expr(&s("f"), &hello_fp(), &vec![], &target);
    assert_eq!(got, call_method(hello_fp(), vec![Expr::Opaque { text: s("self.key()") }]));
}

#[test]
fn with_args() {
    // f(self.key()) with extra arguments a, b becomes
    // Hello::hello(self.key(), a, b).
    let target = call_path("f", vec![Expr::Opaque { text: s("self.key()") }]);
    let got = replace_fn_call_in_expr(
        &s("f"),
        &hello_fp(),
        &vec![path_expr("a"), path_expr("b")],
        &target,
    );
    assert_eq!(
        got,
        call_method(
            hello_fp(),
            vec![Expr::Opaque { text: s("self.key()") }, path_expr("a"), path_expr("b")],
        )
    );
}

#[test]
fn multiple_times() {
    // Every placeholder call in a dispatch template is rewritten.
    let target = Expr::MatchSelf {
        arms: vec![
            MatchArm {
                pat: Pat::Opaque { text: s("Self::A(v)") },
                body: call_path(
                    "f",
                    vec![Expr::Reference {
                        is_mut: false,
                        inner: Box::new(Expr::Opaque { text: s("v.trim()") }),
                    }],
                ),
            },
            MatchArm {
                pat: Pat::Opaque { text: s("Self::B(c)") },
                body: call_path("f", vec![path_expr("c")]),
            },
        ],
    };
    let got = replace_fn_call_in_expr(&s("f"), &hello_fp(), &vec![path_expr("a")], &target);
    let expected = Expr::MatchSelf {
        arms: vec![
            MatchArm {
                pat: Pat::Opaque { text: s("Self::A(v)") },
                body: call_method(
                    hello_fp(),
                    vec![
                        Expr::Reference {
                            is_mut: false,
                            inner: Box::new(Expr::Opaque { text: s("v.trim()") }),
                        },
                        path_expr("a"),
                    ],
                ),
            },
            MatchArm {
                pat: Pat::Opaque { text: s("Self::B(c)") },
                body: call_method(hello_fp(), vec![path_expr("c"), path_expr("a")]),
            },
        ],
    };
    assert_eq!(got, expected);
}

#[test]
fn name_conflict() {
    // The rewriting does not care about name conflicts: a binder that
    // shadows the appended argument's name is left alone.
    let target = Expr::MatchSelf {
        arms: vec![
            MatchArm {
                pat: Pat::Opaque { text: s("Self::A(a)") },
                body: call_path("f", vec![path_expr("a")]),
            },
            MatchArm {
                pat: Pat::Opaque { text: s("Self::B(b)") },
                body: call_path("f", vec![path_expr("b")]),
            },
        ],
    };
    let got = replace_fn_call_in_expr(&s("f"), &hello_fp(), &vec![path_expr("a")], &target);
    let expected = Expr::MatchSelf {
        arms: vec![
            MatchArm {
                pat: Pat::Opaque { text: s("Self::A(a)") },
                body: call_method(hello_fp(), vec![path_expr("a"), path_expr("a")]),
            },
            MatchArm {
                pat: Pat::Opaque { text: s("Self::B(b)") },
                body: call_method(hello_fp(), vec![path_expr("b"), path_expr("a")]),
            },
        ],
    };
    assert_eq!(got, expected);
}

#[test]
fn ref_0() {
    // x -> y in &x.0 gives &y.0.
    let target = Expr::Reference {
        is_mut: false,
        inner: Box::new(Expr::Field {
            base: Box::new(path_expr("x")),
            field: FieldDesignator::Positional { index: 0 },
        }),
    };
    let got = replace_ident_in_expr(&s("x"), &s("y"), &target);
    let expected = Expr::Reference {
        is_mut: false,
        inner: Box::new(Expr::Field {
            base: Box::new(path_expr("y")),
            field: FieldDesignator::Positional { index: 0 },
        }),
    };
    assert_eq!(got, expected);
}

#[test]
fn dont_replace_not_is_ident() {
    // x -> y in x::x(&x.0): the qualified path x::x is not a bare
    // identifier and stays; the bare x is replaced.
    let target = Expr::Call {
        func: Box::new(Expr::Opaque { text: s("x::x") }),
        args: vec![Expr::Reference {
            is_mut: false,
            inner: Box::new(Expr::Field {
                base: Box::new(path_expr("x")),
                field: FieldDesignator::Positional { index: 0 },
            }),
        }],
    };
    let got = replace_ident_in_expr(&s("x"), &s("y"), &target);
    let expected = Expr::Call {
        func: Box::new(Expr::Opaque { text: s("x::x") }),
        args: vec![Expr::Reference {
            is_mut: false,
            inner: Box::new(Expr::Field {
                base: Box::new(path_expr("y")),
                field: FieldDesignator::Positional { index: 0 },
            }),
        }],
    };
    assert_eq!(got, expected);
}

#[test]
fn error_messages() {
    assert_eq!(
        Error::ArityMismatch { expected: 1, found: 2 }.message(),
        s("number of generic parameters must coincide")
    );
    assert_eq!(
        Error::KindMismatch { index: 0 }.message(),
        s("parameter can't be substituted to argument")
    );
    assert_eq!(
        Error::MissingReceiver { method: s("m") }.message(),
        s("method must have receiver")
    );
    assert_eq!(
        Error::UnsupportedReceiver { method: s("m") }.message(),
        s("receiver must be `self`, `&self` or `&mut self`")
    );
    assert_eq!(
        Error::InvalidFieldArity { construct: s("V"), found: 2 }.message(),
        s("target must have exactly one payload field")
    );
    assert_eq!(
        Error::DuplicateCustomExtraction { variant: s("V") }.message(),
        s("custom extraction must appear at most once per variant")
    );
    assert_eq!(
        Error::UnresolvedInterface { name: s("T") }.message(),
        s("trait definition not registered")
    );
}

#[test]
fn fill_delegate_skips_defaulted_methods() {
    // Registration keeps every method; the per-request policy decides.  A
    // trait with a plain method, a user-implemented method and a defaulted
    // method, generated with the default policy, yields exactly the plain
    // method: the user's method is never overwritten and the defaulted one
    // is skipped.
    let mut storage = Storage::global();
    let keep_all = DeriveDelegateArgs {
        external_trait_def: None,
        scheme: None,
        delegate_fn_with_default_impl: true,
    };
    let sigs = vec![
        MethodSignature {
            name: s("filled"),
            receiver: Some(ReceiverKind::Ref),
            params: vec![],
            ret: Some(ty("String")),
            has_default_body: false,
        },
        MethodSignature {
            name: s("override_"),
            receiver: Some(ReceiverKind::Ref),
            params: vec![],
            ret: Some(ty("String")),
            has_default_body: false,
        },
        MethodSignature {
            name: s("skipped_if_fn_has_default_impl"),
            receiver: Some(ReceiverKind::Ref),
            params: vec![],
            ret: Some(ty("String")),
            has_default_body: true,
        },
    ];
    let td = TraitData::new(&keep_all, bare_path("Hello"), vec![], sigs);
    assert_eq!(td.sigs.len(), 3);
    assert!(register(&mut storage, &bare_path("Hello"), &td).is_ok());

    let got = fill_delegate(
        &mut storage,
        &default_args(),
        &bare_path("Hello"),
        &StructEnum::Struct {
            name: s("Hoge"),
            fields: vec![FieldDesignator::Positional { index: 0 }],
        },
        &vec![s("override_")],
    )
    .unwrap();
    assert_eq!(got.len(), 1);
    assert_eq!(got[0].sig.name, s("filled"));

    // With the policy flag set, the defaulted method is filled too.
    let with_defaults = DeriveDelegateArgs {
        external_trait_def: None,
        scheme: None,
        delegate_fn_with_default_impl: true,
    };
    let got = fill_delegate(
        &mut storage,
        &with_defaults,
        &bare_path("Hello"),
        &StructEnum::Struct {
            name: s("Hoge"),
            fields: vec![FieldDesignator::Positional { index: 0 }],
        },
        &vec![s("override_")],
    )
    .unwrap();
    assert_eq!(got.len(), 2);
    assert_eq!(got[0].sig.name, s("filled"));
    assert_eq!(got[1].sig.name, s("skipped_if_fn_has_default_impl"));
}
