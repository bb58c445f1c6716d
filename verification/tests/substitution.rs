use thin_delegate::generic_param_replacer::GenericParamReplacer;
use thin_delegate::model::ConstExpr;
use thin_delegate::model::Error;
use thin_delegate::model::GenericArg;
use thin_delegate::model::GenericParam;
use thin_delegate::model::MethodSignature;
use thin_delegate::model::ReceiverKind;
use thin_delegate::model::TypeExpr;

fn s(x: &str) -> String {
    x.to_string()
}

fn ty(name: &str) -> TypeExpr {
    TypeExpr::Named { name: s(name), args: vec![] }
}

fn ty_with(name: &str, args: Vec<GenericArg>) -> TypeExpr {
    TypeExpr::Named { name: s(name), args }
}

fn targ(t: TypeExpr) -> GenericArg {
    GenericArg::Type { type_expr: t }
}

fn tparam(name: &str) -> GenericParam {
    GenericParam::Type { name: s(name) }
}

fn sig_ret(name: &str, receiver: ReceiverKind, ret: TypeExpr) -> MethodSignature {
    MethodSignature {
        name: s(name),
        receiver: Some(receiver),
        params: vec![],
        ret: Some(ret),
        has_default_body: false,
    }
}

fn shared_ref(inner: TypeExpr) -> TypeExpr {
    TypeExpr::Reference { is_mut: false, lifetime: None, inner: Box::new(inner) }
}

fn replace(
    generics: Vec<GenericParam>,
    args: Vec<GenericArg>,
    sig: MethodSignature,
) -> MethodSignature {
    let replacer = GenericParamReplacer::new(&generics, &args).unwrap();
    replacer.replace_signature(&sig)
}

#[test]
fn type_path() {
    // AsRef<T> { fn as_ref(&self) -> &T } at AsRef<str>.
    let got = replace(
        vec![tparam("T")],
        vec![targ(ty("str"))],
        sig_ret("as_ref", ReceiverKind::Ref, shared_ref(ty("T"))),
    );
    assert_eq!(got, sig_ret("as_ref", ReceiverKind::Ref, shared_ref(ty("str"))));
}

#[test]
fn type_path_type() {
    // Hello<T> { fn hello(&self) -> Vec<T> } at Hello<&str>.
    let got = replace(
        vec![tparam("T")],
        vec![targ(shared_ref(ty("str")))],
        sig_ret("hello", ReceiverKind::Ref, ty_with("Vec", vec![targ(ty("T"))])),
    );
    let expected = sig_ret(
        "hello",
        ReceiverKind::Ref,
        ty_with("Vec", vec![targ(shared_ref(ty("str")))]),
    );
    assert_eq!(got, expected);
}

#[test]
fn type_array_type() {
    // Hello<T> { fn hello(&self) -> [T; 4] } at Hello<u8>.
    let got = replace(
        vec![tparam("T")],
        vec![targ(ty("u8"))],
        sig_ret(
            "hello",
            ReceiverKind::Ref,
            TypeExpr::Array { elem: Box::new(ty("T")), len: ConstExpr::Lit { text: s("4") } },
        ),
    );
    let expected = sig_ret(
        "hello",
        ReceiverKind::Ref,
        TypeExpr::Array { elem: Box::new(ty("u8")), len: ConstExpr::Lit { text: s("4") } },
    );
    assert_eq!(got, expected);
}

#[test]
fn type_slice_type() {
    // Hello<T> { fn hello(&self) -> &[T] } at Hello<u8>.
    let got = replace(
        vec![tparam("T")],
        vec![targ(ty("u8"))],
        sig_ret(
            "hello",
            ReceiverKind::Ref,
            shared_ref(TypeExpr::Slice { elem: Box::new(ty("T")) }),
        ),
    );
    let expected = sig_ret(
        "hello",
        ReceiverKind::Ref,
        shared_ref(TypeExpr::Slice { elem: Box::new(ty("u8")) }),
    );
    assert_eq!(got, expected);
}

#[test]
fn lifetime() {
    // Hello<'a, T> { fn hello(&self) -> &'a T } at Hello<'p, str>.
    let got = replace(
        vec![GenericParam::Lifetime { name: s("'a") }, tparam("T")],
        vec![GenericArg::Lifetime { name: s("'p") }, targ(ty("str"))],
        sig_ret(
            "hello",
            ReceiverKind::Ref,
            TypeExpr::Reference {
                is_mut: false,
                lifetime: Some(s("'a")),
                inner: Box::new(ty("T")),
            },
        ),
    );
    let expected = sig_ret(
        "hello",
        ReceiverKind::Ref,
        TypeExpr::Reference {
            is_mut: false,
            lifetime: Some(s("'p")),
            inner: Box::new(ty("str")),
        },
    );
    assert_eq!(got, expected);
}

#[test]
fn const_expr() {
    // Hello<T, const N: usize> { fn hello(&self) -> [T; N] } at Hello<u8, 4>.
    let got = replace(
        vec![tparam("T"), GenericParam::Const { name: s("N") }],
        vec![targ(ty("u8")), GenericArg::Const { const_expr: ConstExpr::Lit { text: s("4") } }],
        sig_ret(
            "hello",
            ReceiverKind::Ref,
            TypeExpr::Array { elem: Box::new(ty("T")), len: ConstExpr::Path { name: s("N") } },
        ),
    );
    let expected = sig_ret(
        "hello",
        ReceiverKind::Ref,
        TypeExpr::Array { elem: Box::new(ty("u8")), len: ConstExpr::Lit { text: s("4") } },
    );
    assert_eq!(got, expected);
}

#[test]
fn const_path() {
    // Hello<T, const N: usize> { fn hello(&self) -> [T; N] } at Hello<u8, M>,
    // where M is a const parameter of the implementing type, forwarded
    // through as a symbolic identifier.
    let got = replace(
        vec![tparam("T"), GenericParam::Const { name: s("N") }],
        vec![targ(ty("u8")), targ(ty("M"))],
        sig_ret(
            "hello",
            ReceiverKind::Ref,
            TypeExpr::Array { elem: Box::new(ty("T")), len: ConstExpr::Path { name: s("N") } },
        ),
    );
    let expected = sig_ret(
        "hello",
        ReceiverKind::Ref,
        TypeExpr::Array { elem: Box::new(ty("u8")), len: ConstExpr::Path { name: s("M") } },
    );
    assert_eq!(got, expected);
}

#[test]
fn arity_mismatch() {
    // One parameter, no arguments: the map is refused.
    let r = GenericParamReplacer::new(&vec![tparam("T")], &vec![]);
    assert_eq!(r.unwrap_err(), Error::ArityMismatch { expected: 1, found: 0 });

    // No parameters, one argument.
    let r = GenericParamReplacer::new(&vec![], &vec![targ(ty("str"))]);
    assert_eq!(r.unwrap_err(), Error::ArityMismatch { expected: 0, found: 1 });

    // The degenerate case: no parameters, no arguments, an empty map.
    assert!(GenericParamReplacer::new(&vec![], &vec![]).is_ok());
}

#[test]
fn kind_mismatch() {
    // A lifetime parameter paired with a type argument.
    let r = GenericParamReplacer::new(
        &vec![GenericParam::Lifetime { name: s("'a") }],
        &vec![targ(ty("str"))],
    );
    assert_eq!(r.unwrap_err(), Error::KindMismatch { index: 0 });

    // The first incompatible pair is reported.
    let r = GenericParamReplacer::new(
        &vec![tparam("T"), tparam("U")],
        &vec![targ(ty("str")), GenericArg::Lifetime { name: s("'a") }],
    );
    assert_eq!(r.unwrap_err(), Error::KindMismatch { index: 1 });
}

#[test]
fn nested_occurrences_replaced() {
    // T nested inside a reference, inside an array element type, inside a
    // further generic instantiation: every occurrence is replaced at once.
    let deep = TypeExpr::Array {
        elem: Box::new(shared_ref(ty_with("Vec", vec![targ(ty("T"))]))),
        len: ConstExpr::Lit { text: s("3") },
    };
    let got = replace(
        vec![tparam("T")],
        vec![targ(ty("str"))],
        sig_ret("deep", ReceiverKind::Ref, deep),
    );
    let expected_ret = TypeExpr::Array {
        elem: Box::new(shared_ref(ty_with("Vec", vec![targ(ty("str"))]))),
        len: ConstExpr::Lit { text: s("3") },
    };
    assert_eq!(got, sig_ret("deep", ReceiverKind::Ref, expected_ret));
}

#[test]
fn unmapped_leaves_untouched() {
    // A signature that never mentions the parameter comes back unchanged,
    // and opaque type shapes pass through verbatim.
    let sig = sig_ret(
        "keep",
        ReceiverKind::Ref,
        TypeExpr::Tuple {
            elems: vec![ty("usize"), TypeExpr::Opaque { text: s("dyn Fn(usize) -> usize") }],
        },
    );
    let got = replace(vec![tparam("T")], vec![targ(ty("str"))], sig.clone());
    assert_eq!(got, sig);
}

#[test]
fn complex_type_argument() {
    // AsRef<T> at AsRef<(dyn Fn(usize) -> usize + 'static)>: the whole
    // parenthesized trait-object argument replaces every T.
    let complex = TypeExpr::Paren {
        inner: Box::new(TypeExpr::TraitObject {
            bounds: vec![
                TypeExpr::Opaque { text: s("Fn(usize) -> usize") },
                TypeExpr::Opaque { text: s("'static") },
            ],
        }),
    };
    let got = replace(
        vec![tparam("T")],
        vec![targ(complex.clone())],
        sig_ret("as_ref", ReceiverKind::Ref, shared_ref(ty("T"))),
    );
    assert_eq!(got, sig_ret("as_ref", ReceiverKind::Ref, shared_ref(complex)));
}

#[test]
fn fn_pointer_positions_replaced() {
    // T occurs in both parameter and return position of a function
    // pointer type.
    let got = replace(
        vec![tparam("T")],
        vec![targ(ty("u8"))],
        sig_ret(
            "callback",
            ReceiverKind::Ref,
            TypeExpr::FnPointer { params: vec![ty("T")], ret: Some(Box::new(ty("T"))) },
        ),
    );
    let expected = sig_ret(
        "callback",
        ReceiverKind::Ref,
        TypeExpr::FnPointer { params: vec![ty("u8")], ret: Some(Box::new(ty("u8"))) },
    );
    assert_eq!(got, expected);
}
