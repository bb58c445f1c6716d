use thin_delegate::derive_delegate_args::DeriveDelegateArgs;
use thin_delegate::model::Expr;
use thin_delegate::model::SchemeClosure;
use thin_delegate::model::SchemePat;

fn s(x: &str) -> String {
    x.to_string()
}

fn template_body() -> Expr {
    // f(&self.key())
    Expr::Call {
        func: Box::new(Expr::Path { name: s("f") }),
        args: vec![Expr::Reference {
            is_mut: false,
            inner: Box::new(Expr::Opaque { text: s("self.key()") }),
        }],
    }
}

fn plain_pat(name: &str) -> SchemePat {
    SchemePat::Ident {
        has_attrs: false,
        has_by_ref: false,
        has_mut: false,
        has_subpat: false,
        name: s(name),
    }
}

fn scheme(inputs: Vec<SchemePat>) -> SchemeClosure {
    SchemeClosure {
        has_lifetimes: false,
        has_constness: false,
        has_movability: false,
        has_asyncness: false,
        has_capture: false,
        inputs,
        body: template_body(),
    }
}

fn args_with(scheme: SchemeClosure) -> DeriveDelegateArgs {
    DeriveDelegateArgs {
        external_trait_def: None,
        scheme: Some(scheme),
        delegate_fn_with_default_impl: false,
    }
}

fn validate_message(args: &DeriveDelegateArgs) -> Result<(), String> {
    args.validate().map_err(|e| e.message())
}

#[test]
fn validate() {
    // No scheme at all: nothing to check.
    let none = DeriveDelegateArgs {
        external_trait_def: None,
        scheme: None,
        delegate_fn_with_default_impl: false,
    };
    assert_eq!(validate_message(&none), Ok(()));

    // scheme = |f| f(&self.key())
    assert_eq!(validate_message(&args_with(scheme(vec![plain_pat("f")]))), Ok(()));

    // scheme = for<'a> |f| f(&self.key())
    let mut c = scheme(vec![plain_pat("f")]);
    c.has_lifetimes = true;
    assert_eq!(validate_message(&args_with(c)), Err(s("scheme can't have lifetime")));

    // scheme = const |f| f(&self.key())
    let mut c = scheme(vec![plain_pat("f")]);
    c.has_constness = true;
    assert_eq!(validate_message(&args_with(c)), Err(s("scheme can't have `const`")));

    // scheme = static |f| f(&self.key())
    let mut c = scheme(vec![plain_pat("f")]);
    c.has_movability = true;
    assert_eq!(validate_message(&args_with(c)), Err(s("scheme can't have `static`")));

    // scheme = async |f| f(&self.key())
    let mut c = scheme(vec![plain_pat("f")]);
    c.has_asyncness = true;
    assert_eq!(validate_message(&args_with(c)), Err(s("scheme can't have `async`")));

    // scheme = move |f| f(&self.key())
    let mut c = scheme(vec![plain_pat("f")]);
    c.has_capture = true;
    assert_eq!(validate_message(&args_with(c)), Err(s("scheme can't have `move`")));

    // scheme = || f(&self.key())
    assert_eq!(
        validate_message(&args_with(scheme(vec![]))),
        Err(s("scheme must have an arg without type"))
    );

    // scheme = |f, g| f(&self.key())
    assert_eq!(
        validate_message(&args_with(scheme(vec![plain_pat("f"), plain_pat("g")]))),
        Err(s("scheme must have an arg without type"))
    );

    // scheme = |f: usize| f(&self.key())
    assert_eq!(
        validate_message(&args_with(scheme(vec![SchemePat::Other { text: s("f: usize") }]))),
        Err(s("scheme must have an arg without type"))
    );

    // scheme = |#[cfg(all())] f| f(&self.key())
    let mut p = plain_pat("f");
    if let SchemePat::Ident { ref mut has_attrs, .. } = p {
        *has_attrs = true;
    }
    assert_eq!(
        validate_message(&args_with(scheme(vec![p]))),
        Err(s("arg of scheme can't have attributes"))
    );

    // scheme = |ref f| f(&self.key())
    let mut p = plain_pat("f");
    if let SchemePat::Ident { ref mut has_by_ref, .. } = p {
        *has_by_ref = true;
    }
    assert_eq!(
        validate_message(&args_with(scheme(vec![p]))),
        Err(s("arg of scheme can't have `ref`"))
    );

    // scheme = |mut f| f(&self.key())
    let mut p = plain_pat("f");
    if let SchemePat::Ident { ref mut has_mut, .. } = p {
        *has_mut = true;
    }
    assert_eq!(
        validate_message(&args_with(scheme(vec![p]))),
        Err(s("arg of scheme can't have `mut`"))
    );

    // scheme = |f @ Fuga| f(&self.key())
    let mut p = plain_pat("f");
    if let SchemePat::Ident { ref mut has_subpat, .. } = p {
        *has_subpat = true;
    }
    assert_eq!(
        validate_message(&args_with(scheme(vec![p]))),
        Err(s("arg of scheme can't have `@ SUBPATTERN`"))
    );
}
