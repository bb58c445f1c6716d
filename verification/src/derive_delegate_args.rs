//! The arguments of one generation request: an optional module path where
//! an externally defined trait was registered, an optional scheme template,
//! and the policy flag that extends delegation to methods with a default
//! body.

use vstd::prelude::*;

use crate::model::Error;
use crate::model::Expr;
use crate::model::SchemeClosure;
use crate::model::SchemeShapeError;
use crate::model::SpecError;
use crate::model::SpecSchemeClosure;
use crate::model::SpecSchemePat;
use crate::model::SchemePat;
use crate::model::view_expr;
use crate::model::view_string_seq;

verus! {

/// The arguments supplied with one generation request.
pub struct DeriveDelegateArgs {
    pub external_trait_def: Option<Vec<String>>,
    pub scheme: Option<SchemeClosure>,
    pub delegate_fn_with_default_impl: bool,
}

pub struct SpecDeriveDelegateArgs {
    pub external_trait_def: Option<Seq<Seq<char>>>,
    pub scheme: Option<SpecSchemeClosure>,
    pub delegate_fn_with_default_impl: bool,
}

impl View for DeriveDelegateArgs {
    type V = SpecDeriveDelegateArgs;

    open spec fn view(&self) -> SpecDeriveDelegateArgs {
        SpecDeriveDelegateArgs {
            external_trait_def: match &self.external_trait_def {
                Option::Some(p) => Option::Some(view_string_seq(p@)),
                Option::None => Option::None,
            },
            scheme: match &self.scheme {
                Option::Some(s) => Option::Some(s@),
                Option::None => Option::None,
            },
            delegate_fn_with_default_impl: self.delegate_fn_with_default_impl,
        }
    }
}

/// Why a scheme template is rejected, if it is: the template must be a
/// plain closure (no lifetime binder, `const`, `static`, `async` or `move`)
/// whose single parameter is a plain identifier without type annotation,
/// attributes, `ref`, `mut` or subpattern.
pub open spec fn spec_validate_scheme(s: SpecSchemeClosure) -> Result<(), SchemeShapeError> {
    if s.has_lifetimes {
        Result::Err(SchemeShapeError::Lifetime)
    } else if s.has_constness {
        Result::Err(SchemeShapeError::Constness)
    } else if s.has_movability {
        Result::Err(SchemeShapeError::Movability)
    } else if s.has_asyncness {
        Result::Err(SchemeShapeError::Asyncness)
    } else if s.has_capture {
        Result::Err(SchemeShapeError::Capture)
    } else if s.inputs.len() != 1 {
        Result::Err(SchemeShapeError::ArgShape)
    } else {
        match s.inputs[0] {
            SpecSchemePat::Other { .. } => Result::Err(SchemeShapeError::ArgShape),
            SpecSchemePat::Ident { has_attrs, has_by_ref, has_mut, has_subpat, .. } => {
                if has_attrs {
                    Result::Err(SchemeShapeError::ArgAttrs)
                } else if has_by_ref {
                    Result::Err(SchemeShapeError::ArgByRef)
                } else if has_mut {
                    Result::Err(SchemeShapeError::ArgMut)
                } else if has_subpat {
                    Result::Err(SchemeShapeError::ArgSubpat)
                } else {
                    Result::Ok(())
                }
            },
        }
    }
}

/// What validating a generation request's arguments returns: a request
/// without a scheme is always valid; one with a scheme is valid exactly
/// when the scheme's shape is.
pub open spec fn spec_validate_args(a: SpecDeriveDelegateArgs) -> Result<(), SpecError> {
    match a.scheme {
        Option::None => Result::Ok(()),
        Option::Some(s) => match spec_validate_scheme(s) {
            Result::Ok(u) => Result::Ok(u),
            Result::Err(reason) => Result::Err(SpecError::InvalidSchemeShape { reason }),
        },
    }
}

/// The placeholder identifier of a valid scheme: the name bound by its
/// single plain parameter.
pub open spec fn spec_scheme_placeholder(s: SpecSchemeClosure) -> Seq<char> {
    s.inputs[0]->name
}

impl DeriveDelegateArgs {
    /// Checks the shape of the scheme template, if one was supplied: it
    /// must be a plain closure with exactly one plain identifier parameter.
    /// Each rejected shape is reported with its own reason.
    pub fn validate(&self) -> (r: Result<(), Error>)
        ensures
            r is Ok <==> spec_validate_args(self@) is Ok,
            r matches Err(e) ==> e@ == spec_validate_args(self@)->Err_0,
    {
        let scheme = match &self.scheme {
            Option::Some(s) => s,
            Option::None => {
                return Result::Ok(());
            },
        };
        if scheme.has_lifetimes {
            return Result::Err(Error::InvalidSchemeShape { reason: SchemeShapeError::Lifetime });
        }
        if scheme.has_constness {
            return Result::Err(Error::InvalidSchemeShape { reason: SchemeShapeError::Constness });
        }
        if scheme.has_movability {
            return Result::Err(Error::InvalidSchemeShape { reason: SchemeShapeError::Movability });
        }
        if scheme.has_asyncness {
            return Result::Err(Error::InvalidSchemeShape { reason: SchemeShapeError::Asyncness });
        }
        if scheme.has_capture {
            return Result::Err(Error::InvalidSchemeShape { reason: SchemeShapeError::Capture });
        }
        if scheme.inputs.len() != 1 {
            return Result::Err(Error::InvalidSchemeShape { reason: SchemeShapeError::ArgShape });
        }
        match &scheme.inputs[0] {
            SchemePat::Other { .. } => Result::Err(
                Error::InvalidSchemeShape { reason: SchemeShapeError::ArgShape },
            ),
            SchemePat::Ident { has_attrs, has_by_ref, has_mut, has_subpat, .. } => {
                if *has_attrs {
                    Result::Err(Error::InvalidSchemeShape { reason: SchemeShapeError::ArgAttrs })
                } else if *has_by_ref {
                    Result::Err(Error::InvalidSchemeShape { reason: SchemeShapeError::ArgByRef })
                } else if *has_mut {
                    Result::Err(Error::InvalidSchemeShape { reason: SchemeShapeError::ArgMut })
                } else if *has_subpat {
                    Result::Err(Error::InvalidSchemeShape { reason: SchemeShapeError::ArgSubpat })
                } else {
                    Result::Ok(())
                }
            },
        }
    }

    /// The placeholder identifier and the template body of the scheme, if
    /// one was supplied.  Callers validate the request first; a scheme that
    /// passed validation binds exactly one plain identifier.
    pub fn scheme_arg_and_body(&self) -> (r: Option<(String, Expr)>)
        requires
            spec_validate_args(self@) is Ok,
        ensures
            r is Some <==> self.scheme is Some,
            r matches Some(p) ==> {
                &&& self@.scheme matches Some(s)
                &&& p.0@ == spec_scheme_placeholder(s)
                &&& view_expr(p.1) == s.body
            },
    {
        let scheme = match &self.scheme {
            Option::Some(s) => s,
            Option::None => {
                return Option::None;
            },
        };
        match &scheme.inputs[0] {
            SchemePat::Ident { name, .. } => Option::Some((name.clone(), scheme.body.clone())),
            SchemePat::Other { .. } => {
                proof {
                    assert(false);
                }
                Option::None
            },
        }
    }
}

} // verus!
