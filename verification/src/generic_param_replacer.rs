//! The generic substitution engine.
//!
//! `GenericParamReplacer::new` pairs a trait's declared generic parameters
//! with the generic arguments of a concrete instantiation and builds three
//! mappings (lifetime, type, const); `replace_signature` rewrites a method
//! signature by those mappings, bottom-up, replacing exact leaf matches and
//! passing opaque shapes through verbatim.

use vstd::prelude::*;

use crate::model::ConstExpr;
use crate::model::Error;
use crate::model::GenericArg;
use crate::model::GenericParam;
use crate::model::MethodParam;
use crate::model::MethodSignature;
use crate::model::SpecConstExpr;
use crate::model::SpecError;
use crate::model::SpecGenericArg;
use crate::model::SpecGenericParam;
use crate::model::SpecMethodParam;
use crate::model::SpecMethodSignature;
use crate::model::SpecTypeExpr;
use crate::model::TypeExpr;
use crate::model::lemma_view_arg_seq_index;
use crate::model::view_arg_seq;
use crate::model::view_mparam_seq;
use crate::model::view_param_seq;
use crate::model::view_type_expr;

verus! {

// ---------------------------------------------------------------------------
// The three binding tables
// ---------------------------------------------------------------------------

/// One lifetime-parameter binding: `param` is replaced by `arg`.
#[derive(Debug)]
pub struct LifetimeBinding {
    pub param: String,
    pub arg: String,
}

pub struct SpecLifetimeBinding {
    pub param: Seq<char>,
    pub arg: Seq<char>,
}

impl View for LifetimeBinding {
    type V = SpecLifetimeBinding;

    open spec fn view(&self) -> SpecLifetimeBinding {
        SpecLifetimeBinding { param: self.param@, arg: self.arg@ }
    }
}

/// One type-parameter binding: a bare leaf named `param` is replaced by the
/// type expression `arg`.
#[derive(Debug)]
pub struct TypeBinding {
    pub param: String,
    pub arg: TypeExpr,
}

pub struct SpecTypeBinding {
    pub param: Seq<char>,
    pub arg: SpecTypeExpr,
}

impl View for TypeBinding {
    type V = SpecTypeBinding;

    open spec fn view(&self) -> SpecTypeBinding {
        SpecTypeBinding { param: self.param@, arg: view_type_expr(self.arg) }
    }
}

/// One const-parameter binding: in const position, the identifier `param`
/// is replaced by the expression `arg`.
#[derive(Debug)]
pub struct ConstBinding {
    pub param: String,
    pub arg: ConstExpr,
}

pub struct SpecConstBinding {
    pub param: Seq<char>,
    pub arg: SpecConstExpr,
}

impl View for ConstBinding {
    type V = SpecConstBinding;

    open spec fn view(&self) -> SpecConstBinding {
        SpecConstBinding { param: self.param@, arg: self.arg@ }
    }
}

pub open spec fn view_lifetime_binding_seq(s: Seq<LifetimeBinding>) -> Seq<SpecLifetimeBinding> {
    Seq::new(s.len(), |i: int| s[i]@)
}

pub open spec fn view_type_binding_seq(s: Seq<TypeBinding>) -> Seq<SpecTypeBinding> {
    Seq::new(s.len(), |i: int| s[i]@)
}

pub open spec fn view_const_binding_seq(s: Seq<ConstBinding>) -> Seq<SpecConstBinding> {
    Seq::new(s.len(), |i: int| s[i]@)
}

/// The substitution map built once per (trait declaration, instantiation)
/// pair: a lifetime table, a type table and a const table.
#[derive(Debug)]
pub struct GenericParamReplacer {
    pub lifetimes: Vec<LifetimeBinding>,
    pub types: Vec<TypeBinding>,
    pub consts: Vec<ConstBinding>,
}

pub struct SpecReplacer {
    pub lifetimes: Seq<SpecLifetimeBinding>,
    pub types: Seq<SpecTypeBinding>,
    pub consts: Seq<SpecConstBinding>,
}

impl View for GenericParamReplacer {
    type V = SpecReplacer;

    open spec fn view(&self) -> SpecReplacer {
        SpecReplacer {
            lifetimes: view_lifetime_binding_seq(self.lifetimes@),
            types: view_type_binding_seq(self.types@),
            consts: view_const_binding_seq(self.consts@),
        }
    }
}

// ---------------------------------------------------------------------------
// Lookup
// ---------------------------------------------------------------------------

pub open spec fn spec_lookup_lifetime(s: Seq<SpecLifetimeBinding>, name: Seq<char>) -> Option<
    Seq<char>,
>
    decreases s.len(),
{
    if s.len() == 0 {
        Option::None
    } else if s[0].param == name {
        Option::Some(s[0].arg)
    } else {
        spec_lookup_lifetime(s.drop_first(), name)
    }
}

pub open spec fn spec_lookup_type(s: Seq<SpecTypeBinding>, name: Seq<char>) -> Option<SpecTypeExpr>
    decreases s.len(),
{
    if s.len() == 0 {
        Option::None
    } else if s[0].param == name {
        Option::Some(s[0].arg)
    } else {
        spec_lookup_type(s.drop_first(), name)
    }
}

pub open spec fn spec_lookup_const(s: Seq<SpecConstBinding>, name: Seq<char>) -> Option<
    SpecConstExpr,
>
    decreases s.len(),
{
    if s.len() == 0 {
        Option::None
    } else if s[0].param == name {
        Option::Some(s[0].arg)
    } else {
        spec_lookup_const(s.drop_first(), name)
    }
}

// ---------------------------------------------------------------------------
// Building the map
// ---------------------------------------------------------------------------

/// Whether a parameter/argument pair's kinds are compatible: type with
/// type, lifetime with lifetime, const with a const value, or const with a
/// bare type-looking identifier (a symbolic const forwarded through).
pub open spec fn spec_kinds_compatible(p: SpecGenericParam, a: SpecGenericArg) -> bool {
    match (p, a) {
        (SpecGenericParam::Type { .. }, SpecGenericArg::Type { .. }) => true,
        (SpecGenericParam::Lifetime { .. }, SpecGenericArg::Lifetime { .. }) => true,
        (SpecGenericParam::Const { .. }, SpecGenericArg::Const { .. }) => true,
        (
            SpecGenericParam::Const { .. },
            SpecGenericArg::Type { type_expr: SpecTypeExpr::Named { name, args } },
        ) => args.len() == 0,
        _ => false,
    }
}

/// Extends a substitution map by one compatible parameter/argument pair.
pub open spec fn spec_extend(m: SpecReplacer, p: SpecGenericParam, a: SpecGenericArg) -> SpecReplacer {
    match (p, a) {
        (SpecGenericParam::Type { name }, SpecGenericArg::Type { type_expr }) => SpecReplacer {
            types: m.types.push(SpecTypeBinding { param: name, arg: type_expr }),
            ..m
        },
        (SpecGenericParam::Lifetime { name }, SpecGenericArg::Lifetime { name: arg }) =>
            SpecReplacer {
                lifetimes: m.lifetimes.push(SpecLifetimeBinding { param: name, arg }),
                ..m
            },
        (SpecGenericParam::Const { name }, SpecGenericArg::Const { const_expr }) => SpecReplacer {
            consts: m.consts.push(SpecConstBinding { param: name, arg: const_expr }),
            ..m
        },
        (
            SpecGenericParam::Const { name },
            SpecGenericArg::Type { type_expr: SpecTypeExpr::Named { name: arg, args } },
        ) => SpecReplacer {
            consts: m.consts.push(
                SpecConstBinding { param: name, arg: SpecConstExpr::Path { name: arg } },
            ),
            ..m
        },
        _ => m,
    }
}

pub open spec fn spec_empty_replacer() -> SpecReplacer {
    SpecReplacer { lifetimes: Seq::empty(), types: Seq::empty(), consts: Seq::empty() }
}

/// The bindings built from paired parameters and arguments, in order.
pub open spec fn spec_build_bindings(
    params: Seq<SpecGenericParam>,
    args: Seq<SpecGenericArg>,
) -> SpecReplacer
    decreases params.len(),
{
    if params.len() == 0 || args.len() == 0 {
        spec_empty_replacer()
    } else {
        spec_extend(
            spec_build_bindings(params.drop_last(), args.drop_last()),
            params.last(),
            args.last(),
        )
    }
}

/// The least index whose parameter/argument pair is incompatible, or the
/// length if every pair is compatible.  Scanning starts at `i`.
pub open spec fn spec_first_kind_mismatch(
    params: Seq<SpecGenericParam>,
    args: Seq<SpecGenericArg>,
    i: int,
) -> int
    decreases params.len() - i,
{
    if i < 0 || i >= params.len() {
        params.len() as int
    } else if !spec_kinds_compatible(params[i], args[i]) {
        i
    } else {
        spec_first_kind_mismatch(params, args, i + 1)
    }
}

/// What building a substitution map returns: `ArityMismatch` when the
/// counts differ, `KindMismatch` at the first incompatible pair, and
/// otherwise the map of all paired bindings.  Zero parameters with zero
/// arguments yield the empty map.
pub open spec fn spec_new(params: Seq<SpecGenericParam>, args: Seq<SpecGenericArg>) -> Result<
    SpecReplacer,
    SpecError,
> {
    if params.len() != args.len() {
        Result::Err(
            SpecError::ArityMismatch {
                expected: params.len() as int,
                found: args.len() as int,
            },
        )
    } else if spec_first_kind_mismatch(params, args, 0) < params.len() {
        Result::Err(SpecError::KindMismatch { index: spec_first_kind_mismatch(params, args, 0) })
    } else {
        Result::Ok(spec_build_bindings(params, args))
    }
}

proof fn lemma_build_bindings_push(
    params: Seq<SpecGenericParam>,
    args: Seq<SpecGenericArg>,
    p: SpecGenericParam,
    a: SpecGenericArg,
)
    ensures
        spec_build_bindings(params.push(p), args.push(a)) == spec_extend(
            spec_build_bindings(params, args),
            p,
            a,
        ),
{
    assert(params.push(p).drop_last() =~= params);
    assert(args.push(a).drop_last() =~= args);
    assert(params.push(p).last() == p);
    assert(args.push(a).last() == a);
}

proof fn lemma_first_kind_mismatch_is(
    params: Seq<SpecGenericParam>,
    args: Seq<SpecGenericArg>,
    k: int,
    i: int,
)
    requires
        0 <= k <= i <= params.len(),
        forall|j: int| k <= j < i ==> spec_kinds_compatible(params[j], args[j]),
        i == params.len() || !spec_kinds_compatible(params[i], args[i]),
    ensures
        spec_first_kind_mismatch(params, args, k) == i,
    decreases i - k,
{
    if k < i {
        lemma_first_kind_mismatch_is(params, args, k + 1, i);
    }
}

fn kinds_compatible(p: &GenericParam, a: &GenericArg) -> (r: bool)
    ensures
        r == spec_kinds_compatible(p@, a@),
{
    match (p, a) {
        (GenericParam::Type { .. }, GenericArg::Type { .. }) => true,
        (GenericParam::Lifetime { .. }, GenericArg::Lifetime { .. }) => true,
        (GenericParam::Const { .. }, GenericArg::Const { .. }) => true,
        (GenericParam::Const { .. }, GenericArg::Type { type_expr }) => match type_expr {
            TypeExpr::Named { name, args } => args.len() == 0,
            _ => false,
        },
        _ => false,
    }
}

impl GenericParamReplacer {
    /// Builds the substitution map for a trait's generic parameters and the
    /// generic arguments of a concrete instantiation.  Fails with
    /// `ArityMismatch` when the counts differ and with `KindMismatch` at
    /// the first pair of incompatible kinds.
    pub fn new(params: &Vec<GenericParam>, args: &Vec<GenericArg>) -> (r: Result<
        GenericParamReplacer,
        Error,
    >)
        ensures
            r is Ok <==> spec_new(view_param_seq(params@), view_arg_seq(args@)) is Ok,
            r matches Ok(m) ==> m@ == spec_new(view_param_seq(params@), view_arg_seq(args@))->Ok_0,
            r matches Err(e) ==> e@ == spec_new(
                view_param_seq(params@),
                view_arg_seq(args@),
            )->Err_0,
    {
        let ghost sparams = view_param_seq(params@);
        let ghost sargs = view_arg_seq(args@);
        proof {
            lemma_view_arg_seq_index(args@);
        }
        if params.len() != args.len() {
            return Result::Err(
                Error::ArityMismatch { expected: params.len(), found: args.len() },
            );
        }
        let mut lifetimes: Vec<LifetimeBinding> = Vec::new();
        let mut types: Vec<TypeBinding> = Vec::new();
        let mut consts: Vec<ConstBinding> = Vec::new();
        let mut i: usize = 0;
        proof {
            assert(sparams.subrange(0, 0) =~= Seq::<SpecGenericParam>::empty());
            assert(sargs.subrange(0, 0) =~= Seq::<SpecGenericArg>::empty());
            assert(view_lifetime_binding_seq(lifetimes@) =~= Seq::<SpecLifetimeBinding>::empty());
            assert(view_type_binding_seq(types@) =~= Seq::<SpecTypeBinding>::empty());
            assert(view_const_binding_seq(consts@) =~= Seq::<SpecConstBinding>::empty());
        }
        while i < params.len()
            invariant
                params@.len() == args@.len(),
                i <= params.len(),
                sparams == view_param_seq(params@),
                sargs == view_arg_seq(args@),
                sparams.len() == params@.len(),
                sargs.len() == args@.len(),
                forall|j: int| 0 <= j < args@.len() ==> sargs[j] == args@[j]@,
                forall|j: int| 0 <= j < i ==> spec_kinds_compatible(sparams[j], sargs[j]),
                (SpecReplacer {
                    lifetimes: view_lifetime_binding_seq(lifetimes@),
                    types: view_type_binding_seq(types@),
                    consts: view_const_binding_seq(consts@),
                }) == spec_build_bindings(
                    sparams.subrange(0, i as int),
                    sargs.subrange(0, i as int),
                ),
            decreases params@.len() - i,
        {
            let p = &params[i];
            let a = &args[i];
            if !kinds_compatible(p, a) {
                proof {
                    lemma_first_kind_mismatch_is(sparams, sargs, 0, i as int);
                }
                return Result::Err(Error::KindMismatch { index: i });
            }
            let ghost before = SpecReplacer {
                lifetimes: view_lifetime_binding_seq(lifetimes@),
                types: view_type_binding_seq(types@),
                consts: view_const_binding_seq(consts@),
            };
            match (p, a) {
                (GenericParam::Type { name }, GenericArg::Type { type_expr }) => {
                    types.push(TypeBinding { param: name.clone(), arg: type_expr.clone() });
                },
                (GenericParam::Lifetime { name }, GenericArg::Lifetime { name: arg }) => {
                    lifetimes.push(LifetimeBinding { param: name.clone(), arg: arg.clone() });
                },
                (GenericParam::Const { name }, GenericArg::Const { const_expr }) => {
                    consts.push(ConstBinding { param: name.clone(), arg: const_expr.clone() });
                },
                (GenericParam::Const { name }, GenericArg::Type { type_expr }) => {
                    match type_expr {
                        TypeExpr::Named { name: arg, args: targs } => {
                            consts.push(
                                ConstBinding {
                                    param: name.clone(),
                                    arg: ConstExpr::Path { name: arg.clone() },
                                },
                            );
                        },
                        _ => {
                            proof {
                                assert(false);
                            }
                        },
                    }
                },
                _ => {
                    proof {
                        assert(false);
                    }
                },
            }
            proof {
                lemma_build_bindings_push(
                    sparams.subrange(0, i as int),
                    sargs.subrange(0, i as int),
                    sparams[i as int],
                    sargs[i as int],
                );
                assert(sparams.subrange(0, i + 1 as int) =~= sparams.subrange(0, i as int).push(
                    sparams[i as int],
                ));
                assert(sargs.subrange(0, i + 1 as int) =~= sargs.subrange(0, i as int).push(
                    sargs[i as int],
                ));
                assert(SpecReplacer {
                    lifetimes: view_lifetime_binding_seq(lifetimes@),
                    types: view_type_binding_seq(types@),
                    consts: view_const_binding_seq(consts@),
                } =~= spec_extend(before, sparams[i as int], sargs[i as int])) by {
                    assert(view_lifetime_binding_seq(lifetimes@) =~= spec_extend(
                        before,
                        sparams[i as int],
                        sargs[i as int],
                    ).lifetimes);
                    assert(view_type_binding_seq(types@) =~= spec_extend(
                        before,
                        sparams[i as int],
                        sargs[i as int],
                    ).types);
                    assert(view_const_binding_seq(consts@) =~= spec_extend(
                        before,
                        sparams[i as int],
                        sargs[i as int],
                    ).consts);
                }
            }
            i = i + 1;
        }
        proof {
            lemma_first_kind_mismatch_is(sparams, sargs, 0, sparams.len() as int);
            assert(sparams.subrange(0, sparams.len() as int) =~= sparams);
            assert(sargs.subrange(0, sargs.len() as int) =~= sargs);
        }
        Result::Ok(GenericParamReplacer { lifetimes, types, consts })
    }
}

// ---------------------------------------------------------------------------
// Applying the map
// ---------------------------------------------------------------------------

/// A lifetime under the map: its image where mapped, itself otherwise.
pub open spec fn spec_replace_lifetime(m: SpecReplacer, name: Seq<char>) -> Seq<char> {
    match spec_lookup_lifetime(m.lifetimes, name) {
        Option::Some(x) => x,
        Option::None => name,
    }
}

pub open spec fn spec_replace_opt_lifetime(m: SpecReplacer, l: Option<Seq<char>>) -> Option<
    Seq<char>,
> {
    match l {
        Option::Some(x) => Option::Some(spec_replace_lifetime(m, x)),
        Option::None => Option::None,
    }
}

/// A const-position expression under the map: a mapped bare identifier is
/// replaced by its image; everything else is left as it stands.
pub open spec fn spec_replace_const(m: SpecReplacer, c: SpecConstExpr) -> SpecConstExpr {
    match c {
        SpecConstExpr::Path { name } => match spec_lookup_const(m.consts, name) {
            Option::Some(e) => e,
            Option::None => c,
        },
        _ => c,
    }
}

/// A type expression under the map, rewritten bottom-up: children are
/// rewritten first, then a bare named leaf that the type table maps is
/// replaced by its image, exactly once.  Opaque shapes are passed through
/// verbatim.
pub open spec fn spec_replace_type(m: SpecReplacer, t: SpecTypeExpr) -> SpecTypeExpr
    decreases t,
{
    match t {
        SpecTypeExpr::Named { name, args } => {
            if args.len() == 0 {
                match spec_lookup_type(m.types, name) {
                    Option::Some(e) => e,
                    Option::None => SpecTypeExpr::Named { name, args },
                }
            } else {
                SpecTypeExpr::Named { name, args: spec_replace_arg_seq(m, args) }
            }
        },
        SpecTypeExpr::Reference { is_mut, lifetime, inner } => SpecTypeExpr::Reference {
            is_mut,
            lifetime: spec_replace_opt_lifetime(m, lifetime),
            inner: Box::new(spec_replace_type(m, *inner)),
        },
        SpecTypeExpr::Array { elem, len } => SpecTypeExpr::Array {
            elem: Box::new(spec_replace_type(m, *elem)),
            len: spec_replace_const(m, len),
        },
        SpecTypeExpr::Slice { elem } => SpecTypeExpr::Slice {
            elem: Box::new(spec_replace_type(m, *elem)),
        },
        SpecTypeExpr::Tuple { elems } => SpecTypeExpr::Tuple {
            elems: spec_replace_type_seq(m, elems),
        },
        SpecTypeExpr::Paren { inner } => SpecTypeExpr::Paren {
            inner: Box::new(spec_replace_type(m, *inner)),
        },
        SpecTypeExpr::TraitObject { bounds } => SpecTypeExpr::TraitObject {
            bounds: spec_replace_type_seq(m, bounds),
        },
        SpecTypeExpr::FnPointer { params, ret } => SpecTypeExpr::FnPointer {
            params: spec_replace_type_seq(m, params),
            ret: match ret {
                Option::Some(b) => Option::Some(Box::new(spec_replace_type(m, *b))),
                Option::None => Option::None,
            },
        },
        SpecTypeExpr::Opaque { .. } => t,
    }
}

pub open spec fn spec_replace_type_seq(m: SpecReplacer, s: Seq<SpecTypeExpr>) -> Seq<SpecTypeExpr>
    decreases s,
{
    if s.len() == 0 {
        Seq::empty()
    } else {
        spec_replace_type_seq(m, s.drop_last()).push(spec_replace_type(m, s.last()))
    }
}

pub open spec fn spec_replace_arg(m: SpecReplacer, a: SpecGenericArg) -> SpecGenericArg
    decreases a,
{
    match a {
        SpecGenericArg::Type { type_expr } => SpecGenericArg::Type {
            type_expr: spec_replace_type(m, type_expr),
        },
        SpecGenericArg::Lifetime { name } => SpecGenericArg::Lifetime {
            name: spec_replace_lifetime(m, name),
        },
        SpecGenericArg::Const { const_expr } => SpecGenericArg::Const {
            const_expr: spec_replace_const(m, const_expr),
        },
    }
}

pub open spec fn spec_replace_arg_seq(m: SpecReplacer, s: Seq<SpecGenericArg>) -> Seq<
    SpecGenericArg,
>
    decreases s,
{
    if s.len() == 0 {
        Seq::empty()
    } else {
        spec_replace_arg_seq(m, s.drop_last()).push(spec_replace_arg(m, s.last()))
    }
}

/// A non-receiver parameter under the map: its type is rewritten, its
/// binding identifier is kept.
pub open spec fn spec_replace_mparam(m: SpecReplacer, p: SpecMethodParam) -> SpecMethodParam {
    SpecMethodParam { name: p.name, param_type: spec_replace_type(m, p.param_type) }
}

/// A method signature under the map: every parameter type and the return
/// type are rewritten; name, receiver and default-body flag are kept.
pub open spec fn spec_replace_signature(
    m: SpecReplacer,
    sig: SpecMethodSignature,
) -> SpecMethodSignature {
    SpecMethodSignature {
        name: sig.name,
        receiver: sig.receiver,
        params: Seq::new(sig.params.len(), |i: int| spec_replace_mparam(m, sig.params[i])),
        ret: match sig.ret {
            Option::Some(t) => Option::Some(spec_replace_type(m, t)),
            Option::None => Option::None,
        },
        has_default_body: sig.has_default_body,
    }
}

pub proof fn lemma_replace_type_seq_push(m: SpecReplacer, s: Seq<SpecTypeExpr>, t: SpecTypeExpr)
    ensures
        spec_replace_type_seq(m, s.push(t)) == spec_replace_type_seq(m, s).push(
            spec_replace_type(m, t),
        ),
{
    assert(s.push(t).drop_last() =~= s);
    assert(s.push(t).last() == t);
}

pub proof fn lemma_replace_arg_seq_push(m: SpecReplacer, s: Seq<SpecGenericArg>, a: SpecGenericArg)
    ensures
        spec_replace_arg_seq(m, s.push(a)) == spec_replace_arg_seq(m, s).push(
            spec_replace_arg(m, a),
        ),
{
    assert(s.push(a).drop_last() =~= s);
    assert(s.push(a).last() == a);
}

pub proof fn lemma_replace_type_seq_index(m: SpecReplacer, s: Seq<SpecTypeExpr>)
    ensures
        spec_replace_type_seq(m, s).len() == s.len(),
        forall|i: int|
            0 <= i < s.len() ==> spec_replace_type_seq(m, s)[i] == spec_replace_type(m, s[i]),
    decreases s,
{
    if s.len() > 0 {
        lemma_replace_type_seq_index(m, s.drop_last());
    }
}

pub proof fn lemma_replace_arg_seq_index(m: SpecReplacer, s: Seq<SpecGenericArg>)
    ensures
        spec_replace_arg_seq(m, s).len() == s.len(),
        forall|i: int|
            0 <= i < s.len() ==> spec_replace_arg_seq(m, s)[i] == spec_replace_arg(m, s[i]),
    decreases s,
{
    if s.len() > 0 {
        lemma_replace_arg_seq_index(m, s.drop_last());
    }
}

proof fn lemma_lookup_lifetime_skip(s: Seq<SpecLifetimeBinding>, name: Seq<char>, i: int)
    requires
        0 <= i <= s.len(),
        forall|j: int| 0 <= j < i ==> s[j].param != name,
    ensures
        spec_lookup_lifetime(s, name) == spec_lookup_lifetime(
            s.subrange(i, s.len() as int),
            name,
        ),
    decreases i,
{
    if i > 0 {
        assert(s.subrange(0, s.len() as int) =~= s);
        lemma_lookup_lifetime_skip(s.drop_first(), name, i - 1);
        assert(s.drop_first().subrange(i - 1, s.drop_first().len() as int) =~= s.subrange(
            i,
            s.len() as int,
        ));
    } else {
        assert(s.subrange(0, s.len() as int) =~= s);
    }
}

proof fn lemma_lookup_type_skip(s: Seq<SpecTypeBinding>, name: Seq<char>, i: int)
    requires
        0 <= i <= s.len(),
        forall|j: int| 0 <= j < i ==> s[j].param != name,
    ensures
        spec_lookup_type(s, name) == spec_lookup_type(s.subrange(i, s.len() as int), name),
    decreases i,
{
    if i > 0 {
        assert(s.subrange(0, s.len() as int) =~= s);
        lemma_lookup_type_skip(s.drop_first(), name, i - 1);
        assert(s.drop_first().subrange(i - 1, s.drop_first().len() as int) =~= s.subrange(
            i,
            s.len() as int,
        ));
    } else {
        assert(s.subrange(0, s.len() as int) =~= s);
    }
}

proof fn lemma_lookup_const_skip(s: Seq<SpecConstBinding>, name: Seq<char>, i: int)
    requires
        0 <= i <= s.len(),
        forall|j: int| 0 <= j < i ==> s[j].param != name,
    ensures
        spec_lookup_const(s, name) == spec_lookup_const(s.subrange(i, s.len() as int), name),
    decreases i,
{
    if i > 0 {
        assert(s.subrange(0, s.len() as int) =~= s);
        lemma_lookup_const_skip(s.drop_first(), name, i - 1);
        assert(s.drop_first().subrange(i - 1, s.drop_first().len() as int) =~= s.subrange(
            i,
            s.len() as int,
        ));
    } else {
        assert(s.subrange(0, s.len() as int) =~= s);
    }
}

impl GenericParamReplacer {
    fn lookup_lifetime(&self, name: &String) -> (r: Option<String>)
        ensures
            r is Some <==> spec_lookup_lifetime(self@.lifetimes, name@) is Some,
            r matches Some(x) ==> Option::Some(x@) == spec_lookup_lifetime(
                self@.lifetimes,
                name@,
            ),
    {
        let ghost s = self@.lifetimes;
        let mut i: usize = 0;
        while i < self.lifetimes.len()
            invariant
                i <= self.lifetimes.len(),
                s == self@.lifetimes,
                s.len() == self.lifetimes@.len(),
                forall|j: int| 0 <= j < s.len() ==> s[j] == self.lifetimes@[j]@,
                forall|j: int| 0 <= j < i ==> s[j].param != name@,
            decreases self.lifetimes@.len() - i,
        {
            if self.lifetimes[i].param == *name {
                proof {
                    lemma_lookup_lifetime_skip(s, name@, i as int);
                }
                return Option::Some(self.lifetimes[i].arg.clone());
            }
            i = i + 1;
        }
        proof {
            lemma_lookup_lifetime_skip(s, name@, s.len() as int);
            assert(s.subrange(s.len() as int, s.len() as int) =~= Seq::<
                SpecLifetimeBinding,
            >::empty());
        }
        Option::None
    }

    fn lookup_type(&self, name: &String) -> (r: Option<TypeExpr>)
        ensures
            r is Some <==> spec_lookup_type(self@.types, name@) is Some,
            r matches Some(x) ==> Option::Some(view_type_expr(x)) == spec_lookup_type(
                self@.types,
                name@,
            ),
    {
        let ghost s = self@.types;
        let mut i: usize = 0;
        while i < self.types.len()
            invariant
                i <= self.types.len(),
                s == self@.types,
                s.len() == self.types@.len(),
                forall|j: int| 0 <= j < s.len() ==> s[j] == self.types@[j]@,
                forall|j: int| 0 <= j < i ==> s[j].param != name@,
            decreases self.types@.len() - i,
        {
            if self.types[i].param == *name {
                proof {
                    lemma_lookup_type_skip(s, name@, i as int);
                }
                return Option::Some(self.types[i].arg.clone());
            }
            i = i + 1;
        }
        proof {
            lemma_lookup_type_skip(s, name@, s.len() as int);
            assert(s.subrange(s.len() as int, s.len() as int) =~= Seq::<SpecTypeBinding>::empty());
        }
        Option::None
    }

    fn lookup_const(&self, name: &String) -> (r: Option<ConstExpr>)
        ensures
            r is Some <==> spec_lookup_const(self@.consts, name@) is Some,
            r matches Some(x) ==> Option::Some(x@) == spec_lookup_const(self@.consts, name@),
    {
        let ghost s = self@.consts;
        let mut i: usize = 0;
        while i < self.consts.len()
            invariant
                i <= self.consts.len(),
                s == self@.consts,
                s.len() == self.consts@.len(),
                forall|j: int| 0 <= j < s.len() ==> s[j] == self.consts@[j]@,
                forall|j: int| 0 <= j < i ==> s[j].param != name@,
            decreases self.consts@.len() - i,
        {
            if self.consts[i].param == *name {
                proof {
                    lemma_lookup_const_skip(s, name@, i as int);
                }
                return Option::Some(self.consts[i].arg.clone());
            }
            i = i + 1;
        }
        proof {
            lemma_lookup_const_skip(s, name@, s.len() as int);
            assert(s.subrange(s.len() as int, s.len() as int) =~= Seq::<SpecConstBinding>::empty());
        }
        Option::None
    }

    fn replace_opt_lifetime(&self, l: &Option<String>) -> (r: Option<String>)
        ensures
            crate::model::view_opt_string(r) == spec_replace_opt_lifetime(
                self@,
                crate::model::view_opt_string(*l),
            ),
    {
        match l {
            Option::Some(x) => match self.lookup_lifetime(x) {
                Option::Some(y) => Option::Some(y),
                Option::None => Option::Some(x.clone()),
            },
            Option::None => Option::None,
        }
    }

    fn replace_const(&self, c: &ConstExpr) -> (r: ConstExpr)
        ensures
            r@ == spec_replace_const(self@, c@),
    {
        match c {
            ConstExpr::Path { name } => match self.lookup_const(name) {
                Option::Some(e) => e,
                Option::None => c.clone(),
            },
            _ => c.clone(),
        }
    }

    /// Rewrites one type expression by this map, bottom-up.
    pub fn replace_type(&self, t: &TypeExpr) -> (r: TypeExpr)
        ensures
            view_type_expr(r) == spec_replace_type(self@, view_type_expr(*t)),
        decreases *t,
    {
        match t {
            TypeExpr::Named { name, args } => {
                proof {
                    lemma_view_arg_seq_index(args@);
                }
                if args.len() == 0 {
                    match self.lookup_type(name) {
                        Option::Some(e) => e,
                        Option::None => {
                            let empty_args: Vec<GenericArg> = Vec::new();
                            proof {
                                assert(empty_args@.len() == 0);
                                assert(view_arg_seq(empty_args@) == Seq::<SpecGenericArg>::empty());
                                assert(view_arg_seq(args@) == Seq::<SpecGenericArg>::empty());
                            }
                            let r = TypeExpr::Named { name: name.clone(), args: empty_args };
                            proof {
                                assert(view_type_expr(r) == spec_replace_type(
                                    self@,
                                    view_type_expr(*t),
                                ));
                            }
                            r
                        },
                    }
                } else {
                    TypeExpr::Named { name: name.clone(), args: self.replace_arg_vec(args) }
                }
            },
            TypeExpr::Reference { is_mut, lifetime, inner } => TypeExpr::Reference {
                is_mut: *is_mut,
                lifetime: self.replace_opt_lifetime(lifetime),
                inner: Box::new(self.replace_type(&**inner)),
            },
            TypeExpr::Array { elem, len } => TypeExpr::Array {
                elem: Box::new(self.replace_type(&**elem)),
                len: self.replace_const(len),
            },
            TypeExpr::Slice { elem } => TypeExpr::Slice {
                elem: Box::new(self.replace_type(&**elem)),
            },
            TypeExpr::Tuple { elems } => TypeExpr::Tuple { elems: self.replace_type_vec(elems) },
            TypeExpr::Paren { inner } => TypeExpr::Paren {
                inner: Box::new(self.replace_type(&**inner)),
            },
            TypeExpr::TraitObject { bounds } => TypeExpr::TraitObject {
                bounds: self.replace_type_vec(bounds),
            },
            TypeExpr::FnPointer { params, ret } => TypeExpr::FnPointer {
                params: self.replace_type_vec(params),
                ret: match ret {
                    Option::Some(b) => Option::Some(Box::new(self.replace_type(&**b))),
                    Option::None => Option::None,
                },
            },
            TypeExpr::Opaque { text } => TypeExpr::Opaque { text: text.clone() },
        }
    }

    fn replace_type_vec(&self, v: &Vec<TypeExpr>) -> (r: Vec<TypeExpr>)
        ensures
            crate::model::view_type_seq(r@) == spec_replace_type_seq(
                self@,
                crate::model::view_type_seq(v@),
            ),
        decreases *v,
    {
        let ghost s = crate::model::view_type_seq(v@);
        proof {
            crate::model::lemma_view_type_seq_index(v@);
        }
        let mut r: Vec<TypeExpr> = Vec::new();
        let mut i: usize = 0;
        while i < v.len()
            invariant
                i <= v.len(),
                s == crate::model::view_type_seq(v@),
                s.len() == v@.len(),
                forall|j: int| 0 <= j < s.len() ==> s[j] == view_type_expr(v@[j]),
                crate::model::view_type_seq(r@) == spec_replace_type_seq(
                    self@,
                    s.subrange(0, i as int),
                ),
            decreases v@.len() - i,
        {
            let e = self.replace_type(&v[i]);
            proof {
                crate::model::lemma_view_type_seq_push(r@, e);
                lemma_replace_type_seq_push(self@, s.subrange(0, i as int), s[i as int]);
                assert(s.subrange(0, i + 1 as int) =~= s.subrange(0, i as int).push(s[i as int]));
            }
            r.push(e);
            i = i + 1;
        }
        proof {
            assert(s.subrange(0, s.len() as int) =~= s);
        }
        r
    }

    fn replace_arg_vec(&self, v: &Vec<GenericArg>) -> (r: Vec<GenericArg>)
        ensures
            view_arg_seq(r@) == spec_replace_arg_seq(self@, view_arg_seq(v@)),
        decreases *v,
    {
        let ghost s = view_arg_seq(v@);
        proof {
            lemma_view_arg_seq_index(v@);
        }
        let mut r: Vec<GenericArg> = Vec::new();
        let mut i: usize = 0;
        while i < v.len()
            invariant
                i <= v.len(),
                s == view_arg_seq(v@),
                s.len() == v@.len(),
                forall|j: int| 0 <= j < s.len() ==> s[j] == crate::model::view_generic_arg(v@[j]),
                view_arg_seq(r@) == spec_replace_arg_seq(self@, s.subrange(0, i as int)),
            decreases v@.len() - i,
        {
            let e = self.replace_arg(&v[i]);
            proof {
                crate::model::lemma_view_arg_seq_push(r@, e);
                lemma_replace_arg_seq_push(self@, s.subrange(0, i as int), s[i as int]);
                assert(s.subrange(0, i + 1 as int) =~= s.subrange(0, i as int).push(s[i as int]));
            }
            r.push(e);
            i = i + 1;
        }
        proof {
            assert(s.subrange(0, s.len() as int) =~= s);
        }
        r
    }

    fn replace_arg(&self, a: &GenericArg) -> (r: GenericArg)
        ensures
            crate::model::view_generic_arg(r) == spec_replace_arg(
                self@,
                crate::model::view_generic_arg(*a),
            ),
        decreases *a,
    {
        match a {
            GenericArg::Type { type_expr } => GenericArg::Type {
                type_expr: self.replace_type(type_expr),
            },
            GenericArg::Lifetime { name } => GenericArg::Lifetime {
                name: match self.lookup_lifetime(name) {
                    Option::Some(x) => x,
                    Option::None => name.clone(),
                },
            },
            GenericArg::Const { const_expr } => GenericArg::Const {
                const_expr: self.replace_const(const_expr),
            },
        }
    }

    /// Rewrites a method signature by this map: every parameter type and
    /// the return type, bottom-up; the method name, the receiver and the
    /// default-body flag are kept as they stand.
    pub fn replace_signature(&self, sig: &MethodSignature) -> (r: MethodSignature)
        ensures
            r@ == spec_replace_signature(self@, sig@),
    {
        let mut params: Vec<MethodParam> = Vec::new();
        let mut i: usize = 0;
        while i < sig.params.len()
            invariant
                i <= sig.params.len(),
                params@.len() == i,
                forall|j: int|
                    0 <= j < i ==> params@[j]@ == spec_replace_mparam(self@, sig.params@[j]@),
            decreases sig.params@.len() - i,
        {
            let p = &sig.params[i];
            params.push(
                MethodParam { name: p.name.clone(), param_type: self.replace_type(&p.param_type) },
            );
            i = i + 1;
        }
        let r = MethodSignature {
            name: sig.name.clone(),
            receiver: match &sig.receiver {
                Option::Some(rk) => Option::Some(rk.clone()),
                Option::None => Option::None,
            },
            params,
            ret: match &sig.ret {
                Option::Some(t) => Option::Some(self.replace_type(t)),
                Option::None => Option::None,
            },
            has_default_body: sig.has_default_body,
        };
        proof {
            assert(view_mparam_seq(r.params@) =~= spec_replace_signature(self@, sig@).params);
        }
        r
    }
}

// ---------------------------------------------------------------------------
// Laws
// ---------------------------------------------------------------------------

/// Whether a bare leaf named `n` (a substitutable occurrence of a type
/// parameter) occurs anywhere in a type expression.  Opaque shapes hold no
/// substitutable occurrences.
pub open spec fn spec_type_param_occurs(n: Seq<char>, t: SpecTypeExpr) -> bool
    decreases t,
{
    match t {
        SpecTypeExpr::Named { name, args } => (name == n && args.len() == 0)
            || spec_type_param_occurs_in_args(n, args),
        SpecTypeExpr::Reference { inner, .. } => spec_type_param_occurs(n, *inner),
        SpecTypeExpr::Array { elem, .. } => spec_type_param_occurs(n, *elem),
        SpecTypeExpr::Slice { elem } => spec_type_param_occurs(n, *elem),
        SpecTypeExpr::Tuple { elems } => spec_type_param_occurs_in_types(n, elems),
        SpecTypeExpr::Paren { inner } => spec_type_param_occurs(n, *inner),
        SpecTypeExpr::TraitObject { bounds } => spec_type_param_occurs_in_types(n, bounds),
        SpecTypeExpr::FnPointer { params, ret } => spec_type_param_occurs_in_types(n, params)
            || match ret {
            Option::Some(b) => spec_type_param_occurs(n, *b),
            Option::None => false,
        },
        SpecTypeExpr::Opaque { .. } => false,
    }
}

pub open spec fn spec_type_param_occurs_in_types(n: Seq<char>, s: Seq<SpecTypeExpr>) -> bool
    decreases s,
{
    if s.len() == 0 {
        false
    } else {
        spec_type_param_occurs_in_types(n, s.drop_last()) || spec_type_param_occurs(n, s.last())
    }
}

pub open spec fn spec_type_param_occurs_in_arg(n: Seq<char>, a: SpecGenericArg) -> bool
    decreases a,
{
    match a {
        SpecGenericArg::Type { type_expr } => spec_type_param_occurs(n, type_expr),
        _ => false,
    }
}

pub open spec fn spec_type_param_occurs_in_args(n: Seq<char>, s: Seq<SpecGenericArg>) -> bool
    decreases s,
{
    if s.len() == 0 {
        false
    } else {
        spec_type_param_occurs_in_args(n, s.drop_last()) || spec_type_param_occurs_in_arg(
            n,
            s.last(),
        )
    }
}

/// Whether the lifetime named `n` occurs in a type expression, in a
/// reference or among generic arguments.
pub open spec fn spec_lifetime_occurs(n: Seq<char>, t: SpecTypeExpr) -> bool
    decreases t,
{
    match t {
        SpecTypeExpr::Named { args, .. } => spec_lifetime_occurs_in_args(n, args),
        SpecTypeExpr::Reference { lifetime, inner, .. } => (match lifetime {
            Option::Some(l) => l == n,
            Option::None => false,
        }) || spec_lifetime_occurs(n, *inner),
        SpecTypeExpr::Array { elem, .. } => spec_lifetime_occurs(n, *elem),
        SpecTypeExpr::Slice { elem } => spec_lifetime_occurs(n, *elem),
        SpecTypeExpr::Tuple { elems } => spec_lifetime_occurs_in_types(n, elems),
        SpecTypeExpr::Paren { inner } => spec_lifetime_occurs(n, *inner),
        SpecTypeExpr::TraitObject { bounds } => spec_lifetime_occurs_in_types(n, bounds),
        SpecTypeExpr::FnPointer { params, ret } => spec_lifetime_occurs_in_types(n, params)
            || match ret {
            Option::Some(b) => spec_lifetime_occurs(n, *b),
            Option::None => false,
        },
        SpecTypeExpr::Opaque { .. } => false,
    }
}

pub open spec fn spec_lifetime_occurs_in_types(n: Seq<char>, s: Seq<SpecTypeExpr>) -> bool
    decreases s,
{
    if s.len() == 0 {
        false
    } else {
        spec_lifetime_occurs_in_types(n, s.drop_last()) || spec_lifetime_occurs(n, s.last())
    }
}

pub open spec fn spec_lifetime_occurs_in_arg(n: Seq<char>, a: SpecGenericArg) -> bool
    decreases a,
{
    match a {
        SpecGenericArg::Type { type_expr } => spec_lifetime_occurs(n, type_expr),
        SpecGenericArg::Lifetime { name } => name == n,
        SpecGenericArg::Const { .. } => false,
    }
}

pub open spec fn spec_lifetime_occurs_in_args(n: Seq<char>, s: Seq<SpecGenericArg>) -> bool
    decreases s,
{
    if s.len() == 0 {
        false
    } else {
        spec_lifetime_occurs_in_args(n, s.drop_last()) || spec_lifetime_occurs_in_arg(n, s.last())
    }
}

/// Whether the const parameter named `n` occurs in const position (an array
/// length or a const generic argument) in a type expression.
pub open spec fn spec_const_param_occurs(n: Seq<char>, t: SpecTypeExpr) -> bool
    decreases t,
{
    match t {
        SpecTypeExpr::Named { args, .. } => spec_const_param_occurs_in_args(n, args),
        SpecTypeExpr::Reference { inner, .. } => spec_const_param_occurs(n, *inner),
        SpecTypeExpr::Array { elem, len } => spec_const_param_occurs(n, *elem) || (match len {
            SpecConstExpr::Path { name } => name == n,
            _ => false,
        }),
        SpecTypeExpr::Slice { elem } => spec_const_param_occurs(n, *elem),
        SpecTypeExpr::Tuple { elems } => spec_const_param_occurs_in_types(n, elems),
        SpecTypeExpr::Paren { inner } => spec_const_param_occurs(n, *inner),
        SpecTypeExpr::TraitObject { bounds } => spec_const_param_occurs_in_types(n, bounds),
        SpecTypeExpr::FnPointer { params, ret } => spec_const_param_occurs_in_types(n, params)
            || match ret {
            Option::Some(b) => spec_const_param_occurs(n, *b),
            Option::None => false,
        },
        SpecTypeExpr::Opaque { .. } => false,
    }
}

pub open spec fn spec_const_param_occurs_in_types(n: Seq<char>, s: Seq<SpecTypeExpr>) -> bool
    decreases s,
{
    if s.len() == 0 {
        false
    } else {
        spec_const_param_occurs_in_types(n, s.drop_last()) || spec_const_param_occurs(n, s.last())
    }
}

pub open spec fn spec_const_param_occurs_in_arg(n: Seq<char>, a: SpecGenericArg) -> bool
    decreases a,
{
    match a {
        SpecGenericArg::Type { type_expr } => spec_const_param_occurs(n, type_expr),
        SpecGenericArg::Lifetime { .. } => false,
        SpecGenericArg::Const { const_expr } => match const_expr {
            SpecConstExpr::Path { name } => name == n,
            _ => false,
        },
    }
}

pub open spec fn spec_const_param_occurs_in_args(n: Seq<char>, s: Seq<SpecGenericArg>) -> bool
    decreases s,
{
    if s.len() == 0 {
        false
    } else {
        spec_const_param_occurs_in_args(n, s.drop_last()) || spec_const_param_occurs_in_arg(
            n,
            s.last(),
        )
    }
}

proof fn lemma_lookup_type_in_values(s: Seq<SpecTypeBinding>, name: Seq<char>) -> (i: int)
    requires
        spec_lookup_type(s, name) is Some,
    ensures
        0 <= i < s.len(),
        s[i].param == name,
        s[i].arg == spec_lookup_type(s, name)->Some_0,
    decreases s.len(),
{
    if s[0].param == name {
        0
    } else {
        let j = lemma_lookup_type_in_values(s.drop_first(), name);
        assert(s[j + 1] == s.drop_first()[j]);
        j + 1
    }
}

/// Substitution correctness, first half: after applying the map, no
/// substitutable occurrence of a mapped type parameter remains anywhere in
/// the result — however deeply nested under references, arrays, slices,
/// tuples or further generic instantiations — provided the mapped images
/// themselves do not mention that parameter.
pub proof fn lemma_mapped_type_param_gone(m: SpecReplacer, n: Seq<char>, t: SpecTypeExpr)
    requires
        spec_lookup_type(m.types, n) is Some,
        forall|i: int|
            0 <= i < m.types.len() ==> !spec_type_param_occurs(n, (#[trigger] m.types[i]).arg),
    ensures
        !spec_type_param_occurs(n, spec_replace_type(m, t)),
    decreases t,
{
    match t {
        SpecTypeExpr::Named { name, args } => {
            if args.len() == 0 {
                match spec_lookup_type(m.types, name) {
                    Option::Some(e) => {
                        let i = lemma_lookup_type_in_values(m.types, name);
                        assert(!spec_type_param_occurs(n, m.types[i].arg));
                        assert(m.types[i].arg == e);
                        assert(spec_replace_type(m, t) == e);
                        assert(!spec_type_param_occurs(n, spec_replace_type(m, t)));
                    },
                    Option::None => {
                        if name == n {
                            assert(spec_lookup_type(m.types, n) is None);
                        }
                        assert(spec_replace_type(m, t) == t);
                        assert(!spec_type_param_occurs_in_args(n, args));
                        assert(!spec_type_param_occurs(n, spec_replace_type(m, t)));
                    },
                }
            } else {
                lemma_mapped_gone_arg_seq(m, n, args);
                lemma_replace_arg_seq_index(m, args);
                let rargs = spec_replace_arg_seq(m, args);
                assert(rargs.len() == args.len());
                assert(spec_replace_type(m, t) == SpecTypeExpr::Named { name, args: rargs });
                assert(!spec_type_param_occurs_in_args(n, rargs));
                assert(!spec_type_param_occurs(n, spec_replace_type(m, t)));
            }
        },
        SpecTypeExpr::Reference { inner, .. } => {
            lemma_mapped_type_param_gone(m, n, *inner);
        },
        SpecTypeExpr::Array { elem, .. } => {
            lemma_mapped_type_param_gone(m, n, *elem);
        },
        SpecTypeExpr::Slice { elem } => {
            lemma_mapped_type_param_gone(m, n, *elem);
        },
        SpecTypeExpr::Tuple { elems } => {
            lemma_mapped_gone_type_seq(m, n, elems);
        },
        SpecTypeExpr::Paren { inner } => {
            lemma_mapped_type_param_gone(m, n, *inner);
        },
        SpecTypeExpr::TraitObject { bounds } => {
            lemma_mapped_gone_type_seq(m, n, bounds);
        },
        SpecTypeExpr::FnPointer { params, ret } => {
            lemma_mapped_gone_type_seq(m, n, params);
            match ret {
                Option::Some(b) => {
                    lemma_mapped_type_param_gone(m, n, *b);
                },
                Option::None => {},
            }
        },
        SpecTypeExpr::Opaque { .. } => {},
    }
}

proof fn lemma_mapped_gone_type_seq(m: SpecReplacer, n: Seq<char>, s: Seq<SpecTypeExpr>)
    requires
        spec_lookup_type(m.types, n) is Some,
        forall|i: int|
            0 <= i < m.types.len() ==> !spec_type_param_occurs(n, (#[trigger] m.types[i]).arg),
    ensures
        !spec_type_param_occurs_in_types(n, spec_replace_type_seq(m, s)),
    decreases s,
{
    if s.len() > 0 {
        lemma_mapped_gone_type_seq(m, n, s.drop_last());
        lemma_mapped_type_param_gone(m, n, s.last());
        let r = spec_replace_type_seq(m, s);
        assert(r == spec_replace_type_seq(m, s.drop_last()).push(spec_replace_type(m, s.last())));
        assert(r.drop_last() =~= spec_replace_type_seq(m, s.drop_last()));
        assert(r.last() == spec_replace_type(m, s.last()));
    }
}

proof fn lemma_mapped_gone_arg(m: SpecReplacer, n: Seq<char>, a: SpecGenericArg)
    requires
        spec_lookup_type(m.types, n) is Some,
        forall|i: int|
            0 <= i < m.types.len() ==> !spec_type_param_occurs(n, (#[trigger] m.types[i]).arg),
    ensures
        !spec_type_param_occurs_in_arg(n, spec_replace_arg(m, a)),
    decreases a,
{
    match a {
        SpecGenericArg::Type { type_expr } => {
            lemma_mapped_type_param_gone(m, n, type_expr);
        },
        _ => {},
    }
}

proof fn lemma_mapped_gone_arg_seq(m: SpecReplacer, n: Seq<char>, s: Seq<SpecGenericArg>)
    requires
        spec_lookup_type(m.types, n) is Some,
        forall|i: int|
            0 <= i < m.types.len() ==> !spec_type_param_occurs(n, (#[trigger] m.types[i]).arg),
    ensures
        !spec_type_param_occurs_in_args(n, spec_replace_arg_seq(m, s)),
    decreases s,
{
    if s.len() > 0 {
        lemma_mapped_gone_arg_seq(m, n, s.drop_last());
        lemma_mapped_gone_arg(m, n, s.last());
        let r = spec_replace_arg_seq(m, s);
        assert(r.drop_last() =~= spec_replace_arg_seq(m, s.drop_last()));
        assert(r.last() == spec_replace_arg(m, s.last()));
    }
}

/// Substitution correctness, second half: a type expression in which no
/// mapped type parameter, lifetime or const parameter occurs is left
/// entirely untouched by the map.
pub proof fn lemma_unmapped_type_untouched(m: SpecReplacer, t: SpecTypeExpr)
    requires
        forall|i: int|
            0 <= i < m.types.len() ==> !spec_type_param_occurs((#[trigger] m.types[i]).param, t),
        forall|i: int|
            0 <= i < m.lifetimes.len() ==> !spec_lifetime_occurs(
                (#[trigger] m.lifetimes[i]).param,
                t,
            ),
        forall|i: int|
            0 <= i < m.consts.len() ==> !spec_const_param_occurs((#[trigger] m.consts[i]).param, t),
    ensures
        spec_replace_type(m, t) == t,
    decreases t,
{
    match t {
        SpecTypeExpr::Named { name, args } => {
            if args.len() == 0 {
                assert(forall|j: int| 0 <= j < m.types.len() ==> (#[trigger] m.types[j]).param
                    != name);
                lemma_lookup_type_skip(m.types, name, m.types.len() as int);
                assert(m.types.subrange(m.types.len() as int, m.types.len() as int) =~= Seq::<
                    SpecTypeBinding,
                >::empty());
            } else {
                assert(forall|i: int| 0 <= i < m.types.len()
                    ==> !spec_type_param_occurs_in_args((#[trigger] m.types[i]).param, args));
                assert(forall|i: int| 0 <= i < m.lifetimes.len()
                    ==> !spec_lifetime_occurs_in_args((#[trigger] m.lifetimes[i]).param, args));
                assert(forall|i: int| 0 <= i < m.consts.len()
                    ==> !spec_const_param_occurs_in_args((#[trigger] m.consts[i]).param, args));
                lemma_unmapped_arg_seq_untouched(m, args);
            }
        },
        SpecTypeExpr::Reference { is_mut, lifetime, inner } => {
            lemma_unmapped_type_untouched(m, *inner);
            match lifetime {
                Option::Some(l) => {
                    assert(forall|j: int| 0 <= j < m.lifetimes.len()
                        ==> (#[trigger] m.lifetimes[j]).param != l);
                    lemma_lookup_lifetime_skip(m.lifetimes, l, m.lifetimes.len() as int);
                    assert(m.lifetimes.subrange(m.lifetimes.len() as int, m.lifetimes.len() as int)
                        =~= Seq::<SpecLifetimeBinding>::empty());
                },
                Option::None => {},
            }
        },
        SpecTypeExpr::Array { elem, len } => {
            lemma_unmapped_type_untouched(m, *elem);
            match len {
                SpecConstExpr::Path { name } => {
                    assert(forall|j: int| 0 <= j < m.consts.len() ==> (#[trigger] m.consts[j]).param
                        != name);
                    lemma_lookup_const_skip(m.consts, name, m.consts.len() as int);
                    assert(m.consts.subrange(m.consts.len() as int, m.consts.len() as int) =~= Seq::<
                        SpecConstBinding,
                    >::empty());
                },
                _ => {},
            }
        },
        SpecTypeExpr::Slice { elem } => {
            lemma_unmapped_type_untouched(m, *elem);
        },
        SpecTypeExpr::Tuple { elems } => {
            lemma_unmapped_type_seq_untouched(m, elems);
        },
        SpecTypeExpr::Paren { inner } => {
            lemma_unmapped_type_untouched(m, *inner);
        },
        SpecTypeExpr::TraitObject { bounds } => {
            lemma_unmapped_type_seq_untouched(m, bounds);
        },
        SpecTypeExpr::FnPointer { params, ret } => {
            lemma_unmapped_type_seq_untouched(m, params);
            match ret {
                Option::Some(b) => {
                    lemma_unmapped_type_untouched(m, *b);
                },
                Option::None => {},
            }
        },
        SpecTypeExpr::Opaque { .. } => {},
    }
}

proof fn lemma_unmapped_type_seq_untouched(m: SpecReplacer, s: Seq<SpecTypeExpr>)
    requires
        forall|i: int|
            0 <= i < m.types.len() ==> !spec_type_param_occurs_in_types(
                (#[trigger] m.types[i]).param,
                s,
            ),
        forall|i: int|
            0 <= i < m.lifetimes.len() ==> !spec_lifetime_occurs_in_types(
                (#[trigger] m.lifetimes[i]).param,
                s,
            ),
        forall|i: int|
            0 <= i < m.consts.len() ==> !spec_const_param_occurs_in_types(
                (#[trigger] m.consts[i]).param,
                s,
            ),
    ensures
        spec_replace_type_seq(m, s) == s,
    decreases s,
{
    if s.len() > 0 {
        lemma_unmapped_type_seq_untouched(m, s.drop_last());
        lemma_unmapped_type_untouched(m, s.last());
        assert(spec_replace_type_seq(m, s) =~= s);
    } else {
        assert(spec_replace_type_seq(m, s) =~= s);
    }
}

proof fn lemma_unmapped_arg_untouched(m: SpecReplacer, a: SpecGenericArg)
    requires
        forall|i: int|
            0 <= i < m.types.len() ==> !spec_type_param_occurs_in_arg(
                (#[trigger] m.types[i]).param,
                a,
            ),
        forall|i: int|
            0 <= i < m.lifetimes.len() ==> !spec_lifetime_occurs_in_arg(
                (#[trigger] m.lifetimes[i]).param,
                a,
            ),
        forall|i: int|
            0 <= i < m.consts.len() ==> !spec_const_param_occurs_in_arg(
                (#[trigger] m.consts[i]).param,
                a,
            ),
    ensures
        spec_replace_arg(m, a) == a,
    decreases a,
{
    match a {
        SpecGenericArg::Type { type_expr } => {
            lemma_unmapped_type_untouched(m, type_expr);
        },
        SpecGenericArg::Lifetime { name } => {
            assert(forall|j: int| 0 <= j < m.lifetimes.len() ==> (#[trigger] m.lifetimes[j]).param
                != name);
            lemma_lookup_lifetime_skip(m.lifetimes, name, m.lifetimes.len() as int);
            assert(m.lifetimes.subrange(m.lifetimes.len() as int, m.lifetimes.len() as int) =~= Seq::<
                SpecLifetimeBinding,
            >::empty());
        },
        SpecGenericArg::Const { const_expr } => {
            match const_expr {
                SpecConstExpr::Path { name } => {
                    assert(forall|j: int| 0 <= j < m.consts.len() ==> (#[trigger] m.consts[j]).param
                        != name);
                    lemma_lookup_const_skip(m.consts, name, m.consts.len() as int);
                    assert(m.consts.subrange(m.consts.len() as int, m.consts.len() as int) =~= Seq::<
                        SpecConstBinding,
                    >::empty());
                },
                _ => {},
            }
        },
    }
}

proof fn lemma_unmapped_arg_seq_untouched(m: SpecReplacer, s: Seq<SpecGenericArg>)
    requires
        forall|i: int|
            0 <= i < m.types.len() ==> !spec_type_param_occurs_in_args(
                (#[trigger] m.types[i]).param,
                s,
            ),
        forall|i: int|
            0 <= i < m.lifetimes.len() ==> !spec_lifetime_occurs_in_args(
                (#[trigger] m.lifetimes[i]).param,
                s,
            ),
        forall|i: int|
            0 <= i < m.consts.len() ==> !spec_const_param_occurs_in_args(
                (#[trigger] m.consts[i]).param,
                s,
            ),
    ensures
        spec_replace_arg_seq(m, s) == s,
    decreases s,
{
    if s.len() > 0 {
        lemma_unmapped_arg_seq_untouched(m, s.drop_last());
        lemma_unmapped_arg_untouched(m, s.last());
        assert(spec_replace_arg_seq(m, s) =~= s);
    } else {
        assert(spec_replace_arg_seq(m, s) =~= s);
    }
}

/// Substitution correctness at the signature level: after specializing a
/// signature, no substitutable occurrence of the mapped type parameter `n`
/// remains in any parameter type or in the return type.
pub proof fn lemma_signature_mapped_param_gone(
    m: SpecReplacer,
    n: Seq<char>,
    sig: SpecMethodSignature,
)
    requires
        spec_lookup_type(m.types, n) is Some,
        forall|i: int|
            0 <= i < m.types.len() ==> !spec_type_param_occurs(n, (#[trigger] m.types[i]).arg),
    ensures
        forall|i: int|
            0 <= i < sig.params.len() ==> !spec_type_param_occurs(
                n,
                #[trigger] spec_replace_signature(m, sig).params[i].param_type,
            ),
        match spec_replace_signature(m, sig).ret {
            Option::Some(t) => !spec_type_param_occurs(n, t),
            Option::None => true,
        },
{
    assert forall|i: int| 0 <= i < sig.params.len() implies !spec_type_param_occurs(
        n,
        #[trigger] spec_replace_signature(m, sig).params[i].param_type,
    ) by {
        lemma_mapped_type_param_gone(m, n, sig.params[i].param_type);
    }
    match sig.ret {
        Option::Some(t) => {
            lemma_mapped_type_param_gone(m, n, t);
        },
        Option::None => {},
    }
}

/// Substitution correctness at the signature level: a signature in which no
/// mapped parameter occurs at all is returned unchanged.
pub proof fn lemma_signature_unmapped_untouched(m: SpecReplacer, sig: SpecMethodSignature)
    requires
        forall|i: int, j: int|
            0 <= i < m.types.len() && 0 <= j < sig.params.len() ==> !spec_type_param_occurs(
                (#[trigger] m.types[i]).param,
                (#[trigger] sig.params[j]).param_type,
            ),
        forall|i: int, j: int|
            0 <= i < m.lifetimes.len() && 0 <= j < sig.params.len() ==> !spec_lifetime_occurs(
                (#[trigger] m.lifetimes[i]).param,
                (#[trigger] sig.params[j]).param_type,
            ),
        forall|i: int, j: int|
            0 <= i < m.consts.len() && 0 <= j < sig.params.len() ==> !spec_const_param_occurs(
                (#[trigger] m.consts[i]).param,
                (#[trigger] sig.params[j]).param_type,
            ),
        match sig.ret {
            Option::Some(t) => {
                &&& forall|i: int|
                    0 <= i < m.types.len() ==> !spec_type_param_occurs(
                        (#[trigger] m.types[i]).param,
                        t,
                    )
                &&& forall|i: int|
                    0 <= i < m.lifetimes.len() ==> !spec_lifetime_occurs(
                        (#[trigger] m.lifetimes[i]).param,
                        t,
                    )
                &&& forall|i: int|
                    0 <= i < m.consts.len() ==> !spec_const_param_occurs(
                        (#[trigger] m.consts[i]).param,
                        t,
                    )
            },
            Option::None => true,
        },
    ensures
        spec_replace_signature(m, sig) == sig,
{
    assert forall|j: int| 0 <= j < sig.params.len() implies #[trigger] spec_replace_signature(
        m,
        sig,
    ).params[j] == sig.params[j] by {
        lemma_unmapped_type_untouched(m, sig.params[j].param_type);
    }
    assert(spec_replace_signature(m, sig).params =~= sig.params);
    match sig.ret {
        Option::Some(t) => {
            lemma_unmapped_type_untouched(m, t);
        },
        Option::None => {},
    }
}

/// Arity invariant: whenever a trait declares `k` generic parameters and an
/// instantiation supplies a different number of arguments, building the
/// substitution map fails with exactly `ArityMismatch`; no map is built.
pub proof fn lemma_arity_mismatch(params: Seq<SpecGenericParam>, args: Seq<SpecGenericArg>)
    requires
        params.len() != args.len(),
    ensures
        spec_new(params, args) == Result::<SpecReplacer, SpecError>::Err(
            SpecError::ArityMismatch {
                expected: params.len() as int,
                found: args.len() as int,
            },
        ),
{
}

} // verus!

