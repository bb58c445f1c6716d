//! The delegation synthesizer.
//!
//! `TraitData` holds the trait declaration a generation request works on;
//! `FnIngredient` pairs the trait's path with one method signature and
//! answers the per-method questions (receiver mode, call path, non-receiver
//! parameters); `gen_impl` produces the forwarding methods, honoring the
//! already-implemented set, an optional scheme, and per-variant custom
//! extraction expressions.

use vstd::prelude::*;

use crate::derive_delegate_args::DeriveDelegateArgs;
use crate::derive_delegate_args::SpecDeriveDelegateArgs;
use crate::derive_delegate_args::spec_scheme_placeholder;
use crate::derive_delegate_args::spec_validate_args;
use crate::fn_call_replacer::replace_fn_call_in_expr;
use crate::fn_call_replacer::spec_replace_fn_call;
use crate::generic_param_replacer::GenericParamReplacer;
use crate::generic_param_replacer::SpecReplacer;
use crate::generic_param_replacer::spec_new;
use crate::generic_param_replacer::spec_replace_signature;
use crate::ident_replacer::replace_ident_in_expr;
use crate::ident_replacer::spec_replace_ident;
use crate::model::Error;
use crate::model::Expr;
use crate::model::FieldDesignator;
use crate::model::FuncPath;
use crate::model::GenericParam;
use crate::model::MatchArm;
use crate::model::MethodImpl;
use crate::model::MethodSignature;
use crate::model::Pat;
use crate::model::ReceiverKind;
use crate::model::ReceiverMode;
use crate::model::SpecError;
use crate::model::SpecExpr;
use crate::model::SpecFieldDesignator;
use crate::model::SpecFuncPath;
use crate::model::SpecMatchArm;
use crate::model::SpecMethodImpl;
use crate::model::SpecMethodParam;
use crate::model::SpecMethodSignature;
use crate::model::SpecPat;
use crate::model::SpecReceiverKind;
use crate::model::SpecStructEnum;
use crate::model::SpecTraitPath;
use crate::model::SpecVariant;
use crate::model::StructEnum;
use crate::model::TraitPath;
use crate::model::Variant;
use crate::model::clone_gparam_vec;
use crate::model::clone_sig_vec;
use crate::model::view_expr;
use crate::model::view_expr_seq;
use crate::model::view_mimpl_seq;
use crate::model::view_param_seq;
use crate::model::view_sig_seq;
use crate::model::view_string_seq;

verus! {

// ---------------------------------------------------------------------------
// Trait data
// ---------------------------------------------------------------------------

/// The trait declaration a generation request works on: its qualified path
/// with the instantiation's generic arguments, its declared generic
/// parameters, and the method signatures selected for delegation.
#[derive(Debug)]
pub struct TraitData {
    pub trait_path: TraitPath,
    pub generics: Vec<GenericParam>,
    pub sigs: Vec<MethodSignature>,
}

pub struct SpecTraitData {
    pub trait_path: SpecTraitPath,
    pub generics: Seq<crate::model::SpecGenericParam>,
    pub sigs: Seq<SpecMethodSignature>,
}

impl View for TraitData {
    type V = SpecTraitData;

    open spec fn view(&self) -> SpecTraitData {
        SpecTraitData {
            trait_path: self.trait_path@,
            generics: view_param_seq(self.generics@),
            sigs: view_sig_seq(self.sigs@),
        }
    }
}

impl Clone for TraitData {
    fn clone(&self) -> (r: Self)
        ensures
            r@ == self@,
    {
        TraitData {
            trait_path: self.trait_path.clone(),
            generics: clone_gparam_vec(&self.generics),
            sigs: clone_sig_vec(&self.sigs),
        }
    }
}

/// The method signatures kept for delegation: all of them when
/// `include_defaulted` holds, otherwise only those without a default body.
pub open spec fn spec_filter_sigs(
    include_defaulted: bool,
    sigs: Seq<SpecMethodSignature>,
) -> Seq<SpecMethodSignature>
    decreases sigs,
{
    if sigs.len() == 0 {
        Seq::empty()
    } else {
        let rest = spec_filter_sigs(include_defaulted, sigs.drop_last());
        if !sigs.last().has_default_body || include_defaulted {
            rest.push(sigs.last())
        } else {
            rest
        }
    }
}

proof fn lemma_filter_sigs_push(
    include_defaulted: bool,
    sigs: Seq<SpecMethodSignature>,
    s: SpecMethodSignature,
)
    ensures
        spec_filter_sigs(include_defaulted, sigs.push(s)) == if !s.has_default_body
            || include_defaulted {
            spec_filter_sigs(include_defaulted, sigs).push(s)
        } else {
            spec_filter_sigs(include_defaulted, sigs)
        },
{
    assert(sigs.push(s).drop_last() =~= sigs);
    assert(sigs.push(s).last() == s);
}

impl TraitData {
    /// Builds the trait data for one generation request: methods with a
    /// default body are excluded from delegation unless the request's
    /// policy flag extends delegation to them.
    pub fn new(
        args: &DeriveDelegateArgs,
        trait_path: TraitPath,
        generics: Vec<GenericParam>,
        sigs: Vec<MethodSignature>,
    ) -> (r: TraitData)
        ensures
            r@.trait_path == trait_path@,
            r@.generics == view_param_seq(generics@),
            r@.sigs == spec_filter_sigs(
                args.delegate_fn_with_default_impl,
                view_sig_seq(sigs@),
            ),
    {
        let ghost all = view_sig_seq(sigs@);
        let mut kept: Vec<MethodSignature> = Vec::new();
        let mut i: usize = 0;
        proof {
            assert(all.subrange(0, 0) =~= Seq::<SpecMethodSignature>::empty());
            assert(view_sig_seq(kept@) =~= spec_filter_sigs(
                args.delegate_fn_with_default_impl,
                all.subrange(0, 0),
            ));
        }
        while i < sigs.len()
            invariant
                i <= sigs.len(),
                all == view_sig_seq(sigs@),
                all.len() == sigs@.len(),
                forall|j: int| 0 <= j < all.len() ==> all[j] == sigs@[j]@,
                view_sig_seq(kept@) == spec_filter_sigs(
                    args.delegate_fn_with_default_impl,
                    all.subrange(0, i as int),
                ),
            decreases sigs@.len() - i,
        {
            let ghost before = view_sig_seq(kept@);
            if !sigs[i].has_default_body || args.delegate_fn_with_default_impl {
                kept.push(sigs[i].clone());
                proof {
                    assert(view_sig_seq(kept@) =~= before.push(all[i as int]));
                }
            }
            proof {
                lemma_filter_sigs_push(
                    args.delegate_fn_with_default_impl,
                    all.subrange(0, i as int),
                    all[i as int],
                );
                assert(all.subrange(0, i + 1 as int) =~= all.subrange(0, i as int).push(
                    all[i as int],
                ));
            }
            i = i + 1;
        }
        proof {
            assert(all.subrange(0, all.len() as int) =~= all);
        }
        TraitData { trait_path, generics, sigs: kept }
    }

    /// One `FnIngredient` per kept method, in declaration order.
    pub fn fn_ingredients(&self) -> (r: Vec<FnIngredient>)
        ensures
            r@.len() == self.sigs@.len(),
            forall|i: int|
                0 <= i < r@.len() ==> (#[trigger] r@[i])@ == (SpecFnIngredient {
                    trait_path: self@.trait_path,
                    sig: self@.sigs[i],
                }),
    {
        let mut r: Vec<FnIngredient> = Vec::new();
        let mut i: usize = 0;
        while i < self.sigs.len()
            invariant
                i <= self.sigs.len(),
                r@.len() == i,
                forall|j: int|
                    0 <= j < i ==> (#[trigger] r@[j])@ == (SpecFnIngredient {
                        trait_path: self@.trait_path,
                        sig: self@.sigs[j],
                    }),
            decreases self.sigs@.len() - i,
        {
            r.push(
                FnIngredient { trait_path: self.trait_path.clone(), sig: self.sigs[i].clone() },
            );
            i = i + 1;
        }
        r
    }

    /// Checks every kept method signature; fails with the first method
    /// whose receiver is missing or unsupported.
    pub fn validate(&self) -> (r: Result<(), Error>)
        ensures
            r is Ok <==> spec_validate_sigs(self@.sigs) is Ok,
            r matches Err(e) ==> e@ == spec_validate_sigs(self@.sigs)->Err_0,
    {
        let ghost sigs = self@.sigs;
        let mut i: usize = 0;
        while i < self.sigs.len()
            invariant
                i <= self.sigs.len(),
                sigs == self@.sigs,
                sigs.len() == self.sigs@.len(),
                forall|j: int| 0 <= j < sigs.len() ==> sigs[j] == self.sigs@[j]@,
                forall|j: int| 0 <= j < i ==> spec_receiver_mode(#[trigger] sigs[j]) is Ok,
            decreases self.sigs@.len() - i,
        {
            let fi = FnIngredient {
                trait_path: self.trait_path.clone(),
                sig: self.sigs[i].clone(),
            };
            match fi.validate() {
                Result::Ok(u) => {},
                Result::Err(e) => {
                    proof {
                        lemma_first_invalid_sig_is(sigs, 0, i as int);
                    }
                    return Result::Err(e);
                },
            }
            i = i + 1;
        }
        proof {
            lemma_first_invalid_sig_is(sigs, 0, sigs.len() as int);
        }
        Result::Ok(())
    }
}

/// The least index of a signature whose receiver is missing or
/// unsupported, or the length if every signature is valid.  Scanning
/// starts at `i`.
pub open spec fn spec_first_invalid_sig(sigs: Seq<SpecMethodSignature>, i: int) -> int
    decreases sigs.len() - i,
{
    if i < 0 || i >= sigs.len() {
        sigs.len() as int
    } else if spec_receiver_mode(sigs[i]) is Err {
        i
    } else {
        spec_first_invalid_sig(sigs, i + 1)
    }
}

/// What validating a trait declaration returns: the error of the first
/// method whose receiver is missing or unsupported, if any.
pub open spec fn spec_validate_sigs(sigs: Seq<SpecMethodSignature>) -> Result<(), SpecError> {
    let k = spec_first_invalid_sig(sigs, 0);
    if k < sigs.len() {
        Result::Err(spec_receiver_mode(sigs[k])->Err_0)
    } else {
        Result::Ok(())
    }
}

proof fn lemma_first_invalid_sig_is(sigs: Seq<SpecMethodSignature>, k: int, i: int)
    requires
        0 <= k <= i <= sigs.len(),
        forall|j: int| k <= j < i ==> spec_receiver_mode(#[trigger] sigs[j]) is Ok,
        i == sigs.len() || spec_receiver_mode(sigs[i]) is Err,
    ensures
        spec_first_invalid_sig(sigs, k) == i,
    decreases i - k,
{
    if k < i {
        lemma_first_invalid_sig_is(sigs, k + 1, i);
    }
}

// ---------------------------------------------------------------------------
// Per-method ingredients
// ---------------------------------------------------------------------------

/// One method to delegate: the trait's path (with the instantiation's
/// generic arguments) and the method's signature.
#[derive(Debug)]
pub struct FnIngredient {
    pub trait_path: TraitPath,
    pub sig: MethodSignature,
}

pub struct SpecFnIngredient {
    pub trait_path: SpecTraitPath,
    pub sig: SpecMethodSignature,
}

impl View for FnIngredient {
    type V = SpecFnIngredient;

    open spec fn view(&self) -> SpecFnIngredient {
        SpecFnIngredient { trait_path: self.trait_path@, sig: self.sig@ }
    }
}

/// The receiver mode of a method signature: a method without a receiver is
/// rejected with `MissingReceiver`; an explicitly typed receiver is
/// rejected with `UnsupportedReceiver`; otherwise the mode is by value, by
/// reference or by mutable reference.
pub open spec fn spec_receiver_mode(sig: SpecMethodSignature) -> Result<ReceiverMode, SpecError> {
    match sig.receiver {
        Option::None => Result::Err(SpecError::MissingReceiver { method: sig.name }),
        Option::Some(SpecReceiverKind::Value) => Result::Ok(ReceiverMode::Value),
        Option::Some(SpecReceiverKind::Ref) => Result::Ok(ReceiverMode::Ref),
        Option::Some(SpecReceiverKind::MutRef) => Result::Ok(ReceiverMode::MutRef),
        Option::Some(SpecReceiverKind::Explicit { .. }) => Result::Err(
            SpecError::UnsupportedReceiver { method: sig.name },
        ),
    }
}

/// The token that prefixes a forwarded receiver expression: nothing for a
/// consuming receiver, `&` for by-reference, `&mut` for by-mutable-reference.
pub open spec fn spec_receiver_prefix(mode: ReceiverMode) -> Seq<char> {
    match mode {
        ReceiverMode::Value => Seq::empty(),
        ReceiverMode::Ref => "&"@,
        ReceiverMode::MutRef => "&mut"@,
    }
}

/// The binding identifiers of the non-receiver parameters, in order.
pub open spec fn spec_param_names(params: Seq<SpecMethodParam>) -> Seq<Seq<char>> {
    Seq::new(params.len(), |i: int| params[i].name)
}

/// The non-receiver parameters as bare path expressions, in order: what a
/// forwarding call appends after the receiver.
pub open spec fn spec_param_paths(params: Seq<SpecMethodParam>) -> Seq<SpecExpr> {
    Seq::new(params.len(), |i: int| SpecExpr::Path { name: params[i].name })
}

/// The qualified path of a trait method.
pub open spec fn spec_func_path(trait_path: SpecTraitPath, method: Seq<char>) -> SpecFuncPath {
    SpecFuncPath { trait_path, method }
}

impl FnIngredient {
    fn receiver_mode(&self) -> (r: Result<ReceiverMode, Error>)
        ensures
            r is Ok <==> spec_receiver_mode(self@.sig) is Ok,
            r matches Ok(m) ==> m == spec_receiver_mode(self@.sig)->Ok_0,
            r matches Err(e) ==> e@ == spec_receiver_mode(self@.sig)->Err_0,
    {
        match &self.sig.receiver {
            Option::None => Result::Err(
                Error::MissingReceiver { method: self.sig.name.clone() },
            ),
            Option::Some(ReceiverKind::Value) => Result::Ok(ReceiverMode::Value),
            Option::Some(ReceiverKind::Ref) => Result::Ok(ReceiverMode::Ref),
            Option::Some(ReceiverKind::MutRef) => Result::Ok(ReceiverMode::MutRef),
            Option::Some(ReceiverKind::Explicit { .. }) => Result::Err(
                Error::UnsupportedReceiver { method: self.sig.name.clone() },
            ),
        }
    }

    /// Checks that the method's receiver is one this system supports.
    pub fn validate(&self) -> (r: Result<(), Error>)
        ensures
            r is Ok <==> spec_receiver_mode(self@.sig) is Ok,
            r matches Err(e) ==> e@ == spec_receiver_mode(self@.sig)->Err_0,
    {
        match self.receiver_mode() {
            Result::Ok(m) => Result::Ok(()),
            Result::Err(e) => Result::Err(e),
        }
    }

    /// The prefix token of the forwarded receiver expression, derived from
    /// the receiver's reference and mutability markers.
    pub fn receiver_prefix(&self) -> (r: Result<String, Error>)
        ensures
            r is Ok <==> spec_receiver_mode(self@.sig) is Ok,
            r matches Ok(s) ==> s@ == spec_receiver_prefix(spec_receiver_mode(self@.sig)->Ok_0),
            r matches Err(e) ==> e@ == spec_receiver_mode(self@.sig)->Err_0,
    {
        match self.receiver_mode() {
            Result::Err(e) => Result::Err(e),
            Result::Ok(ReceiverMode::Value) => Result::Ok(String::new()),
            Result::Ok(ReceiverMode::Ref) => Result::Ok(String::from_str("&")),
            Result::Ok(ReceiverMode::MutRef) => Result::Ok(String::from_str("&mut")),
        }
    }

    /// The qualified path through which the forwarded call names the trait
    /// method.
    pub fn func_path(&self) -> (r: FuncPath)
        ensures
            r@ == spec_func_path(self@.trait_path, self@.sig.name),
    {
        FuncPath { trait_path: self.trait_path.clone(), method: self.sig.name.clone() }
    }

    /// The binding identifiers of the non-receiver parameters, in
    /// declaration order.
    pub fn args(&self) -> (r: Vec<String>)
        ensures
            view_string_seq(r@) == spec_param_names(self@.sig.params),
    {
        let mut r: Vec<String> = Vec::new();
        let mut i: usize = 0;
        while i < self.sig.params.len()
            invariant
                i <= self.sig.params.len(),
                r@.len() == i,
                forall|j: int| 0 <= j < i ==> r@[j]@ == self.sig.params@[j].name@,
            decreases self.sig.params@.len() - i,
        {
            r.push(self.sig.params[i].name.clone());
            i = i + 1;
        }
        proof {
            assert(view_string_seq(r@) =~= spec_param_names(self@.sig.params));
        }
        r
    }

    /// The receiver expression a struct target forwards to: `self.<field>`
    /// under the mode's prefix.
    fn struct_receiver(mode: ReceiverMode, field: &FieldDesignator) -> (r: Expr)
        ensures
            view_expr(r) == spec_struct_receiver(mode, field@),
    {
        let self_name = String::from_str("self");
        let self_path = Expr::Path { name: self_name };
        proof {
            assert(view_expr(self_path) == (SpecExpr::Path { name: "self"@ }));
        }
        let fieldc = field.clone();
        let base = Expr::Field { base: Box::new(self_path), field: fieldc };
        proof {
            assert(view_expr(base) == (SpecExpr::Field {
                base: Box::new(SpecExpr::Path { name: "self"@ }),
                field: field@,
            }));
        }
        match mode {
            ReceiverMode::Value => base,
            ReceiverMode::Ref => Expr::Reference { is_mut: false, inner: Box::new(base) },
            ReceiverMode::MutRef => Expr::Reference { is_mut: true, inner: Box::new(base) },
        }
    }

    /// The forwarding call `<fp>(<recv>, p1, p2, ...)`.
    fn forward_call(&self, fp: FuncPath, recv: Expr) -> (r: Expr)
        ensures
            view_expr(r) == spec_forward_call(fp@, view_expr(recv), self@.sig.params),
    {
        let ghost recv_v = view_expr(recv);
        let ghost fp_v = fp@;
        let mut argv: Vec<Expr> = Vec::new();
        argv.push(recv);
        let ghost head = argv@;
        proof {
            assert(view_expr_seq(head) =~= seq![recv_v]) by {
                assert(head.drop_last() =~= Seq::<Expr>::empty());
                assert(view_expr_seq(Seq::<Expr>::empty()) =~= Seq::<SpecExpr>::empty());
            }
        }
        let mut ps = self.param_paths();
        let ghost tail = ps@;
        argv.append(&mut ps);
        proof {
            crate::model::lemma_view_expr_seq_index(tail);
            assert(argv@.subrange(0, 1) =~= head);
            assert(argv@.subrange(1, argv@.len() as int) =~= tail);
            crate::model::lemma_view_expr_seq_concat(
                argv@,
                seq![recv_v],
                spec_param_paths(self@.sig.params),
            );
        }
        let ghost final_args = view_expr_seq(argv@);
        let callee = Expr::Method { path: fp };
        proof {
            assert(view_expr(callee) == (SpecExpr::Method { path: fp_v }));
        }
        let r = Expr::Call { func: Box::new(callee), args: argv };
        proof {
            assert(view_expr(r) == (SpecExpr::Call {
                func: Box::new(SpecExpr::Method { path: fp_v }),
                args: final_args,
            }));
        }
        r
    }

    /// The non-receiver parameters as bare path expressions, in order.
    fn param_paths(&self) -> (r: Vec<Expr>)
        ensures
            view_expr_seq(r@) == spec_param_paths(self@.sig.params),
    {
        let mut r: Vec<Expr> = Vec::new();
        let mut i: usize = 0;
        while i < self.sig.params.len()
            invariant
                i <= self.sig.params.len(),
                view_expr_seq(r@) == spec_param_paths(self@.sig.params).subrange(0, i as int),
            decreases self.sig.params@.len() - i,
        {
            let e = Expr::Path { name: self.sig.params[i].name.clone() };
            proof {
                crate::model::lemma_view_expr_seq_push(r@, e);
                assert(spec_param_paths(self@.sig.params).subrange(0, i + 1 as int)
                    =~= spec_param_paths(self@.sig.params).subrange(0, i as int).push(
                    view_expr(e),
                ));
            }
            r.push(e);
            i = i + 1;
        }
        proof {
            assert(spec_param_paths(self@.sig.params).subrange(
                0,
                spec_param_paths(self@.sig.params).len() as int,
            ) =~= spec_param_paths(self@.sig.params));
            assert(view_expr_seq(Seq::<Expr>::empty()) =~= Seq::<SpecExpr>::empty());
        }
        r
    }
}

// ---------------------------------------------------------------------------
// Synthesis
// ---------------------------------------------------------------------------

/// The receiver expression a struct target forwards to: `self.<field>`,
/// prefixed with nothing, `&` or `&mut` per the receiver mode.
pub open spec fn spec_struct_receiver(mode: ReceiverMode, field: SpecFieldDesignator) -> SpecExpr {
    let base = SpecExpr::Field {
        base: Box::new(SpecExpr::Path { name: "self"@ }),
        field,
    };
    match mode {
        ReceiverMode::Value => base,
        ReceiverMode::Ref => SpecExpr::Reference { is_mut: false, inner: Box::new(base) },
        ReceiverMode::MutRef => SpecExpr::Reference { is_mut: true, inner: Box::new(base) },
    }
}

/// The qualified forwarding call: the trait method applied to the receiver
/// expression followed by the method's non-receiver parameters,
/// positionally.
pub open spec fn spec_forward_call(
    fp: SpecFuncPath,
    recv: SpecExpr,
    params: Seq<SpecMethodParam>,
) -> SpecExpr {
    SpecExpr::Call {
        func: Box::new(SpecExpr::Method { path: fp }),
        args: seq![recv] + spec_param_paths(params),
    }
}

/// One method delegated to a struct target: the struct must have exactly
/// one field; the body calls the trait method on that field under the
/// receiver mode's prefix; the emitted signature is the specialized one.
pub open spec fn spec_gen_impl_fn_struct(
    m: SpecReplacer,
    sname: Seq<char>,
    fields: Seq<SpecFieldDesignator>,
    tp: SpecTraitPath,
    sig: SpecMethodSignature,
    mode: ReceiverMode,
) -> Result<SpecMethodImpl, SpecError> {
    if fields.len() != 1 {
        Result::Err(SpecError::InvalidFieldArity { construct: sname, found: fields.len() as int })
    } else {
        Result::Ok(
            SpecMethodImpl {
                sig: spec_replace_signature(m, sig),
                body: spec_forward_call(
                    spec_func_path(tp, sig.name),
                    spec_struct_receiver(mode, fields[0]),
                    sig.params,
                ),
            },
        )
    }
}

/// One dispatch arm for one enum variant: the variant must carry exactly
/// one payload field, which the arm binds (a named field under its own
/// name, a positional field under the binder `x`); the forwarded receiver
/// is the variant's custom extraction applied to the binder where one was
/// declared, and the binder itself otherwise.
pub open spec fn spec_gen_arm(
    v: SpecVariant,
    fp: SpecFuncPath,
    params: Seq<SpecMethodParam>,
) -> Result<SpecMatchArm, SpecError> {
    if v.fields.len() != 1 {
        Result::Err(
            SpecError::InvalidFieldArity { construct: v.name, found: v.fields.len() as int },
        )
    } else {
        let pat = match v.fields[0] {
            SpecFieldDesignator::Named { name } => SpecPat::VariantNamed {
                variant: v.name,
                field: name,
            },
            SpecFieldDesignator::Positional { .. } => SpecPat::VariantPositional {
                variant: v.name,
                binder: "x"@,
            },
        };
        let binder = match v.fields[0] {
            SpecFieldDesignator::Named { name } => name,
            SpecFieldDesignator::Positional { .. } => "x"@,
        };
        let recv = match v.delegate_to {
            Option::Some(d) => spec_replace_ident(d.ident, binder, d.expr),
            Option::None => SpecExpr::Path { name: binder },
        };
        Result::Ok(SpecMatchArm { pat, body: spec_forward_call(fp, recv, params) })
    }
}

/// The dispatch arms of an enum target, one per variant, in declaration
/// order; the first invalid variant fails the whole method.
pub open spec fn spec_gen_arms(
    vs: Seq<SpecVariant>,
    fp: SpecFuncPath,
    params: Seq<SpecMethodParam>,
) -> Result<Seq<SpecMatchArm>, SpecError>
    decreases vs,
{
    if vs.len() == 0 {
        Result::Ok(Seq::empty())
    } else {
        match spec_gen_arms(vs.drop_last(), fp, params) {
            Result::Err(e) => Result::Err(e),
            Result::Ok(rest) => match spec_gen_arm(vs.last(), fp, params) {
                Result::Err(e) => Result::Err(e),
                Result::Ok(a) => Result::Ok(rest.push(a)),
            },
        }
    }
}

/// One method delegated to an enum target: an exhaustive dispatch over
/// every variant, in declaration order, with no default arm.
pub open spec fn spec_gen_impl_fn_enum(
    m: SpecReplacer,
    variants: Seq<SpecVariant>,
    tp: SpecTraitPath,
    sig: SpecMethodSignature,
) -> Result<SpecMethodImpl, SpecError> {
    match spec_gen_arms(variants, spec_func_path(tp, sig.name), sig.params) {
        Result::Err(e) => Result::Err(e),
        Result::Ok(arms) => Result::Ok(
            SpecMethodImpl {
                sig: spec_replace_signature(m, sig),
                body: SpecExpr::MatchSelf { arms },
            },
        ),
    }
}

/// One method generated through a scheme: every call of the scheme's
/// placeholder in the template body becomes a call of the trait method
/// with the non-receiver parameters appended.
pub open spec fn spec_gen_impl_fn_scheme(
    scheme: crate::model::SpecSchemeClosure,
    m: SpecReplacer,
    tp: SpecTraitPath,
    sig: SpecMethodSignature,
) -> SpecMethodImpl {
    SpecMethodImpl {
        sig: spec_replace_signature(m, sig),
        body: spec_replace_fn_call(
            spec_scheme_placeholder(scheme),
            spec_func_path(tp, sig.name),
            spec_param_paths(sig.params),
            scheme.body,
        ),
    }
}

/// One method of one generation request: the receiver is validated first
/// and its error propagated naming the method; then the scheme, where one
/// was supplied, takes precedence over the per-target synthesis.
pub open spec fn spec_gen_impl_fn(
    args: SpecDeriveDelegateArgs,
    m: SpecReplacer,
    target: SpecStructEnum,
    tp: SpecTraitPath,
    sig: SpecMethodSignature,
) -> Result<SpecMethodImpl, SpecError> {
    match spec_receiver_mode(sig) {
        Result::Err(e) => Result::Err(e),
        Result::Ok(mode) => match args.scheme {
            Option::Some(s) => Result::Ok(spec_gen_impl_fn_scheme(s, m, tp, sig)),
            Option::None => match target {
                SpecStructEnum::Struct { name, fields } => spec_gen_impl_fn_struct(
                    m,
                    name,
                    fields,
                    tp,
                    sig,
                    mode,
                ),
                SpecStructEnum::Enum { name, variants } => spec_gen_impl_fn_enum(
                    m,
                    variants,
                    tp,
                    sig,
                ),
            },
        },
    }
}

/// Whether a method name is among the already-implemented names.
pub open spec fn spec_contains_name(names: Seq<Seq<char>>, n: Seq<char>) -> bool {
    exists|i: int| 0 <= i < names.len() && names[i] == n
}

/// Whether one method is skipped rather than synthesized: because the user
/// already implemented it (it is never overwritten), or because the trait
/// gives it a default body and the request's inclusion policy does not
/// extend delegation to defaulted methods.
pub open spec fn spec_skip_method(
    args: SpecDeriveDelegateArgs,
    impls: Seq<Seq<char>>,
    sig: SpecMethodSignature,
) -> bool {
    spec_contains_name(impls, sig.name) || (sig.has_default_body
        && !args.delegate_fn_with_default_impl)
}

/// The methods of one generation request, in the trait's declaration
/// order: a method whose name the user already implemented, or whose
/// default body the inclusion policy excludes, is skipped; the first
/// failing method fails the whole request.
pub open spec fn spec_gen_methods(
    args: SpecDeriveDelegateArgs,
    m: SpecReplacer,
    target: SpecStructEnum,
    tp: SpecTraitPath,
    sigs: Seq<SpecMethodSignature>,
    impls: Seq<Seq<char>>,
) -> Result<Seq<SpecMethodImpl>, SpecError>
    decreases sigs,
{
    if sigs.len() == 0 {
        Result::Ok(Seq::empty())
    } else {
        match spec_gen_methods(args, m, target, tp, sigs.drop_last(), impls) {
            Result::Err(e) => Result::Err(e),
            Result::Ok(rest) => {
                if spec_skip_method(args, impls, sigs.last()) {
                    Result::Ok(rest)
                } else {
                    match spec_gen_impl_fn(args, m, target, tp, sigs.last()) {
                        Result::Err(e) => Result::Err(e),
                        Result::Ok(mi) => Result::Ok(rest.push(mi)),
                    }
                }
            },
        }
    }
}

/// One whole generation request: the request's arguments are validated,
/// the substitution map is built from the trait's generic parameters and
/// the instantiation's arguments, and the not-yet-implemented methods are
/// synthesized in declaration order.
pub open spec fn spec_gen_impl(
    args: SpecDeriveDelegateArgs,
    td: SpecTraitData,
    target: SpecStructEnum,
    impls: Seq<Seq<char>>,
) -> Result<Seq<SpecMethodImpl>, SpecError> {
    match spec_validate_args(args) {
        Result::Err(e) => Result::Err(e),
        Result::Ok(u) => match spec_new(td.generics, td.trait_path.args) {
            Result::Err(e) => Result::Err(e),
            Result::Ok(m) => spec_gen_methods(args, m, target, td.trait_path, td.sigs, impls),
        },
    }
}

proof fn lemma_gen_arms_push(
    vs: Seq<SpecVariant>,
    v: SpecVariant,
    fp: SpecFuncPath,
    params: Seq<SpecMethodParam>,
)
    ensures
        spec_gen_arms(vs.push(v), fp, params) == match spec_gen_arms(vs, fp, params) {
            Result::Err(e) => Result::<Seq<SpecMatchArm>, SpecError>::Err(e),
            Result::Ok(rest) => match spec_gen_arm(v, fp, params) {
                Result::Err(e) => Result::Err(e),
                Result::Ok(a) => Result::Ok(rest.push(a)),
            },
        },
{
    assert(vs.push(v).drop_last() =~= vs);
    assert(vs.push(v).last() == v);
}

proof fn lemma_gen_arms_err_extends(
    vs: Seq<SpecVariant>,
    fp: SpecFuncPath,
    params: Seq<SpecMethodParam>,
    k: int,
)
    requires
        0 <= k <= vs.len(),
        spec_gen_arms(vs.subrange(0, k), fp, params) is Err,
    ensures
        spec_gen_arms(vs, fp, params) == spec_gen_arms(vs.subrange(0, k), fp, params),
    decreases vs.len() - k,
{
    if k < vs.len() {
        assert(vs.subrange(0, k + 1).drop_last() =~= vs.subrange(0, k));
        lemma_gen_arms_err_extends(vs, fp, params, k + 1);
    } else {
        assert(vs.subrange(0, vs.len() as int) =~= vs);
    }
}

proof fn lemma_gen_methods_push(
    args: SpecDeriveDelegateArgs,
    m: SpecReplacer,
    target: SpecStructEnum,
    tp: SpecTraitPath,
    sigs: Seq<SpecMethodSignature>,
    s: SpecMethodSignature,
    impls: Seq<Seq<char>>,
)
    ensures
        spec_gen_methods(args, m, target, tp, sigs.push(s), impls) == match spec_gen_methods(
            args,
            m,
            target,
            tp,
            sigs,
            impls,
        ) {
            Result::Err(e) => Result::<Seq<SpecMethodImpl>, SpecError>::Err(e),
            Result::Ok(rest) => {
                if spec_skip_method(args, impls, s) {
                    Result::Ok(rest)
                } else {
                    match spec_gen_impl_fn(args, m, target, tp, s) {
                        Result::Err(e) => Result::Err(e),
                        Result::Ok(mi) => Result::Ok(rest.push(mi)),
                    }
                }
            },
        },
{
    assert(sigs.push(s).drop_last() =~= sigs);
    assert(sigs.push(s).last() == s);
}

proof fn lemma_gen_methods_err_extends(
    args: SpecDeriveDelegateArgs,
    m: SpecReplacer,
    target: SpecStructEnum,
    tp: SpecTraitPath,
    sigs: Seq<SpecMethodSignature>,
    impls: Seq<Seq<char>>,
    k: int,
)
    requires
        0 <= k <= sigs.len(),
        spec_gen_methods(args, m, target, tp, sigs.subrange(0, k), impls) is Err,
    ensures
        spec_gen_methods(args, m, target, tp, sigs, impls) == spec_gen_methods(
            args,
            m,
            target,
            tp,
            sigs.subrange(0, k),
            impls,
        ),
    decreases sigs.len() - k,
{
    if k < sigs.len() {
        assert(sigs.subrange(0, k + 1).drop_last() =~= sigs.subrange(0, k));
        lemma_gen_methods_err_extends(args, m, target, tp, sigs, impls, k + 1);
    } else {
        assert(sigs.subrange(0, sigs.len() as int) =~= sigs);
    }
}

fn contains_name(names: &Vec<String>, n: &String) -> (r: bool)
    ensures
        r == spec_contains_name(view_string_seq(names@), n@),
{
    let mut i: usize = 0;
    while i < names.len()
        invariant
            i <= names.len(),
            forall|j: int| 0 <= j < i ==> names@[j]@ != n@,
        decreases names@.len() - i,
    {
        if names[i] == *n {
            proof {
                assert(view_string_seq(names@)[i as int] == n@);
            }
            return true;
        }
        i = i + 1;
    }
    proof {
        assert(forall|k: int|
            0 <= k < view_string_seq(names@).len() ==> view_string_seq(names@)[k] != n@);
    }
    false
}

fn gen_arm(v: &Variant, fp: &FuncPath, fi: &FnIngredient) -> (r: Result<MatchArm, Error>)
    ensures
        r is Ok <==> spec_gen_arm(v@, fp@, fi@.sig.params) is Ok,
        r matches Ok(a) ==> a@ == spec_gen_arm(v@, fp@, fi@.sig.params)->Ok_0,
        r matches Err(e) ==> e@ == spec_gen_arm(v@, fp@, fi@.sig.params)->Err_0,
{
    if v.fields.len() != 1 {
        return Result::Err(
            Error::InvalidFieldArity { construct: v.name.clone(), found: v.fields.len() },
        );
    }
    let pat: Pat;
    let binder: String;
    match &v.fields[0] {
        FieldDesignator::Named { name } => {
            pat = Pat::VariantNamed { variant: v.name.clone(), field: name.clone() };
            binder = name.clone();
        },
        FieldDesignator::Positional { .. } => {
            pat = Pat::VariantPositional {
                variant: v.name.clone(),
                binder: String::from_str("x"),
            };
            binder = String::from_str("x");
        },
    }
    let recv = match &v.delegate_to {
        Option::Some(d) => replace_ident_in_expr(&d.ident, &binder, &d.expr),
        Option::None => Expr::Path { name: binder },
    };
    let body = fi.forward_call(fp.clone(), recv);
    Result::Ok(MatchArm { pat, body })
}

fn gen_impl_fn_struct(
    replacer: &GenericParamReplacer,
    sname: &String,
    fields: &Vec<FieldDesignator>,
    fi: &FnIngredient,
    mode: ReceiverMode,
) -> (r: Result<MethodImpl, Error>)
    ensures
        r is Ok <==> spec_gen_impl_fn_struct(
            replacer@,
            sname@,
            crate::model::view_field_seq(fields@),
            fi@.trait_path,
            fi@.sig,
            mode,
        ) is Ok,
        r matches Ok(mi) ==> mi@ == spec_gen_impl_fn_struct(
            replacer@,
            sname@,
            crate::model::view_field_seq(fields@),
            fi@.trait_path,
            fi@.sig,
            mode,
        )->Ok_0,
        r matches Err(e) ==> e@ == spec_gen_impl_fn_struct(
            replacer@,
            sname@,
            crate::model::view_field_seq(fields@),
            fi@.trait_path,
            fi@.sig,
            mode,
        )->Err_0,
{
    if fields.len() != 1 {
        return Result::Err(
            Error::InvalidFieldArity { construct: sname.clone(), found: fields.len() },
        );
    }
    let recv = FnIngredient::struct_receiver(mode, &fields[0]);
    let body = fi.forward_call(fi.func_path(), recv);
    Result::Ok(MethodImpl { sig: replacer.replace_signature(&fi.sig), body })
}

fn gen_impl_fn_enum(
    replacer: &GenericParamReplacer,
    variants: &Vec<Variant>,
    fi: &FnIngredient,
) -> (r: Result<MethodImpl, Error>)
    ensures
        r is Ok <==> spec_gen_impl_fn_enum(
            replacer@,
            crate::model::view_variant_seq(variants@),
            fi@.trait_path,
            fi@.sig,
        ) is Ok,
        r matches Ok(mi) ==> mi@ == spec_gen_impl_fn_enum(
            replacer@,
            crate::model::view_variant_seq(variants@),
            fi@.trait_path,
            fi@.sig,
        )->Ok_0,
        r matches Err(e) ==> e@ == spec_gen_impl_fn_enum(
            replacer@,
            crate::model::view_variant_seq(variants@),
            fi@.trait_path,
            fi@.sig,
        )->Err_0,
{
    let ghost vs = crate::model::view_variant_seq(variants@);
    let ghost fpv = spec_func_path(fi@.trait_path, fi@.sig.name);
    let fp = fi.func_path();
    let mut arms: Vec<MatchArm> = Vec::new();
    let mut i: usize = 0;
    proof {
        assert(vs.subrange(0, 0) =~= Seq::<SpecVariant>::empty());
        assert(crate::model::view_arm_seq(arms@) =~= Seq::<SpecMatchArm>::empty());
    }
    while i < variants.len()
        invariant
            i <= variants.len(),
            vs == crate::model::view_variant_seq(variants@),
            vs.len() == variants@.len(),
            forall|j: int| 0 <= j < vs.len() ==> vs[j] == variants@[j]@,
            fp@ == fpv,
            fpv == spec_func_path(fi@.trait_path, fi@.sig.name),
            spec_gen_arms(vs.subrange(0, i as int), fpv, fi@.sig.params) == Result::<
                Seq<SpecMatchArm>,
                SpecError,
            >::Ok(crate::model::view_arm_seq(arms@)),
        decreases variants@.len() - i,
    {
        match gen_arm(&variants[i], &fp, fi) {
            Result::Err(e) => {
                proof {
                    lemma_gen_arms_push(
                        vs.subrange(0, i as int),
                        vs[i as int],
                        fpv,
                        fi@.sig.params,
                    );
                    assert(vs.subrange(0, i + 1 as int) =~= vs.subrange(0, i as int).push(
                        vs[i as int],
                    ));
                    assert(spec_gen_arm(vs[i as int], fpv, fi@.sig.params) is Err);
                    assert(spec_gen_arms(vs.subrange(0, i + 1 as int), fpv, fi@.sig.params)
                        is Err);
                    lemma_gen_arms_err_extends(vs, fpv, fi@.sig.params, i + 1 as int);
                    assert(spec_gen_arms(vs, fpv, fi@.sig.params) == spec_gen_arms(
                        vs.subrange(0, i + 1 as int),
                        fpv,
                        fi@.sig.params,
                    ));
                    assert(spec_gen_arms(vs, fpv, fi@.sig.params) is Err);
                    assert(e@ == spec_gen_arms(vs, fpv, fi@.sig.params)->Err_0);
                    assert(spec_gen_impl_fn_enum(replacer@, vs, fi@.trait_path, fi@.sig)
                        is Err);
                    assert(e@ == spec_gen_impl_fn_enum(
                        replacer@,
                        vs,
                        fi@.trait_path,
                        fi@.sig,
                    )->Err_0);
                }
                return Result::Err(e);
            },
            Result::Ok(a) => {
                proof {
                    crate::model::lemma_view_arm_seq_push(arms@, a);
                    lemma_gen_arms_push(
                        vs.subrange(0, i as int),
                        vs[i as int],
                        fpv,
                        fi@.sig.params,
                    );
                    assert(vs.subrange(0, i + 1 as int) =~= vs.subrange(0, i as int).push(
                        vs[i as int],
                    ));
                }
                arms.push(a);
            },
        }
        i = i + 1;
    }
    proof {
        assert(vs.subrange(0, vs.len() as int) =~= vs);
    }
    Result::Ok(
        MethodImpl { sig: replacer.replace_signature(&fi.sig), body: Expr::MatchSelf { arms } },
    )
}

fn gen_impl_fn_scheme(
    args: &DeriveDelegateArgs,
    replacer: &GenericParamReplacer,
    fi: &FnIngredient,
) -> (r: Option<MethodImpl>)
    requires
        spec_validate_args(args@) is Ok,
    ensures
        r is Some <==> args.scheme is Some,
        r matches Some(mi) ==> {
            &&& args@.scheme matches Some(s)
            &&& mi@ == spec_gen_impl_fn_scheme(s, replacer@, fi@.trait_path, fi@.sig)
        },
{
    let (ph, template) = match args.scheme_arg_and_body() {
        Option::Some(p) => p,
        Option::None => {
            return Option::None;
        },
    };
    let fp = fi.func_path();
    let extra = fi.param_paths();
    let body = replace_fn_call_in_expr(&ph, &fp, &extra, &template);
    Option::Some(MethodImpl { sig: replacer.replace_signature(&fi.sig), body })
}

fn gen_impl_fn(
    args: &DeriveDelegateArgs,
    replacer: &GenericParamReplacer,
    structenum: &StructEnum,
    fi: &FnIngredient,
) -> (r: Result<MethodImpl, Error>)
    requires
        spec_validate_args(args@) is Ok,
    ensures
        r is Ok <==> spec_gen_impl_fn(args@, replacer@, structenum@, fi@.trait_path, fi@.sig)
            is Ok,
        r matches Ok(mi) ==> mi@ == spec_gen_impl_fn(
            args@,
            replacer@,
            structenum@,
            fi@.trait_path,
            fi@.sig,
        )->Ok_0,
        r matches Err(e) ==> e@ == spec_gen_impl_fn(
            args@,
            replacer@,
            structenum@,
            fi@.trait_path,
            fi@.sig,
        )->Err_0,
{
    match fi.receiver_mode() {
        Result::Err(e) => Result::Err(e),
        Result::Ok(mode) => {
            match gen_impl_fn_scheme(args, replacer, fi) {
                Option::Some(mi) => Result::Ok(mi),
                Option::None => match structenum {
                    StructEnum::Struct { name, fields } => gen_impl_fn_struct(
                        replacer,
                        name,
                        fields,
                        fi,
                        mode,
                    ),
                    StructEnum::Enum { name, variants } => gen_impl_fn_enum(
                        replacer,
                        variants,
                        fi,
                    ),
                },
            }
        },
    }
}

/// Synthesizes the forwarding methods of one generation request: for each
/// trait method not named in `already_implemented` — and, unless the
/// request's policy extends delegation to defaulted methods, without a
/// default body — a specialized signature and a forwarding body against the
/// target, honoring the scheme where one was supplied.  The methods come in
/// the trait's declaration order; the first failure fails the whole
/// request.
pub fn gen_impl(
    args: &DeriveDelegateArgs,
    trait_data: &TraitData,
    structenum: &StructEnum,
    already_implemented: &Vec<String>,
) -> (r: Result<Vec<MethodImpl>, Error>)
    ensures
        r is Ok <==> spec_gen_impl(
            args@,
            trait_data@,
            structenum@,
            view_string_seq(already_implemented@),
        ) is Ok,
        r matches Ok(v) ==> view_mimpl_seq(v@) == spec_gen_impl(
            args@,
            trait_data@,
            structenum@,
            view_string_seq(already_implemented@),
        )->Ok_0,
        r matches Err(e) ==> e@ == spec_gen_impl(
            args@,
            trait_data@,
            structenum@,
            view_string_seq(already_implemented@),
        )->Err_0,
{
    let ghost impls = view_string_seq(already_implemented@);
    let ghost sigs = trait_data@.sigs;
    match args.validate() {
        Result::Err(e) => {
            return Result::Err(e);
        },
        Result::Ok(u) => {},
    }
    let replacer = match GenericParamReplacer::new(
        &trait_data.generics,
        &trait_data.trait_path.args,
    ) {
        Result::Err(e) => {
            return Result::Err(e);
        },
        Result::Ok(m) => m,
    };
    let mut res: Vec<MethodImpl> = Vec::new();
    let mut i: usize = 0;
    proof {
        assert(sigs.subrange(0, 0) =~= Seq::<SpecMethodSignature>::empty());
        assert(view_mimpl_seq(res@) =~= Seq::<SpecMethodImpl>::empty());
    }
    while i < trait_data.sigs.len()
        invariant
            i <= trait_data.sigs.len(),
            spec_validate_args(args@) is Ok,
            impls == view_string_seq(already_implemented@),
            sigs == trait_data@.sigs,
            sigs.len() == trait_data.sigs@.len(),
            forall|j: int| 0 <= j < sigs.len() ==> sigs[j] == trait_data.sigs@[j]@,
            replacer@ == spec_new(trait_data@.generics, trait_data@.trait_path.args)->Ok_0,
            spec_new(trait_data@.generics, trait_data@.trait_path.args) is Ok,
            spec_gen_methods(
                args@,
                replacer@,
                structenum@,
                trait_data@.trait_path,
                sigs.subrange(0, i as int),
                impls,
            ) == Result::<Seq<SpecMethodImpl>, SpecError>::Ok(view_mimpl_seq(res@)),
        decreases trait_data.sigs@.len() - i,
    {
        let sig_name = &trait_data.sigs[i].name;
        let skip = contains_name(already_implemented, sig_name) || (
        trait_data.sigs[i].has_default_body && !args.delegate_fn_with_default_impl);
        proof {
            assert(skip == spec_skip_method(args@, impls, sigs[i as int]));
        }
        proof {
            lemma_gen_methods_push(
                args@,
                replacer@,
                structenum@,
                trait_data@.trait_path,
                sigs.subrange(0, i as int),
                sigs[i as int],
                impls,
            );
            assert(sigs.subrange(0, i + 1 as int) =~= sigs.subrange(0, i as int).push(
                sigs[i as int],
            ));
        }
        if !skip {
            let fi = FnIngredient {
                trait_path: trait_data.trait_path.clone(),
                sig: trait_data.sigs[i].clone(),
            };
            match gen_impl_fn(args, &replacer, structenum, &fi) {
                Result::Err(e) => {
                    proof {
                        lemma_gen_methods_err_extends(
                            args@,
                            replacer@,
                            structenum@,
                            trait_data@.trait_path,
                            sigs,
                            impls,
                            i + 1 as int,
                        );
                    }
                    return Result::Err(e);
                },
                Result::Ok(mi) => {
                    let ghost before = view_mimpl_seq(res@);
                    let ghost miv = mi@;
                    res.push(mi);
                    proof {
                        assert(view_mimpl_seq(res@) =~= before.push(miv));
                    }
                },
            }
        }
        i = i + 1;
    }
    proof {
        assert(sigs.subrange(0, sigs.len() as int) =~= sigs);
    }
    Result::Ok(res)
}

// ---------------------------------------------------------------------------
// Laws
// ---------------------------------------------------------------------------

/// Idempotence of the emission policy: a method whose name the user
/// already implemented is never present in the synthesizer's output, for
/// any trait, target and arguments.
pub proof fn lemma_already_implemented_never_emitted(
    args: SpecDeriveDelegateArgs,
    m: SpecReplacer,
    target: SpecStructEnum,
    tp: SpecTraitPath,
    sigs: Seq<SpecMethodSignature>,
    impls: Seq<Seq<char>>,
    out: Seq<SpecMethodImpl>,
)
    requires
        spec_gen_methods(args, m, target, tp, sigs, impls) == Result::<
            Seq<SpecMethodImpl>,
            SpecError,
        >::Ok(out),
    ensures
        forall|i: int| 0 <= i < out.len() ==> !spec_contains_name(impls, out[i].sig.name),
    decreases sigs,
{
    if sigs.len() > 0 {
        let rest = spec_gen_methods(args, m, target, tp, sigs.drop_last(), impls);
        lemma_already_implemented_never_emitted(
            args,
            m,
            target,
            tp,
            sigs.drop_last(),
            impls,
            rest->Ok_0,
        );
        if !spec_skip_method(args, impls, sigs.last()) {
            match spec_gen_impl_fn(args, m, target, tp, sigs.last()) {
                Result::Ok(mi) => {
                    assert(mi.sig.name == sigs.last().name);
                },
                Result::Err(e) => {},
            }
        }
    }
}

/// The same law at the level of one whole generation request: whatever the
/// arguments, trait and target, a successful request emits no method whose
/// name the user already implemented.
pub proof fn lemma_gen_impl_never_overwrites(
    args: SpecDeriveDelegateArgs,
    td: SpecTraitData,
    target: SpecStructEnum,
    impls: Seq<Seq<char>>,
    out: Seq<SpecMethodImpl>,
)
    requires
        spec_gen_impl(args, td, target, impls) == Result::<Seq<SpecMethodImpl>, SpecError>::Ok(
            out,
        ),
    ensures
        forall|i: int| 0 <= i < out.len() ==> !spec_contains_name(impls, out[i].sig.name),
{
    let m = spec_new(td.generics, td.trait_path.args)->Ok_0;
    lemma_already_implemented_never_emitted(args, m, target, td.trait_path, td.sigs, impls, out);
}

/// Inclusion policy: when the request does not extend delegation to
/// defaulted methods, no method with a default body is ever present in the
/// synthesizer's output.
pub proof fn lemma_defaulted_never_emitted(
    args: SpecDeriveDelegateArgs,
    m: SpecReplacer,
    target: SpecStructEnum,
    tp: SpecTraitPath,
    sigs: Seq<SpecMethodSignature>,
    impls: Seq<Seq<char>>,
    out: Seq<SpecMethodImpl>,
)
    requires
        !args.delegate_fn_with_default_impl,
        spec_gen_methods(args, m, target, tp, sigs, impls) == Result::<
            Seq<SpecMethodImpl>,
            SpecError,
        >::Ok(out),
    ensures
        forall|i: int| 0 <= i < out.len() ==> !out[i].sig.has_default_body,
    decreases sigs,
{
    if sigs.len() > 0 {
        let rest = spec_gen_methods(args, m, target, tp, sigs.drop_last(), impls);
        lemma_defaulted_never_emitted(args, m, target, tp, sigs.drop_last(), impls, rest->Ok_0);
        if !spec_skip_method(args, impls, sigs.last()) {
            match spec_gen_impl_fn(args, m, target, tp, sigs.last()) {
                Result::Ok(mi) => {
                    assert(mi.sig.has_default_body == sigs.last().has_default_body);
                },
                Result::Err(e) => {},
            }
        }
    }
}

/// The same law at the level of one whole generation request.
pub proof fn lemma_gen_impl_excludes_defaulted(
    args: SpecDeriveDelegateArgs,
    td: SpecTraitData,
    target: SpecStructEnum,
    impls: Seq<Seq<char>>,
    out: Seq<SpecMethodImpl>,
)
    requires
        !args.delegate_fn_with_default_impl,
        spec_gen_impl(args, td, target, impls) == Result::<Seq<SpecMethodImpl>, SpecError>::Ok(
            out,
        ),
    ensures
        forall|i: int| 0 <= i < out.len() ==> !out[i].sig.has_default_body,
{
    let m = spec_new(td.generics, td.trait_path.args)->Ok_0;
    lemma_defaulted_never_emitted(args, m, target, td.trait_path, td.sigs, impls, out);
}

proof fn lemma_gen_arms_index(
    vs: Seq<SpecVariant>,
    fp: SpecFuncPath,
    params: Seq<SpecMethodParam>,
    arms: Seq<SpecMatchArm>,
)
    requires
        spec_gen_arms(vs, fp, params) == Result::<Seq<SpecMatchArm>, SpecError>::Ok(arms),
    ensures
        arms.len() == vs.len(),
        forall|i: int|
            0 <= i < vs.len() ==> spec_gen_arm(#[trigger] vs[i], fp, params) == Result::<
                SpecMatchArm,
                SpecError,
            >::Ok(arms[i]),
    decreases vs,
{
    if vs.len() > 0 {
        let rest = spec_gen_arms(vs.drop_last(), fp, params);
        lemma_gen_arms_index(vs.drop_last(), fp, params, rest->Ok_0);
        assert(arms == rest->Ok_0.push(spec_gen_arm(vs.last(), fp, params)->Ok_0));
        assert forall|i: int| 0 <= i < vs.len() implies spec_gen_arm(
            #[trigger] vs[i],
            fp,
            params,
        ) == Result::<SpecMatchArm, SpecError>::Ok(arms[i]) by {
            if i < vs.len() - 1 {
                assert(vs.drop_last()[i] == vs[i]);
                assert(arms[i] == rest->Ok_0[i]);
            } else {
                assert(vs[i] == vs.last());
                assert(arms[i] == spec_gen_arm(vs.last(), fp, params)->Ok_0);
            }
        }
    }
}

/// The variant of a dispatch-arm pattern.
pub open spec fn spec_pat_variant(p: SpecPat) -> Seq<char> {
    match p {
        SpecPat::VariantNamed { variant, .. } => variant,
        SpecPat::VariantPositional { variant, .. } => variant,
        SpecPat::Opaque { text } => text,
    }
}

/// Exhaustiveness: a method delegated to an enum target with `n` variants
/// dispatches over exactly `n` arms, one per variant, in declaration
/// order, each binding that variant's payload.
pub proof fn lemma_enum_dispatch_exhaustive(
    m: SpecReplacer,
    variants: Seq<SpecVariant>,
    tp: SpecTraitPath,
    sig: SpecMethodSignature,
    mi: SpecMethodImpl,
)
    requires
        spec_gen_impl_fn_enum(m, variants, tp, sig) == Result::<SpecMethodImpl, SpecError>::Ok(mi),
    ensures
        mi.body is MatchSelf,
        mi.body->MatchSelf_arms.len() == variants.len(),
        forall|i: int|
            0 <= i < variants.len() ==> spec_pat_variant(#[trigger] mi.body->MatchSelf_arms[i].pat)
                == variants[i].name,
        forall|i: int|
            0 <= i < variants.len() ==> #[trigger] mi.body->MatchSelf_arms[i].pat == (match variants[i].fields[0] {
                SpecFieldDesignator::Named { name } => SpecPat::VariantNamed {
                    variant: variants[i].name,
                    field: name,
                },
                SpecFieldDesignator::Positional { .. } => SpecPat::VariantPositional {
                    variant: variants[i].name,
                    binder: "x"@,
                },
            }),
{
    let fp = spec_func_path(tp, sig.name);
    let arms = spec_gen_arms(variants, fp, sig.params)->Ok_0;
    lemma_gen_arms_index(variants, fp, sig.params, arms);
    assert forall|i: int| 0 <= i < variants.len() implies spec_pat_variant(
        #[trigger] mi.body->MatchSelf_arms[i].pat,
    ) == variants[i].name by {
        assert(spec_gen_arm(variants[i], fp, sig.params) == Result::<
            SpecMatchArm,
            SpecError,
        >::Ok(arms[i]));
    }
    assert forall|i: int| 0 <= i < variants.len() implies #[trigger] mi.body->MatchSelf_arms[i].pat
        == (match variants[i].fields[0] {
        SpecFieldDesignator::Named { name } => SpecPat::VariantNamed {
            variant: variants[i].name,
            field: name,
        },
        SpecFieldDesignator::Positional { .. } => SpecPat::VariantPositional {
            variant: variants[i].name,
            binder: "x"@,
        },
    }) by {
        assert(spec_gen_arm(variants[i], fp, sig.params) == Result::<
            SpecMatchArm,
            SpecError,
        >::Ok(arms[i]));
    }
}

proof fn lemma_gen_arms_all_valid(vs: Seq<SpecVariant>, fp: SpecFuncPath, params: Seq<SpecMethodParam>)
    requires
        forall|i: int| 0 <= i < vs.len() ==> (#[trigger] vs[i]).fields.len() == 1,
    ensures
        spec_gen_arms(vs, fp, params) is Ok,
    decreases vs,
{
    if vs.len() > 0 {
        assert(forall|i: int| 0 <= i < vs.drop_last().len() ==> (#[trigger] vs.drop_last()[i])
            == vs[i]);
        lemma_gen_arms_all_valid(vs.drop_last(), fp, params);
        assert(vs.last() == vs[vs.len() - 1]);
    }
}

proof fn lemma_gen_arms_first_invalid(
    vs: Seq<SpecVariant>,
    fp: SpecFuncPath,
    params: Seq<SpecMethodParam>,
    k: int,
)
    requires
        0 <= k < vs.len(),
        vs[k].fields.len() != 1,
        forall|j: int| 0 <= j < k ==> (#[trigger] vs[j]).fields.len() == 1,
    ensures
        spec_gen_arms(vs, fp, params) == Result::<Seq<SpecMatchArm>, SpecError>::Err(
            SpecError::InvalidFieldArity {
                construct: vs[k].name,
                found: vs[k].fields.len() as int,
            },
        ),
    decreases vs,
{
    if k == vs.len() - 1 {
        assert(forall|i: int| 0 <= i < vs.drop_last().len() ==> (#[trigger] vs.drop_last()[i])
            == vs[i]);
        lemma_gen_arms_all_valid(vs.drop_last(), fp, params);
        assert(vs.last() == vs[k]);
    } else {
        assert(forall|i: int| 0 <= i < vs.drop_last().len() ==> (#[trigger] vs.drop_last()[i])
            == vs[i]);
        lemma_gen_arms_first_invalid(vs.drop_last(), fp, params, k);
    }
}

/// An invalid variant rejects the whole method, never a partial body: a
/// method delegated to an enum target whose first invalid variant (index
/// `k`) does not carry exactly one payload field fails with exactly
/// `InvalidFieldArity` naming that variant and its field count.
pub proof fn lemma_enum_invalid_variant_rejected(
    m: SpecReplacer,
    variants: Seq<SpecVariant>,
    tp: SpecTraitPath,
    sig: SpecMethodSignature,
    k: int,
)
    requires
        0 <= k < variants.len(),
        variants[k].fields.len() != 1,
        forall|j: int| 0 <= j < k ==> (#[trigger] variants[j]).fields.len() == 1,
    ensures
        spec_gen_impl_fn_enum(m, variants, tp, sig) == Result::<SpecMethodImpl, SpecError>::Err(
            SpecError::InvalidFieldArity {
                construct: variants[k].name,
                found: variants[k].fields.len() as int,
            },
        ),
{
    lemma_gen_arms_first_invalid(variants, spec_func_path(tp, sig.name), sig.params, k);
}

/// The receiver mapping of the signature analyzer, whole: no receiver is
/// `MissingReceiver`; the three supported shapes map to their modes, whose
/// forwarded prefix tokens are nothing, `&` and `&mut`; an explicitly
/// typed receiver is `UnsupportedReceiver`, never approximated.
pub proof fn lemma_receiver_mapping(sig: SpecMethodSignature)
    ensures
        sig.receiver is None ==> spec_receiver_mode(sig) == Result::<
            ReceiverMode,
            SpecError,
        >::Err(SpecError::MissingReceiver { method: sig.name }),
        sig.receiver == Option::Some(SpecReceiverKind::Value) ==> spec_receiver_mode(sig)
            == Result::<ReceiverMode, SpecError>::Ok(ReceiverMode::Value) && spec_receiver_prefix(
            ReceiverMode::Value,
        ) == Seq::<char>::empty(),
        sig.receiver == Option::Some(SpecReceiverKind::Ref) ==> spec_receiver_mode(sig) == Result::<
            ReceiverMode,
            SpecError,
        >::Ok(ReceiverMode::Ref) && spec_receiver_prefix(ReceiverMode::Ref) == "&"@,
        sig.receiver == Option::Some(SpecReceiverKind::MutRef) ==> spec_receiver_mode(sig)
            == Result::<ReceiverMode, SpecError>::Ok(ReceiverMode::MutRef) && spec_receiver_prefix(
            ReceiverMode::MutRef,
        ) == "&mut"@,
        (sig.receiver matches Option::Some(SpecReceiverKind::Explicit { .. }))
            ==> spec_receiver_mode(sig) == Result::<ReceiverMode, SpecError>::Err(
            SpecError::UnsupportedReceiver { method: sig.name },
        ),
{
}

/// Receiver fidelity: a method delegated to a struct target forwards
/// `self.<field>` prefixed with `&` for a by-reference receiver, with
/// `&mut` for a by-mutable-reference receiver, and with no prefix for a
/// consuming receiver.
pub proof fn lemma_struct_receiver_fidelity(
    m: SpecReplacer,
    sname: Seq<char>,
    fields: Seq<SpecFieldDesignator>,
    tp: SpecTraitPath,
    sig: SpecMethodSignature,
    mode: ReceiverMode,
    mi: SpecMethodImpl,
)
    requires
        spec_gen_impl_fn_struct(m, sname, fields, tp, sig, mode) == Result::<
            SpecMethodImpl,
            SpecError,
        >::Ok(mi),
    ensures
        mi.body is Call,
        mi.body->Call_args.len() == 1 + sig.params.len(),
        mode == ReceiverMode::Ref ==> mi.body->Call_args[0] == (SpecExpr::Reference {
            is_mut: false,
            inner: Box::new(
                SpecExpr::Field {
                    base: Box::new(SpecExpr::Path { name: "self"@ }),
                    field: fields[0],
                },
            ),
        }),
        mode == ReceiverMode::MutRef ==> mi.body->Call_args[0] == (SpecExpr::Reference {
            is_mut: true,
            inner: Box::new(
                SpecExpr::Field {
                    base: Box::new(SpecExpr::Path { name: "self"@ }),
                    field: fields[0],
                },
            ),
        }),
        mode == ReceiverMode::Value ==> mi.body->Call_args[0] == (SpecExpr::Field {
            base: Box::new(SpecExpr::Path { name: "self"@ }),
            field: fields[0],
        }),
{
    let recv = spec_struct_receiver(mode, fields[0]);
    let cargs = seq![recv] + spec_param_paths(sig.params);
    assert(cargs[0] == recv);
    assert(cargs.len() == 1 + sig.params.len());
}

} // verus!
