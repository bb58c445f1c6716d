//! The data model: type expressions, generic parameters and arguments,
//! method signatures, trait and target declarations, body expressions, and
//! the error taxonomy.
//!
//! Every executable type has a ghost mirror (the `Spec...` types) in which
//! identifiers are sequences of characters; contracts throughout the crate
//! are stated over those mirrors, reached by `view` (`@`).

use vstd::prelude::*;

verus! {

// ---------------------------------------------------------------------------
// Field designators
// ---------------------------------------------------------------------------

/// Designates the payload field of a struct or of an enum variant: either a
/// named field or a positional (tuple) field.
#[derive(Debug, PartialEq, Eq)]
pub enum FieldDesignator {
    Named { name: String },
    Positional { index: usize },
}

pub enum SpecFieldDesignator {
    Named { name: Seq<char> },
    Positional { index: int },
}

impl View for FieldDesignator {
    type V = SpecFieldDesignator;

    open spec fn view(&self) -> SpecFieldDesignator {
        match self {
            FieldDesignator::Named { name } => SpecFieldDesignator::Named { name: name@ },
            FieldDesignator::Positional { index } => SpecFieldDesignator::Positional {
                index: *index as int,
            },
        }
    }
}

impl Clone for FieldDesignator {
    fn clone(&self) -> (r: Self)
        ensures
            r@ == self@,
    {
        match self {
            FieldDesignator::Named { name } => FieldDesignator::Named { name: name.clone() },
            FieldDesignator::Positional { index } => FieldDesignator::Positional {
                index: *index,
            },
        }
    }
}

pub open spec fn view_field_seq(s: Seq<FieldDesignator>) -> Seq<SpecFieldDesignator> {
    Seq::new(s.len(), |i: int| s[i]@)
}

// ---------------------------------------------------------------------------
// Const-position expressions
// ---------------------------------------------------------------------------

/// An expression in const position (an array length, or the value supplied
/// for a const generic parameter).  A `Path` is a bare identifier and is the
/// only shape that substitution touches; everything unrecognized is `Opaque`
/// and is passed through verbatim.
#[derive(Debug, PartialEq, Eq)]
pub enum ConstExpr {
    Lit { text: String },
    Path { name: String },
    Opaque { text: String },
}

pub enum SpecConstExpr {
    Lit { text: Seq<char> },
    Path { name: Seq<char> },
    Opaque { text: Seq<char> },
}

impl View for ConstExpr {
    type V = SpecConstExpr;

    open spec fn view(&self) -> SpecConstExpr {
        match self {
            ConstExpr::Lit { text } => SpecConstExpr::Lit { text: text@ },
            ConstExpr::Path { name } => SpecConstExpr::Path { name: name@ },
            ConstExpr::Opaque { text } => SpecConstExpr::Opaque { text: text@ },
        }
    }
}

impl Clone for ConstExpr {
    fn clone(&self) -> (r: Self)
        ensures
            r@ == self@,
    {
        match self {
            ConstExpr::Lit { text } => ConstExpr::Lit { text: text.clone() },
            ConstExpr::Path { name } => ConstExpr::Path { name: name.clone() },
            ConstExpr::Opaque { text } => ConstExpr::Opaque { text: text.clone() },
        }
    }
}

// ---------------------------------------------------------------------------
// Generic parameters
// ---------------------------------------------------------------------------

/// A generic parameter as declared by a trait, in declaration order.
#[derive(Debug, PartialEq, Eq)]
pub enum GenericParam {
    Type { name: String },
    Lifetime { name: String },
    Const { name: String },
}

pub enum SpecGenericParam {
    Type { name: Seq<char> },
    Lifetime { name: Seq<char> },
    Const { name: Seq<char> },
}

impl View for GenericParam {
    type V = SpecGenericParam;

    open spec fn view(&self) -> SpecGenericParam {
        match self {
            GenericParam::Type { name } => SpecGenericParam::Type { name: name@ },
            GenericParam::Lifetime { name } => SpecGenericParam::Lifetime { name: name@ },
            GenericParam::Const { name } => SpecGenericParam::Const { name: name@ },
        }
    }
}

impl Clone for GenericParam {
    fn clone(&self) -> (r: Self)
        ensures
            r@ == self@,
    {
        match self {
            GenericParam::Type { name } => GenericParam::Type { name: name.clone() },
            GenericParam::Lifetime { name } => GenericParam::Lifetime { name: name.clone() },
            GenericParam::Const { name } => GenericParam::Const { name: name.clone() },
        }
    }
}

pub open spec fn view_param_seq(s: Seq<GenericParam>) -> Seq<SpecGenericParam> {
    Seq::new(s.len(), |i: int| s[i]@)
}

pub fn clone_gparam_vec(v: &Vec<GenericParam>) -> (r: Vec<GenericParam>)
    ensures
        view_param_seq(r@) == view_param_seq(v@),
{
    let mut r: Vec<GenericParam> = Vec::new();
    let mut i: usize = 0;
    while i < v.len()
        invariant
            i <= v.len(),
            r@.len() == i,
            forall|j: int| 0 <= j < i ==> r@[j]@ == v@[j]@,
        decreases v@.len() - i,
    {
        r.push(v[i].clone());
        i = i + 1;
    }
    proof {
        assert(view_param_seq(r@) =~= view_param_seq(v@));
    }
    r
}

// ---------------------------------------------------------------------------
// Type expressions and generic arguments
// ---------------------------------------------------------------------------

/// A type expression: the tagged tree over which generic-parameter
/// substitution operates.  `Named` is a leaf type reference that may itself
/// carry generic arguments; `Opaque` is an unrecognized shape that is passed
/// through verbatim and never substituted.
#[derive(Debug, PartialEq, Eq)]
pub enum TypeExpr {
    Named { name: String, args: Vec<GenericArg> },
    Reference { is_mut: bool, lifetime: Option<String>, inner: Box<TypeExpr> },
    Array { elem: Box<TypeExpr>, len: ConstExpr },
    Slice { elem: Box<TypeExpr> },
    Tuple { elems: Vec<TypeExpr> },
    Paren { inner: Box<TypeExpr> },
    TraitObject { bounds: Vec<TypeExpr> },
    FnPointer { params: Vec<TypeExpr>, ret: Option<Box<TypeExpr>> },
    Opaque { text: String },
}

/// A generic argument as supplied by a concrete instantiation, in order.
#[derive(Debug, PartialEq, Eq)]
pub enum GenericArg {
    Type { type_expr: TypeExpr },
    Lifetime { name: String },
    Const { const_expr: ConstExpr },
}

pub enum SpecTypeExpr {
    Named { name: Seq<char>, args: Seq<SpecGenericArg> },
    Reference { is_mut: bool, lifetime: Option<Seq<char>>, inner: Box<SpecTypeExpr> },
    Array { elem: Box<SpecTypeExpr>, len: SpecConstExpr },
    Slice { elem: Box<SpecTypeExpr> },
    Tuple { elems: Seq<SpecTypeExpr> },
    Paren { inner: Box<SpecTypeExpr> },
    TraitObject { bounds: Seq<SpecTypeExpr> },
    FnPointer { params: Seq<SpecTypeExpr>, ret: Option<Box<SpecTypeExpr>> },
    Opaque { text: Seq<char> },
}

pub enum SpecGenericArg {
    Type { type_expr: SpecTypeExpr },
    Lifetime { name: Seq<char> },
    Const { const_expr: SpecConstExpr },
}

pub open spec fn view_opt_string(s: Option<String>) -> Option<Seq<char>> {
    match s {
        Option::Some(x) => Option::Some(x@),
        Option::None => Option::None,
    }
}

pub open spec fn view_type_expr(t: TypeExpr) -> SpecTypeExpr
    decreases t,
{
    match t {
        TypeExpr::Named { name, args } => SpecTypeExpr::Named {
            name: name@,
            args: view_arg_seq(args@),
        },
        TypeExpr::Reference { is_mut, lifetime, inner } => SpecTypeExpr::Reference {
            is_mut,
            lifetime: view_opt_string(lifetime),
            inner: Box::new(view_type_expr(*inner)),
        },
        TypeExpr::Array { elem, len } => SpecTypeExpr::Array {
            elem: Box::new(view_type_expr(*elem)),
            len: len@,
        },
        TypeExpr::Slice { elem } => SpecTypeExpr::Slice { elem: Box::new(view_type_expr(*elem)) },
        TypeExpr::Tuple { elems } => SpecTypeExpr::Tuple { elems: view_type_seq(elems@) },
        TypeExpr::Paren { inner } => SpecTypeExpr::Paren {
            inner: Box::new(view_type_expr(*inner)),
        },
        TypeExpr::TraitObject { bounds } => SpecTypeExpr::TraitObject {
            bounds: view_type_seq(bounds@),
        },
        TypeExpr::FnPointer { params, ret } => SpecTypeExpr::FnPointer {
            params: view_type_seq(params@),
            ret: match ret {
                Option::Some(r) => Option::Some(Box::new(view_type_expr(*r))),
                Option::None => Option::None,
            },
        },
        TypeExpr::Opaque { text } => SpecTypeExpr::Opaque { text: text@ },
    }
}

pub open spec fn view_type_seq(s: Seq<TypeExpr>) -> Seq<SpecTypeExpr>
    decreases s,
{
    if s.len() == 0 {
        Seq::empty()
    } else {
        view_type_seq(s.drop_last()).push(view_type_expr(s.last()))
    }
}

pub open spec fn view_arg_seq(s: Seq<GenericArg>) -> Seq<SpecGenericArg>
    decreases s,
{
    if s.len() == 0 {
        Seq::empty()
    } else {
        view_arg_seq(s.drop_last()).push(view_generic_arg(s.last()))
    }
}

pub open spec fn view_generic_arg(a: GenericArg) -> SpecGenericArg
    decreases a,
{
    match a {
        GenericArg::Type { type_expr } => SpecGenericArg::Type {
            type_expr: view_type_expr(type_expr),
        },
        GenericArg::Lifetime { name } => SpecGenericArg::Lifetime { name: name@ },
        GenericArg::Const { const_expr } => SpecGenericArg::Const { const_expr: const_expr@ },
    }
}

impl View for TypeExpr {
    type V = SpecTypeExpr;

    open spec fn view(&self) -> SpecTypeExpr {
        view_type_expr(*self)
    }
}

impl View for GenericArg {
    type V = SpecGenericArg;

    open spec fn view(&self) -> SpecGenericArg {
        view_generic_arg(*self)
    }
}

pub proof fn lemma_view_type_seq_push(s: Seq<TypeExpr>, t: TypeExpr)
    ensures
        view_type_seq(s.push(t)) == view_type_seq(s).push(view_type_expr(t)),
{
    assert(s.push(t).drop_last() =~= s);
    assert(s.push(t).last() == t);
}

pub proof fn lemma_view_arg_seq_push(s: Seq<GenericArg>, a: GenericArg)
    ensures
        view_arg_seq(s.push(a)) == view_arg_seq(s).push(view_generic_arg(a)),
{
    assert(s.push(a).drop_last() =~= s);
    assert(s.push(a).last() == a);
}

pub proof fn lemma_view_type_seq_index(s: Seq<TypeExpr>)
    ensures
        view_type_seq(s).len() == s.len(),
        forall|i: int| 0 <= i < s.len() ==> view_type_seq(s)[i] == view_type_expr(s[i]),
    decreases s,
{
    if s.len() > 0 {
        lemma_view_type_seq_index(s.drop_last());
    }
}

pub proof fn lemma_view_arg_seq_index(s: Seq<GenericArg>)
    ensures
        view_arg_seq(s).len() == s.len(),
        forall|i: int| 0 <= i < s.len() ==> view_arg_seq(s)[i] == view_generic_arg(s[i]),
    decreases s,
{
    if s.len() > 0 {
        lemma_view_arg_seq_index(s.drop_last());
    }
}

fn clone_opt_string(s: &Option<String>) -> (r: Option<String>)
    ensures
        view_opt_string(r) == view_opt_string(*s),
{
    match s {
        Option::Some(x) => Option::Some(x.clone()),
        Option::None => Option::None,
    }
}

pub fn clone_type_vec(v: &Vec<TypeExpr>) -> (r: Vec<TypeExpr>)
    ensures
        view_type_seq(r@) == view_type_seq(v@),
    decreases *v,
{
    let mut r: Vec<TypeExpr> = Vec::new();
    let mut i: usize = 0;
    while i < v.len()
        invariant
            i <= v.len(),
            view_type_seq(r@) == view_type_seq(v@.subrange(0, i as int)),
        decreases v@.len() - i,
    {
        let t = v[i].clone();
        proof {
            lemma_view_type_seq_push(r@, t);
            lemma_view_type_seq_push(v@.subrange(0, i as int), v@[i as int]);
            assert(v@.subrange(0, i + 1 as int) =~= v@.subrange(0, i as int).push(v@[i as int]));
        }
        r.push(t);
        i = i + 1;
    }
    proof {
        assert(v@.subrange(0, v@.len() as int) =~= v@);
    }
    r
}

pub fn clone_arg_vec(v: &Vec<GenericArg>) -> (r: Vec<GenericArg>)
    ensures
        view_arg_seq(r@) == view_arg_seq(v@),
    decreases *v,
{
    let mut r: Vec<GenericArg> = Vec::new();
    let mut i: usize = 0;
    while i < v.len()
        invariant
            i <= v.len(),
            view_arg_seq(r@) == view_arg_seq(v@.subrange(0, i as int)),
        decreases v@.len() - i,
    {
        let a = v[i].clone();
        proof {
            lemma_view_arg_seq_push(r@, a);
            lemma_view_arg_seq_push(v@.subrange(0, i as int), v@[i as int]);
            assert(v@.subrange(0, i + 1 as int) =~= v@.subrange(0, i as int).push(v@[i as int]));
        }
        r.push(a);
        i = i + 1;
    }
    proof {
        assert(v@.subrange(0, v@.len() as int) =~= v@);
    }
    r
}

impl Clone for TypeExpr {
    fn clone(&self) -> (r: Self)
        ensures
            r@ == self@,
        decreases *self,
    {
        match self {
            TypeExpr::Named { name, args } => TypeExpr::Named {
                name: name.clone(),
                args: clone_arg_vec(args),
            },
            TypeExpr::Reference { is_mut, lifetime, inner } => TypeExpr::Reference {
                is_mut: *is_mut,
                lifetime: clone_opt_string(lifetime),
                inner: Box::new((&**inner).clone()),
            },
            TypeExpr::Array { elem, len } => TypeExpr::Array {
                elem: Box::new((&**elem).clone()),
                len: len.clone(),
            },
            TypeExpr::Slice { elem } => TypeExpr::Slice { elem: Box::new((&**elem).clone()) },
            TypeExpr::Tuple { elems } => TypeExpr::Tuple { elems: clone_type_vec(elems) },
            TypeExpr::Paren { inner } => TypeExpr::Paren { inner: Box::new((&**inner).clone()) },
            TypeExpr::TraitObject { bounds } => TypeExpr::TraitObject {
                bounds: clone_type_vec(bounds),
            },
            TypeExpr::FnPointer { params, ret } => TypeExpr::FnPointer {
                params: clone_type_vec(params),
                ret: match ret {
                    Option::Some(t) => Option::Some(Box::new((&**t).clone())),
                    Option::None => Option::None,
                },
            },
            TypeExpr::Opaque { text } => TypeExpr::Opaque { text: text.clone() },
        }
    }
}

impl Clone for GenericArg {
    fn clone(&self) -> (r: Self)
        ensures
            r@ == self@,
        decreases *self,
    {
        match self {
            GenericArg::Type { type_expr } => GenericArg::Type { type_expr: type_expr.clone() },
            GenericArg::Lifetime { name } => GenericArg::Lifetime { name: name.clone() },
            GenericArg::Const { const_expr } => GenericArg::Const {
                const_expr: const_expr.clone(),
            },
        }
    }
}

// ---------------------------------------------------------------------------
// Trait paths
// ---------------------------------------------------------------------------

/// A possibly qualified trait name, e.g. `mod::Trait<Args>`: path segments
/// plus the generic arguments attached to the last segment.
#[derive(Debug, PartialEq, Eq)]
pub struct TraitPath {
    pub segments: Vec<String>,
    pub args: Vec<GenericArg>,
}

pub struct SpecTraitPath {
    pub segments: Seq<Seq<char>>,
    pub args: Seq<SpecGenericArg>,
}

pub open spec fn view_string_seq(s: Seq<String>) -> Seq<Seq<char>> {
    Seq::new(s.len(), |i: int| s[i]@)
}

impl View for TraitPath {
    type V = SpecTraitPath;

    open spec fn view(&self) -> SpecTraitPath {
        SpecTraitPath { segments: view_string_seq(self.segments@), args: view_arg_seq(self.args@) }
    }
}

pub fn clone_string_vec(v: &Vec<String>) -> (r: Vec<String>)
    ensures
        view_string_seq(r@) == view_string_seq(v@),
{
    let mut r: Vec<String> = Vec::new();
    let mut i: usize = 0;
    while i < v.len()
        invariant
            i <= v.len(),
            r@.len() == i,
            forall|j: int| 0 <= j < i ==> r@[j]@ == v@[j]@,
        decreases v@.len() - i,
    {
        r.push(v[i].clone());
        i = i + 1;
    }
    proof {
        assert(view_string_seq(r@) =~= view_string_seq(v@));
    }
    r
}

impl Clone for TraitPath {
    fn clone(&self) -> (r: Self)
        ensures
            r@ == self@,
    {
        TraitPath { segments: clone_string_vec(&self.segments), args: clone_arg_vec(&self.args) }
    }
}

/// The qualified path of one trait method, e.g. `Trait::<Args>::method`.
#[derive(Debug, PartialEq, Eq)]
pub struct FuncPath {
    pub trait_path: TraitPath,
    pub method: String,
}

pub struct SpecFuncPath {
    pub trait_path: SpecTraitPath,
    pub method: Seq<char>,
}

impl View for FuncPath {
    type V = SpecFuncPath;

    open spec fn view(&self) -> SpecFuncPath {
        SpecFuncPath { trait_path: self.trait_path@, method: self.method@ }
    }
}

impl Clone for FuncPath {
    fn clone(&self) -> (r: Self)
        ensures
            r@ == self@,
    {
        FuncPath { trait_path: self.trait_path.clone(), method: self.method.clone() }
    }
}

// ---------------------------------------------------------------------------
// Body expressions
// ---------------------------------------------------------------------------

/// A pattern in a dispatch arm.  The synthesizer produces variant patterns
/// that bind the single payload field; a user-supplied template may carry
/// opaque patterns, which are passed through verbatim.
#[derive(Debug, PartialEq, Eq)]
pub enum Pat {
    VariantNamed { variant: String, field: String },
    VariantPositional { variant: String, binder: String },
    Opaque { text: String },
}

pub enum SpecPat {
    VariantNamed { variant: Seq<char>, field: Seq<char> },
    VariantPositional { variant: Seq<char>, binder: Seq<char> },
    Opaque { text: Seq<char> },
}

impl View for Pat {
    type V = SpecPat;

    open spec fn view(&self) -> SpecPat {
        match self {
            Pat::VariantNamed { variant, field } => SpecPat::VariantNamed {
                variant: variant@,
                field: field@,
            },
            Pat::VariantPositional { variant, binder } => SpecPat::VariantPositional {
                variant: variant@,
                binder: binder@,
            },
            Pat::Opaque { text } => SpecPat::Opaque { text: text@ },
        }
    }
}

impl Clone for Pat {
    fn clone(&self) -> (r: Self)
        ensures
            r@ == self@,
    {
        match self {
            Pat::VariantNamed { variant, field } => Pat::VariantNamed {
                variant: variant.clone(),
                field: field.clone(),
            },
            Pat::VariantPositional { variant, binder } => Pat::VariantPositional {
                variant: variant.clone(),
                binder: binder.clone(),
            },
            Pat::Opaque { text } => Pat::Opaque { text: text.clone() },
        }
    }
}

/// A body expression: what the synthesizer emits as a method body, and what
/// user-supplied templates (schemes and custom extraction expressions) are
/// written in.  `Path` is a bare identifier; `Method` is the qualified path
/// of a trait method used as a call target; `MatchSelf` is a dispatch over
/// the receiver; `Opaque` is an unrecognized expression, passed through
/// verbatim and never rewritten.
#[derive(Debug, PartialEq, Eq)]
pub enum Expr {
    Path { name: String },
    Method { path: FuncPath },
    Call { func: Box<Expr>, args: Vec<Expr> },
    Reference { is_mut: bool, inner: Box<Expr> },
    Field { base: Box<Expr>, field: FieldDesignator },
    MatchSelf { arms: Vec<MatchArm> },
    Opaque { text: String },
}

/// One arm of a `MatchSelf` dispatch.
#[derive(Debug, PartialEq, Eq)]
pub struct MatchArm {
    pub pat: Pat,
    pub body: Expr,
}

pub enum SpecExpr {
    Path { name: Seq<char> },
    Method { path: SpecFuncPath },
    Call { func: Box<SpecExpr>, args: Seq<SpecExpr> },
    Reference { is_mut: bool, inner: Box<SpecExpr> },
    Field { base: Box<SpecExpr>, field: SpecFieldDesignator },
    MatchSelf { arms: Seq<SpecMatchArm> },
    Opaque { text: Seq<char> },
}

pub struct SpecMatchArm {
    pub pat: SpecPat,
    pub body: SpecExpr,
}

pub open spec fn view_expr(e: Expr) -> SpecExpr
    decreases e,
{
    match e {
        Expr::Path { name } => SpecExpr::Path { name: name@ },
        Expr::Method { path } => SpecExpr::Method { path: path@ },
        Expr::Call { func, args } => SpecExpr::Call {
            func: Box::new(view_expr(*func)),
            args: view_expr_seq(args@),
        },
        Expr::Reference { is_mut, inner } => SpecExpr::Reference {
            is_mut,
            inner: Box::new(view_expr(*inner)),
        },
        Expr::Field { base, field } => SpecExpr::Field {
            base: Box::new(view_expr(*base)),
            field: field@,
        },
        Expr::MatchSelf { arms } => SpecExpr::MatchSelf { arms: view_arm_seq(arms@) },
        Expr::Opaque { text } => SpecExpr::Opaque { text: text@ },
    }
}

pub open spec fn view_expr_seq(s: Seq<Expr>) -> Seq<SpecExpr>
    decreases s,
{
    if s.len() == 0 {
        Seq::empty()
    } else {
        view_expr_seq(s.drop_last()).push(view_expr(s.last()))
    }
}

pub open spec fn view_arm_seq(s: Seq<MatchArm>) -> Seq<SpecMatchArm>
    decreases s,
{
    if s.len() == 0 {
        Seq::empty()
    } else {
        view_arm_seq(s.drop_last()).push(view_arm(s.last()))
    }
}

pub open spec fn view_arm(a: MatchArm) -> SpecMatchArm
    decreases a,
{
    SpecMatchArm { pat: a.pat@, body: view_expr(a.body) }
}

impl View for Expr {
    type V = SpecExpr;

    open spec fn view(&self) -> SpecExpr {
        view_expr(*self)
    }
}

impl View for MatchArm {
    type V = SpecMatchArm;

    open spec fn view(&self) -> SpecMatchArm {
        view_arm(*self)
    }
}

pub proof fn lemma_view_expr_seq_push(s: Seq<Expr>, e: Expr)
    ensures
        view_expr_seq(s.push(e)) == view_expr_seq(s).push(view_expr(e)),
{
    assert(s.push(e).drop_last() =~= s);
    assert(s.push(e).last() == e);
}

pub proof fn lemma_view_arm_seq_push(s: Seq<MatchArm>, a: MatchArm)
    ensures
        view_arm_seq(s.push(a)) == view_arm_seq(s).push(view_arm(a)),
{
    assert(s.push(a).drop_last() =~= s);
    assert(s.push(a).last() == a);
}

pub proof fn lemma_view_expr_seq_index(s: Seq<Expr>)
    ensures
        view_expr_seq(s).len() == s.len(),
        forall|i: int| 0 <= i < s.len() ==> view_expr_seq(s)[i] == view_expr(s[i]),
    decreases s,
{
    if s.len() > 0 {
        lemma_view_expr_seq_index(s.drop_last());
    }
}

pub proof fn lemma_view_expr_seq_concat(s: Seq<Expr>, a: Seq<SpecExpr>, b: Seq<SpecExpr>)
    requires
        s.len() == a.len() + b.len(),
        view_expr_seq(s.subrange(0, a.len() as int)) == a,
        view_expr_seq(s.subrange(a.len() as int, s.len() as int)) == b,
    ensures
        view_expr_seq(s) == a + b,
{
    lemma_view_expr_seq_index(s);
    lemma_view_expr_seq_index(s.subrange(0, a.len() as int));
    lemma_view_expr_seq_index(s.subrange(a.len() as int, s.len() as int));
    assert(view_expr_seq(s) =~= a + b);
}

pub proof fn lemma_view_arm_seq_index(s: Seq<MatchArm>)
    ensures
        view_arm_seq(s).len() == s.len(),
        forall|i: int| 0 <= i < s.len() ==> view_arm_seq(s)[i] == view_arm(s[i]),
    decreases s,
{
    if s.len() > 0 {
        lemma_view_arm_seq_index(s.drop_last());
    }
}

pub fn clone_expr_vec(v: &Vec<Expr>) -> (r: Vec<Expr>)
    ensures
        view_expr_seq(r@) == view_expr_seq(v@),
    decreases *v,
{
    let mut r: Vec<Expr> = Vec::new();
    let mut i: usize = 0;
    while i < v.len()
        invariant
            i <= v.len(),
            view_expr_seq(r@) == view_expr_seq(v@.subrange(0, i as int)),
        decreases v@.len() - i,
    {
        let e = v[i].clone();
        proof {
            lemma_view_expr_seq_push(r@, e);
            lemma_view_expr_seq_push(v@.subrange(0, i as int), v@[i as int]);
            assert(v@.subrange(0, i + 1 as int) =~= v@.subrange(0, i as int).push(v@[i as int]));
        }
        r.push(e);
        i = i + 1;
    }
    proof {
        assert(v@.subrange(0, v@.len() as int) =~= v@);
    }
    r
}

pub fn clone_arm_vec(v: &Vec<MatchArm>) -> (r: Vec<MatchArm>)
    ensures
        view_arm_seq(r@) == view_arm_seq(v@),
    decreases *v,
{
    let mut r: Vec<MatchArm> = Vec::new();
    let mut i: usize = 0;
    while i < v.len()
        invariant
            i <= v.len(),
            view_arm_seq(r@) == view_arm_seq(v@.subrange(0, i as int)),
        decreases v@.len() - i,
    {
        let a = v[i].clone();
        proof {
            lemma_view_arm_seq_push(r@, a);
            lemma_view_arm_seq_push(v@.subrange(0, i as int), v@[i as int]);
            assert(v@.subrange(0, i + 1 as int) =~= v@.subrange(0, i as int).push(v@[i as int]));
        }
        r.push(a);
        i = i + 1;
    }
    proof {
        assert(v@.subrange(0, v@.len() as int) =~= v@);
    }
    r
}

impl Clone for Expr {
    fn clone(&self) -> (r: Self)
        ensures
            r@ == self@,
        decreases *self,
    {
        match self {
            Expr::Path { name } => Expr::Path { name: name.clone() },
            Expr::Method { path } => Expr::Method { path: path.clone() },
            Expr::Call { func, args } => Expr::Call {
                func: Box::new((&**func).clone()),
                args: clone_expr_vec(args),
            },
            Expr::Reference { is_mut, inner } => Expr::Reference {
                is_mut: *is_mut,
                inner: Box::new((&**inner).clone()),
            },
            Expr::Field { base, field } => Expr::Field {
                base: Box::new((&**base).clone()),
                field: field.clone(),
            },
            Expr::MatchSelf { arms } => Expr::MatchSelf { arms: clone_arm_vec(arms) },
            Expr::Opaque { text } => Expr::Opaque { text: text.clone() },
        }
    }
}

impl Clone for MatchArm {
    fn clone(&self) -> (r: Self)
        ensures
            r@ == self@,
        decreases *self,
    {
        MatchArm { pat: self.pat.clone(), body: self.body.clone() }
    }
}

// ---------------------------------------------------------------------------
// Receivers and method signatures
// ---------------------------------------------------------------------------

/// The shape of a method's receiver as declared: by value (`self`), by
/// shared reference (`&self`), by mutable reference (`&mut self`), or an
/// explicitly typed receiver (`self: T`), which this system does not
/// support.
#[derive(Debug, PartialEq, Eq)]
pub enum ReceiverKind {
    Value,
    Ref,
    MutRef,
    Explicit { text: String },
}

pub enum SpecReceiverKind {
    Value,
    Ref,
    MutRef,
    Explicit { text: Seq<char> },
}

impl View for ReceiverKind {
    type V = SpecReceiverKind;

    open spec fn view(&self) -> SpecReceiverKind {
        match self {
            ReceiverKind::Value => SpecReceiverKind::Value,
            ReceiverKind::Ref => SpecReceiverKind::Ref,
            ReceiverKind::MutRef => SpecReceiverKind::MutRef,
            ReceiverKind::Explicit { text } => SpecReceiverKind::Explicit { text: text@ },
        }
    }
}

impl Clone for ReceiverKind {
    fn clone(&self) -> (r: Self)
        ensures
            r@ == self@,
    {
        match self {
            ReceiverKind::Value => ReceiverKind::Value,
            ReceiverKind::Ref => ReceiverKind::Ref,
            ReceiverKind::MutRef => ReceiverKind::MutRef,
            ReceiverKind::Explicit { text } => ReceiverKind::Explicit { text: text.clone() },
        }
    }
}

/// The ownership mode with which a forwarded receiver expression is built:
/// no prefix token (consuming receiver), `&`, or `&mut`.
#[derive(Clone, Copy, Debug, PartialEq, Eq)]
pub enum ReceiverMode {
    Value,
    Ref,
    MutRef,
}

/// A non-receiver method parameter: its binding identifier and its type.
#[derive(Debug, PartialEq, Eq)]
pub struct MethodParam {
    pub name: String,
    pub param_type: TypeExpr,
}

pub struct SpecMethodParam {
    pub name: Seq<char>,
    pub param_type: SpecTypeExpr,
}

impl View for MethodParam {
    type V = SpecMethodParam;

    open spec fn view(&self) -> SpecMethodParam {
        SpecMethodParam { name: self.name@, param_type: view_type_expr(self.param_type) }
    }
}

impl Clone for MethodParam {
    fn clone(&self) -> (r: Self)
        ensures
            r@ == self@,
    {
        MethodParam { name: self.name.clone(), param_type: self.param_type.clone() }
    }
}

pub open spec fn view_mparam_seq(s: Seq<MethodParam>) -> Seq<SpecMethodParam> {
    Seq::new(s.len(), |i: int| s[i]@)
}

pub fn clone_mparam_vec(v: &Vec<MethodParam>) -> (r: Vec<MethodParam>)
    ensures
        view_mparam_seq(r@) == view_mparam_seq(v@),
{
    let mut r: Vec<MethodParam> = Vec::new();
    let mut i: usize = 0;
    while i < v.len()
        invariant
            i <= v.len(),
            r@.len() == i,
            forall|j: int| 0 <= j < i ==> r@[j]@ == v@[j]@,
        decreases v@.len() - i,
    {
        r.push(v[i].clone());
        i = i + 1;
    }
    proof {
        assert(view_mparam_seq(r@) =~= view_mparam_seq(v@));
    }
    r
}

/// One method signature of a trait: name, receiver (if any), non-receiver
/// parameters in order, return type (if any), and whether the trait gives
/// the method a default body.
#[derive(Debug, PartialEq, Eq)]
pub struct MethodSignature {
    pub name: String,
    pub receiver: Option<ReceiverKind>,
    pub params: Vec<MethodParam>,
    pub ret: Option<TypeExpr>,
    pub has_default_body: bool,
}

pub struct SpecMethodSignature {
    pub name: Seq<char>,
    pub receiver: Option<SpecReceiverKind>,
    pub params: Seq<SpecMethodParam>,
    pub ret: Option<SpecTypeExpr>,
    pub has_default_body: bool,
}

impl View for MethodSignature {
    type V = SpecMethodSignature;

    open spec fn view(&self) -> SpecMethodSignature {
        SpecMethodSignature {
            name: self.name@,
            receiver: match self.receiver {
                Option::Some(r) => Option::Some(r@),
                Option::None => Option::None,
            },
            params: view_mparam_seq(self.params@),
            ret: match self.ret {
                Option::Some(t) => Option::Some(view_type_expr(t)),
                Option::None => Option::None,
            },
            has_default_body: self.has_default_body,
        }
    }
}

impl Clone for MethodSignature {
    fn clone(&self) -> (r: Self)
        ensures
            r@ == self@,
    {
        MethodSignature {
            name: self.name.clone(),
            receiver: match &self.receiver {
                Option::Some(rk) => Option::Some(rk.clone()),
                Option::None => Option::None,
            },
            params: clone_mparam_vec(&self.params),
            ret: match &self.ret {
                Option::Some(t) => Option::Some(t.clone()),
                Option::None => Option::None,
            },
            has_default_body: self.has_default_body,
        }
    }
}

pub open spec fn view_sig_seq(s: Seq<MethodSignature>) -> Seq<SpecMethodSignature> {
    Seq::new(s.len(), |i: int| s[i]@)
}

pub fn clone_sig_vec(v: &Vec<MethodSignature>) -> (r: Vec<MethodSignature>)
    ensures
        view_sig_seq(r@) == view_sig_seq(v@),
{
    let mut r: Vec<MethodSignature> = Vec::new();
    let mut i: usize = 0;
    while i < v.len()
        invariant
            i <= v.len(),
            r@.len() == i,
            forall|j: int| 0 <= j < i ==> r@[j]@ == v@[j]@,
        decreases v@.len() - i,
    {
        r.push(v[i].clone());
        i = i + 1;
    }
    proof {
        assert(view_sig_seq(r@) =~= view_sig_seq(v@));
    }
    r
}

// ---------------------------------------------------------------------------
// Target declarations
// ---------------------------------------------------------------------------

/// A per-variant custom extraction: a template expression with one free
/// placeholder identifier standing for the bound payload value.
#[derive(Debug, PartialEq, Eq)]
pub struct DelegateToArg {
    pub ident: String,
    pub expr: Expr,
}

pub struct SpecDelegateToArg {
    pub ident: Seq<char>,
    pub expr: SpecExpr,
}

impl View for DelegateToArg {
    type V = SpecDelegateToArg;

    open spec fn view(&self) -> SpecDelegateToArg {
        SpecDelegateToArg { ident: self.ident@, expr: view_expr(self.expr) }
    }
}

impl Clone for DelegateToArg {
    fn clone(&self) -> (r: Self)
        ensures
            r@ == self@,
    {
        DelegateToArg { ident: self.ident.clone(), expr: self.expr.clone() }
    }
}

/// One variant of a tagged-union target: its name, its payload fields (a
/// valid variant has exactly one), and an optional custom extraction.
#[derive(Debug, PartialEq, Eq)]
pub struct Variant {
    pub name: String,
    pub fields: Vec<FieldDesignator>,
    pub delegate_to: Option<DelegateToArg>,
}

pub struct SpecVariant {
    pub name: Seq<char>,
    pub fields: Seq<SpecFieldDesignator>,
    pub delegate_to: Option<SpecDelegateToArg>,
}

impl View for Variant {
    type V = SpecVariant;

    open spec fn view(&self) -> SpecVariant {
        SpecVariant {
            name: self.name@,
            fields: view_field_seq(self.fields@),
            delegate_to: match self.delegate_to {
                Option::Some(d) => Option::Some(d@),
                Option::None => Option::None,
            },
        }
    }
}

impl Clone for Variant {
    fn clone(&self) -> (r: Self)
        ensures
            r@ == self@,
    {
        Variant {
            name: self.name.clone(),
            fields: clone_field_vec(&self.fields),
            delegate_to: match &self.delegate_to {
                Option::Some(d) => Option::Some(d.clone()),
                Option::None => Option::None,
            },
        }
    }
}

impl Variant {
    /// Builds one variant of a tagged-union target from the custom
    /// extraction expressions attached to it in the surface syntax.  More
    /// than one custom extraction on the same variant is a hard error,
    /// raised here at construction, never silently ignored.
    pub fn new(
        name: String,
        fields: Vec<FieldDesignator>,
        extractions: Vec<DelegateToArg>,
    ) -> (r: Result<Variant, Error>)
        ensures
            r is Ok <==> extractions@.len() <= 1,
            r matches Ok(v) ==> {
                &&& v@.name == name@
                &&& v@.fields == view_field_seq(fields@)
                &&& v@.delegate_to == (if extractions@.len() == 1 {
                    Option::Some(extractions@[0]@)
                } else {
                    Option::<SpecDelegateToArg>::None
                })
            },
            r matches Err(e) ==> e@ == (SpecError::DuplicateCustomExtraction { variant: name@ }),
    {
        if extractions.len() > 1 {
            return Result::Err(Error::DuplicateCustomExtraction { variant: name });
        }
        let mut extractions = extractions;
        let delegate_to: Option<DelegateToArg> = if extractions.len() == 1 {
            Option::Some(extractions.remove(0))
        } else {
            Option::None
        };
        Result::Ok(Variant { name, fields, delegate_to })
    }
}

pub open spec fn view_variant_seq(s: Seq<Variant>) -> Seq<SpecVariant> {
    Seq::new(s.len(), |i: int| s[i]@)
}

pub fn clone_field_vec(v: &Vec<FieldDesignator>) -> (r: Vec<FieldDesignator>)
    ensures
        view_field_seq(r@) == view_field_seq(v@),
{
    let mut r: Vec<FieldDesignator> = Vec::new();
    let mut i: usize = 0;
    while i < v.len()
        invariant
            i <= v.len(),
            r@.len() == i,
            forall|j: int| 0 <= j < i ==> r@[j]@ == v@[j]@,
        decreases v@.len() - i,
    {
        r.push(v[i].clone());
        i = i + 1;
    }
    proof {
        assert(view_field_seq(r@) =~= view_field_seq(v@));
    }
    r
}

/// The target aggregate: a struct (valid when it has exactly one field) or
/// an enum (valid when every variant has exactly one payload field).
#[derive(Debug, PartialEq, Eq)]
pub enum StructEnum {
    Struct { name: String, fields: Vec<FieldDesignator> },
    Enum { name: String, variants: Vec<Variant> },
}

pub enum SpecStructEnum {
    Struct { name: Seq<char>, fields: Seq<SpecFieldDesignator> },
    Enum { name: Seq<char>, variants: Seq<SpecVariant> },
}

impl View for StructEnum {
    type V = SpecStructEnum;

    open spec fn view(&self) -> SpecStructEnum {
        match self {
            StructEnum::Struct { name, fields } => SpecStructEnum::Struct {
                name: name@,
                fields: view_field_seq(fields@),
            },
            StructEnum::Enum { name, variants } => SpecStructEnum::Enum {
                name: name@,
                variants: view_variant_seq(variants@),
            },
        }
    }
}

// ---------------------------------------------------------------------------
// Synthesized methods
// ---------------------------------------------------------------------------

/// One synthesized method: its specialized signature and its forwarding
/// body.
#[derive(Debug, PartialEq, Eq)]
pub struct MethodImpl {
    pub sig: MethodSignature,
    pub body: Expr,
}

pub struct SpecMethodImpl {
    pub sig: SpecMethodSignature,
    pub body: SpecExpr,
}

impl View for MethodImpl {
    type V = SpecMethodImpl;

    open spec fn view(&self) -> SpecMethodImpl {
        SpecMethodImpl { sig: self.sig@, body: view_expr(self.body) }
    }
}

pub open spec fn view_mimpl_seq(s: Seq<MethodImpl>) -> Seq<SpecMethodImpl> {
    Seq::new(s.len(), |i: int| s[i]@)
}

// ---------------------------------------------------------------------------
// Schemes
// ---------------------------------------------------------------------------

/// One parameter pattern of a scheme template.  A valid scheme has exactly
/// one `Ident` pattern with no attributes, `ref`, `mut`, or subpattern.
#[derive(Debug, PartialEq, Eq)]
pub enum SchemePat {
    Ident { has_attrs: bool, has_by_ref: bool, has_mut: bool, has_subpat: bool, name: String },
    Other { text: String },
}

pub enum SpecSchemePat {
    Ident {
        has_attrs: bool,
        has_by_ref: bool,
        has_mut: bool,
        has_subpat: bool,
        name: Seq<char>,
    },
    Other { text: Seq<char> },
}

impl View for SchemePat {
    type V = SpecSchemePat;

    open spec fn view(&self) -> SpecSchemePat {
        match self {
            SchemePat::Ident { has_attrs, has_by_ref, has_mut, has_subpat, name } =>
                SpecSchemePat::Ident {
                    has_attrs: *has_attrs,
                    has_by_ref: *has_by_ref,
                    has_mut: *has_mut,
                    has_subpat: *has_subpat,
                    name: name@,
                },
            SchemePat::Other { text } => SpecSchemePat::Other { text: text@ },
        }
    }
}

pub open spec fn view_scheme_pat_seq(s: Seq<SchemePat>) -> Seq<SpecSchemePat> {
    Seq::new(s.len(), |i: int| s[i]@)
}

/// A scheme: a closure-like template whose single parameter is a
/// placeholder; every call of the placeholder in the template body is
/// rewritten into a call of the trait method.  The flag fields record
/// closure qualifiers that a valid scheme must not have.
#[derive(Debug, PartialEq, Eq)]
pub struct SchemeClosure {
    pub has_lifetimes: bool,
    pub has_constness: bool,
    pub has_movability: bool,
    pub has_asyncness: bool,
    pub has_capture: bool,
    pub inputs: Vec<SchemePat>,
    pub body: Expr,
}

pub struct SpecSchemeClosure {
    pub has_lifetimes: bool,
    pub has_constness: bool,
    pub has_movability: bool,
    pub has_asyncness: bool,
    pub has_capture: bool,
    pub inputs: Seq<SpecSchemePat>,
    pub body: SpecExpr,
}

impl View for SchemeClosure {
    type V = SpecSchemeClosure;

    open spec fn view(&self) -> SpecSchemeClosure {
        SpecSchemeClosure {
            has_lifetimes: self.has_lifetimes,
            has_constness: self.has_constness,
            has_movability: self.has_movability,
            has_asyncness: self.has_asyncness,
            has_capture: self.has_capture,
            inputs: view_scheme_pat_seq(self.inputs@),
            body: view_expr(self.body),
        }
    }
}

// ---------------------------------------------------------------------------
// Errors
// ---------------------------------------------------------------------------

/// Why a scheme template is rejected.
#[derive(Clone, Copy, Debug, PartialEq, Eq)]
pub enum SchemeShapeError {
    Lifetime,
    Constness,
    Movability,
    Asyncness,
    Capture,
    ArgShape,
    ArgAttrs,
    ArgByRef,
    ArgMut,
    ArgSubpat,
}

/// The error taxonomy.  Every failure carries the identity of the offending
/// construct; no failure is downgraded to a partial result.
#[derive(Debug, PartialEq, Eq)]
pub enum Error {
    /// Generic parameter and argument counts differ.
    ArityMismatch { expected: usize, found: usize },
    /// A generic parameter and its paired argument have incompatible kinds.
    KindMismatch { index: usize },
    /// A method's first parameter is absent or not receiver-shaped.
    MissingReceiver { method: String },
    /// A receiver is present but is none of `self`, `&self`, `&mut self`.
    UnsupportedReceiver { method: String },
    /// A struct or enum variant does not carry exactly one payload field.
    InvalidFieldArity { construct: String, found: usize },
    /// More than one custom extraction is attached to the same variant.
    DuplicateCustomExtraction { variant: String },
    /// A scheme template violates the single-plain-parameter contract.
    InvalidSchemeShape { reason: SchemeShapeError },
    /// The requested trait name was not found in the storage.
    UnresolvedInterface { name: String },
    /// Registration of an already-registered name.
    NameConflict { name: String },
}

pub enum SpecError {
    ArityMismatch { expected: int, found: int },
    KindMismatch { index: int },
    MissingReceiver { method: Seq<char> },
    UnsupportedReceiver { method: Seq<char> },
    InvalidFieldArity { construct: Seq<char>, found: int },
    DuplicateCustomExtraction { variant: Seq<char> },
    InvalidSchemeShape { reason: SchemeShapeError },
    UnresolvedInterface { name: Seq<char> },
    NameConflict { name: Seq<char> },
}

impl View for Error {
    type V = SpecError;

    open spec fn view(&self) -> SpecError {
        match self {
            Error::ArityMismatch { expected, found } => SpecError::ArityMismatch {
                expected: *expected as int,
                found: *found as int,
            },
            Error::KindMismatch { index } => SpecError::KindMismatch { index: *index as int },
            Error::MissingReceiver { method } => SpecError::MissingReceiver { method: method@ },
            Error::UnsupportedReceiver { method } => SpecError::UnsupportedReceiver {
                method: method@,
            },
            Error::InvalidFieldArity { construct, found } => SpecError::InvalidFieldArity {
                construct: construct@,
                found: *found as int,
            },
            Error::DuplicateCustomExtraction { variant } => SpecError::DuplicateCustomExtraction {
                variant: variant@,
            },
            Error::InvalidSchemeShape { reason } => SpecError::InvalidSchemeShape {
                reason: *reason,
            },
            Error::UnresolvedInterface { name } => SpecError::UnresolvedInterface { name: name@ },
            Error::NameConflict { name } => SpecError::NameConflict { name: name@ },
        }
    }
}

/// The fixed diagnostic text of each error kind.
pub open spec fn spec_error_message(e: SpecError) -> Seq<char> {
    match e {
        SpecError::ArityMismatch { .. } => "number of generic parameters must coincide"@,
        SpecError::KindMismatch { .. } => "parameter can't be substituted to argument"@,
        SpecError::MissingReceiver { .. } => "method must have receiver"@,
        SpecError::UnsupportedReceiver { .. } =>
            "receiver must be `self`, `&self` or `&mut self`"@,
        SpecError::InvalidFieldArity { .. } => "target must have exactly one payload field"@,
        SpecError::DuplicateCustomExtraction { .. } =>
            "custom extraction must appear at most once per variant"@,
        SpecError::InvalidSchemeShape { reason } => spec_scheme_shape_message(reason),
        SpecError::UnresolvedInterface { .. } => "trait definition not registered"@,
        SpecError::NameConflict { .. } => "type name conflicted, already registered"@,
    }
}

pub open spec fn spec_scheme_shape_message(r: SchemeShapeError) -> Seq<char> {
    match r {
        SchemeShapeError::Lifetime => "scheme can't have lifetime"@,
        SchemeShapeError::Constness => "scheme can't have `const`"@,
        SchemeShapeError::Movability => "scheme can't have `static`"@,
        SchemeShapeError::Asyncness => "scheme can't have `async`"@,
        SchemeShapeError::Capture => "scheme can't have `move`"@,
        SchemeShapeError::ArgShape => "scheme must have an arg without type"@,
        SchemeShapeError::ArgAttrs => "arg of scheme can't have attributes"@,
        SchemeShapeError::ArgByRef => "arg of scheme can't have `ref`"@,
        SchemeShapeError::ArgMut => "arg of scheme can't have `mut`"@,
        SchemeShapeError::ArgSubpat => "arg of scheme can't have `@ SUBPATTERN`"@,
    }
}

impl Error {
    /// The diagnostic text of this error.
    pub fn message(&self) -> (r: String)
        ensures
            r@ == spec_error_message(self@),
    {
        match self {
            Error::ArityMismatch { .. } => String::from_str(
                "number of generic parameters must coincide",
            ),
            Error::KindMismatch { .. } => String::from_str(
                "parameter can't be substituted to argument",
            ),
            Error::MissingReceiver { .. } => String::from_str("method must have receiver"),
            Error::UnsupportedReceiver { .. } => String::from_str(
                "receiver must be `self`, `&self` or `&mut self`",
            ),
            Error::InvalidFieldArity { .. } => String::from_str(
                "target must have exactly one payload field",
            ),
            Error::DuplicateCustomExtraction { .. } => String::from_str(
                "custom extraction must appear at most once per variant",
            ),
            Error::InvalidSchemeShape { reason } => match reason {
                SchemeShapeError::Lifetime => String::from_str("scheme can't have lifetime"),
                SchemeShapeError::Constness => String::from_str("scheme can't have `const`"),
                SchemeShapeError::Movability => String::from_str("scheme can't have `static`"),
                SchemeShapeError::Asyncness => String::from_str("scheme can't have `async`"),
                SchemeShapeError::Capture => String::from_str("scheme can't have `move`"),
                SchemeShapeError::ArgShape => String::from_str(
                    "scheme must have an arg without type",
                ),
                SchemeShapeError::ArgAttrs => String::from_str(
                    "arg of scheme can't have attributes",
                ),
                SchemeShapeError::ArgByRef => String::from_str("arg of scheme can't have `ref`"),
                SchemeShapeError::ArgMut => String::from_str("arg of scheme can't have `mut`"),
                SchemeShapeError::ArgSubpat => String::from_str(
                    "arg of scheme can't have `@ SUBPATTERN`",
                ),
            },
            Error::UnresolvedInterface { .. } => String::from_str(
                "trait definition not registered",
            ),
            Error::NameConflict { .. } => String::from_str(
                "type name conflicted, already registered",
            ),
        }
    }
}

} // verus!
