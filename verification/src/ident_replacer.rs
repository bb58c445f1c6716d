//! Rewriting of a bare identifier inside a body expression: every `Path`
//! node naming `orig` becomes a `Path` node naming `subst`.  Used to bind a
//! custom extraction template's placeholder to the payload binder of a
//! dispatch arm.

use vstd::prelude::*;

use crate::model::Expr;
use crate::model::MatchArm;
use crate::model::SpecExpr;
use crate::model::SpecMatchArm;
use crate::model::lemma_view_arm_seq_push;
use crate::model::lemma_view_expr_seq_push;
use crate::model::view_arm;
use crate::model::view_arm_seq;
use crate::model::view_expr;
use crate::model::view_expr_seq;

verus! {

/// A body expression with every bare occurrence of the identifier `orig`
/// replaced by the identifier `subst`.  Only `Path` nodes are touched:
/// qualified call targets and opaque expressions pass through verbatim.
pub open spec fn spec_replace_ident(orig: Seq<char>, subst: Seq<char>, e: SpecExpr) -> SpecExpr
    decreases e,
{
    match e {
        SpecExpr::Path { name } => if name == orig {
            SpecExpr::Path { name: subst }
        } else {
            e
        },
        SpecExpr::Method { .. } => e,
        SpecExpr::Call { func, args } => SpecExpr::Call {
            func: Box::new(spec_replace_ident(orig, subst, *func)),
            args: spec_replace_ident_seq(orig, subst, args),
        },
        SpecExpr::Reference { is_mut, inner } => SpecExpr::Reference {
            is_mut,
            inner: Box::new(spec_replace_ident(orig, subst, *inner)),
        },
        SpecExpr::Field { base, field } => SpecExpr::Field {
            base: Box::new(spec_replace_ident(orig, subst, *base)),
            field,
        },
        SpecExpr::MatchSelf { arms } => SpecExpr::MatchSelf {
            arms: spec_replace_ident_arms(orig, subst, arms),
        },
        SpecExpr::Opaque { .. } => e,
    }
}

pub open spec fn spec_replace_ident_seq(
    orig: Seq<char>,
    subst: Seq<char>,
    s: Seq<SpecExpr>,
) -> Seq<SpecExpr>
    decreases s,
{
    if s.len() == 0 {
        Seq::empty()
    } else {
        spec_replace_ident_seq(orig, subst, s.drop_last()).push(
            spec_replace_ident(orig, subst, s.last()),
        )
    }
}

pub open spec fn spec_replace_ident_arms(
    orig: Seq<char>,
    subst: Seq<char>,
    s: Seq<SpecMatchArm>,
) -> Seq<SpecMatchArm>
    decreases s,
{
    if s.len() == 0 {
        Seq::empty()
    } else {
        spec_replace_ident_arms(orig, subst, s.drop_last()).push(
            SpecMatchArm {
                pat: s.last().pat,
                body: spec_replace_ident(orig, subst, s.last().body),
            },
        )
    }
}

pub proof fn lemma_replace_ident_seq_push(
    orig: Seq<char>,
    subst: Seq<char>,
    s: Seq<SpecExpr>,
    e: SpecExpr,
)
    ensures
        spec_replace_ident_seq(orig, subst, s.push(e)) == spec_replace_ident_seq(
            orig,
            subst,
            s,
        ).push(spec_replace_ident(orig, subst, e)),
{
    assert(s.push(e).drop_last() =~= s);
    assert(s.push(e).last() == e);
}

pub proof fn lemma_replace_ident_arms_push(
    orig: Seq<char>,
    subst: Seq<char>,
    s: Seq<SpecMatchArm>,
    a: SpecMatchArm,
)
    ensures
        spec_replace_ident_arms(orig, subst, s.push(a)) == spec_replace_ident_arms(
            orig,
            subst,
            s,
        ).push(SpecMatchArm { pat: a.pat, body: spec_replace_ident(orig, subst, a.body) }),
{
    assert(s.push(a).drop_last() =~= s);
    assert(s.push(a).last() == a);
}

/// Replaces every bare occurrence of the identifier `orig` in `target` with
/// the identifier `subst`.
pub fn replace_ident_in_expr(orig: &String, subst: &String, target: &Expr) -> (r: Expr)
    ensures
        view_expr(r) == spec_replace_ident(orig@, subst@, view_expr(*target)),
    decreases *target,
{
    match target {
        Expr::Path { name } => {
            if *name == *orig {
                Expr::Path { name: subst.clone() }
            } else {
                Expr::Path { name: name.clone() }
            }
        },
        Expr::Method { path } => Expr::Method { path: path.clone() },
        Expr::Call { func, args } => Expr::Call {
            func: Box::new(replace_ident_in_expr(orig, subst, &**func)),
            args: replace_ident_in_vec(orig, subst, args),
        },
        Expr::Reference { is_mut, inner } => Expr::Reference {
            is_mut: *is_mut,
            inner: Box::new(replace_ident_in_expr(orig, subst, &**inner)),
        },
        Expr::Field { base, field } => Expr::Field {
            base: Box::new(replace_ident_in_expr(orig, subst, &**base)),
            field: field.clone(),
        },
        Expr::MatchSelf { arms } => Expr::MatchSelf {
            arms: replace_ident_in_arms(orig, subst, arms),
        },
        Expr::Opaque { text } => Expr::Opaque { text: text.clone() },
    }
}

fn replace_ident_in_vec(orig: &String, subst: &String, v: &Vec<Expr>) -> (r: Vec<Expr>)
    ensures
        view_expr_seq(r@) == spec_replace_ident_seq(orig@, subst@, view_expr_seq(v@)),
    decreases *v,
{
    let ghost s = view_expr_seq(v@);
    proof {
        crate::model::lemma_view_expr_seq_index(v@);
    }
    let mut r: Vec<Expr> = Vec::new();
    let mut i: usize = 0;
    while i < v.len()
        invariant
            i <= v.len(),
            s == view_expr_seq(v@),
            s.len() == v@.len(),
            forall|j: int| 0 <= j < s.len() ==> s[j] == view_expr(v@[j]),
            view_expr_seq(r@) == spec_replace_ident_seq(orig@, subst@, s.subrange(0, i as int)),
        decreases v@.len() - i,
    {
        let e = replace_ident_in_expr(orig, subst, &v[i]);
        proof {
            lemma_view_expr_seq_push(r@, e);
            lemma_replace_ident_seq_push(orig@, subst@, s.subrange(0, i as int), s[i as int]);
            assert(s.subrange(0, i + 1 as int) =~= s.subrange(0, i as int).push(s[i as int]));
        }
        r.push(e);
        i = i + 1;
    }
    proof {
        assert(s.subrange(0, s.len() as int) =~= s);
    }
    r
}

fn replace_ident_in_arms(orig: &String, subst: &String, v: &Vec<MatchArm>) -> (r: Vec<MatchArm>)
    ensures
        view_arm_seq(r@) == spec_replace_ident_arms(orig@, subst@, view_arm_seq(v@)),
    decreases *v,
{
    let ghost s = view_arm_seq(v@);
    proof {
        crate::model::lemma_view_arm_seq_index(v@);
    }
    let mut r: Vec<MatchArm> = Vec::new();
    let mut i: usize = 0;
    while i < v.len()
        invariant
            i <= v.len(),
            s == view_arm_seq(v@),
            s.len() == v@.len(),
            forall|j: int| 0 <= j < s.len() ==> s[j] == view_arm(v@[j]),
            view_arm_seq(r@) == spec_replace_ident_arms(orig@, subst@, s.subrange(0, i as int)),
        decreases v@.len() - i,
    {
        let arm = &v[i];
        let a = MatchArm {
            pat: arm.pat.clone(),
            body: replace_ident_in_expr(orig, subst, &arm.body),
        };
        proof {
            lemma_view_arm_seq_push(r@, a);
            lemma_replace_ident_arms_push(orig@, subst@, s.subrange(0, i as int), s[i as int]);
            assert(s.subrange(0, i + 1 as int) =~= s.subrange(0, i as int).push(s[i as int]));
        }
        r.push(a);
        i = i + 1;
    }
    proof {
        assert(s.subrange(0, s.len() as int) =~= s);
    }
    r
}

} // verus!
