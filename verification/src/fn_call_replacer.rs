//! Rewriting of placeholder calls inside a scheme template: every call
//! `f(e...)` whose callee is the bare placeholder identifier `f` becomes a
//! qualified call of a trait method with the method's non-receiver
//! arguments appended positionally.

use vstd::prelude::*;

use crate::model::Expr;
use crate::model::FuncPath;
use crate::model::MatchArm;
use crate::model::SpecExpr;
use crate::model::SpecFuncPath;
use crate::model::SpecMatchArm;
use crate::model::lemma_view_arm_seq_push;
use crate::model::lemma_view_expr_seq_push;
use crate::model::view_arm;
use crate::model::view_arm_seq;
use crate::model::view_expr;
use crate::model::view_expr_seq;

verus! {

/// A body expression with every call of the bare placeholder `ph` turned
/// into a call of the trait method `fp`, with `extra` appended to the
/// rewritten call arguments.  Children are rewritten first; everything that
/// is not such a call keeps its shape.
pub open spec fn spec_replace_fn_call(
    ph: Seq<char>,
    fp: SpecFuncPath,
    extra: Seq<SpecExpr>,
    e: SpecExpr,
) -> SpecExpr
    decreases e,
{
    match e {
        SpecExpr::Path { .. } => e,
        SpecExpr::Method { .. } => e,
        SpecExpr::Call { func, args } => {
            let rargs = spec_replace_fn_call_seq(ph, fp, extra, args);
            if *func == (SpecExpr::Path { name: ph }) {
                SpecExpr::Call {
                    func: Box::new(SpecExpr::Method { path: fp }),
                    args: rargs + extra,
                }
            } else {
                SpecExpr::Call {
                    func: Box::new(spec_replace_fn_call(ph, fp, extra, *func)),
                    args: rargs,
                }
            }
        },
        SpecExpr::Reference { is_mut, inner } => SpecExpr::Reference {
            is_mut,
            inner: Box::new(spec_replace_fn_call(ph, fp, extra, *inner)),
        },
        SpecExpr::Field { base, field } => SpecExpr::Field {
            base: Box::new(spec_replace_fn_call(ph, fp, extra, *base)),
            field,
        },
        SpecExpr::MatchSelf { arms } => SpecExpr::MatchSelf {
            arms: spec_replace_fn_call_arms(ph, fp, extra, arms),
        },
        SpecExpr::Opaque { .. } => e,
    }
}

pub open spec fn spec_replace_fn_call_seq(
    ph: Seq<char>,
    fp: SpecFuncPath,
    extra: Seq<SpecExpr>,
    s: Seq<SpecExpr>,
) -> Seq<SpecExpr>
    decreases s,
{
    if s.len() == 0 {
        Seq::empty()
    } else {
        spec_replace_fn_call_seq(ph, fp, extra, s.drop_last()).push(
            spec_replace_fn_call(ph, fp, extra, s.last()),
        )
    }
}

pub open spec fn spec_replace_fn_call_arms(
    ph: Seq<char>,
    fp: SpecFuncPath,
    extra: Seq<SpecExpr>,
    s: Seq<SpecMatchArm>,
) -> Seq<SpecMatchArm>
    decreases s,
{
    if s.len() == 0 {
        Seq::empty()
    } else {
        spec_replace_fn_call_arms(ph, fp, extra, s.drop_last()).push(
            SpecMatchArm {
                pat: s.last().pat,
                body: spec_replace_fn_call(ph, fp, extra, s.last().body),
            },
        )
    }
}

pub proof fn lemma_replace_fn_call_seq_push(
    ph: Seq<char>,
    fp: SpecFuncPath,
    extra: Seq<SpecExpr>,
    s: Seq<SpecExpr>,
    e: SpecExpr,
)
    ensures
        spec_replace_fn_call_seq(ph, fp, extra, s.push(e)) == spec_replace_fn_call_seq(
            ph,
            fp,
            extra,
            s,
        ).push(spec_replace_fn_call(ph, fp, extra, e)),
{
    assert(s.push(e).drop_last() =~= s);
    assert(s.push(e).last() == e);
}

pub proof fn lemma_replace_fn_call_arms_push(
    ph: Seq<char>,
    fp: SpecFuncPath,
    extra: Seq<SpecExpr>,
    s: Seq<SpecMatchArm>,
    a: SpecMatchArm,
)
    ensures
        spec_replace_fn_call_arms(ph, fp, extra, s.push(a)) == spec_replace_fn_call_arms(
            ph,
            fp,
            extra,
            s,
        ).push(SpecMatchArm { pat: a.pat, body: spec_replace_fn_call(ph, fp, extra, a.body) }),
{
    assert(s.push(a).drop_last() =~= s);
    assert(s.push(a).last() == a);
}

fn expr_is_placeholder(e: &Expr, ph: &String) -> (r: bool)
    ensures
        r == (view_expr(*e) == (SpecExpr::Path { name: ph@ })),
{
    match e {
        Expr::Path { name } => *name == *ph,
        _ => false,
    }
}

/// Replaces every call `ph(e...)` in `target` with a call of the trait
/// method `fp` whose arguments are the rewritten `e...` followed by
/// `extra`, positionally.
pub fn replace_fn_call_in_expr(ph: &String, fp: &FuncPath, extra: &Vec<Expr>, target: &Expr) -> (r:
    Expr)
    ensures
        view_expr(r) == spec_replace_fn_call(ph@, fp@, view_expr_seq(extra@), view_expr(*target)),
    decreases *target,
{
    match target {
        Expr::Path { name } => Expr::Path { name: name.clone() },
        Expr::Method { path } => Expr::Method { path: path.clone() },
        Expr::Call { func, args } => {
            let mut rargs = replace_fn_call_in_vec(ph, fp, extra, args);
            if expr_is_placeholder(&**func, ph) {
                let mut tail = crate::model::clone_expr_vec(extra);
                let ghost pre_vec = rargs@;
                let ghost pre_tail = tail@;
                let ghost rargs0 = view_expr_seq(rargs@);
                let ghost tail0 = view_expr_seq(tail@);
                rargs.append(&mut tail);
                proof {
                    crate::model::lemma_view_expr_seq_index(pre_vec);
                    crate::model::lemma_view_expr_seq_index(pre_tail);
                    assert(rargs@.subrange(0, rargs0.len() as int) =~= pre_vec);
                    assert(rargs@.subrange(rargs0.len() as int, rargs@.len() as int) =~= pre_tail);
                    crate::model::lemma_view_expr_seq_concat(rargs@, rargs0, tail0);
                }
                let ghost final_rargs = view_expr_seq(rargs@);
                let fpc = fp.clone();
                let callee = Expr::Method { path: fpc };
                proof {
                    assert(view_expr(callee) == (SpecExpr::Method { path: fp@ }));
                }
                let r = Expr::Call { func: Box::new(callee), args: rargs };
                proof {
                    assert(view_expr(r) == (SpecExpr::Call {
                        func: Box::new(SpecExpr::Method { path: fp@ }),
                        args: final_rargs,
                    }));
                }
                r
            } else {
                Expr::Call {
                    func: Box::new(replace_fn_call_in_expr(ph, fp, extra, &**func)),
                    args: rargs,
                }
            }
        },
        Expr::Reference { is_mut, inner } => Expr::Reference {
            is_mut: *is_mut,
            inner: Box::new(replace_fn_call_in_expr(ph, fp, extra, &**inner)),
        },
        Expr::Field { base, field } => Expr::Field {
            base: Box::new(replace_fn_call_in_expr(ph, fp, extra, &**base)),
            field: field.clone(),
        },
        Expr::MatchSelf { arms } => Expr::MatchSelf {
            arms: replace_fn_call_in_arms(ph, fp, extra, arms),
        },
        Expr::Opaque { text } => Expr::Opaque { text: text.clone() },
    }
}

fn replace_fn_call_in_vec(ph: &String, fp: &FuncPath, extra: &Vec<Expr>, v: &Vec<Expr>) -> (r: Vec<
    Expr,
>)
    ensures
        view_expr_seq(r@) == spec_replace_fn_call_seq(
            ph@,
            fp@,
            view_expr_seq(extra@),
            view_expr_seq(v@),
        ),
    decreases *v,
{
    let ghost s = view_expr_seq(v@);
    proof {
        crate::model::lemma_view_expr_seq_index(v@);
    }
    let mut r: Vec<Expr> = Vec::new();
    let mut i: usize = 0;
    while i < v.len()
        invariant
            i <= v.len(),
            s == view_expr_seq(v@),
            s.len() == v@.len(),
            forall|j: int| 0 <= j < s.len() ==> s[j] == view_expr(v@[j]),
            view_expr_seq(r@) == spec_replace_fn_call_seq(
                ph@,
                fp@,
                view_expr_seq(extra@),
                s.subrange(0, i as int),
            ),
        decreases v@.len() - i,
    {
        let e = replace_fn_call_in_expr(ph, fp, extra, &v[i]);
        proof {
            lemma_view_expr_seq_push(r@, e);
            lemma_replace_fn_call_seq_push(
                ph@,
                fp@,
                view_expr_seq(extra@),
                s.subrange(0, i as int),
                s[i as int],
            );
            assert(s.subrange(0, i + 1 as int) =~= s.subrange(0, i as int).push(s[i as int]));
        }
        r.push(e);
        i = i + 1;
    }
    proof {
        assert(s.subrange(0, s.len() as int) =~= s);
    }
    r
}

fn replace_fn_call_in_arms(ph: &String, fp: &FuncPath, extra: &Vec<Expr>, v: &Vec<MatchArm>) -> (r:
    Vec<MatchArm>)
    ensures
        view_arm_seq(r@) == spec_replace_fn_call_arms(
            ph@,
            fp@,
            view_expr_seq(extra@),
            view_arm_seq(v@),
        ),
    decreases *v,
{
    let ghost s = view_arm_seq(v@);
    proof {
        crate::model::lemma_view_arm_seq_index(v@);
    }
    let mut r: Vec<MatchArm> = Vec::new();
    let mut i: usize = 0;
    while i < v.len()
        invariant
            i <= v.len(),
            s == view_arm_seq(v@),
            s.len() == v@.len(),
            forall|j: int| 0 <= j < s.len() ==> s[j] == view_arm(v@[j]),
            view_arm_seq(r@) == spec_replace_fn_call_arms(
                ph@,
                fp@,
                view_expr_seq(extra@),
                s.subrange(0, i as int),
            ),
        decreases v@.len() - i,
    {
        let arm = &v[i];
        let a = MatchArm {
            pat: arm.pat.clone(),
            body: replace_fn_call_in_expr(ph, fp, extra, &arm.body),
        };
        proof {
            lemma_view_arm_seq_push(r@, a);
            lemma_replace_fn_call_arms_push(
                ph@,
                fp@,
                view_expr_seq(extra@),
                s.subrange(0, i as int),
                s[i as int],
            );
            assert(s.subrange(0, i + 1 as int) =~= s.subrange(0, i as int).push(s[i as int]));
        }
        r.push(a);
        i = i + 1;
    }
    proof {
        assert(s.subrange(0, s.len() as int) =~= s);
    }
    r
}

} // verus!
