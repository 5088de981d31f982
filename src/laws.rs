//! General properties of the kernel, proved over the models.
use crate::deduction::{
    Deduction, and_intro_rule, bx, forall_intro_rule, forall_seq_extract_rule, exists_extract_rule,
    imply_extract_rule, imply_intro_rule, let_rule, redefine, steps_outcome,
};
use crate::formula::{ExprV, FormulaV, NameV, decimal, render, subst, subst_expr, subst_exprs};
use crate::knowledge_base::{Ctx, KnowledgeBase};
use vstd::prelude::*;

verus! {

broadcast use vstd::seq::group_seq_axioms;

/// Equality introduction never fails: applied to any context, it yields a
/// context that is not a failure and holds `Eq(f, f)`.
pub proof fn equality_intro_total<K: KnowledgeBase>(d: Deduction, c: Ctx<K>)
    requires
        d is EqualityIntro,
    ensures
        !(d.outcome(c) is Fail),
        d.outcome(c).holds(FormulaV::Eq(bx(d->EqualityIntro_0@), bx(d->EqualityIntro_0@))),
{
}

/// Conjunction introduction succeeds exactly when both conjuncts hold; on
/// success the conjunction holds and so do both conjuncts still.
pub proof fn and_intro_exact<K: KnowledgeBase>(c: Ctx<K>, a: FormulaV, b: FormulaV)
    ensures
        !(and_intro_rule(c, a, b) is Fail) <==> (c.holds(a) && c.holds(b)),
        c.holds(a) && c.holds(b) ==> {
            let r = and_intro_rule(c, a, b);
            &&& r.holds(FormulaV::And(bx(a), bx(b)))
            &&& r.holds(a)
            &&& r.holds(b)
        },
{
}

/// The constant that a deduction step introduces, if it is one of the
/// binder-introducing rules.
pub open spec fn introduced_name(d: Deduction) -> Option<NameV> {
    match d {
        Deduction::ForAllIntro(x, _) => Some(x.0@),
        Deduction::ExistsExtract(_, v) => Some(v@),
        Deduction::Let(n, _, _) => Some(n@),
        _ => None,
    }
}

/// Name of the binder-introducing rule, as it appears in its messages.
pub open spec fn rule_label(d: Deduction) -> Seq<char> {
    match d {
        Deduction::ForAllIntro(_, _) => "ForAllIntro"@,
        Deduction::ExistsExtract(_, _) => "ExistsExtract"@,
        _ => "Let"@,
    }
}

/// Freshness: universal introduction, existential extraction and `Let` fail
/// with a "cannot redefine constant" error whenever their name is already
/// declared in the context they are applied to, also where an earlier step
/// of the same sequence declared it.
pub proof fn freshness<K: KnowledgeBase>(earlier: Seq<Deduction>, d: Deduction, c: Ctx<K>)
    requires
        introduced_name(d) is Some,
        steps_outcome(earlier, c).declared(introduced_name(d)->0),
    ensures
        d.outcome(steps_outcome(earlier, c)) == redefine::<K>(rule_label(d), introduced_name(d)->0),
        steps_outcome(earlier.push(d), c) == redefine::<K>(rule_label(d), introduced_name(d)->0),
{
    assert(earlier.push(d).drop_last() =~= earlier);
}

/// A successful `Let` declares its name, so that a later binder-introducing
/// step on the same name fails.
pub proof fn let_declares<K: KnowledgeBase>(c: Ctx<K>, n: NameV, vars: Seq<NameV>, body: FormulaV)
    requires
        !c.declared(n),
    ensures
        let_rule(c, n, vars, body).declared(n),
{
    assert(Ctx::Decl(n, Box::new(c)).declared(n));
}

/// Existential extraction declares nothing: whatever its outcome, a name
/// that it leaves declared was declared before, and on success the witness
/// instance holds.
pub proof fn exists_extract_declares_nothing<K: KnowledgeBase>(
    c: Ctx<K>,
    n: NameV,
    body: FormulaV,
    v: NameV,
    x: NameV,
)
    ensures
        exists_extract_rule(c, n, body, v).declared(x) ==> c.declared(x),
        !c.declared(v) && c.holds(FormulaV::Exists(n, bx(body))) ==> exists_extract_rule(
            c,
            n,
            body,
            v,
        ).holds(subst(body, n, FormulaV::Const(v))),
{
}

/// Self-implication: `ImplyIntro(a, a, EmptyStep)` succeeds on any context,
/// the empty root knowledge base included, and establishes `Implies(a, a)`.
pub proof fn self_implication<K: KnowledgeBase>(d: Deduction, c: Ctx<K>)
    requires
        d is ImplyIntro,
        d->ImplyIntro_0@ == d->ImplyIntro_1@,
        *d->ImplyIntro_2 is EmptyStep,
    ensures
        !(d.outcome(c) is Fail),
        d.outcome(c).holds(
            FormulaV::Implies(bx(d->ImplyIntro_0@), bx(d->ImplyIntro_0@)),
        ),
{
    let a = d->ImplyIntro_0@;
    let w = d->ImplyIntro_2;
    assert(w.outcome(c.with(a)) == c.with(a));
    assert(c.with(a).holds(a));
    assert(d.outcome(c) == imply_intro_rule(c, a, a, true));
}

/// Modus ponens: with `Implies(a, b)` and `a` established, implication
/// extraction establishes `b`; without either premise it fails, naming the
/// missing one.
pub proof fn modus_ponens<K: KnowledgeBase>(c: Ctx<K>, a: FormulaV, b: FormulaV)
    ensures
        c.holds(FormulaV::Implies(bx(a), bx(b))) && c.holds(a) ==> !(imply_extract_rule(
            c,
            a,
            b,
        ) is Fail) && imply_extract_rule(c, a, b).holds(b),
        !c.holds(FormulaV::Implies(bx(a), bx(b))) ==> imply_extract_rule(c, a, b) == Ctx::<
            K,
        >::Fail("ImplyExtract: did not deduce "@ + render(FormulaV::Implies(bx(a), bx(b)))),
        c.holds(FormulaV::Implies(bx(a), bx(b))) && !c.holds(a) ==> imply_extract_rule(c, a, b)
            == Ctx::<K>::Fail("ImplyExtract: did not deduce "@ + render(a)),
{
}

/// A failed context establishes nothing and declares nothing.
pub proof fn failure_holds_nothing<K: KnowledgeBase>(m: Seq<char>, f: FormulaV, n: NameV)
    ensures
        !Ctx::<K>::Fail(m).holds(f),
        !Ctx::<K>::Fail(m).declared(n),
{
}

/// Sticky but overwritable errors: when the first of two steps fails and the
/// second fails on what the first left, the sequence ends with the second
/// step's message, not the first's.
pub proof fn last_failure_wins<K: KnowledgeBase>(
    first: Deduction,
    second: Deduction,
    c: Ctx<K>,
    m1: Seq<char>,
    m2: Seq<char>,
)
    requires
        first.outcome(c) == Ctx::<K>::Fail(m1),
        second.outcome(Ctx::<K>::Fail(m1)) == Ctx::<K>::Fail(m2),
    ensures
        steps_outcome(seq![first, second], c) == Ctx::<K>::Fail(m2),
{
    let s = seq![first, second];
    assert(s.drop_last() =~= seq![first]);
    assert(s.drop_last().drop_last() =~= Seq::<Deduction>::empty());
    assert(steps_outcome(Seq::<Deduction>::empty(), c) == c);
    assert(steps_outcome(seq![first], c) == first.outcome(c));
    assert(steps_outcome(s, c) == second.outcome(steps_outcome(seq![first], c)));
}

/// Whether `c` occurs in `f` as the name of a first-order binder (`ForAll`,
/// `Exists`, `Subst`) or as a free reference.
pub open spec fn mentions(f: FormulaV, c: NameV) -> bool
    decreases f,
{
    match f {
        FormulaV::True => false,
        FormulaV::False => false,
        FormulaV::Eq(l, r) => mentions(*l, c) || mentions(*r, c),
        FormulaV::IFF(l, r) => mentions(*l, c) || mentions(*r, c),
        FormulaV::Relation(l) => exprs_mention(l, c),
        FormulaV::And(l, r) => mentions(*l, c) || mentions(*r, c),
        FormulaV::Or(l, r) => mentions(*l, c) || mentions(*r, c),
        FormulaV::Not(l) => mentions(*l, c),
        FormulaV::Implies(l, r) => mentions(*l, c) || mentions(*r, c),
        FormulaV::Subst(b, v, e) => v == c || mentions(*b, c) || mentions(*e, c),
        FormulaV::ForAllSeq(_, _, e) => mentions(*e, c),
        FormulaV::ForAll(v, e) => v == c || mentions(*e, c),
        FormulaV::Exists(v, e) => v == c || mentions(*e, c),
        FormulaV::Free(v) => v == c,
        FormulaV::Const(_) => false,
    }
}

pub open spec fn expr_mentions(e: ExprV, c: NameV) -> bool
    decreases e,
{
    match e {
        ExprV::Formula(f) => mentions(f, c),
        _ => false,
    }
}

pub open spec fn exprs_mention(l: Seq<ExprV>, c: NameV) -> bool
    decreases l,
{
    if l.len() == 0 {
        false
    } else {
        exprs_mention(l.drop_last(), c) || expr_mentions(l.last(), c)
    }
}

/// Substitution identity: where `c` names no binder of `f` and occurs in it
/// free nowhere, substituting for `c` gives `f` back unchanged.
pub proof fn substitution_identity(f: FormulaV, c: NameV, g: FormulaV)
    requires
        !mentions(f, c),
    ensures
        subst(f, c, g) == f,
    decreases f,
{
    match f {
        FormulaV::Eq(l, r) => {
            substitution_identity(*l, c, g);
            substitution_identity(*r, c, g);
        },
        FormulaV::IFF(l, r) => {
            substitution_identity(*l, c, g);
            substitution_identity(*r, c, g);
        },
        FormulaV::Relation(l) => {
            exprs_identity(l, c, g);
        },
        FormulaV::And(l, r) => {
            substitution_identity(*l, c, g);
            substitution_identity(*r, c, g);
        },
        FormulaV::Or(l, r) => {
            substitution_identity(*l, c, g);
            substitution_identity(*r, c, g);
        },
        FormulaV::Not(l) => {
            substitution_identity(*l, c, g);
        },
        FormulaV::Implies(l, r) => {
            substitution_identity(*l, c, g);
            substitution_identity(*r, c, g);
        },
        FormulaV::Subst(b, _, e) => {
            substitution_identity(*b, c, g);
            substitution_identity(*e, c, g);
        },
        FormulaV::ForAllSeq(_, _, e) => {
            substitution_identity(*e, c, g);
        },
        FormulaV::ForAll(_, e) => {
            substitution_identity(*e, c, g);
        },
        FormulaV::Exists(_, e) => {
            substitution_identity(*e, c, g);
        },
        _ => {},
    }
}

/// The argument-list case of the substitution identity.
pub proof fn exprs_identity(l: Seq<ExprV>, c: NameV, g: FormulaV)
    requires
        !exprs_mention(l, c),
    ensures
        subst_exprs(l, c, g) == l,
    decreases l,
{
    if l.len() > 0 {
        exprs_identity(l.drop_last(), c, g);
        assert(!expr_mentions(l.last(), c));
        match l.last() {
            ExprV::Formula(x) => {
                substitution_identity(x, c, g);
            },
            _ => {},
        }
        assert(subst_expr(l.last(), c, g) == l.last());
        assert(l.drop_last().push(l.last()) =~= l);
    }
}

/// Sequence instantiation with a list of the wrong length is rejected, on
/// any context, with an error that gives both lengths; nothing is truncated
/// or padded.
pub proof fn arity_mismatch_rejected<K: KnowledgeBase>(
    c: Ctx<K>,
    ar: u64,
    n: NameV,
    body: FormulaV,
    terms: Seq<FormulaV>,
)
    requires
        terms.len() != ar,
    ensures
        forall_seq_extract_rule(c, ar, n, body, terms) == Ctx::<K>::Fail(
            "ForAllSeqExtract: expected "@ + decimal(ar as nat) + " formulas, got "@ + decimal(
                terms.len(),
            ),
        ),
{
}

} // verus!
