//! Inference rules and the evaluator that applies a proof to a context.
use crate::formula::{
    ConstName, Expr, ExprV, Form, Formula, FormulaV, NameV, decimal, formulas_view, render,
    render_name, share, subst, subst_seq, append_decimal, names_view, consts_relation,
};
use crate::knowledge_base::{Ctx, KnowledgeBase, ResultBase};
use std::rc::Rc;
use vstd::prelude::*;

verus! {

broadcast use vstd::std_specs::vec::group_vec_axioms, vstd::seq::group_seq_axioms;

/// Shared handle to a nested derivation.
pub type Work = Rc<Deduction>;

/// One inference step, or a composite proof built from steps.
pub enum Deduction {
    EmptyStep,
    IFFIntro((Form, Work), (Form, Work)),
    IFFExtract(Form, Form),
    SubstReduce(Form, ConstName, Form),
    AndIntro(Form, Form),
    AndExtract(Form, Form),
    OrIntro(Form, Form),
    OrExtract((Form, Work), (Form, Work), Form),
    ImplyIntro(Form, Form, Work),
    ImplyExtract(Form, Form),
    NotIntro(Form, Work),
    NotExtract(Form),
    EqualityIntro(Form),
    Substitution(Form, Form, ConstName, Form),
    ForAllSeqExtract((u64, ConstName, Form), Vec<Formula>),
    ExistsIntro((ConstName, Form), Form),
    ExistsExtract((ConstName, Form), ConstName),
    ForAllExtract((ConstName, Form), Form),
    ForAllIntro((ConstName, Form), Work),
    Sequence(Vec<Deduction>),
    Let(ConstName, Vec<ConstName>, Form),
}

pub open spec fn bx(f: FormulaV) -> Box<FormulaV> {
    Box::new(f)
}

pub open spec fn fail<K>(msg: Seq<char>, f: FormulaV) -> Ctx<K> {
    Ctx::Fail(msg + render(f))
}

pub open spec fn fail2<K>(msg: Seq<char>, a: FormulaV, mid: Seq<char>, b: FormulaV) -> Ctx<K> {
    Ctx::Fail(msg + render(a) + mid + render(b))
}

pub open spec fn redefine<K>(rule: Seq<char>, n: NameV) -> Ctx<K> {
    Ctx::Fail(rule + ": cannot redefine constant "@ + render_name(n))
}

pub open spec fn and_intro_rule<K: KnowledgeBase>(c: Ctx<K>, a: FormulaV, b: FormulaV) -> Ctx<K> {
    if c.holds(a) && c.holds(b) {
        c.with(FormulaV::And(bx(a), bx(b)))
    } else if !c.holds(a) {
        fail("AndIntro: did not deduce "@, a)
    } else {
        fail("AndIntro: did not deduce "@, b)
    }
}

pub open spec fn and_extract_rule<K: KnowledgeBase>(c: Ctx<K>, a: FormulaV, b: FormulaV) -> Ctx<
    K,
> {
    if c.holds(FormulaV::And(bx(a), bx(b))) {
        c.with(a).with(b)
    } else {
        fail("AndExtract: did not deduce "@, FormulaV::And(bx(a), bx(b)))
    }
}

pub open spec fn or_intro_rule<K: KnowledgeBase>(c: Ctx<K>, a: FormulaV, b: FormulaV) -> Ctx<K> {
    if c.holds(a) || c.holds(b) {
        c.with(FormulaV::Or(bx(a), bx(b)))
    } else {
        fail2("OrIntro: deduced neither "@, a, " nor "@, b)
    }
}

/// `left` and `right` tell whether each branch proved `g` under its assumption.
pub open spec fn or_extract_rule<K: KnowledgeBase>(
    c: Ctx<K>,
    a: FormulaV,
    b: FormulaV,
    g: FormulaV,
    left: bool,
    right: bool,
) -> Ctx<K> {
    if left && right {
        c.with(g)
    } else if !left {
        fail2("OrExtract: did not deduce "@, g, " from "@, a)
    } else {
        fail2("OrExtract: did not deduce "@, g, " from "@, b)
    }
}

pub open spec fn imply_intro_rule<K: KnowledgeBase>(
    c: Ctx<K>,
    a: FormulaV,
    b: FormulaV,
    proved: bool,
) -> Ctx<K> {
    if proved {
        c.with(FormulaV::Implies(bx(a), bx(b)))
    } else {
        fail2("ImplyIntro: did not deduce "@, b, " from "@, a)
    }
}

pub open spec fn imply_extract_rule<K: KnowledgeBase>(c: Ctx<K>, a: FormulaV, b: FormulaV) -> Ctx<
    K,
> {
    if !c.holds(FormulaV::Implies(bx(a), bx(b))) {
        fail("ImplyExtract: did not deduce "@, FormulaV::Implies(bx(a), bx(b)))
    } else if !c.holds(a) {
        fail("ImplyExtract: did not deduce "@, a)
    } else {
        c.with(b)
    }
}

pub open spec fn not_intro_rule<K: KnowledgeBase>(c: Ctx<K>, a: FormulaV, proved: bool) -> Ctx<K> {
    if proved {
        c.with(FormulaV::Not(bx(a)))
    } else {
        fail("NotIntro: no contradiction reached from "@, a)
    }
}

pub open spec fn not_extract_rule<K: KnowledgeBase>(c: Ctx<K>, a: FormulaV) -> Ctx<K> {
    if c.holds(a) && c.holds(FormulaV::Not(bx(a))) {
        c.with(FormulaV::False)
    } else {
        fail("NotExtract: no contradiction on "@, a)
    }
}

/// `forward` tells whether `b` was proved from `a`, `backward` the converse.
pub open spec fn iff_intro_rule<K: KnowledgeBase>(
    c: Ctx<K>,
    a: FormulaV,
    b: FormulaV,
    forward: bool,
    backward: bool,
) -> Ctx<K> {
    if forward && backward {
        c.with(FormulaV::IFF(bx(a), bx(b)))
    } else if !forward {
        fail2("IFFIntro: did not deduce "@, b, " from "@, a)
    } else {
        fail2("IFFIntro: did not deduce "@, a, " from "@, b)
    }
}

pub open spec fn iff_extract_rule<K: KnowledgeBase>(c: Ctx<K>, a: FormulaV, b: FormulaV) -> Ctx<K> {
    if !c.holds(FormulaV::IFF(bx(a), bx(b))) {
        fail("IFFExtract: did not deduce "@, FormulaV::IFF(bx(a), bx(b)))
    } else if c.holds(a) {
        c.with(b)
    } else if c.holds(b) {
        c.with(a)
    } else {
        fail2("IFFExtract: deduced neither "@, a, " nor "@, b)
    }
}

pub open spec fn equality_intro_rule<K: KnowledgeBase>(c: Ctx<K>, f: FormulaV) -> Ctx<K> {
    c.with(FormulaV::Eq(bx(f), bx(f)))
}

pub open spec fn substitution_rule<K: KnowledgeBase>(
    c: Ctx<K>,
    a: FormulaV,
    b: FormulaV,
    n: NameV,
    s: FormulaV,
) -> Ctx<K> {
    if !c.holds(FormulaV::Eq(bx(a), bx(b))) {
        fail("Substitution: did not deduce "@, FormulaV::Eq(bx(a), bx(b)))
    } else if !c.holds(subst(s, n, a)) {
        fail("Substitution: did not deduce "@, subst(s, n, a))
    } else {
        c.with(subst(s, n, b))
    }
}

pub open spec fn subst_reduce_rule<K: KnowledgeBase>(
    c: Ctx<K>,
    a: FormulaV,
    n: NameV,
    b: FormulaV,
) -> Ctx<K> {
    if c.holds(FormulaV::Subst(bx(a), n, bx(b))) {
        c.with(subst(a, n, b))
    } else {
        fail("SubstReduce: did not deduce "@, FormulaV::Subst(bx(a), n, bx(b)))
    }
}

/// The instance that a universal introduction over `n` must prove.
pub open spec fn generic_instance(n: NameV, body: FormulaV) -> FormulaV {
    subst(body, n, FormulaV::Const(n))
}

/// `proved` tells whether the work proved the generic instance with `n`
/// declared.
pub open spec fn forall_intro_rule<K: KnowledgeBase>(
    c: Ctx<K>,
    n: NameV,
    body: FormulaV,
    proved: bool,
) -> Ctx<K> {
    if c.declared(n) {
        redefine("ForAllIntro"@, n)
    } else if proved {
        c.with(FormulaV::ForAll(n, bx(body)))
    } else {
        fail("ForAllIntro: did not deduce "@, generic_instance(n, body))
    }
}

pub open spec fn forall_extract_rule<K: KnowledgeBase>(
    c: Ctx<K>,
    n: NameV,
    body: FormulaV,
    t: FormulaV,
) -> Ctx<K> {
    if c.holds(FormulaV::ForAll(n, bx(body))) {
        c.with(subst(body, n, t))
    } else {
        fail("ForAllExtract: did not deduce "@, FormulaV::ForAll(n, bx(body)))
    }
}

pub open spec fn forall_seq_extract_rule<K: KnowledgeBase>(
    c: Ctx<K>,
    ar: u64,
    n: NameV,
    body: FormulaV,
    terms: Seq<FormulaV>,
) -> Ctx<K> {
    if terms.len() != ar {
        Ctx::Fail(
            "ForAllSeqExtract: expected "@ + decimal(ar as nat) + " formulas, got "@ + decimal(
                terms.len(),
            ),
        )
    } else if !c.holds(FormulaV::ForAllSeq(ar, n, bx(body))) {
        fail("ForAllSeqExtract: did not deduce "@, FormulaV::ForAllSeq(ar, n, bx(body)))
    } else {
        c.with(subst_seq(body, ar, n, terms))
    }
}

pub open spec fn exists_intro_rule<K: KnowledgeBase>(
    c: Ctx<K>,
    n: NameV,
    body: FormulaV,
    w: FormulaV,
) -> Ctx<K> {
    if c.holds(subst(body, n, w)) {
        c.with(FormulaV::Exists(n, bx(body)))
    } else {
        fail("ExistsIntro: did not deduce "@, subst(body, n, w))
    }
}

/// Existential elimination: the witness name must be fresh, and the
/// existential itself must be established (a check added beyond bare
/// freshness, so that no instance of an unproven existential is asserted).
/// The witness instance is asserted; no name is declared.
pub open spec fn exists_extract_rule<K: KnowledgeBase>(
    c: Ctx<K>,
    n: NameV,
    body: FormulaV,
    v: NameV,
) -> Ctx<K> {
    if c.declared(v) {
        redefine("ExistsExtract"@, v)
    } else if !c.holds(FormulaV::Exists(n, bx(body))) {
        fail("ExistsExtract: did not deduce "@, FormulaV::Exists(n, bx(body)))
    } else {
        c.with(subst(body, n, FormulaV::Const(v)))
    }
}

/// `f` under a universal quantifier for each of `vs`, the last outermost.
pub open spec fn close_over(vs: Seq<NameV>, f: FormulaV) -> FormulaV
    decreases vs.len(),
{
    if vs.len() == 0 {
        f
    } else {
        FormulaV::ForAll(vs.last(), bx(close_over(vs.drop_last(), f)))
    }
}

/// The defining equation of `n`: `n == body`, or, with variables,
/// `forall vars. (n, vars...) == body`.
pub open spec fn definition(n: NameV, vars: Seq<NameV>, body: FormulaV) -> FormulaV {
    if vars.len() > 0 {
        close_over(
            vars,
            FormulaV::Eq(bx(consts_relation(seq![n] + vars)), bx(body)),
        )
    } else {
        FormulaV::Eq(bx(FormulaV::Const(n)), bx(body))
    }
}

pub open spec fn let_rule<K: KnowledgeBase>(
    c: Ctx<K>,
    n: NameV,
    vars: Seq<NameV>,
    body: FormulaV,
) -> Ctx<K> {
    if c.declared(n) {
        redefine("Let"@, n)
    } else {
        Ctx::Decl(n, Box::new(c)).with(definition(n, vars, body))
    }
}

impl Deduction {
    /// Nesting depth of sub-derivations, for termination.
    pub open spec fn depth(&self) -> nat
        decreases self,
    {
        match self {
            Deduction::IFFIntro(x, y) => 1 + vstd::math::max(
                x.1.depth() as int,
                y.1.depth() as int,
            ) as nat,
            Deduction::OrExtract(x, y, _) => 1 + vstd::math::max(
                x.1.depth() as int,
                y.1.depth() as int,
            ) as nat,
            Deduction::ImplyIntro(_, _, w) => 1 + w.depth(),
            Deduction::NotIntro(_, w) => 1 + w.depth(),
            Deduction::ForAllIntro(_, w) => 1 + w.depth(),
            Deduction::Sequence(v) => 1 + steps_depth(v@),
            _ => 0,
        }
    }

    /// The context that applying this deduction to `c` yields.
    pub open spec fn outcome<K: KnowledgeBase>(&self, c: Ctx<K>) -> Ctx<K>
        decreases self,
    {
        match self {
            Deduction::EmptyStep => c,
            Deduction::AndIntro(a, b) => and_intro_rule(c, a@, b@),
            Deduction::AndExtract(a, b) => and_extract_rule(c, a@, b@),
            Deduction::OrIntro(a, b) => or_intro_rule(c, a@, b@),
            Deduction::OrExtract(x, y, g) => or_extract_rule(
                c,
                x.0@,
                y.0@,
                g@,
                x.1.outcome(c.with(x.0@)).holds(g@),
                y.1.outcome(c.with(y.0@)).holds(g@),
            ),
            Deduction::ImplyIntro(a, b, w) => imply_intro_rule(
                c,
                a@,
                b@,
                w.outcome(c.with(a@)).holds(b@),
            ),
            Deduction::ImplyExtract(a, b) => imply_extract_rule(c, a@, b@),
            Deduction::NotIntro(a, w) => not_intro_rule(
                c,
                a@,
                w.outcome(c.with(a@)).holds(FormulaV::False),
            ),
            Deduction::NotExtract(a) => not_extract_rule(c, a@),
            Deduction::IFFIntro(x, y) => iff_intro_rule(
                c,
                x.0@,
                y.0@,
                x.1.outcome(c.with(x.0@)).holds(y.0@),
                y.1.outcome(c.with(y.0@)).holds(x.0@),
            ),
            Deduction::IFFExtract(a, b) => iff_extract_rule(c, a@, b@),
            Deduction::EqualityIntro(f) => equality_intro_rule(c, f@),
            Deduction::Substitution(a, b, n, s) => substitution_rule(c, a@, b@, n@, s@),
            Deduction::SubstReduce(a, n, b) => subst_reduce_rule(c, a@, n@, b@),
            Deduction::ForAllIntro(x, w) => forall_intro_rule(
                c,
                x.0@,
                x.1@,
                w.outcome(Ctx::Decl(x.0@, Box::new(c))).holds(generic_instance(x.0@, x.1@)),
            ),
            Deduction::ForAllExtract(x, t) => forall_extract_rule(c, x.0@, x.1@, t@),
            Deduction::ForAllSeqExtract(x, ts) => forall_seq_extract_rule(
                c,
                x.0,
                x.1@,
                x.2@,
                formulas_view(ts@),
            ),
            Deduction::ExistsIntro(x, w) => exists_intro_rule(c, x.0@, x.1@, w@),
            Deduction::ExistsExtract(x, v) => exists_extract_rule(c, x.0@, x.1@, v@),
            Deduction::Let(n, vs, b) => let_rule(c, n@, names_view(vs@), b@),
            Deduction::Sequence(v) => steps_outcome(v@, c),
        }
    }
}

/// Largest depth among the steps.
pub open spec fn steps_depth(s: Seq<Deduction>) -> nat
    decreases s,
{
    if s.len() == 0 {
        0
    } else {
        vstd::math::max(steps_depth(s.drop_last()) as int, s.last().depth() as int) as nat
    }
}

/// The steps applied in order, each to the context the previous ones left.
pub open spec fn steps_outcome<K: KnowledgeBase>(s: Seq<Deduction>, c: Ctx<K>) -> Ctx<K>
    decreases s,
{
    if s.len() == 0 {
        c
    } else {
        s.last().outcome(steps_outcome(s.drop_last(), c))
    }
}

pub proof fn lemma_steps_depth(s: Seq<Deduction>)
    ensures
        forall|i: int| 0 <= i < s.len() ==> #[trigger] s[i].depth() <= steps_depth(s),
    decreases s.len(),
{
    if s.len() > 0 {
        lemma_steps_depth(s.drop_last());
        assert forall|i: int| 0 <= i < s.len() implies #[trigger] s[i].depth() <= steps_depth(
            s,
        ) by {
            if i < s.len() - 1 {
                assert(s[i] == s.drop_last()[i]);
            }
        }
    }
}


fn fail_on<K: KnowledgeBase>(msg: &str, f: &Formula) -> (r: ResultBase<K>)
    ensures
        r@ == fail::<K>(msg@, f@),
{
    let mut s = String::new();
    s.append(msg);
    f.write_to(&mut s);
    assert(s@ =~= msg@ + render(f@));
    ResultBase::Failed(s)
}

fn fail_on2<K: KnowledgeBase>(msg: &str, a: &Formula, mid: &str, b: &Formula) -> (r: ResultBase<K>)
    ensures
        r@ == fail2::<K>(msg@, a@, mid@, b@),
{
    let mut s = String::new();
    s.append(msg);
    a.write_to(&mut s);
    s.append(mid);
    b.write_to(&mut s);
    assert(s@ =~= msg@ + render(a@) + mid@ + render(b@));
    ResultBase::Failed(s)
}

fn fail_redefine<K: KnowledgeBase>(rule: &str, n: &ConstName) -> (r: ResultBase<K>)
    ensures
        r@ == redefine::<K>(rule@, n@),
{
    let mut s = String::new();
    s.append(rule);
    s.append(": cannot redefine constant ");
    n.write_to(&mut s);
    assert(s@ =~= rule@ + ": cannot redefine constant "@ + render_name(n@));
    ResultBase::Failed(s)
}

/// Whether `w`, applied to `k` with `hyp` assumed, establishes `goal`.
fn proves_under<K: KnowledgeBase>(w: &Work, k: &ResultBase<K>, hyp: Form, goal: &Formula) -> (r:
    bool)
    ensures
        r == w.outcome(k@.with(hyp@)).holds(goal@),
    decreases 4 * w.depth() + 4,
{
    w.apply_work_inner(k.result_ptr(hyp)).contains(goal)
}

impl Deduction {
    /// Whether applying this deduction to `k` establishes `thm`.
    pub fn deduced<K: KnowledgeBase>(&self, k: K, thm: &Formula) -> (r: bool)
        ensures
            r == self.outcome(Ctx::Base(k)).holds(thm@),
    {
        self.apply_work(k).contains(thm)
    }

    /// The context that applying this deduction to `k` yields.
    pub fn apply_work<K: KnowledgeBase>(&self, k: K) -> (r: ResultBase<K>)
        ensures
            r@ == self.outcome(Ctx::Base(k)),
    {
        self.apply_work_inner(ResultBase::new(k))
    }

    /// The context that applying this deduction to the context `k` yields.
    pub fn apply_work_inner<K: KnowledgeBase>(&self, k: ResultBase<K>) -> (r: ResultBase<K>)
        ensures
            r@ == self.outcome(k@),
        decreases 4 * self.depth() + 3,
    {
        match self {
            Deduction::EmptyStep => k,
            Deduction::AndIntro(a, b) => self.and_intro(k, share(a), share(b)),
            Deduction::AndExtract(a, b) => self.and_extract(k, share(a), share(b)),
            Deduction::OrIntro(a, b) => self.or_intro(k, share(a), share(b)),
            Deduction::OrExtract(x, y, g) => self.or_extract(k, x, y, share(g)),
            Deduction::ImplyIntro(a, b, w) => self.implies_intro(k, share(a), share(b), share(w)),
            Deduction::ImplyExtract(a, b) => self.implies_extract(k, share(a), share(b)),
            Deduction::NotIntro(a, w) => self.not_intro(k, share(a), share(w)),
            Deduction::NotExtract(a) => self.not_extract(k, share(a)),
            Deduction::IFFIntro(x, y) => self.iff_intro(k, x, y),
            Deduction::IFFExtract(a, b) => self.iff_extract(k, share(a), share(b)),
            Deduction::EqualityIntro(f) => self.equality_intro(k, share(f)),
            Deduction::Substitution(a, b, n, s) => self.substitution(
                k,
                share(a),
                share(b),
                n,
                share(s),
            ),
            Deduction::SubstReduce(a, n, b) => self.sub_reduce(k, share(a), n, share(b)),
            Deduction::ForAllIntro(x, w) => self.forall_intro(k, x, share(w)),
            Deduction::ForAllExtract(x, t) => self.forall_extract(k, x, share(t)),
            Deduction::ForAllSeqExtract(x, ts) => self.forallseq_extract(
                k,
                x,
                crate::formula::copy_formulas(ts),
            ),
            Deduction::ExistsIntro(x, w) => self.exists_intro(k, x, share(w)),
            Deduction::ExistsExtract(x, v) => self.exists_extract(k, x, v.copy()),
            Deduction::Let(n, vs, b) => self.alias(k, n, vs, share(b)),
            Deduction::Sequence(v) => self.sequence(k, v),
        }
    }

    /// Asserts `f1[c := f2]` where `Subst(f1, c, f2)` is established.
    pub fn sub_reduce<K: KnowledgeBase>(
        &self,
        k: ResultBase<K>,
        f1: Form,
        c: &ConstName,
        f2: Form,
    ) -> (r: ResultBase<K>)
        ensures
            r@ == subst_reduce_rule(k@, f1@, c@, f2@),
    {
        let thm = Formula::Subst(share(&f1), c.copy(), share(&f2));
        if k.contains(&thm) {
            k.result_form(f1.substitute(c, &f2))
        } else {
            fail_on("SubstReduce: did not deduce ", &thm)
        }
    }

    /// Applies the steps in order, each to the context the previous ones left.
    pub fn sequence<K: KnowledgeBase>(&self, k: ResultBase<K>, work: &Vec<Deduction>) -> (r:
        ResultBase<K>)
        ensures
            r@ == steps_outcome(work@, k@),
        decreases 4 * steps_depth(work@) + 5,
    {
        let ghost c = k@;
        let mut r = k;
        let mut i: usize = 0;
        proof {
            lemma_steps_depth(work@);
            assert(work@.take(0) =~= Seq::<Deduction>::empty());
        }
        while i < work.len()
            invariant
                0 <= i <= work.len(),
                c == k@,
                forall|j: int| 0 <= j < work.len() ==> #[trigger] work@[j].depth() <= steps_depth(work@),
                r@ == steps_outcome(work@.take(i as int), c),
            decreases work.len() - i,
        {
            r = work[i].apply_work_inner(r);
            proof {
                assert(work@.take(i + 1).drop_last() =~= work@.take(i as int));
                assert(work@.take(i + 1).last() == work@[i as int]);
            }
            i += 1;
        }
        assert(work@.take(work.len() as int) =~= work@);
        r
    }

    /// Declares `c` and asserts its defining equation with `f1`.
    pub fn alias<K: KnowledgeBase>(
        &self,
        k: ResultBase<K>,
        c: &ConstName,
        vars: &Vec<ConstName>,
        f1: Form,
    ) -> (r: ResultBase<K>)
        ensures
            r@ == let_rule(k@, c@, names_view(vars@), f1@),
    {
        let ghost body = f1@;
        if !k.has_const(c) {
            let thm = if vars.len() > 0 {
                let mut vs: Vec<ConstName> = Vec::new();
                vs.push(c.copy());
                let mut i: usize = 0;
                while i < vars.len()
                    invariant
                        0 <= i <= vars.len(),
                        vs.len() == i + 1,
                        vs@[0]@ == c@,
                        forall|j: int| 0 <= j < i ==> #[trigger] vs@[j + 1]@ == vars@[j]@,
                    decreases vars.len() - i,
                {
                    vs.push(vars[i].copy());
                    i += 1;
                }
                let ghost nv = names_view(vars@);
                proof {
                    assert forall|j: int| 0 <= j < vs.len() implies #[trigger] names_view(vs@)[j]
                        == (seq![c@] + nv)[j] by {
                        if j > 0 {
                            assert(vs@[(j - 1) + 1]@ == vars@[j - 1]@);
                        }
                    }
                    assert(names_view(vs@) =~= seq![c@] + nv);
                }
                let rel = Formula::const_to_relation(&vs);
                let mut acc = Formula::Eq(rel.ptr(), f1);
                let ghost eq0 = acc@;
                assert(eq0 == FormulaV::Eq(bx(consts_relation(seq![c@] + nv)), bx(body)));
                proof {
                    assert(nv.take(0) =~= Seq::<NameV>::empty());
                }
                let mut i: usize = 0;
                while i < vars.len()
                    invariant
                        0 <= i <= vars.len(),
                        nv == names_view(vars@),
                        acc@ == close_over(nv.take(i as int), eq0),
                    decreases vars.len() - i,
                {
                    acc = Formula::ForAll(vars[i].copy(), acc.ptr());
                    proof {
                        assert(nv.take(i + 1).drop_last() =~= nv.take(i as int));
                        assert(nv.take(i + 1).last() == vars@[i as int]@);
                    }
                    i += 1;
                }
                assert(nv.take(vars.len() as int) =~= nv);
                assert(acc@ == definition(c@, names_view(vars@), body));
                acc
            } else {
                assert(names_view(vars@).len() == 0);
                let cf = Formula::Const(c.copy());
                assert(cf@ == FormulaV::Const(c@));
                let e = Formula::Eq(cf.ptr(), f1);
                assert(e@ == definition(c@, names_view(vars@), body));
                e
            };
            k.result_const(c.copy()).result_form(thm)
        } else {
            fail_redefine("Let", c)
        }
    }

    /// Asserts `Eq(f1, f1)`; never fails.
    pub fn equality_intro<K: KnowledgeBase>(&self, k: ResultBase<K>, f1: Form) -> (r: ResultBase<
        K,
    >)
        ensures
            r@ == equality_intro_rule(k@, f1@),
    {
        k.result_form(Formula::Eq(share(&f1), f1))
    }

    /// Asserts `Exists(f.0, f.1)` where the instance at the witness `v` is
    /// established.
    pub fn exists_intro<K: KnowledgeBase>(
        &self,
        k: ResultBase<K>,
        f: &(ConstName, Form),
        v: Form,
    ) -> (r: ResultBase<K>)
        ensures
            r@ == exists_intro_rule(k@, f.0@, f.1@, v@),
    {
        let thm = f.1.substitute(&f.0, &v);
        if k.contains(&thm) {
            k.result_form(Formula::Exists(f.0.copy(), share(&f.1)))
        } else {
            fail_on("ExistsIntro: did not deduce ", &thm)
        }
    }

    /// Asserts the instance of an established existential at the fresh
    /// witness name `v`.
    pub fn exists_extract<K: KnowledgeBase>(
        &self,
        k: ResultBase<K>,
        f: &(ConstName, Form),
        v: ConstName,
    ) -> (r: ResultBase<K>)
        ensures
            r@ == exists_extract_rule(k@, f.0@, f.1@, v@),
    {
        if k.has_const(&v) {
            return fail_redefine("ExistsExtract", &v);
        }
        let ex = Formula::Exists(f.0.copy(), share(&f.1));
        if !k.contains(&ex) {
            return fail_on("ExistsExtract: did not deduce ", &ex);
        }
        let thm = f.1.substitute(&f.0, &Formula::Const(v.copy()));
        k.result_form(thm)
    }

    /// Asserts `ForAll(f.0, f.1)` where `w` proves the generic instance with
    /// `f.0` freshly declared.
    pub fn forall_intro<K: KnowledgeBase>(&self, k: ResultBase<K>, f: &(ConstName, Form), w: Work) -> (r:
        ResultBase<K>)
        ensures
            r@ == forall_intro_rule(
                k@,
                f.0@,
                f.1@,
                w.outcome(Ctx::Decl(f.0@, Box::new(k@))).holds(generic_instance(f.0@, f.1@)),
            ),
        decreases 4 * w.depth() + 5,
    {
        if !k.has_const(&f.0) {
            let scope = k.result_const(f.0.copy());
            let thm = f.1.substitute(&f.0, &Formula::Const(f.0.copy()));
            if w.apply_work_inner(scope).contains(&thm) {
                k.result_form(Formula::ForAll(f.0.copy(), share(&f.1)))
            } else {
                fail_on("ForAllIntro: did not deduce ", &thm)
            }
        } else {
            fail_redefine("ForAllIntro", &f.0)
        }
    }

    /// Asserts the instance at `v` of an established universal.
    pub fn forall_extract<K: KnowledgeBase>(
        &self,
        k: ResultBase<K>,
        f: &(ConstName, Form),
        v: Form,
    ) -> (r: ResultBase<K>)
        ensures
            r@ == forall_extract_rule(k@, f.0@, f.1@, v@),
    {
        let thm = Formula::ForAll(f.0.copy(), share(&f.1));
        if k.contains(&thm) {
            k.result_form(f.1.substitute(&f.0, &v))
        } else {
            fail_on("ForAllExtract: did not deduce ", &thm)
        }
    }

    /// Asserts the instance of an established sequence schema at the list
    /// `v`, which must have exactly the declared arity.
    pub fn forallseq_extract<K: KnowledgeBase>(
        &self,
        k: ResultBase<K>,
        f: &(u64, ConstName, Form),
        v: Vec<Formula>,
    ) -> (r: ResultBase<K>)
        ensures
            r@ == forall_seq_extract_rule(k@, f.0, f.1@, f.2@, formulas_view(v@)),
    {
        if v.len() as u64 != f.0 {
            let mut s = String::new();
            s.append("ForAllSeqExtract: expected ");
            append_decimal(&mut s, f.0);
            s.append(" formulas, got ");
            append_decimal(&mut s, v.len() as u64);
            assert(s@ =~= "ForAllSeqExtract: expected "@ + decimal(f.0 as nat) + " formulas, got "@
                + decimal(formulas_view(v@).len()));
            return ResultBase::Failed(s);
        }
        let thm = Formula::ForAllSeq(f.0, f.1.copy(), share(&f.2));
        if k.contains(&thm) {
            k.result_form(f.2.substitute_seq(f.0, &f.1, &v))
        } else {
            fail_on("ForAllSeqExtract: did not deduce ", &thm)
        }
    }

    /// Asserts `sub[c := f2]` from `Eq(f1, f2)` and `sub[c := f1]`.
    pub fn substitution<K: KnowledgeBase>(
        &self,
        k: ResultBase<K>,
        f1: Form,
        f2: Form,
        c: &ConstName,
        sub: Form,
    ) -> (r: ResultBase<K>)
        ensures
            r@ == substitution_rule(k@, f1@, f2@, c@, sub@),
    {
        let t1 = Formula::Eq(share(&f1), share(&f2));
        if !k.contains(&t1) {
            return fail_on("Substitution: did not deduce ", &t1);
        }
        let t2 = sub.substitute(c, &f1);
        if !k.contains(&t2) {
            return fail_on("Substitution: did not deduce ", &t2);
        }
        k.result_form(sub.substitute(c, &f2))
    }

    /// Asserts `And(f1, f2)` where both conjuncts are established.
    pub fn and_intro<K: KnowledgeBase>(&self, k: ResultBase<K>, f1: Form, f2: Form) -> (r:
        ResultBase<K>)
        ensures
            r@ == and_intro_rule(k@, f1@, f2@),
    {
        let c1 = k.contains(&f1);
        let c2 = k.contains(&f2);
        if c1 && c2 {
            k.result_form(Formula::And(f1, f2))
        } else if !c1 {
            fail_on("AndIntro: did not deduce ", &f1)
        } else {
            fail_on("AndIntro: did not deduce ", &f2)
        }
    }

    /// Asserts both conjuncts of an established `And(f1, f2)`.
    pub fn and_extract<K: KnowledgeBase>(&self, k: ResultBase<K>, f1: Form, f2: Form) -> (r:
        ResultBase<K>)
        ensures
            r@ == and_extract_rule(k@, f1@, f2@),
    {
        let f = Formula::And(share(&f1), share(&f2));
        if k.contains(&f) {
            k.result_ptr(f1).result_ptr(f2)
        } else {
            fail_on("AndExtract: did not deduce ", &f)
        }
    }

    /// Asserts `Or(f1, f2)` where either side is established.
    pub fn or_intro<K: KnowledgeBase>(&self, k: ResultBase<K>, f1: Form, f2: Form) -> (r:
        ResultBase<K>)
        ensures
            r@ == or_intro_rule(k@, f1@, f2@),
    {
        let c1 = k.contains(&f1);
        let c2 = k.contains(&f2);
        if c1 || c2 {
            k.result_form(Formula::Or(f1, f2))
        } else {
            fail_on2("OrIntro: deduced neither ", &f1, " nor ", &f2)
        }
    }

    /// Case analysis: asserts `f3` where each branch proves it under its
    /// assumption.
    pub fn or_extract<K: KnowledgeBase>(
        &self,
        k: ResultBase<K>,
        f1: &(Form, Work),
        f2: &(Form, Work),
        f3: Form,
    ) -> (r: ResultBase<K>)
        ensures
            r@ == or_extract_rule(
                k@,
                f1.0@,
                f2.0@,
                f3@,
                f1.1.outcome(k@.with(f1.0@)).holds(f3@),
                f2.1.outcome(k@.with(f2.0@)).holds(f3@),
            ),
        decreases 4 * vstd::math::max(f1.1.depth() as int, f2.1.depth() as int) + 5,
    {
        let c1 = proves_under(&f1.1, &k, share(&f1.0), &f3);
        let c2 = proves_under(&f2.1, &k, share(&f2.0), &f3);
        if c1 && c2 {
            k.result_ptr(f3)
        } else if !c1 {
            fail_on2("OrExtract: did not deduce ", &f3, " from ", &f1.0)
        } else {
            fail_on2("OrExtract: did not deduce ", &f3, " from ", &f2.0)
        }
    }

    /// Asserts `Not(f1)` where `work` reaches `False` assuming `f1`.
    pub fn not_intro<K: KnowledgeBase>(&self, k: ResultBase<K>, f1: Form, work: Work) -> (r:
        ResultBase<K>)
        ensures
            r@ == not_intro_rule(k@, f1@, work.outcome(k@.with(f1@)).holds(FormulaV::False)),
        decreases 4 * work.depth() + 5,
    {
        if proves_under(&work, &k, share(&f1), &Formula::False) {
            k.result_form(Formula::Not(f1))
        } else {
            fail_on("NotIntro: no contradiction reached from ", &f1)
        }
    }

    /// Asserts `False` where both `f1` and `Not(f1)` are established.
    pub fn not_extract<K: KnowledgeBase>(&self, k: ResultBase<K>, f1: Form) -> (r: ResultBase<K>)
        ensures
            r@ == not_extract_rule(k@, f1@),
    {
        let c1 = k.contains(&f1);
        let c2 = k.contains(&Formula::Not(share(&f1)));
        if c1 && c2 {
            k.result_form(Formula::False)
        } else {
            fail_on("NotExtract: no contradiction on ", &f1)
        }
    }

    /// Asserts the other side of an established `IFF(f1, f2)`.
    pub fn iff_extract<K: KnowledgeBase>(&self, k: ResultBase<K>, f1: Form, f2: Form) -> (r:
        ResultBase<K>)
        ensures
            r@ == iff_extract_rule(k@, f1@, f2@),
    {
        let thm = Formula::IFF(share(&f1), share(&f2));
        if !k.contains(&thm) {
            fail_on("IFFExtract: did not deduce ", &thm)
        } else if k.contains(&f1) {
            k.result_ptr(f2)
        } else if k.contains(&f2) {
            k.result_ptr(f1)
        } else {
            fail_on2("IFFExtract: deduced neither ", &f1, " nor ", &f2)
        }
    }

    /// Modus ponens: asserts `f2` from `Implies(f1, f2)` and `f1`.
    pub fn implies_extract<K: KnowledgeBase>(&self, k: ResultBase<K>, f1: Form, f2: Form) -> (r:
        ResultBase<K>)
        ensures
            r@ == imply_extract_rule(k@, f1@, f2@),
    {
        let thm = Formula::Implies(share(&f1), share(&f2));
        if !k.contains(&thm) {
            fail_on("ImplyExtract: did not deduce ", &thm)
        } else if !k.contains(&f1) {
            fail_on("ImplyExtract: did not deduce ", &f1)
        } else {
            k.result_ptr(f2)
        }
    }

    /// Asserts `IFF(f1.0, f2.0)` where each side's work proves the other side
    /// from it.
    pub fn iff_intro<K: KnowledgeBase>(
        &self,
        k: ResultBase<K>,
        f1: &(Form, Work),
        f2: &(Form, Work),
    ) -> (r: ResultBase<K>)
        ensures
            r@ == iff_intro_rule(
                k@,
                f1.0@,
                f2.0@,
                f1.1.outcome(k@.with(f1.0@)).holds(f2.0@),
                f2.1.outcome(k@.with(f2.0@)).holds(f1.0@),
            ),
        decreases 4 * vstd::math::max(f1.1.depth() as int, f2.1.depth() as int) + 5,
    {
        let c1 = proves_under(&f1.1, &k, share(&f1.0), &f2.0);
        let c2 = proves_under(&f2.1, &k, share(&f2.0), &f1.0);
        if c1 && c2 {
            k.result_form(Formula::IFF(share(&f1.0), share(&f2.0)))
        } else if !c1 {
            fail_on2("IFFIntro: did not deduce ", &f2.0, " from ", &f1.0)
        } else {
            fail_on2("IFFIntro: did not deduce ", &f1.0, " from ", &f2.0)
        }
    }

    /// Asserts `Implies(f1, f2)` where `w` proves `f2` assuming `f1`.
    pub fn implies_intro<K: KnowledgeBase>(
        &self,
        k: ResultBase<K>,
        f1: Form,
        f2: Form,
        w: Work,
    ) -> (r: ResultBase<K>)
        ensures
            r@ == imply_intro_rule(k@, f1@, f2@, w.outcome(k@.with(f1@)).holds(f2@)),
        decreases 4 * w.depth() + 5,
    {
        if proves_under(&w, &k, share(&f1), &f2) {
            k.result_form(Formula::Implies(f1, f2))
        } else {
            fail_on2("ImplyIntro: did not deduce ", &f2, " from ", &f1)
        }
    }
}

} // verus!
