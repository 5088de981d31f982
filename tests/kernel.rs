use logic::deduction::Deduction;
use logic::formula::{ConstName, Expr, Formula, SeqVar};
use logic::knowledge_base::{EmptyBase, KnowledgeBase, ResultBase};
use std::collections::hash_map::DefaultHasher;
use std::hash::{Hash, Hasher};
use std::rc::Rc;

fn name(s: &str) -> ConstName {
    ConstName::String(s.to_string())
}

fn cst(s: &str) -> Formula {
    Formula::Const(name(s))
}

fn free(s: &str) -> Formula {
    Formula::Free(name(s))
}

fn p(f: Formula) -> Rc<Formula> {
    Rc::new(f)
}

fn root() -> ResultBase<EmptyBase> {
    ResultBase::new(EmptyBase)
}

fn with_facts(fs: Vec<Formula>) -> ResultBase<EmptyBase> {
    let mut k = root();
    for f in fs {
        k = k.result_form(f);
    }
    k
}

fn message(r: &ResultBase<EmptyBase>) -> String {
    r.err_message().expect("a failure")
}

#[test]
fn equality_intro_never_fails() {
    let a = cst("a");
    let d = Deduction::EqualityIntro(p(a.copy()));
    let r = d.apply_work(EmptyBase);
    assert!(!r.is_err());
    assert!(r.contains(&Formula::Eq(p(a.copy()), p(a.copy()))));
    assert!(!r.contains(&Formula::Eq(p(a.copy()), p(cst("b")))));
}

#[test]
fn equality_intro_on_failed_context() {
    let failed: ResultBase<EmptyBase> = ResultBase::Failed("earlier".to_string());
    let d = Deduction::EmptyStep;
    let r = d.equality_intro(failed, p(Formula::True));
    assert!(!r.is_err());
    assert!(r.contains(&Formula::Eq(p(Formula::True), p(Formula::True))));
}

#[test]
fn and_intro_needs_both() {
    let d = Deduction::EmptyStep;
    let only_a = with_facts(vec![cst("a")]);
    let r = d.and_intro(only_a, p(cst("a")), p(cst("b")));
    assert_eq!(message(&r), "AndIntro: did not deduce b");
    let none = root();
    let r = d.and_intro(none, p(cst("a")), p(cst("b")));
    assert_eq!(message(&r), "AndIntro: did not deduce a");
    let both = with_facts(vec![cst("a"), cst("b")]);
    let r = d.and_intro(both, p(cst("a")), p(cst("b")));
    assert!(!r.is_err());
    assert!(r.contains(&Formula::And(p(cst("a")), p(cst("b")))));
    assert!(r.contains(&cst("a")));
    assert!(r.contains(&cst("b")));
}

#[test]
fn and_extract_gives_both_conjuncts() {
    let d = Deduction::EmptyStep;
    let k = with_facts(vec![Formula::And(p(cst("a")), p(cst("b")))]);
    let r = d.and_extract(k, p(cst("a")), p(cst("b")));
    assert!(r.contains(&cst("a")));
    assert!(r.contains(&cst("b")));
    let r = d.and_extract(root(), p(cst("a")), p(cst("b")));
    assert_eq!(message(&r), "AndExtract: did not deduce And(a, b)");
}

#[test]
fn or_intro_builds_disjunction() {
    let d = Deduction::EmptyStep;
    let k = with_facts(vec![cst("b")]);
    let r = d.or_intro(k, p(cst("a")), p(cst("b")));
    assert!(r.contains(&Formula::Or(p(cst("a")), p(cst("b")))));
    assert!(!r.contains(&Formula::And(p(cst("a")), p(cst("b")))));
    let r = d.or_intro(root(), p(cst("a")), p(cst("b")));
    assert_eq!(message(&r), "OrIntro: deduced neither a nor b");
}

#[test]
fn or_extract_by_cases() {
    let a = cst("a");
    let b = cst("b");
    let c = cst("c");
    let k = with_facts(vec![
        Formula::Implies(p(a.copy()), p(c.copy())),
        Formula::Implies(p(b.copy()), p(c.copy())),
    ]);
    let left = Rc::new(Deduction::ImplyExtract(p(a.copy()), p(c.copy())));
    let right = Rc::new(Deduction::ImplyExtract(p(b.copy()), p(c.copy())));
    let d = Deduction::OrExtract((p(a.copy()), left), (p(b.copy()), right), p(c.copy()));
    let r = d.apply_work_inner(k);
    assert!(r.contains(&c));
    let k2 = with_facts(vec![Formula::Implies(p(a.copy()), p(c.copy()))]);
    let r = d.apply_work_inner(k2);
    assert_eq!(message(&r), "OrExtract: did not deduce c from b");
}

#[test]
fn freshness_after_let_in_sequence() {
    let x = name("x");
    let steps = vec![
        Deduction::Let(x.copy(), vec![], p(Formula::True)),
        Deduction::ForAllIntro((x.copy(), p(free("x"))), Rc::new(Deduction::EmptyStep)),
    ];
    let r = Deduction::Sequence(steps).apply_work(EmptyBase);
    assert_eq!(message(&r), "ForAllIntro: cannot redefine constant x");
}

#[test]
fn freshness_of_exists_extract_and_let() {
    let x = name("x");
    let k = root().result_const(x.copy());
    let d = Deduction::EmptyStep;
    let r = d.exists_extract(k, &(name("y"), p(free("y"))), x.copy());
    assert_eq!(message(&r), "ExistsExtract: cannot redefine constant x");
    let steps = vec![
        Deduction::Let(x.copy(), vec![], p(Formula::True)),
        Deduction::Let(x.copy(), vec![], p(Formula::False)),
    ];
    let r = Deduction::Sequence(steps).apply_work(EmptyBase);
    assert_eq!(message(&r), "Let: cannot redefine constant x");
}

#[test]
fn self_implication() {
    let a = cst("a");
    let d = Deduction::ImplyIntro(p(a.copy()), p(a.copy()), Rc::new(Deduction::EmptyStep));
    let r = d.apply_work(EmptyBase);
    assert!(!r.is_err());
    assert!(r.contains(&Formula::Implies(p(a.copy()), p(a.copy()))));
    assert!(d.deduced(EmptyBase, &Formula::Implies(p(a.copy()), p(a.copy()))));
}

#[test]
fn imply_intro_failure() {
    let d = Deduction::ImplyIntro(p(cst("a")), p(cst("b")), Rc::new(Deduction::EmptyStep));
    let r = d.apply_work(EmptyBase);
    assert_eq!(message(&r), "ImplyIntro: did not deduce b from a");
}

#[test]
fn modus_ponens() {
    let a = cst("a");
    let b = cst("b");
    let imp = Formula::Implies(p(a.copy()), p(b.copy()));
    let d = Deduction::ImplyExtract(p(a.copy()), p(b.copy()));
    let r = d.apply_work_inner(with_facts(vec![imp.copy(), a.copy()]));
    assert!(!r.is_err());
    assert!(r.contains(&b));
    let r = d.apply_work_inner(with_facts(vec![imp.copy()]));
    assert_eq!(message(&r), "ImplyExtract: did not deduce a");
    let r = d.apply_work_inner(with_facts(vec![a.copy()]));
    assert_eq!(message(&r), "ImplyExtract: did not deduce Implies(a, b)");
}

#[test]
fn sticky_error_keeps_last_message() {
    let steps = vec![
        Deduction::AndIntro(p(cst("a")), p(cst("b"))),
        Deduction::NotExtract(p(cst("c"))),
    ];
    let r = Deduction::Sequence(steps).apply_work(EmptyBase);
    assert_eq!(message(&r), "NotExtract: no contradiction on c");
}

#[test]
fn substitution_identity() {
    let f = Formula::ForAll(
        name("y"),
        p(Formula::And(p(free("y")), p(Formula::Relation(vec![Expr::Formula(cst("c"))])))),
    );
    let g = f.substitute(&name("c"), &cst("z"));
    assert!(g.same(&f));
    let h = Formula::Eq(p(free("c")), p(cst("c")));
    let h2 = h.substitute(&name("c"), &cst("z"));
    assert!(h2.same(&Formula::Eq(p(cst("z")), p(cst("c")))));
}

#[test]
fn substitution_respects_shadowing() {
    let f = Formula::And(p(free("x")), p(Formula::Exists(name("x"), p(free("x")))));
    let g = f.substitute(&name("x"), &cst("k"));
    assert_eq!(g.to_string(), "And(k, Exists(x, #x))");
    let s = Formula::Subst(p(free("x")), name("x"), p(free("x")));
    assert_eq!(s.substitute(&name("x"), &cst("k")).to_string(), "Subst((#x, x), k)");
    let q = Formula::ForAllSeq(2, name("s"), p(free("x")));
    assert_eq!(q.substitute(&name("x"), &cst("k")).to_string(), "ForAllSeq((2, s), k)");
}

#[test]
fn forall_seq_arity_mismatch() {
    let body = Formula::Relation(vec![Expr::Splice(SeqVar::Free(3, name("s")))]);
    let schema = Formula::ForAllSeq(3, name("s"), p(body.copy()));
    let d = Deduction::ForAllSeqExtract((3, name("s"), p(body.copy())), vec![cst("a"), cst("b")]);
    let r = d.apply_work_inner(with_facts(vec![schema.copy()]));
    assert_eq!(message(&r), "ForAllSeqExtract: expected 3 formulas, got 2");
}

#[test]
fn forall_seq_extract_instantiates() {
    let body = Formula::Relation(vec![
        Expr::Formula(cst("r")),
        Expr::Splice(SeqVar::Free(2, name("s"))),
        Expr::Head(SeqVar::Tail(Rc::new(SeqVar::Free(2, name("s"))))),
    ]);
    let schema = Formula::ForAllSeq(2, name("s"), p(body.copy()));
    let d = Deduction::ForAllSeqExtract((2, name("s"), p(body.copy())), vec![cst("a"), cst("b")]);
    let r = d.apply_work_inner(with_facts(vec![schema.copy()]));
    let expected = Formula::Relation(vec![
        Expr::Formula(cst("r")),
        Expr::Formula(cst("a")),
        Expr::Formula(cst("b")),
        Expr::Formula(cst("b")),
    ]);
    assert!(r.contains(&expected));
    let r = d.apply_work(EmptyBase);
    assert_eq!(message(&r), "ForAllSeqExtract: did not deduce ForAllSeq((2, s), (r, Seq(s...2), Head(Tail(s...2))))");
}

#[test]
fn substitute_seq_shadowing_and_other_schemas() {
    let inner = Formula::ForAllSeq(1, name("s"), p(Formula::Relation(vec![Expr::Splice(SeqVar::Free(1, name("s")))])));
    let out = inner.substitute_seq(1, &name("s"), &vec![cst("a")]);
    assert!(out.same(&inner));
    let other = Formula::Relation(vec![Expr::Splice(SeqVar::Free(2, name("s")))]);
    let out = other.substitute_seq(1, &name("s"), &vec![cst("a")]);
    assert!(out.same(&other));
    let empty_head = Formula::Relation(vec![Expr::Head(SeqVar::Free(0, name("s")))]);
    let out = empty_head.substitute_seq(0, &name("s"), &vec![]);
    assert_eq!(out.to_string(), "()");
}

#[test]
fn seq_var_arity() {
    let s = SeqVar::Tail(Rc::new(SeqVar::Free(3, name("s"))));
    assert_eq!(s.arity(), Some(2));
    let t = SeqVar::Tail(Rc::new(SeqVar::Free(0, name("s"))));
    assert_eq!(t.arity(), None);
    assert_eq!(SeqVar::Free(5, name("s")).arity(), Some(5));
}

#[test]
fn render_formulas() {
    let f = Formula::Eq(p(cst("a")), p(Formula::Const(ConstName::Int(42))));
    assert_eq!(f.to_string(), "Eq(a, '42')");
    assert_eq!(Formula::Not(p(Formula::False)).to_string(), "Not(false)");
    assert_eq!(ConstName::Int(0).to_string(), "'0'");
    assert_eq!(SeqVar::Free(10, name("s")).to_string(), "s...10");
}

#[test]
fn well_formed_scopes() {
    let k = EmptyBase;
    assert!(Formula::ForAll(name("x"), p(free("x"))).well_formed(&k));
    assert!(!free("x").well_formed(&k));
    assert!(!cst("c").well_formed(&k));
    let declared = root().result_const(name("c"));
    assert!(cst("c").well_formed(&declared));
    let sub = Formula::Subst(p(free("v")), name("v"), p(free("v")));
    assert!(!sub.well_formed(&k));
    let sub_ok = Formula::Subst(p(free("v")), name("v"), p(Formula::True));
    assert!(sub_ok.well_formed(&k));
    let seq_ok = Formula::ForAllSeq(2, name("s"), p(Formula::Relation(vec![Expr::Splice(SeqVar::Free(2, name("s")))])));
    assert!(seq_ok.well_formed(&k));
    let seq_bad = Formula::ForAllSeq(3, name("s"), p(Formula::Relation(vec![Expr::Splice(SeqVar::Free(2, name("s")))])));
    assert!(!seq_bad.well_formed(&k));
}

#[test]
fn const_to_relation_lists_constants() {
    let r = Formula::const_to_relation(&vec![name("f"), name("x")]);
    assert_eq!(r.to_string(), "(f, x)");
}

#[test]
fn let_with_variables_defines_relation() {
    let d = Deduction::Let(name("f"), vec![name("x"), name("y")], p(Formula::True));
    let r = d.apply_work(EmptyBase);
    assert!(r.has_const(&name("f")));
    let expected = Formula::ForAll(
        name("y"),
        p(Formula::ForAll(
            name("x"),
            p(Formula::Eq(p(Formula::const_to_relation(&vec![name("f"), name("x"), name("y")])), p(Formula::True))),
        )),
    );
    assert!(r.contains(&expected));
    let d0 = Deduction::Let(name("g"), vec![], p(cst("a")));
    let r0 = d0.apply_work(EmptyBase);
    assert!(r0.contains(&Formula::Eq(p(cst("g")), p(cst("a")))));
}

#[test]
fn not_rules() {
    let a = cst("a");
    let k = with_facts(vec![Formula::Not(p(a.copy()))]);
    let work = Rc::new(Deduction::NotExtract(p(a.copy())));
    let d = Deduction::NotIntro(p(a.copy()), work);
    let r = d.apply_work_inner(k);
    assert!(r.contains(&Formula::Not(p(a.copy()))));
    let r = Deduction::NotExtract(p(a.copy())).apply_work_inner(with_facts(vec![a.copy(), Formula::Not(p(a.copy()))]));
    assert!(r.contains(&Formula::False));
    let r = Deduction::NotIntro(p(a.copy()), Rc::new(Deduction::EmptyStep)).apply_work(EmptyBase);
    assert_eq!(message(&r), "NotIntro: no contradiction reached from a");
}

#[test]
fn iff_rules() {
    let a = cst("a");
    let b = cst("b");
    let k = with_facts(vec![
        Formula::Implies(p(a.copy()), p(b.copy())),
        Formula::Implies(p(b.copy()), p(a.copy())),
    ]);
    let d = Deduction::IFFIntro(
        (p(a.copy()), Rc::new(Deduction::ImplyExtract(p(a.copy()), p(b.copy())))),
        (p(b.copy()), Rc::new(Deduction::ImplyExtract(p(b.copy()), p(a.copy())))),
    );
    let r = d.apply_work_inner(k);
    assert!(r.contains(&Formula::IFF(p(a.copy()), p(b.copy()))));
    let iff = Formula::IFF(p(a.copy()), p(b.copy()));
    let e = Deduction::IFFExtract(p(a.copy()), p(b.copy()));
    let r = e.apply_work_inner(with_facts(vec![iff.copy(), b.copy()]));
    assert!(r.contains(&a));
    let r = e.apply_work_inner(with_facts(vec![iff.copy()]));
    assert_eq!(message(&r), "IFFExtract: deduced neither a nor b");
    let r = e.apply_work_inner(root());
    assert_eq!(message(&r), "IFFExtract: did not deduce IFF(a, b)");
}

#[test]
fn substitution_and_subst_reduce() {
    let a = cst("a");
    let b = cst("b");
    let body = Formula::Not(p(free("v")));
    let d = Deduction::Substitution(p(a.copy()), p(b.copy()), name("v"), p(body.copy()));
    let k = with_facts(vec![Formula::Eq(p(a.copy()), p(b.copy())), Formula::Not(p(a.copy()))]);
    let r = d.apply_work_inner(k);
    assert!(r.contains(&Formula::Not(p(b.copy()))));
    let r = d.apply_work_inner(with_facts(vec![Formula::Eq(p(a.copy()), p(b.copy()))]));
    assert_eq!(message(&r), "Substitution: did not deduce Not(a)");
    let s = Formula::Subst(p(body.copy()), name("v"), p(a.copy()));
    let red = Deduction::SubstReduce(p(body.copy()), name("v"), p(a.copy()));
    let r = red.apply_work_inner(with_facts(vec![s]));
    assert!(r.contains(&Formula::Not(p(a.copy()))));
    let r = red.apply_work(EmptyBase);
    assert_eq!(message(&r), "SubstReduce: did not deduce Subst((Not(#v), v), a)");
}

#[test]
fn quantifier_rules() {
    let x = name("x");
    let body = Formula::Eq(p(free("x")), p(free("x")));
    let intro = Deduction::ForAllIntro(
        (x.copy(), p(body.copy())),
        Rc::new(Deduction::EqualityIntro(p(cst("x")))),
    );
    let r = intro.apply_work(EmptyBase);
    let all = Formula::ForAll(x.copy(), p(body.copy()));
    assert!(r.contains(&all));
    assert!(!r.has_const(&x));
    let ext = Deduction::ForAllExtract((x.copy(), p(body.copy())), p(cst("t")));
    let r = ext.apply_work_inner(with_facts(vec![all.copy()]));
    assert!(r.contains(&Formula::Eq(p(cst("t")), p(cst("t")))));
    let ex_intro = Deduction::ExistsIntro((x.copy(), p(body.copy())), p(cst("t")));
    let r = ex_intro.apply_work_inner(with_facts(vec![Formula::Eq(p(cst("t")), p(cst("t")))]));
    let ex = Formula::Exists(x.copy(), p(body.copy()));
    assert!(r.contains(&ex));
    let ex_ext = Deduction::ExistsExtract((x.copy(), p(body.copy())), name("w"));
    let r = ex_ext.apply_work_inner(with_facts(vec![ex.copy()]));
    assert!(r.contains(&Formula::Eq(p(cst("w")), p(cst("w")))));
    assert!(!r.has_const(&name("w")));
    let r = ex_ext.apply_work(EmptyBase);
    assert_eq!(message(&r), "ExistsExtract: did not deduce Exists(x, Eq(#x, #x))");
}

#[test]
fn sibling_branches_are_independent() {
    let base = with_facts(vec![cst("a")]);
    let left = base.result_form(cst("b"));
    let right = base.result_form(cst("c"));
    assert!(left.contains(&cst("b")) && !left.contains(&cst("c")));
    assert!(right.contains(&cst("c")) && !right.contains(&cst("b")));
    assert!(!base.contains(&cst("b")));
    let ptr = base.ptr();
    assert!(ptr.contains(&cst("a")));
    let shared = base.result_ptr(Rc::new(cst("d")));
    assert!(shared.contains(&cst("d")) && shared.contains(&cst("a")));
}

fn hash_of(f: &Formula) -> u64 {
    let mut h = DefaultHasher::new();
    f.hash(&mut h);
    h.finish()
}

#[test]
fn equal_formulas_hash_equal() {
    let f = Formula::ForAll(name("x"), p(Formula::Eq(p(free("x")), p(Formula::Const(ConstName::Int(3))))));
    let g = f.copy();
    assert!(f.same(&g));
    assert_eq!(hash_of(&f), hash_of(&g));
    let rel = Formula::Relation(vec![Expr::Formula(cst("a")), Expr::Head(SeqVar::Free(1, name("s")))]);
    assert_eq!(hash_of(&rel), hash_of(&rel.copy()));
}
