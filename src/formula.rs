//! Formulas of the logic, their mathematical model, and the two substitution
//! operations (first-order and sequence-schema).
use crate::knowledge_base::KnowledgeBase;
use std::rc::Rc;
use vstd::prelude::*;

verus! {

broadcast use vstd::std_specs::vec::group_vec_axioms, vstd::seq::group_seq_axioms;

/// Shared handle to a sub-formula.
pub type Form = Rc<Formula>;

/// Relies on `Rc::clone`: the new handle points at the same value.
#[verifier::external_body]
pub(crate) fn share<T>(p: &Rc<T>) -> (r: Rc<T>)
    ensures
        r == *p,
{
    Rc::clone(p)
}

/// Name of a constant or bound variable. The derived hashes of names and
/// formulas follow the tree, so structurally equal values hash equal.
#[derive(Hash)]
pub enum ConstName {
    String(String),
    Int(u64),
}

/// Model of a name.
pub enum NameV {
    Text(Seq<char>),
    Id(u64),
}

/// Model of a formula: the same tree, with names and lists as mathematical values.
pub enum FormulaV {
    True,
    False,
    Eq(Box<FormulaV>, Box<FormulaV>),
    IFF(Box<FormulaV>, Box<FormulaV>),
    Relation(Seq<ExprV>),
    And(Box<FormulaV>, Box<FormulaV>),
    Or(Box<FormulaV>, Box<FormulaV>),
    Not(Box<FormulaV>),
    Implies(Box<FormulaV>, Box<FormulaV>),
    Subst(Box<FormulaV>, NameV, Box<FormulaV>),
    ForAllSeq(u64, NameV, Box<FormulaV>),
    ForAll(NameV, Box<FormulaV>),
    Exists(NameV, Box<FormulaV>),
    Free(NameV),
    Const(NameV),
}

/// Model of an argument of a relation.
pub enum ExprV {
    Formula(FormulaV),
    Head(SeqVarV),
    Splice(SeqVarV),
}

/// Model of a schematic sequence variable.
pub enum SeqVarV {
    Free(u64, NameV),
    Tail(Box<SeqVarV>),
}

/// A formula: connectives, first-order and sequence-schema binders, bound
/// and constant names, and unevaluated substitutions.
#[derive(Hash)]
pub enum Formula {
    True,
    False,
    Eq(Form, Form),
    IFF(Form, Form),
    Relation(Vec<Expr>),
    And(Form, Form),
    Or(Form, Form),
    Not(Form),
    Implies(Form, Form),
    Subst(Form, ConstName, Form),
    ForAllSeq(u64, ConstName, Form),
    ForAll(ConstName, Form),
    Exists(ConstName, Form),
    Free(ConstName),
    Const(ConstName),
}

/// An argument of a relation: a formula, or a schematic sequence (whole, or
/// its first element only).
#[derive(Hash)]
pub enum Expr {
    Formula(Formula),
    Head(SeqVar),
    Splice(SeqVar),
}

/// A schematic sequence variable, or what is left of one after dropping its
/// first element.
#[derive(Hash)]
pub enum SeqVar {
    Free(u64, ConstName),
    Tail(Rc<SeqVar>),
}

impl ConstName {
    pub open spec fn view(&self) -> NameV {
        match self {
            ConstName::String(s) => NameV::Text(s@),
            ConstName::Int(i) => NameV::Id(*i),
        }
    }

    pub fn copy(&self) -> (r: ConstName)
        ensures
            r@ == self@,
    {
        match self {
            ConstName::String(s) => ConstName::String(s.clone()),
            ConstName::Int(i) => ConstName::Int(*i),
        }
    }

    pub fn same(&self, o: &ConstName) -> (r: bool)
        ensures
            r == (self@ == o@),
    {
        match (self, o) {
            (ConstName::String(a), ConstName::String(b)) => a.eq(b),
            (ConstName::Int(a), ConstName::Int(b)) => *a == *b,
            _ => false,
        }
    }
}

/// Models of a list of arguments.
pub open spec fn exprs_view(l: Seq<Expr>) -> Seq<ExprV>
    decreases l,
{
    if l.len() == 0 {
        Seq::empty()
    } else {
        exprs_view(l.drop_last()).push(l.last().view())
    }
}

impl Formula {
    pub open spec fn view(&self) -> FormulaV
        decreases self,
    {
        match self {
            Formula::True => FormulaV::True,
            Formula::False => FormulaV::False,
            Formula::Eq(l, r) => FormulaV::Eq(Box::new(l.view()), Box::new(r.view())),
            Formula::IFF(l, r) => FormulaV::IFF(Box::new(l.view()), Box::new(r.view())),
            Formula::Relation(l) => FormulaV::Relation(exprs_view(l@)),
            Formula::And(l, r) => FormulaV::And(Box::new(l.view()), Box::new(r.view())),
            Formula::Or(l, r) => FormulaV::Or(Box::new(l.view()), Box::new(r.view())),
            Formula::Not(l) => FormulaV::Not(Box::new(l.view())),
            Formula::Implies(l, r) => FormulaV::Implies(Box::new(l.view()), Box::new(r.view())),
            Formula::Subst(b, v, s) => FormulaV::Subst(Box::new(b.view()), v@, Box::new(s.view())),
            Formula::ForAllSeq(a, v, e) => FormulaV::ForAllSeq(*a, v@, Box::new(e.view())),
            Formula::ForAll(v, e) => FormulaV::ForAll(v@, Box::new(e.view())),
            Formula::Exists(v, e) => FormulaV::Exists(v@, Box::new(e.view())),
            Formula::Free(v) => FormulaV::Free(v@),
            Formula::Const(v) => FormulaV::Const(v@),
        }
    }
}

impl Expr {
    pub open spec fn view(&self) -> ExprV
        decreases self,
    {
        match self {
            Expr::Formula(f) => ExprV::Formula(f.view()),
            Expr::Head(s) => ExprV::Head(s.view()),
            Expr::Splice(s) => ExprV::Splice(s.view()),
        }
    }
}

impl SeqVar {
    pub open spec fn view(&self) -> SeqVarV
        decreases self,
    {
        match self {
            SeqVar::Free(a, v) => SeqVarV::Free(*a, v@),
            SeqVar::Tail(p) => SeqVarV::Tail(Box::new(p.view())),
        }
    }
}


/// Index-wise reading of `exprs_view`.
pub proof fn lemma_exprs_view(l: Seq<Expr>)
    ensures
        exprs_view(l).len() == l.len(),
        forall|i: int| 0 <= i < l.len() ==> #[trigger] exprs_view(l)[i] == l[i].view(),
    decreases l.len(),
{
    if l.len() > 0 {
        lemma_exprs_view(l.drop_last());
    }
}

/// `f` with every free occurrence of `c` replaced by `g`. Binders named `c`
/// shadow; a sequence-schema binder is transparent; constants are untouched.
pub open spec fn subst(f: FormulaV, c: NameV, g: FormulaV) -> FormulaV
    decreases f,
{
    match f {
        FormulaV::True => f,
        FormulaV::False => f,
        FormulaV::Eq(l, r) => FormulaV::Eq(Box::new(subst(*l, c, g)), Box::new(subst(*r, c, g))),
        FormulaV::IFF(l, r) => FormulaV::IFF(Box::new(subst(*l, c, g)), Box::new(subst(*r, c, g))),
        FormulaV::Relation(l) => FormulaV::Relation(subst_exprs(l, c, g)),
        FormulaV::And(l, r) => FormulaV::And(Box::new(subst(*l, c, g)), Box::new(subst(*r, c, g))),
        FormulaV::Or(l, r) => FormulaV::Or(Box::new(subst(*l, c, g)), Box::new(subst(*r, c, g))),
        FormulaV::Not(l) => FormulaV::Not(Box::new(subst(*l, c, g))),
        FormulaV::Implies(l, r) => FormulaV::Implies(
            Box::new(subst(*l, c, g)),
            Box::new(subst(*r, c, g)),
        ),
        FormulaV::Subst(b, v, e) => if v == c {
            FormulaV::Subst(b, v, Box::new(subst(*e, c, g)))
        } else {
            FormulaV::Subst(Box::new(subst(*b, c, g)), v, Box::new(subst(*e, c, g)))
        },
        FormulaV::ForAllSeq(a, v, e) => FormulaV::ForAllSeq(a, v, Box::new(subst(*e, c, g))),
        FormulaV::ForAll(v, e) => if v == c {
            f
        } else {
            FormulaV::ForAll(v, Box::new(subst(*e, c, g)))
        },
        FormulaV::Exists(v, e) => if v == c {
            f
        } else {
            FormulaV::Exists(v, Box::new(subst(*e, c, g)))
        },
        FormulaV::Free(v) => if v == c {
            g
        } else {
            f
        },
        FormulaV::Const(_) => f,
    }
}

pub open spec fn subst_expr(e: ExprV, c: NameV, g: FormulaV) -> ExprV
    decreases e,
{
    match e {
        ExprV::Formula(x) => ExprV::Formula(subst(x, c, g)),
        _ => e,
    }
}

pub open spec fn subst_exprs(l: Seq<ExprV>, c: NameV, g: FormulaV) -> Seq<ExprV>
    decreases l,
{
    if l.len() == 0 {
        l
    } else {
        subst_exprs(l.drop_last(), c, g).push(subst_expr(l.last(), c, g))
    }
}

pub proof fn lemma_subst_exprs(l: Seq<ExprV>, c: NameV, g: FormulaV)
    ensures
        subst_exprs(l, c, g).len() == l.len(),
        forall|i: int|
            0 <= i < l.len() ==> #[trigger] subst_exprs(l, c, g)[i] == subst_expr(l[i], c, g),
    decreases l.len(),
{
    if l.len() > 0 {
        lemma_subst_exprs(l.drop_last(), c, g);
    }
}

impl Formula {
    /// Wraps this formula in a shared handle.
    pub fn ptr(self) -> (r: Form)
        ensures
            *r == self,
    {
        Rc::new(self)
    }

    /// A copy of this formula; sub-formulas are shared, not copied.
    pub fn copy(&self) -> (r: Formula)
        ensures
            r@ == self@,
        decreases self,
    {
        match self {
            Formula::True => Formula::True,
            Formula::False => Formula::False,
            Formula::Eq(l, r) => Formula::Eq(share(l), share(r)),
            Formula::IFF(l, r) => Formula::IFF(share(l), share(r)),
            Formula::Relation(l) => Formula::Relation(copy_exprs(l)),
            Formula::And(l, r) => Formula::And(share(l), share(r)),
            Formula::Or(l, r) => Formula::Or(share(l), share(r)),
            Formula::Not(l) => Formula::Not(share(l)),
            Formula::Implies(l, r) => Formula::Implies(share(l), share(r)),
            Formula::Subst(b, v, e) => Formula::Subst(share(b), v.copy(), share(e)),
            Formula::ForAllSeq(a, v, e) => Formula::ForAllSeq(*a, v.copy(), share(e)),
            Formula::ForAll(v, e) => Formula::ForAll(v.copy(), share(e)),
            Formula::Exists(v, e) => Formula::Exists(v.copy(), share(e)),
            Formula::Free(v) => Formula::Free(v.copy()),
            Formula::Const(v) => Formula::Const(v.copy()),
        }
    }
}

/// Copies of each argument.
pub fn copy_exprs(l: &Vec<Expr>) -> (r: Vec<Expr>)
    ensures
        exprs_view(r@) == exprs_view(l@),
    decreases l,
{
    let mut out: Vec<Expr> = Vec::new();
    let mut i: usize = 0;
    while i < l.len()
        invariant
            0 <= i <= l.len(),
            out.len() == i,
            forall|j: int| 0 <= j < i ==> #[trigger] out@[j].view() == l@[j].view(),
        decreases l.len() - i,
    {
        proof {
            assert(decreases_to!(*l => l[i as int]));
        }
        out.push(l[i].copy());
        i += 1;
    }
    proof {
        lemma_exprs_view(out@);
        lemma_exprs_view(l@);
        assert(exprs_view(out@) =~= exprs_view(l@));
    }
    out
}

impl Expr {
    pub fn copy(&self) -> (r: Expr)
        ensures
            r@ == self@,
        decreases self,
    {
        match self {
            Expr::Formula(f) => Expr::Formula(f.copy()),
            Expr::Head(s) => Expr::Head(s.copy()),
            Expr::Splice(s) => Expr::Splice(s.copy()),
        }
    }
}

impl SeqVar {
    pub fn copy(&self) -> (r: SeqVar)
        ensures
            r@ == self@,
    {
        match self {
            SeqVar::Free(a, v) => SeqVar::Free(*a, v.copy()),
            SeqVar::Tail(p) => SeqVar::Tail(share(p)),
        }
    }

    /// Wraps this sequence variable in a shared handle.
    pub fn ptr(self) -> (r: Rc<SeqVar>)
        ensures
            *r == self,
    {
        Rc::new(self)
    }
}


impl Formula {
    /// Structural equality: same tree, same names.
    pub fn same(&self, o: &Formula) -> (r: bool)
        ensures
            r == (self@ == o@),
        decreases self,
    {
        match (self, o) {
            (Formula::True, Formula::True) => true,
            (Formula::False, Formula::False) => true,
            (Formula::Eq(a, b), Formula::Eq(x, y)) => a.same(x) && b.same(y),
            (Formula::IFF(a, b), Formula::IFF(x, y)) => a.same(x) && b.same(y),
            (Formula::Relation(a), Formula::Relation(x)) => same_exprs(a, x),
            (Formula::And(a, b), Formula::And(x, y)) => a.same(x) && b.same(y),
            (Formula::Or(a, b), Formula::Or(x, y)) => a.same(x) && b.same(y),
            (Formula::Not(a), Formula::Not(x)) => a.same(x),
            (Formula::Implies(a, b), Formula::Implies(x, y)) => a.same(x) && b.same(y),
            (Formula::Subst(a, v, b), Formula::Subst(x, w, y)) => a.same(x) && v.same(w) && b.same(
                y,
            ),
            (Formula::ForAllSeq(n, v, a), Formula::ForAllSeq(m, w, x)) => *n == *m && v.same(w)
                && a.same(x),
            (Formula::ForAll(v, a), Formula::ForAll(w, x)) => v.same(w) && a.same(x),
            (Formula::Exists(v, a), Formula::Exists(w, x)) => v.same(w) && a.same(x),
            (Formula::Free(v), Formula::Free(w)) => v.same(w),
            (Formula::Const(v), Formula::Const(w)) => v.same(w),
            _ => false,
        }
    }

    /// First-order substitution: `self` with the free occurrences of `c`
    /// replaced by `f`. No renaming is done: callers keep bound names fresh.
    pub fn substitute(&self, c: &ConstName, f: &Formula) -> (r: Formula)
        ensures
            r@ == subst(self@, c@, f@),
        decreases self,
    {
        match self {
            Formula::True => Formula::True,
            Formula::False => Formula::False,
            Formula::Eq(l, r) => Formula::Eq(l.substitute(c, f).ptr(), r.substitute(c, f).ptr()),
            Formula::IFF(l, r) => Formula::IFF(l.substitute(c, f).ptr(), r.substitute(c, f).ptr()),
            Formula::Relation(l) => Formula::Relation(substitute_exprs(l, c, f)),
            Formula::And(l, r) => Formula::And(l.substitute(c, f).ptr(), r.substitute(c, f).ptr()),
            Formula::Or(l, r) => Formula::Or(l.substitute(c, f).ptr(), r.substitute(c, f).ptr()),
            Formula::Not(l) => Formula::Not(l.substitute(c, f).ptr()),
            Formula::Implies(l, r) => Formula::Implies(
                l.substitute(c, f).ptr(),
                r.substitute(c, f).ptr(),
            ),
            Formula::Subst(b, v, e) => if v.same(c) {
                Formula::Subst(share(b), v.copy(), e.substitute(c, f).ptr())
            } else {
                Formula::Subst(b.substitute(c, f).ptr(), v.copy(), e.substitute(c, f).ptr())
            },
            Formula::ForAllSeq(a, v, e) => Formula::ForAllSeq(*a, v.copy(), e.substitute(c, f).ptr()),
            Formula::ForAll(v, e) => if v.same(c) {
                self.copy()
            } else {
                Formula::ForAll(v.copy(), e.substitute(c, f).ptr())
            },
            Formula::Exists(v, e) => if v.same(c) {
                self.copy()
            } else {
                Formula::Exists(v.copy(), e.substitute(c, f).ptr())
            },
            Formula::Free(v) => if v.same(c) {
                f.copy()
            } else {
                self.copy()
            },
            Formula::Const(_) => self.copy(),
        }
    }
}

/// Structural equality of two argument lists.
pub fn same_exprs(a: &Vec<Expr>, b: &Vec<Expr>) -> (r: bool)
    ensures
        r == (exprs_view(a@) == exprs_view(b@)),
    decreases a,
{
    proof {
        lemma_exprs_view(a@);
        lemma_exprs_view(b@);
    }
    if a.len() != b.len() {
        return false;
    }
    let mut i: usize = 0;
    while i < a.len()
        invariant
            0 <= i <= a.len(),
            a.len() == b.len(),
            exprs_view(a@).len() == a.len(),
            exprs_view(b@).len() == b.len(),
            forall|j: int| 0 <= j < a.len() ==> #[trigger] exprs_view(a@)[j] == a@[j].view(),
            forall|j: int| 0 <= j < b.len() ==> #[trigger] exprs_view(b@)[j] == b@[j].view(),
            forall|j: int| 0 <= j < i ==> #[trigger] a@[j].view() == b@[j].view(),
        decreases a.len() - i,
    {
        proof {
            assert(decreases_to!(*a => a[i as int]));
        }
        if !a[i].same(&b[i]) {
            assert(exprs_view(a@)[i as int] != exprs_view(b@)[i as int]);
            return false;
        }
        i += 1;
    }
    assert(exprs_view(a@) =~= exprs_view(b@));
    true
}

/// Each argument with `c` replaced by `f`.
pub fn substitute_exprs(l: &Vec<Expr>, c: &ConstName, f: &Formula) -> (r: Vec<Expr>)
    ensures
        exprs_view(r@) == subst_exprs(exprs_view(l@), c@, f@),
    decreases l,
{
    let mut out: Vec<Expr> = Vec::new();
    let mut i: usize = 0;
    while i < l.len()
        invariant
            0 <= i <= l.len(),
            out.len() == i,
            forall|j: int|
                0 <= j < i ==> #[trigger] out@[j].view() == subst_expr(l@[j].view(), c@, f@),
        decreases l.len() - i,
    {
        proof {
            assert(decreases_to!(*l => l[i as int]));
        }
        out.push(l[i].substitute(c, f));
        i += 1;
    }
    proof {
        lemma_exprs_view(out@);
        lemma_exprs_view(l@);
        lemma_subst_exprs(exprs_view(l@), c@, f@);
        assert(exprs_view(out@) =~= subst_exprs(exprs_view(l@), c@, f@));
    }
    out
}

impl Expr {
    pub fn same(&self, o: &Expr) -> (r: bool)
        ensures
            r == (self@ == o@),
        decreases self,
    {
        match (self, o) {
            (Expr::Formula(a), Expr::Formula(b)) => a.same(b),
            (Expr::Head(a), Expr::Head(b)) => a.same(b),
            (Expr::Splice(a), Expr::Splice(b)) => a.same(b),
            _ => false,
        }
    }

    /// First-order substitution inside a literal argument; schematic
    /// arguments are left as they are.
    pub fn substitute(&self, c: &ConstName, f: &Formula) -> (r: Expr)
        ensures
            r@ == subst_expr(self@, c@, f@),
        decreases self,
    {
        match self {
            Expr::Formula(e) => Expr::Formula(e.substitute(c, f)),
            _ => self.copy(),
        }
    }
}

impl SeqVar {
    pub fn same(&self, o: &SeqVar) -> (r: bool)
        ensures
            r == (self@ == o@),
        decreases self,
    {
        match (self, o) {
            (SeqVar::Free(a, v), SeqVar::Free(b, w)) => *a == *b && v.same(w),
            (SeqVar::Tail(p), SeqVar::Tail(q)) => p.same(q),
            _ => false,
        }
    }
}


/// Model of what instantiating a sequence variable gives: the variable
/// itself (it was not the one instantiated), or a list of formulas.
pub enum SeqInstV {
    Kept(SeqVarV),
    Items(Seq<FormulaV>),
}

/// Result of instantiating a sequence variable.
pub enum SeqInst {
    Kept(SeqVar),
    Items(Vec<Formula>),
}

pub open spec fn formulas_view(l: Seq<Formula>) -> Seq<FormulaV> {
    l.map_values(|x: Formula| x.view())
}

impl SeqInst {
    pub open spec fn view(&self) -> SeqInstV {
        match self {
            SeqInst::Kept(s) => SeqInstV::Kept(s.view()),
            SeqInst::Items(v) => SeqInstV::Items(formulas_view(v@)),
        }
    }
}

/// Instantiates the schema variable `(ar, c)` with `fs` inside `s`; each
/// `Tail` drops the first formula of the list.
pub open spec fn inst_seqvar(s: SeqVarV, ar: u64, c: NameV, fs: Seq<FormulaV>) -> SeqInstV
    decreases s,
{
    match s {
        SeqVarV::Free(a, v) => if a == ar && v == c {
            SeqInstV::Items(fs)
        } else {
            SeqInstV::Kept(s)
        },
        SeqVarV::Tail(p) => match inst_seqvar(*p, ar, c, fs) {
            SeqInstV::Kept(q) => SeqInstV::Kept(SeqVarV::Tail(Box::new(q))),
            SeqInstV::Items(v) => SeqInstV::Items(
                if v.len() == 0 {
                    v
                } else {
                    v.subrange(1, v.len() as int)
                },
            ),
        },
    }
}

/// What one argument expands to when `(ar, c)` is instantiated with `fs`.
pub open spec fn expand_expr(e: ExprV, ar: u64, c: NameV, fs: Seq<FormulaV>) -> Seq<ExprV>
    decreases e,
{
    match e {
        ExprV::Formula(x) => seq![ExprV::Formula(subst_seq(x, ar, c, fs))],
        ExprV::Head(s) => match inst_seqvar(s, ar, c, fs) {
            SeqInstV::Kept(t) => seq![ExprV::Head(t)],
            SeqInstV::Items(v) => if v.len() > 0 {
                seq![ExprV::Formula(v[0])]
            } else {
                Seq::empty()
            },
        },
        ExprV::Splice(s) => match inst_seqvar(s, ar, c, fs) {
            SeqInstV::Kept(t) => seq![ExprV::Splice(t)],
            SeqInstV::Items(v) => v.map_values(|x: FormulaV| ExprV::Formula(x)),
        },
    }
}

pub open spec fn expand_exprs(l: Seq<ExprV>, ar: u64, c: NameV, fs: Seq<FormulaV>) -> Seq<ExprV>
    decreases l,
{
    if l.len() == 0 {
        l
    } else {
        expand_exprs(l.drop_last(), ar, c, fs) + expand_expr(l.last(), ar, c, fs)
    }
}

/// Sequence-schema substitution: instantiates `(ar, c)` with `fs`. A
/// `ForAllSeq` binding the same schema shadows; all other binders are
/// transparent.
pub open spec fn subst_seq(f: FormulaV, ar: u64, c: NameV, fs: Seq<FormulaV>) -> FormulaV
    decreases f,
{
    match f {
        FormulaV::True => f,
        FormulaV::False => f,
        FormulaV::Eq(l, r) => FormulaV::Eq(
            Box::new(subst_seq(*l, ar, c, fs)),
            Box::new(subst_seq(*r, ar, c, fs)),
        ),
        FormulaV::IFF(l, r) => FormulaV::IFF(
            Box::new(subst_seq(*l, ar, c, fs)),
            Box::new(subst_seq(*r, ar, c, fs)),
        ),
        FormulaV::Relation(l) => FormulaV::Relation(expand_exprs(l, ar, c, fs)),
        FormulaV::And(l, r) => FormulaV::And(
            Box::new(subst_seq(*l, ar, c, fs)),
            Box::new(subst_seq(*r, ar, c, fs)),
        ),
        FormulaV::Or(l, r) => FormulaV::Or(
            Box::new(subst_seq(*l, ar, c, fs)),
            Box::new(subst_seq(*r, ar, c, fs)),
        ),
        FormulaV::Not(l) => FormulaV::Not(Box::new(subst_seq(*l, ar, c, fs))),
        FormulaV::Implies(l, r) => FormulaV::Implies(
            Box::new(subst_seq(*l, ar, c, fs)),
            Box::new(subst_seq(*r, ar, c, fs)),
        ),
        FormulaV::Subst(b, v, e) => FormulaV::Subst(
            Box::new(subst_seq(*b, ar, c, fs)),
            v,
            Box::new(subst_seq(*e, ar, c, fs)),
        ),
        FormulaV::ForAllSeq(a, v, e) => if a == ar && v == c {
            f
        } else {
            FormulaV::ForAllSeq(a, v, Box::new(subst_seq(*e, ar, c, fs)))
        },
        FormulaV::ForAll(v, e) => FormulaV::ForAll(v, Box::new(subst_seq(*e, ar, c, fs))),
        FormulaV::Exists(v, e) => FormulaV::Exists(v, Box::new(subst_seq(*e, ar, c, fs))),
        FormulaV::Free(_) => f,
        FormulaV::Const(_) => f,
    }
}

pub proof fn lemma_exprs_view_append(a: Seq<Expr>, b: Seq<Expr>)
    ensures
        exprs_view(a + b) == exprs_view(a) + exprs_view(b),
{
    lemma_exprs_view(a);
    lemma_exprs_view(b);
    lemma_exprs_view(a + b);
    assert(exprs_view(a + b) =~= exprs_view(a) + exprs_view(b));
}

/// Copies of a list of formulas.
pub fn copy_formulas(l: &Vec<Formula>) -> (r: Vec<Formula>)
    ensures
        formulas_view(r@) == formulas_view(l@),
{
    let mut out: Vec<Formula> = Vec::new();
    let mut i: usize = 0;
    while i < l.len()
        invariant
            0 <= i <= l.len(),
            out.len() == i,
            forall|j: int| 0 <= j < i ==> #[trigger] out@[j].view() == l@[j].view(),
        decreases l.len() - i,
    {
        out.push(l[i].copy());
        i += 1;
    }
    assert(formulas_view(out@) =~= formulas_view(l@));
    out
}

impl SeqVar {
    /// Instantiates the schema variable `(ar, c)` with `f`.
    pub fn substitute_seq(&self, ar: u64, c: &ConstName, f: &Vec<Formula>) -> (r: SeqInst)
        ensures
            r@ == inst_seqvar(self@, ar, c@, formulas_view(f@)),
        decreases self,
    {
        match self {
            SeqVar::Free(a, v) => if *a == ar && v.same(c) {
                SeqInst::Items(copy_formulas(f))
            } else {
                SeqInst::Kept(self.copy())
            },
            SeqVar::Tail(p) => match p.substitute_seq(ar, c, f) {
                SeqInst::Kept(s) => SeqInst::Kept(SeqVar::Tail(s.ptr())),
                SeqInst::Items(v) => {
                    let ghost vv = formulas_view(v@);
                    let mut out: Vec<Formula> = Vec::new();
                    let mut i: usize = 1;
                    while i < v.len()
                        invariant
                            1 <= i <= v.len() || v.len() == 0,
                            v.len() > 0 ==> out.len() == i - 1,
                            v.len() == 0 ==> out.len() == 0,
                            forall|j: int|
                                0 <= j < out.len() ==> #[trigger] out@[j].view() == v@[j + 1].view(),
                        decreases v.len() - i,
                    {
                        out.push(v[i].copy());
                        i += 1;
                    }
                    proof {
                        if vv.len() > 0 {
                            assert(formulas_view(out@) =~= vv.subrange(1, vv.len() as int));
                        } else {
                            assert(formulas_view(out@) =~= vv);
                        }
                    }
                    SeqInst::Items(out)
                },
            },
        }
    }
}

impl Expr {
    /// What this argument expands to when `(ar, c)` is instantiated with `f`.
    pub fn substitute_seq(&self, ar: u64, c: &ConstName, f: &Vec<Formula>) -> (r: Vec<Expr>)
        ensures
            exprs_view(r@) == expand_expr(self@, ar, c@, formulas_view(f@)),
        decreases self,
    {
        let ghost fs = formulas_view(f@);
        let mut out: Vec<Expr> = Vec::new();
        match self {
            Expr::Formula(e) => {
                out.push(Expr::Formula(e.substitute_seq(ar, c, f)));
                proof {
                    lemma_exprs_view(out@);
                    assert(exprs_view(out@) =~= expand_expr(self@, ar, c@, fs));
                }
            },
            Expr::Head(s) => match s.substitute_seq(ar, c, f) {
                SeqInst::Kept(t) => {
                    out.push(Expr::Head(t));
                    proof {
                        lemma_exprs_view(out@);
                        assert(exprs_view(out@) =~= expand_expr(self@, ar, c@, fs));
                    }
                },
                SeqInst::Items(v) => {
                    if v.len() > 0 {
                        out.push(Expr::Formula(v[0].copy()));
                    }
                    proof {
                        lemma_exprs_view(out@);
                        assert(exprs_view(out@) =~= expand_expr(self@, ar, c@, fs));
                    }
                },
            },
            Expr::Splice(s) => match s.substitute_seq(ar, c, f) {
                SeqInst::Kept(t) => {
                    out.push(Expr::Splice(t));
                    proof {
                        lemma_exprs_view(out@);
                        assert(exprs_view(out@) =~= expand_expr(self@, ar, c@, fs));
                    }
                },
                SeqInst::Items(v) => {
                    let mut i: usize = 0;
                    while i < v.len()
                        invariant
                            0 <= i <= v.len(),
                            out.len() == i,
                            forall|j: int|
                                0 <= j < i ==> #[trigger] out@[j].view() == ExprV::Formula(
                                    v@[j].view(),
                                ),
                        decreases v.len() - i,
                    {
                        out.push(Expr::Formula(v[i].copy()));
                        i += 1;
                    }
                    proof {
                        lemma_exprs_view(out@);
                        assert(exprs_view(out@) =~= expand_expr(self@, ar, c@, fs));
                    }
                },
            },
        }
        out
    }
}

/// Each argument expanded, the results joined in order.
pub fn substitute_seq_exprs(l: &Vec<Expr>, ar: u64, c: &ConstName, f: &Vec<Formula>) -> (r: Vec<
    Expr,
>)
    ensures
        exprs_view(r@) == expand_exprs(exprs_view(l@), ar, c@, formulas_view(f@)),
    decreases l,
{
    let ghost fs = formulas_view(f@);
    let ghost lv = exprs_view(l@);
    proof {
        lemma_exprs_view(l@);
        assert(lv.take(0) =~= Seq::<ExprV>::empty());
    }
    let mut out: Vec<Expr> = Vec::new();
    let mut i: usize = 0;
    while i < l.len()
        invariant
            0 <= i <= l.len(),
            lv == exprs_view(l@),
            fs == formulas_view(f@),
            lv.len() == l.len(),
            forall|j: int| 0 <= j < l.len() ==> #[trigger] lv[j] == l@[j].view(),
            exprs_view(out@) == expand_exprs(lv.take(i as int), ar, c@, fs),
        decreases l.len() - i,
    {
        proof {
            assert(decreases_to!(*l => l[i as int]));
        }
        let mut ex = l[i].substitute_seq(ar, c, f);
        let ghost before = out@;
        let ghost added = ex@;
        out.append(&mut ex);
        proof {
            lemma_exprs_view_append(before, added);
            assert(out@ == before + added);
            assert(lv.take(i + 1).drop_last() =~= lv.take(i as int));
            assert(lv.take(i + 1).last() == lv[i as int]);
            assert(expand_exprs(lv.take(i + 1), ar, c@, fs) == expand_exprs(
                lv.take(i as int),
                ar,
                c@,
                fs,
            ) + expand_expr(lv[i as int], ar, c@, fs));
        }
        i += 1;
    }
    assert(lv.take(l.len() as int) =~= lv);
    out
}

impl Formula {
    /// Sequence-schema substitution: instantiates `(ar, c)` with the list `f`.
    pub fn substitute_seq(&self, ar: u64, c: &ConstName, f: &Vec<Formula>) -> (r: Formula)
        ensures
            r@ == subst_seq(self@, ar, c@, formulas_view(f@)),
        decreases self,
    {
        match self {
            Formula::True => Formula::True,
            Formula::False => Formula::False,
            Formula::Eq(l, r) => Formula::Eq(
                l.substitute_seq(ar, c, f).ptr(),
                r.substitute_seq(ar, c, f).ptr(),
            ),
            Formula::IFF(l, r) => Formula::IFF(
                l.substitute_seq(ar, c, f).ptr(),
                r.substitute_seq(ar, c, f).ptr(),
            ),
            Formula::Relation(l) => Formula::Relation(substitute_seq_exprs(l, ar, c, f)),
            Formula::And(l, r) => Formula::And(
                l.substitute_seq(ar, c, f).ptr(),
                r.substitute_seq(ar, c, f).ptr(),
            ),
            Formula::Or(l, r) => Formula::Or(
                l.substitute_seq(ar, c, f).ptr(),
                r.substitute_seq(ar, c, f).ptr(),
            ),
            Formula::Not(l) => Formula::Not(l.substitute_seq(ar, c, f).ptr()),
            Formula::Implies(l, r) => Formula::Implies(
                l.substitute_seq(ar, c, f).ptr(),
                r.substitute_seq(ar, c, f).ptr(),
            ),
            Formula::Subst(b, v, e) => Formula::Subst(
                b.substitute_seq(ar, c, f).ptr(),
                v.copy(),
                e.substitute_seq(ar, c, f).ptr(),
            ),
            Formula::ForAllSeq(a, v, e) => if *a == ar && v.same(c) {
                self.copy()
            } else {
                Formula::ForAllSeq(*a, v.copy(), e.substitute_seq(ar, c, f).ptr())
            },
            Formula::ForAll(v, e) => Formula::ForAll(v.copy(), e.substitute_seq(ar, c, f).ptr()),
            Formula::Exists(v, e) => Formula::Exists(v.copy(), e.substitute_seq(ar, c, f).ptr()),
            Formula::Free(_) => self.copy(),
            Formula::Const(_) => self.copy(),
        }
    }
}


/// The decimal digit `d`.
pub open spec fn digit_text(d: nat) -> Seq<char> {
    if d == 0 {
        "0"@
    } else if d == 1 {
        "1"@
    } else if d == 2 {
        "2"@
    } else if d == 3 {
        "3"@
    } else if d == 4 {
        "4"@
    } else if d == 5 {
        "5"@
    } else if d == 6 {
        "6"@
    } else if d == 7 {
        "7"@
    } else if d == 8 {
        "8"@
    } else {
        "9"@
    }
}

/// Decimal notation of `n`, without leading zeros.
pub open spec fn decimal(n: nat) -> Seq<char>
    decreases n,
{
    if n < 10 {
        digit_text(n)
    } else {
        decimal(n / 10) + digit_text(n % 10)
    }
}

fn digit_str(d: u64) -> (r: &'static str)
    requires
        d < 10,
    ensures
        r@ == digit_text(d as nat),
{
    if d == 0 {
        "0"
    } else if d == 1 {
        "1"
    } else if d == 2 {
        "2"
    } else if d == 3 {
        "3"
    } else if d == 4 {
        "4"
    } else if d == 5 {
        "5"
    } else if d == 6 {
        "6"
    } else if d == 7 {
        "7"
    } else if d == 8 {
        "8"
    } else {
        "9"
    }
}

/// Appends the decimal notation of `n` to `s`.
pub fn append_decimal(s: &mut String, n: u64)
    ensures
        final(s)@ == old(s)@ + decimal(n as nat),
    decreases n,
{
    if n < 10 {
        s.append(digit_str(n));
    } else {
        append_decimal(s, n / 10);
        s.append(digit_str(n % 10));
        assert(final(s)@ =~= old(s)@ + decimal(n as nat));
    }
}

pub open spec fn render_name(n: NameV) -> Seq<char> {
    match n {
        NameV::Text(t) => t,
        NameV::Id(i) => "'"@ + decimal(i as nat) + "'"@,
    }
}

pub open spec fn render_seqvar(s: SeqVarV) -> Seq<char>
    decreases s,
{
    match s {
        SeqVarV::Free(a, v) => render_name(v) + "..."@ + decimal(a as nat),
        SeqVarV::Tail(p) => "Tail("@ + render_seqvar(*p) + ")"@,
    }
}

pub open spec fn render_expr(e: ExprV) -> Seq<char>
    decreases e,
{
    match e {
        ExprV::Formula(f) => render(f),
        ExprV::Head(s) => "Head("@ + render_seqvar(s) + ")"@,
        ExprV::Splice(s) => "Seq("@ + render_seqvar(s) + ")"@,
    }
}

/// The arguments rendered and separated by `", "`.
pub open spec fn render_exprs(l: Seq<ExprV>) -> Seq<char>
    decreases l,
{
    if l.len() == 0 {
        Seq::empty()
    } else if l.len() == 1 {
        render_expr(l[0])
    } else {
        render_exprs(l.drop_last()) + ", "@ + render_expr(l.last())
    }
}

/// Human-readable text of a formula, used in error messages.
pub open spec fn render(f: FormulaV) -> Seq<char>
    decreases f,
{
    match f {
        FormulaV::True => "true"@,
        FormulaV::False => "false"@,
        FormulaV::Eq(l, r) => "Eq("@ + render(*l) + ", "@ + render(*r) + ")"@,
        FormulaV::IFF(l, r) => "IFF("@ + render(*l) + ", "@ + render(*r) + ")"@,
        FormulaV::Relation(l) => "("@ + render_exprs(l) + ")"@,
        FormulaV::And(l, r) => "And("@ + render(*l) + ", "@ + render(*r) + ")"@,
        FormulaV::Or(l, r) => "Or("@ + render(*l) + ", "@ + render(*r) + ")"@,
        FormulaV::Not(l) => "Not("@ + render(*l) + ")"@,
        FormulaV::Implies(l, r) => "Implies("@ + render(*l) + ", "@ + render(*r) + ")"@,
        FormulaV::Subst(b, v, e) => "Subst(("@ + render(*b) + ", "@ + render_name(v) + "), "@
            + render(*e) + ")"@,
        FormulaV::ForAllSeq(a, v, e) => "ForAllSeq(("@ + decimal(a as nat) + ", "@ + render_name(v)
            + "), "@ + render(*e) + ")"@,
        FormulaV::ForAll(v, e) => "ForAll("@ + render_name(v) + ", "@ + render(*e) + ")"@,
        FormulaV::Exists(v, e) => "Exists("@ + render_name(v) + ", "@ + render(*e) + ")"@,
        FormulaV::Free(v) => "#"@ + render_name(v),
        FormulaV::Const(v) => render_name(v),
    }
}

impl ConstName {
    /// Appends the text of this name to `s`.
    pub fn write_to(&self, s: &mut String)
        ensures
            final(s)@ == old(s)@ + render_name(self@),
    {
        match self {
            ConstName::String(t) => s.append(t.as_str()),
            ConstName::Int(i) => {
                s.append("'");
                append_decimal(s, *i);
                s.append("'");
                assert(final(s)@ =~= old(s)@ + render_name(self@));
            },
        }
    }

    pub fn to_string(&self) -> (r: String)
        ensures
            r@ == render_name(self@),
    {
        let mut s = String::new();
        self.write_to(&mut s);
        assert(s@ =~= render_name(self@));
        s
    }
}

impl SeqVar {
    pub fn write_to(&self, s: &mut String)
        ensures
            final(s)@ == old(s)@ + render_seqvar(self@),
        decreases self,
    {
        match self {
            SeqVar::Free(a, v) => {
                v.write_to(s);
                s.append("...");
                append_decimal(s, *a);
            },
            SeqVar::Tail(p) => {
                s.append("Tail(");
                p.write_to(s);
                s.append(")");
            },
        }
        assert(final(s)@ =~= old(s)@ + render_seqvar(self@));
    }

    pub fn to_string(&self) -> (r: String)
        ensures
            r@ == render_seqvar(self@),
    {
        let mut s = String::new();
        self.write_to(&mut s);
        assert(s@ =~= render_seqvar(self@));
        s
    }
}

impl Expr {
    pub fn write_to(&self, s: &mut String)
        ensures
            final(s)@ == old(s)@ + render_expr(self@),
        decreases self,
    {
        match self {
            Expr::Formula(f) => f.write_to(s),
            Expr::Head(q) => {
                s.append("Head(");
                q.write_to(s);
                s.append(")");
            },
            Expr::Splice(q) => {
                s.append("Seq(");
                q.write_to(s);
                s.append(")");
            },
        }
        assert(final(s)@ =~= old(s)@ + render_expr(self@));
    }
}

/// Appends the arguments, separated by `", "`.
pub fn write_exprs(l: &Vec<Expr>, s: &mut String)
    ensures
        final(s)@ == old(s)@ + render_exprs(exprs_view(l@)),
    decreases l,
{
    let ghost lv = exprs_view(l@);
    let ghost start = s@;
    proof {
        lemma_exprs_view(l@);
        assert(lv.take(0) =~= Seq::<ExprV>::empty());
        assert(start =~= start + render_exprs(lv.take(0)));
    }
    let mut i: usize = 0;
    while i < l.len()
        invariant
            0 <= i <= l.len(),
            lv == exprs_view(l@),
            lv.len() == l.len(),
            forall|j: int| 0 <= j < l.len() ==> #[trigger] lv[j] == l@[j].view(),
            s@ == start + render_exprs(lv.take(i as int)),
        decreases l.len() - i,
    {
        proof {
            assert(decreases_to!(*l => l[i as int]));
        }
        let ghost before = s@;
        if i > 0 {
            s.append(", ");
        }
        l[i].write_to(s);
        proof {
            assert(lv.take(i + 1).drop_last() =~= lv.take(i as int));
            assert(lv.take(i + 1).last() == lv[i as int]);
            if i == 0 {
                assert(lv.take(1)[0] == lv[0]);
                assert(s@ =~= start + render_exprs(lv.take(i + 1)));
            } else {
                assert(s@ =~= start + render_exprs(lv.take(i + 1)));
            }
        }
        i += 1;
    }
    assert(lv.take(l.len() as int) =~= lv);
}

impl Formula {
    /// Appends the text of this formula to `s`.
    pub fn write_to(&self, s: &mut String)
        ensures
            final(s)@ == old(s)@ + render(self@),
        decreases self,
    {
        match self {
            Formula::True => s.append("true"),
            Formula::False => s.append("false"),
            Formula::Eq(l, r) => {
                s.append("Eq(");
                l.write_to(s);
                s.append(", ");
                r.write_to(s);
                s.append(")");
            },
            Formula::IFF(l, r) => {
                s.append("IFF(");
                l.write_to(s);
                s.append(", ");
                r.write_to(s);
                s.append(")");
            },
            Formula::Relation(l) => {
                s.append("(");
                write_exprs(l, s);
                s.append(")");
            },
            Formula::And(l, r) => {
                s.append("And(");
                l.write_to(s);
                s.append(", ");
                r.write_to(s);
                s.append(")");
            },
            Formula::Or(l, r) => {
                s.append("Or(");
                l.write_to(s);
                s.append(", ");
                r.write_to(s);
                s.append(")");
            },
            Formula::Not(l) => {
                s.append("Not(");
                l.write_to(s);
                s.append(")");
            },
            Formula::Implies(l, r) => {
                s.append("Implies(");
                l.write_to(s);
                s.append(", ");
                r.write_to(s);
                s.append(")");
            },
            Formula::Subst(b, v, e) => {
                s.append("Subst((");
                b.write_to(s);
                s.append(", ");
                v.write_to(s);
                s.append("), ");
                e.write_to(s);
                s.append(")");
            },
            Formula::ForAllSeq(a, v, e) => {
                s.append("ForAllSeq((");
                append_decimal(s, *a);
                s.append(", ");
                v.write_to(s);
                s.append("), ");
                e.write_to(s);
                s.append(")");
            },
            Formula::ForAll(v, e) => {
                s.append("ForAll(");
                v.write_to(s);
                s.append(", ");
                e.write_to(s);
                s.append(")");
            },
            Formula::Exists(v, e) => {
                s.append("Exists(");
                v.write_to(s);
                s.append(", ");
                e.write_to(s);
                s.append(")");
            },
            Formula::Free(v) => {
                s.append("#");
                v.write_to(s);
            },
            Formula::Const(v) => v.write_to(s),
        }
        assert(final(s)@ =~= old(s)@ + render(self@));
    }

    /// Human-readable text of this formula.
    pub fn to_string(&self) -> (r: String)
        ensures
            r@ == render(self@),
    {
        let mut s = String::new();
        self.write_to(&mut s);
        assert(s@ =~= render(self@));
        s
    }
}

pub open spec fn names_view(l: Seq<ConstName>) -> Seq<NameV> {
    l.map_values(|x: ConstName| x@)
}

/// The relation applying the first name to the others, as constants.
pub open spec fn consts_relation(ns: Seq<NameV>) -> FormulaV {
    FormulaV::Relation(ns.map_values(|x: NameV| ExprV::Formula(FormulaV::Const(x))))
}

impl Formula {
    /// The relation applying the first name to the others, all as constants.
    pub fn const_to_relation(v: &Vec<ConstName>) -> (r: Formula)
        ensures
            r@ == consts_relation(names_view(v@)),
    {
        let mut out: Vec<Expr> = Vec::new();
        let mut i: usize = 0;
        while i < v.len()
            invariant
                0 <= i <= v.len(),
                out.len() == i,
                forall|j: int|
                    0 <= j < i ==> #[trigger] out@[j].view() == ExprV::Formula(
                        FormulaV::Const(v@[j]@),
                    ),
            decreases v.len() - i,
        {
            out.push(Expr::Formula(Formula::Const(v[i].copy())));
            i += 1;
        }
        proof {
            lemma_exprs_view(out@);
            assert(exprs_view(out@) =~= names_view(v@).map_values(
                |x: NameV| ExprV::Formula(FormulaV::Const(x)),
            ));
        }
        Formula::Relation(out)
    }
}


pub open spec fn pairs_view(l: Seq<(u64, ConstName)>) -> Seq<(u64, NameV)> {
    l.map_values(|p: (u64, ConstName)| (p.0, p.1@))
}

/// Scope validity of `f` over the constants of `k`, with the first-order
/// names `frees` and the schema variables `seqs` bound by enclosing binders.
pub open spec fn wf<K: KnowledgeBase>(
    f: FormulaV,
    k: K,
    frees: Seq<NameV>,
    seqs: Seq<(u64, NameV)>,
) -> bool
    decreases f,
{
    match f {
        FormulaV::True => true,
        FormulaV::False => true,
        FormulaV::Eq(l, r) => wf(*l, k, frees, seqs) && wf(*r, k, frees, seqs),
        FormulaV::IFF(l, r) => wf(*l, k, frees, seqs) && wf(*r, k, frees, seqs),
        FormulaV::Relation(l) => wf_exprs(l, k, frees, seqs),
        FormulaV::And(l, r) => wf(*l, k, frees, seqs) && wf(*r, k, frees, seqs),
        FormulaV::Or(l, r) => wf(*l, k, frees, seqs) && wf(*r, k, frees, seqs),
        FormulaV::Not(l) => wf(*l, k, frees, seqs),
        FormulaV::Implies(l, r) => wf(*l, k, frees, seqs) && wf(*r, k, frees, seqs),
        FormulaV::Subst(b, v, e) => wf(*b, k, frees.push(v), seqs) && wf(*e, k, frees, seqs),
        FormulaV::ForAllSeq(a, v, e) => wf(*e, k, frees, seqs.push((a, v))),
        FormulaV::ForAll(v, e) => wf(*e, k, frees.push(v), seqs),
        FormulaV::Exists(v, e) => wf(*e, k, frees.push(v), seqs),
        FormulaV::Free(v) => frees.contains(v),
        FormulaV::Const(v) => k.declares(v),
    }
}

pub open spec fn wf_seqvar(s: SeqVarV, seqs: Seq<(u64, NameV)>) -> bool
    decreases s,
{
    match s {
        SeqVarV::Free(a, v) => seqs.contains((a, v)),
        SeqVarV::Tail(p) => wf_seqvar(*p, seqs),
    }
}

pub open spec fn wf_expr<K: KnowledgeBase>(
    e: ExprV,
    k: K,
    frees: Seq<NameV>,
    seqs: Seq<(u64, NameV)>,
) -> bool
    decreases e,
{
    match e {
        ExprV::Formula(f) => wf(f, k, frees, seqs),
        ExprV::Head(s) => wf_seqvar(s, seqs),
        ExprV::Splice(s) => wf_seqvar(s, seqs),
    }
}

pub open spec fn wf_exprs<K: KnowledgeBase>(
    l: Seq<ExprV>,
    k: K,
    frees: Seq<NameV>,
    seqs: Seq<(u64, NameV)>,
) -> bool
    decreases l,
{
    if l.len() == 0 {
        true
    } else {
        wf_exprs(l.drop_last(), k, frees, seqs) && wf_expr(l.last(), k, frees, seqs)
    }
}

pub proof fn lemma_wf_exprs<K: KnowledgeBase>(
    l: Seq<ExprV>,
    k: K,
    frees: Seq<NameV>,
    seqs: Seq<(u64, NameV)>,
)
    ensures
        wf_exprs(l, k, frees, seqs) <==> forall|i: int|
            0 <= i < l.len() ==> #[trigger] wf_expr(l[i], k, frees, seqs),
    decreases l.len(),
{
    if l.len() > 0 {
        lemma_wf_exprs(l.drop_last(), k, frees, seqs);
        if wf_exprs(l, k, frees, seqs) {
            assert forall|i: int| 0 <= i < l.len() implies #[trigger] wf_expr(
                l[i],
                k,
                frees,
                seqs,
            ) by {
                if i < l.len() - 1 {
                    assert(l[i] == l.drop_last()[i]);
                }
            }
        } else if !wf_exprs(l.drop_last(), k, frees, seqs) {
            let i = choose|i: int|
                0 <= i < l.len() - 1 && !#[trigger] wf_expr(l.drop_last()[i], k, frees, seqs);
            assert(l[i] == l.drop_last()[i]);
        } else {
            assert(!wf_expr(l[l.len() - 1], k, frees, seqs));
        }
    }
}

/// Whether `v` is among `l`.
fn has_name(l: &Vec<ConstName>, v: &ConstName) -> (r: bool)
    ensures
        r == names_view(l@).contains(v@),
{
    let mut i: usize = 0;
    while i < l.len()
        invariant
            0 <= i <= l.len(),
            forall|j: int| 0 <= j < i ==> l@[j]@ != v@,
        decreases l.len() - i,
    {
        if l[i].same(v) {
            assert(names_view(l@)[i as int] == v@);
            return true;
        }
        i += 1;
    }
    assert(!names_view(l@).contains(v@)) by {
        if names_view(l@).contains(v@) {
            let j = choose|j: int| 0 <= j < names_view(l@).len() && names_view(l@)[j] == v@;
            assert(l@[j]@ == v@);
        }
    }
    false
}

/// Whether `(a, v)` is among `l`.
fn has_pair(l: &Vec<(u64, ConstName)>, a: u64, v: &ConstName) -> (r: bool)
    ensures
        r == pairs_view(l@).contains((a, v@)),
{
    let mut i: usize = 0;
    while i < l.len()
        invariant
            0 <= i <= l.len(),
            forall|j: int| 0 <= j < i ==> (l@[j].0, l@[j].1@) != (a, v@),
        decreases l.len() - i,
    {
        if l[i].0 == a && l[i].1.same(v) {
            assert(pairs_view(l@)[i as int] == (a, v@));
            return true;
        }
        i += 1;
    }
    assert(!pairs_view(l@).contains((a, v@))) by {
        if pairs_view(l@).contains((a, v@)) {
            let j = choose|j: int| 0 <= j < pairs_view(l@).len() && pairs_view(l@)[j] == (a, v@);
            assert((l@[j].0, l@[j].1@) == (a, v@));
        }
    }
    false
}

/// `l` with `v` added.
fn with_name(l: &Vec<ConstName>, v: &ConstName) -> (r: Vec<ConstName>)
    ensures
        names_view(r@) == names_view(l@).push(v@),
{
    let mut out: Vec<ConstName> = Vec::new();
    let mut i: usize = 0;
    while i < l.len()
        invariant
            0 <= i <= l.len(),
            out.len() == i,
            forall|j: int| 0 <= j < i ==> #[trigger] out@[j]@ == l@[j]@,
        decreases l.len() - i,
    {
        out.push(l[i].copy());
        i += 1;
    }
    out.push(v.copy());
    assert(names_view(out@) =~= names_view(l@).push(v@));
    out
}

/// `l` with `(a, v)` added.
fn with_pair(l: &Vec<(u64, ConstName)>, a: u64, v: &ConstName) -> (r: Vec<(u64, ConstName)>)
    ensures
        pairs_view(r@) == pairs_view(l@).push((a, v@)),
{
    let mut out: Vec<(u64, ConstName)> = Vec::new();
    let mut i: usize = 0;
    while i < l.len()
        invariant
            0 <= i <= l.len(),
            out.len() == i,
            forall|j: int| 0 <= j < i ==> #[trigger] out@[j].0 == l@[j].0 && out@[j].1@ == l@[j].1@,
        decreases l.len() - i,
    {
        out.push((l[i].0, l[i].1.copy()));
        i += 1;
    }
    out.push((a, v.copy()));
    assert(pairs_view(out@) =~= pairs_view(l@).push((a, v@)));
    out
}

impl SeqVar {
    fn well_formed_inner(&self, freeseqs: &Vec<(u64, ConstName)>) -> (r: bool)
        ensures
            r == wf_seqvar(self@, pairs_view(freeseqs@)),
        decreases self,
    {
        match self {
            SeqVar::Free(a, v) => has_pair(freeseqs, *a, v),
            SeqVar::Tail(p) => p.well_formed_inner(freeseqs),
        }
    }

    /// Declared length of the sequence this stands for: the binder's arity,
    /// less one for each `Tail`; `None` where more elements are dropped than
    /// there are.
    pub fn arity(&self) -> (r: Option<u64>)
        ensures
            r == seqvar_arity(self@),
        decreases self,
    {
        match self {
            SeqVar::Free(a, _) => Some(*a),
            SeqVar::Tail(s) => match s.arity() {
                Some(v) => if v == 0 {
                    None
                } else {
                    Some(v - 1)
                },
                None => None,
            },
        }
    }
}

pub open spec fn seqvar_arity(s: SeqVarV) -> Option<u64>
    decreases s,
{
    match s {
        SeqVarV::Free(a, _) => Some(a),
        SeqVarV::Tail(p) => match seqvar_arity(*p) {
            Some(v) => if v == 0 {
                None
            } else {
                Some((v - 1) as u64)
            },
            None => None,
        },
    }
}

impl Expr {
    fn well_formed_inner<K: KnowledgeBase>(
        &self,
        k: &K,
        frees: &Vec<ConstName>,
        freeseqs: &Vec<(u64, ConstName)>,
    ) -> (r: bool)
        ensures
            r == wf_expr(self@, *k, names_view(frees@), pairs_view(freeseqs@)),
        decreases self,
    {
        match self {
            Expr::Formula(e) => e.well_formed_inner(k, frees, freeseqs),
            Expr::Head(s) => s.well_formed_inner(freeseqs),
            Expr::Splice(s) => s.well_formed_inner(freeseqs),
        }
    }
}

fn well_formed_exprs<K: KnowledgeBase>(
    l: &Vec<Expr>,
    k: &K,
    frees: &Vec<ConstName>,
    freeseqs: &Vec<(u64, ConstName)>,
) -> (r: bool)
    ensures
        r == wf_exprs(exprs_view(l@), *k, names_view(frees@), pairs_view(freeseqs@)),
    decreases l,
{
    let ghost lv = exprs_view(l@);
    proof {
        lemma_exprs_view(l@);
        lemma_wf_exprs(lv, *k, names_view(frees@), pairs_view(freeseqs@));
    }
    let mut i: usize = 0;
    while i < l.len()
        invariant
            0 <= i <= l.len(),
            lv == exprs_view(l@),
            lv.len() == l.len(),
            forall|j: int| 0 <= j < l.len() ==> #[trigger] lv[j] == l@[j].view(),
            forall|j: int|
                0 <= j < i ==> #[trigger] wf_expr(
                    lv[j],
                    *k,
                    names_view(frees@),
                    pairs_view(freeseqs@),
                ),
        decreases l.len() - i,
    {
        proof {
            assert(decreases_to!(*l => l[i as int]));
        }
        if !l[i].well_formed_inner(k, frees, freeseqs) {
            proof {
                lemma_wf_exprs(lv, *k, names_view(frees@), pairs_view(freeseqs@));
                assert(!wf_expr(lv[i as int], *k, names_view(frees@), pairs_view(freeseqs@)));
            }
            return false;
        }
        i += 1;
    }
    true
}

impl Formula {
    /// Scope validity: every `Free` name is bound by an enclosing binder,
    /// every schema variable by an enclosing `ForAllSeq` of the same arity,
    /// and every constant is declared in `k`.
    pub fn well_formed<K: KnowledgeBase>(&self, k: &K) -> (r: bool)
        ensures
            r == wf(self@, *k, Seq::empty(), Seq::empty()),
    {
        let l: Vec<ConstName> = Vec::new();
        let f: Vec<(u64, ConstName)> = Vec::new();
        assert(names_view(l@) =~= Seq::<NameV>::empty());
        assert(pairs_view(f@) =~= Seq::<(u64, NameV)>::empty());
        self.well_formed_inner(k, &l, &f)
    }

    /// Scope validity under the given enclosing binders.
    pub fn well_formed_inner<K: KnowledgeBase>(
        &self,
        k: &K,
        frees: &Vec<ConstName>,
        freeseqs: &Vec<(u64, ConstName)>,
    ) -> (r: bool)
        ensures
            r == wf(self@, *k, names_view(frees@), pairs_view(freeseqs@)),
        decreases self,
    {
        match self {
            Formula::True => true,
            Formula::False => true,
            Formula::Eq(l, r) => l.well_formed_inner(k, frees, freeseqs) && r.well_formed_inner(
                k,
                frees,
                freeseqs,
            ),
            Formula::IFF(l, r) => l.well_formed_inner(k, frees, freeseqs) && r.well_formed_inner(
                k,
                frees,
                freeseqs,
            ),
            Formula::Relation(l) => well_formed_exprs(l, k, frees, freeseqs),
            Formula::And(l, r) => l.well_formed_inner(k, frees, freeseqs) && r.well_formed_inner(
                k,
                frees,
                freeseqs,
            ),
            Formula::Or(l, r) => l.well_formed_inner(k, frees, freeseqs) && r.well_formed_inner(
                k,
                frees,
                freeseqs,
            ),
            Formula::Not(l) => l.well_formed_inner(k, frees, freeseqs),
            Formula::Implies(l, r) => l.well_formed_inner(k, frees, freeseqs)
                && r.well_formed_inner(k, frees, freeseqs),
            Formula::Subst(b, v, e) => {
                let a = with_name(frees, v);
                b.well_formed_inner(k, &a, freeseqs) && e.well_formed_inner(k, frees, freeseqs)
            },
            Formula::ForAllSeq(ar, v, e) => {
                let a = with_pair(freeseqs, *ar, v);
                e.well_formed_inner(k, frees, &a)
            },
            Formula::ForAll(v, e) => {
                let a = with_name(frees, v);
                e.well_formed_inner(k, &a, freeseqs)
            },
            Formula::Exists(v, e) => {
                let a = with_name(frees, v);
                e.well_formed_inner(k, &a, freeseqs)
            },
            Formula::Free(v) => has_name(frees, v),
            Formula::Const(v) => k.has_const(v),
        }
    }
}

} // verus!
