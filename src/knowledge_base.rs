//! The query interface of a store of established facts, and the persistent
//! derivation context layered over one.
use crate::formula::{ConstName, Form, Formula, FormulaV, NameV, share};
use std::rc::Rc;
use vstd::prelude::*;

verus! {

/// Shared handle to a knowledge base.
pub type KBasePtr<T> = Rc<T>;

/// Wraps a knowledge base in a shared handle.
pub fn ptr<K>(kbase: K) -> (r: KBasePtr<K>)
    ensures
        *r == kbase,
{
    Rc::new(kbase)
}

/// A store of established theorems and declared constants.
pub trait KnowledgeBase {
    /// Whether `f` has been established.
    spec fn proves(&self, f: FormulaV) -> bool;

    /// Whether the constant `c` has been declared.
    spec fn declares(&self, c: NameV) -> bool;

    /// Whether the formula has been proven. Implementors should answer true
    /// only for formulas well-formed over their own constants.
    fn contains(&self, form: &Formula) -> (r: bool)
        ensures
            r == self.proves(form@),
    ;

    /// Whether the constant has been defined or declared.
    fn has_const(&self, c: &ConstName) -> (r: bool)
        ensures
            r == self.declares(c@),
    ;
}

/// A knowledge base that holds nothing.
pub struct EmptyBase;

impl KnowledgeBase for EmptyBase {
    open spec fn proves(&self, f: FormulaV) -> bool {
        false
    }

    open spec fn declares(&self, c: NameV) -> bool {
        false
    }

    fn contains(&self, form: &Formula) -> (r: bool) {
        false
    }

    fn has_const(&self, c: &ConstName) -> (r: bool) {
        false
    }
}

/// Model of a derivation context: a failure, or a chain of facts and
/// declarations over a root knowledge base.
pub enum Ctx<K> {
    Fail(Seq<char>),
    Base(K),
    Fact(FormulaV, Box<Ctx<K>>),
    Decl(NameV, Box<Ctx<K>>),
}

impl<K: KnowledgeBase> Ctx<K> {
    /// Whether `f` is established in this context.
    pub open spec fn holds(self, f: FormulaV) -> bool
        decreases self,
    {
        match self {
            Ctx::Fail(_) => false,
            Ctx::Base(k) => k.proves(f),
            Ctx::Fact(g, p) => g == f || p.holds(f),
            Ctx::Decl(_, p) => p.holds(f),
        }
    }

    /// Whether `c` is declared in this context.
    pub open spec fn declared(self, c: NameV) -> bool
        decreases self,
    {
        match self {
            Ctx::Fail(_) => false,
            Ctx::Base(k) => k.declares(c),
            Ctx::Fact(_, p) => p.declared(c),
            Ctx::Decl(n, p) => n == c || p.declared(c),
        }
    }

    /// This context with `f` added as a fact.
    pub open spec fn with(self, f: FormulaV) -> Ctx<K> {
        Ctx::Fact(f, Box::new(self))
    }
}

/// A derivation context: a persistent chain of derived facts and declared
/// constants over a root knowledge base, or a failure with its message.
/// Extending a context shares it; siblings never see each other's facts.
pub enum ResultBase<K> {
    Failed(String),
    Root(Rc<K>),
    Formula(Formula, Rc<ResultBase<K>>),
    FormPtr(Form, Rc<ResultBase<K>>),
    Const(ConstName, Rc<ResultBase<K>>),
}

impl<K: KnowledgeBase> ResultBase<K> {
    pub open spec fn view(&self) -> Ctx<K>
        decreases self,
    {
        match self {
            ResultBase::Failed(m) => Ctx::Fail(m@),
            ResultBase::Root(k) => Ctx::Base(**k),
            ResultBase::Formula(f, p) => Ctx::Fact(f@, Box::new(p.view())),
            ResultBase::FormPtr(f, p) => Ctx::Fact(f@, Box::new(p.view())),
            ResultBase::Const(c, p) => Ctx::Decl(c@, Box::new(p.view())),
        }
    }

    /// A copy of this context node; the chain behind it is shared.
    pub fn copy(&self) -> (r: ResultBase<K>)
        ensures
            r@ == self@,
    {
        match self {
            ResultBase::Failed(m) => ResultBase::Failed(m.clone()),
            ResultBase::Root(k) => ResultBase::Root(share(k)),
            ResultBase::Formula(f, p) => ResultBase::Formula(f.copy(), share(p)),
            ResultBase::FormPtr(f, p) => ResultBase::FormPtr(share(f), share(p)),
            ResultBase::Const(c, p) => ResultBase::Const(c.copy(), share(p)),
        }
    }

    /// Wraps this context in a shared handle.
    pub fn ptr(&self) -> (r: KBasePtr<ResultBase<K>>)
        ensures
            (*r)@ == self@,
    {
        Rc::new(self.copy())
    }

    /// A context over the knowledge base `kbase` alone.
    pub fn new(kbase: K) -> (r: ResultBase<K>)
        ensures
            r@ == Ctx::Base(kbase),
    {
        ResultBase::Root(Rc::new(kbase))
    }

    /// This context with the shared formula `form` added as a fact.
    pub fn result_ptr(&self, form: Form) -> (r: ResultBase<K>)
        ensures
            r@ == self@.with(form@),
    {
        ResultBase::FormPtr(form, self.ptr())
    }

    /// This context with `form` added as a fact.
    pub fn result_form(&self, form: Formula) -> (r: ResultBase<K>)
        ensures
            r@ == self@.with(form@),
    {
        ResultBase::Formula(form, self.ptr())
    }

    /// This context with the constant `sq` declared.
    pub fn result_const(&self, sq: ConstName) -> (r: ResultBase<K>)
        ensures
            r@ == Ctx::Decl(sq@, Box::new(self@)),
    {
        ResultBase::Const(sq, self.ptr())
    }

    /// Whether this context is a failure.
    pub fn is_err(&self) -> (r: bool)
        ensures
            r == (self@ is Fail),
    {
        match self {
            ResultBase::Failed(_) => true,
            _ => false,
        }
    }

    /// The message of a failure; `None` for any other context.
    pub fn err_message(&self) -> (r: Option<String>)
        ensures
            match self@ {
                Ctx::Fail(m) => r is Some && r->0@ == m,
                _ => r is None,
            },
    {
        match self {
            ResultBase::Failed(m) => Some(m.clone()),
            _ => None,
        }
    }

    fn lookup(&self, form: &Formula) -> (r: bool)
        ensures
            r == self@.holds(form@),
        decreases self,
    {
        match self {
            ResultBase::Failed(_) => false,
            ResultBase::Root(r) => r.contains(form),
            ResultBase::Formula(f, p) => form.same(f) || p.lookup(form),
            ResultBase::FormPtr(f, p) => form.same(f) || p.lookup(form),
            ResultBase::Const(_, p) => p.lookup(form),
        }
    }

    fn lookup_const(&self, c: &ConstName) -> (r: bool)
        ensures
            r == self@.declared(c@),
        decreases self,
    {
        match self {
            ResultBase::Failed(_) => false,
            ResultBase::Root(r) => r.has_const(c),
            ResultBase::Formula(_, p) => p.lookup_const(c),
            ResultBase::FormPtr(_, p) => p.lookup_const(c),
            ResultBase::Const(n, p) => n.same(c) || p.lookup_const(c),
        }
    }
}

impl<K: KnowledgeBase> KnowledgeBase for ResultBase<K> {
    open spec fn proves(&self, f: FormulaV) -> bool {
        self@.holds(f)
    }

    open spec fn declares(&self, c: NameV) -> bool {
        self@.declared(c)
    }

    fn contains(&self, form: &Formula) -> (r: bool) {
        self.lookup(form)
    }

    fn has_const(&self, c: &ConstName) -> (r: bool) {
        self.lookup_const(c)
    }
}

} // verus!
