//! A natural-deduction proof kernel: formulas with their substitution
//! algebra, persistent derivation contexts over a knowledge base, and the
//! evaluator that checks a supplied proof rule by rule.
use std::rc::Rc;
use vstd::prelude::*;

pub mod formula;
pub mod knowledge_base;
pub mod deduction;
pub mod laws;

verus! {

/// Shared-ownership handle used throughout the kernel.
pub type Ptr<K> = Rc<K>;

} // verus!
