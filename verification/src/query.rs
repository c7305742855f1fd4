//! The typed query produced by the engine: a closed set of predicates
//! combined with AND, plus sort and pagination. Scoping adds predicates to
//! the same plan that pagination runs on, so it cannot be bypassed by a
//! request parameter.

use vstd::prelude::*;
use crate::input::SortDirection;

verus! {

/// A filter comparison value.
#[derive(Debug, Clone, PartialEq, Eq)]
pub enum Value {
    /// A string value.
    Str(String),
    /// An integer value.
    Int(i64),
}

/// Ghost image of a [`Value`].
pub enum ValueV {
    /// A string value.
    Str(Seq<char>),
    /// An integer value.
    Int(int),
}

impl View for Value {
    type V = ValueV;

    open spec fn view(&self) -> ValueV {
        match self {
            Value::Str(s) => ValueV::Str(s@),
            Value::Int(n) => ValueV::Int(*n as int),
        }
    }
}

/// One predicate over a row; a plan ANDs its predicates together.
#[derive(Debug, Clone, PartialEq, Eq)]
pub enum Predicate {
    /// Field equals the value exactly.
    Eq(String, Value),
    /// Field is present and differs from the value.
    Ne(String, Value),
    /// Field contains the value, case-insensitively.
    Like(String, String),
    /// Integer field is at least the bound (epoch seconds for dates).
    DateGe(String, i64),
    /// Integer field is at most the bound (epoch seconds for dates).
    DateLe(String, i64),
    /// Free-text search: some contract-defined search column contains the
    /// value, case-insensitively.
    Search(String),
}

/// Ghost image of a [`Predicate`].
pub enum PredicateV {
    /// Field equals the value exactly.
    Eq(Seq<char>, ValueV),
    /// Field is present and differs from the value.
    Ne(Seq<char>, ValueV),
    /// Field contains the value, case-insensitively.
    Like(Seq<char>, Seq<char>),
    /// Integer field is at least the bound.
    DateGe(Seq<char>, int),
    /// Integer field is at most the bound.
    DateLe(Seq<char>, int),
    /// Free-text search for the value.
    Search(Seq<char>),
}

impl View for Predicate {
    type V = PredicateV;

    open spec fn view(&self) -> PredicateV {
        match self {
            Predicate::Eq(f, v) => PredicateV::Eq(f@, v@),
            Predicate::Ne(f, v) => PredicateV::Ne(f@, v@),
            Predicate::Like(f, v) => PredicateV::Like(f@, v@),
            Predicate::DateGe(f, b) => PredicateV::DateGe(f@, *b as int),
            Predicate::DateLe(f, b) => PredicateV::DateLe(f@, *b as int),
            Predicate::Search(v) => PredicateV::Search(v@),
        }
    }
}

/// The ghost images of a predicate list, in order.
pub open spec fn preds_view(s: Seq<Predicate>) -> Seq<PredicateV> {
    s.map_values(|p: Predicate| p@)
}

/// A fully resolved query: what to keep, how to order it, which page to cut.
#[derive(Debug, Clone)]
pub struct QueryPlan {
    /// Predicates combined with AND; rows must satisfy every one.
    pub predicates: Vec<Predicate>,
    /// Resolved sort, if any.
    pub sort: Option<(String, SortDirection)>,
    /// 1-based page.
    pub page: i64,
    /// Page size; `None` for unpaginated export plans.
    pub per_page: Option<i64>,
    /// Whether aggregate counts are wanted.
    pub include_meta: bool,
}

} // verus!
