//! The ODRL policy model exchanged in offers and agreements, with its
//! mathematical view.
use vstd::prelude::*;
use crate::text::{copy_opt_string, opt_str_view};

verus! {

broadcast use vstd::std_specs::vec::group_vec_axioms;

/// The ODRL constraint operators.
#[derive(PartialEq, Eq, Structural, Clone, Copy, Debug)]
pub enum Operator {
    Eq,
    Gt,
    Gteq,
    HasPart,
    IsA,
    IsAllOf,
    IsAnyOf,
    IsNoneOf,
    IsPartOf,
    Lt,
    Lteq,
    Neq,
}

/// The right operand of an atomic constraint: a literal or a reference to a resource.
#[derive(Debug, PartialEq)]
pub enum RightOperand {
    String(String),
    Reference(String),
}

/// A constraint that compares one left operand with one right operand.
#[derive(Debug, PartialEq)]
pub struct AtomicConstraint {
    pub left_operand: String,
    pub operator: Operator,
    pub right_operand: RightOperand,
}

/// A constraint that combines other constraints.
#[derive(Debug, PartialEq)]
pub enum LogicalConstraint {
    And { and: Vec<Constraint> },
    AndSequence { and_sequence: Vec<Constraint> },
    Or { or: Vec<Constraint> },
    Xone { xone: Vec<Constraint> },
}

/// An atomic or a logical constraint.
#[derive(Debug, PartialEq)]
pub enum Constraint {
    Atomic(AtomicConstraint),
    Logical(LogicalConstraint),
}

/// A permission, prohibition or obligation: an action, possibly constrained.
#[derive(Debug, PartialEq)]
pub struct Rule {
    pub action: String,
    pub constraint: Option<Vec<Constraint>>,
}

/// An ODRL policy.
#[derive(Debug, PartialEq)]
pub struct Policy {
    pub profile: Option<String>,
    pub permission: Option<Vec<Rule>>,
    pub prohibition: Option<Vec<Rule>>,
    pub obligation: Option<Vec<Rule>>,
}

// ---------------------------------------------------------------------------
// Mathematical view
// ---------------------------------------------------------------------------

pub enum RightOperandModel {
    String(Seq<char>),
    Reference(Seq<char>),
}

pub struct AtomicModel {
    pub left_operand: Seq<char>,
    pub operator: Operator,
    pub right_operand: RightOperandModel,
}

pub enum LogicalKind {
    And,
    AndSequence,
    Or,
    Xone,
}

pub enum ConstraintModel {
    Atomic(AtomicModel),
    Logical(LogicalKind, Seq<ConstraintModel>),
}

pub struct RuleModel {
    pub action: Seq<char>,
    pub constraint: Option<Seq<ConstraintModel>>,
}

pub struct PolicyModel {
    pub profile: Option<Seq<char>>,
    pub permission: Option<Seq<RuleModel>>,
    pub prohibition: Option<Seq<RuleModel>>,
    pub obligation: Option<Seq<RuleModel>>,
}

impl View for RightOperand {
    type V = RightOperandModel;

    open spec fn view(&self) -> RightOperandModel {
        match self {
            RightOperand::String(s) => RightOperandModel::String(s@),
            RightOperand::Reference(s) => RightOperandModel::Reference(s@),
        }
    }
}

impl View for AtomicConstraint {
    type V = AtomicModel;

    open spec fn view(&self) -> AtomicModel {
        AtomicModel {
            left_operand: self.left_operand@,
            operator: self.operator,
            right_operand: self.right_operand@,
        }
    }
}

/// The view of a constraint.
pub open spec fn constraint_model(c: Constraint) -> ConstraintModel
    decreases c, 0nat,
{
    match c {
        Constraint::Atomic(a) => ConstraintModel::Atomic(a@),
        Constraint::Logical(l) => match l {
            LogicalConstraint::And { and } => ConstraintModel::Logical(
                LogicalKind::And,
                constraints_model(and@, and@.len()),
            ),
            LogicalConstraint::AndSequence { and_sequence } => ConstraintModel::Logical(
                LogicalKind::AndSequence,
                constraints_model(and_sequence@, and_sequence@.len()),
            ),
            LogicalConstraint::Or { or } => ConstraintModel::Logical(
                LogicalKind::Or,
                constraints_model(or@, or@.len()),
            ),
            LogicalConstraint::Xone { xone } => ConstraintModel::Logical(
                LogicalKind::Xone,
                constraints_model(xone@, xone@.len()),
            ),
        },
    }
}

/// The views of the first `n` constraints of `s`.
pub open spec fn constraints_model(s: Seq<Constraint>, n: nat) -> Seq<ConstraintModel>
    decreases s, n,
{
    if n == 0 || n > s.len() {
        Seq::empty()
    } else {
        constraints_model(s, (n - 1) as nat).push(constraint_model(s[n - 1]))
    }
}

/// The views of all constraints of `s`.
pub open spec fn constraint_list_model(s: Seq<Constraint>) -> Seq<ConstraintModel> {
    constraints_model(s, s.len())
}

impl View for Constraint {
    type V = ConstraintModel;

    open spec fn view(&self) -> ConstraintModel {
        constraint_model(*self)
    }
}

/// The view of an optional constraint list.
pub open spec fn opt_constraints_model(c: Option<Vec<Constraint>>) -> Option<Seq<ConstraintModel>> {
    match c {
        Some(v) => Some(constraint_list_model(v@)),
        None => None,
    }
}

impl View for Rule {
    type V = RuleModel;

    open spec fn view(&self) -> RuleModel {
        RuleModel { action: self.action@, constraint: opt_constraints_model(self.constraint) }
    }
}

/// The views of the rules of `s`.
pub open spec fn rules_model(s: Seq<Rule>) -> Seq<RuleModel> {
    Seq::new(s.len(), |i: int| s[i]@)
}

/// The view of an optional rule list.
pub open spec fn opt_rules_model(r: Option<Vec<Rule>>) -> Option<Seq<RuleModel>> {
    match r {
        Some(v) => Some(rules_model(v@)),
        None => None,
    }
}

impl View for Policy {
    type V = PolicyModel;

    open spec fn view(&self) -> PolicyModel {
        PolicyModel {
            profile: opt_str_view(self.profile),
            permission: opt_rules_model(self.permission),
            prohibition: opt_rules_model(self.prohibition),
            obligation: opt_rules_model(self.obligation),
        }
    }
}

/// The rules of an optional list, an absent list read as empty.
pub open spec fn rules_or_empty(r: Option<Seq<RuleModel>>) -> Seq<RuleModel> {
    match r {
        Some(s) => s,
        None => Seq::empty(),
    }
}

pub proof fn lemma_constraints_model_index(s: Seq<Constraint>, n: nat)
    requires
        n <= s.len(),
    ensures
        constraints_model(s, n).len() == n,
        forall|j: int| 0 <= j < n ==> #[trigger] constraints_model(s, n)[j] == constraint_model(s[j]),
    decreases n,
{
    if n > 0 {
        lemma_constraints_model_index(s, (n - 1) as nat);
    }
}

pub proof fn lemma_constraints_model_ext(s1: Seq<Constraint>, s2: Seq<Constraint>, n: nat)
    requires
        n <= s1.len(),
        n <= s2.len(),
        forall|j: int| 0 <= j < n ==> constraint_model(#[trigger] s1[j]) == constraint_model(s2[j]),
    ensures
        constraints_model(s1, n) == constraints_model(s2, n),
    decreases n,
{
    if n > 0 {
        lemma_constraints_model_ext(s1, s2, (n - 1) as nat);
    }
}

// ---------------------------------------------------------------------------
// Copies
// ---------------------------------------------------------------------------

impl RightOperand {
    /// A copy of this operand.
    pub fn copy(&self) -> (r: RightOperand)
        ensures
            r@ == self@,
    {
        match self {
            RightOperand::String(s) => RightOperand::String(s.clone()),
            RightOperand::Reference(s) => RightOperand::Reference(s.clone()),
        }
    }

    /// Whether two operands are the same value.
    pub fn same(&self, other: &RightOperand) -> (r: bool)
        ensures
            r == (self@ == other@),
    {
        match (self, other) {
            (RightOperand::String(a), RightOperand::String(b)) => a.eq(b),
            (RightOperand::Reference(a), RightOperand::Reference(b)) => a.eq(b),
            _ => false,
        }
    }
}

impl AtomicConstraint {
    /// A copy of this constraint.
    pub fn copy(&self) -> (r: AtomicConstraint)
        ensures
            r@ == self@,
    {
        AtomicConstraint {
            left_operand: self.left_operand.clone(),
            operator: self.operator,
            right_operand: self.right_operand.copy(),
        }
    }
}

/// A copy of a constraint list.
pub fn copy_constraints(v: &Vec<Constraint>) -> (r: Vec<Constraint>)
    ensures
        r@.len() == v@.len(),
        constraint_list_model(r@) == constraint_list_model(v@),
    decreases v, 1nat,
{
    let mut r: Vec<Constraint> = Vec::new();
    let mut i: usize = 0;
    while i < v.len()
        invariant
            i <= v.len(),
            r@.len() == i,
            forall|j: int| 0 <= j < i ==> constraint_model(#[trigger] r@[j]) == constraint_model(v@[j]),
        decreases v.len() - i,
    {
        proof {
            assert(decreases_to!(*v => v[i as int]));
        }
        let c = v[i].copy();
        r.push(c);
        i = i + 1;
    }
    proof {
        lemma_constraints_model_ext(r@, v@, v@.len());
    }
    r
}

impl Constraint {
    /// A copy of this constraint.
    pub fn copy(&self) -> (r: Constraint)
        ensures
            r@ == self@,
        decreases self, 0nat,
    {
        match self {
            Constraint::Atomic(a) => Constraint::Atomic(a.copy()),
            Constraint::Logical(l) => Constraint::Logical(
                match l {
                    LogicalConstraint::And { and } => LogicalConstraint::And { and: copy_constraints(and) },
                    LogicalConstraint::AndSequence { and_sequence } => LogicalConstraint::AndSequence {
                        and_sequence: copy_constraints(and_sequence),
                    },
                    LogicalConstraint::Or { or } => LogicalConstraint::Or { or: copy_constraints(or) },
                    LogicalConstraint::Xone { xone } => LogicalConstraint::Xone { xone: copy_constraints(xone) },
                },
            ),
        }
    }
}

/// A copy of an optional constraint list.
pub fn copy_opt_constraints(c: &Option<Vec<Constraint>>) -> (r: Option<Vec<Constraint>>)
    ensures
        opt_constraints_model(r) == opt_constraints_model(*c),
{
    match c {
        Some(v) => Some(copy_constraints(v)),
        None => None,
    }
}

impl Rule {
    /// A copy of this rule.
    pub fn copy(&self) -> (r: Rule)
        ensures
            r@ == self@,
    {
        Rule { action: self.action.clone(), constraint: copy_opt_constraints(&self.constraint) }
    }
}

/// A copy of a rule list.
pub fn copy_rules(v: &Vec<Rule>) -> (r: Vec<Rule>)
    ensures
        rules_model(r@) == rules_model(v@),
{
    let mut r: Vec<Rule> = Vec::new();
    let mut i: usize = 0;
    while i < v.len()
        invariant
            i <= v.len(),
            r@.len() == i,
            forall|j: int| 0 <= j < i ==> #[trigger] r@[j]@ == v@[j]@,
        decreases v.len() - i,
    {
        r.push(v[i].copy());
        i = i + 1;
    }
    assert(rules_model(r@) =~= rules_model(v@));
    r
}

/// A copy of an optional rule list.
pub fn copy_opt_rules(v: &Option<Vec<Rule>>) -> (r: Option<Vec<Rule>>)
    ensures
        opt_rules_model(r) == opt_rules_model(*v),
{
    match v {
        Some(x) => Some(copy_rules(x)),
        None => None,
    }
}

impl Policy {
    /// A copy of this policy.
    pub fn copy(&self) -> (r: Policy)
        ensures
            r@ == self@,
    {
        Policy {
            profile: copy_opt_string(&self.profile),
            permission: copy_opt_rules(&self.permission),
            prohibition: copy_opt_rules(&self.prohibition),
            obligation: copy_opt_rules(&self.obligation),
        }
    }
}

/// The rules of an optional list, an absent list read as empty.
pub fn rules_ref<'a>(r: &'a Option<Vec<Rule>>, empty: &'a Vec<Rule>) -> (v: &'a Vec<Rule>)
    requires
        empty@.len() == 0,
    ensures
        rules_model(v@) == rules_or_empty(opt_rules_model(*r)),
{
    match r {
        Some(v) => v,
        None => {
            assert(rules_model(empty@) =~= Seq::<RuleModel>::empty());
            empty
        },
    }
}

impl LogicalConstraint {
    /// The kind of combination.
    pub open spec fn kind(self) -> LogicalKind {
        match self {
            LogicalConstraint::And { .. } => LogicalKind::And,
            LogicalConstraint::AndSequence { .. } => LogicalKind::AndSequence,
            LogicalConstraint::Or { .. } => LogicalKind::Or,
            LogicalConstraint::Xone { .. } => LogicalKind::Xone,
        }
    }

    /// The combined constraints.
    pub open spec fn items(self) -> Seq<Constraint> {
        match self {
            LogicalConstraint::And { and } => and@,
            LogicalConstraint::AndSequence { and_sequence } => and_sequence@,
            LogicalConstraint::Or { or } => or@,
            LogicalConstraint::Xone { xone } => xone@,
        }
    }
}

} // verus!
