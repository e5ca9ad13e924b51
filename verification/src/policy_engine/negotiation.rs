//! Negotiation of a policy: does an offer meet the policy that a provider requires?
use vstd::prelude::*;
use crate::policy::{
    constraint_list_model, lemma_constraints_model_index, opt_constraints_model,
    rules_model, rules_or_empty, rules_ref, AtomicConstraint, AtomicModel, Constraint, ConstraintModel,
    LogicalConstraint, LogicalKind, Operator, Policy, PolicyModel, Rule, RuleModel,
};
use crate::policy_engine::{
    is_part_of, is_subclass_of, lteq, spec_is_part_of, spec_is_subclass_of, spec_lteq, rfc3339_instant,
};
use crate::policy::RightOperandModel;

verus! {

broadcast use vstd::std_specs::vec::group_vec_axioms;

// ---------------------------------------------------------------------------
// Specification
// ---------------------------------------------------------------------------

/// `a` counts as at least as specific as `b`. Upper and lower bounds are compared
/// inclusively whatever their strictness, so `x <= 5` counts as at least as specific as
/// `x < 5`.
pub open spec fn spec_subsumed_by(a: AtomicModel, b: AtomicModel) -> bool {
    if a.left_operand != b.left_operand {
        false
    } else {
        let av = a.right_operand;
        let bv = b.right_operand;
        match (a.operator, b.operator) {
            (Operator::Eq, Operator::Eq) | (Operator::Neq, Operator::Neq) => av == bv,
            (Operator::IsA, Operator::IsA) => spec_is_subclass_of(av, bv),
            (Operator::IsPartOf, Operator::IsPartOf)
            | (Operator::IsPartOf, Operator::Eq)
            | (Operator::Eq, Operator::IsPartOf) => spec_is_part_of(a.left_operand, av, bv),
            (Operator::HasPart, Operator::HasPart)
            | (Operator::HasPart, Operator::Eq)
            | (Operator::Eq, Operator::HasPart) => spec_is_part_of(a.left_operand, bv, av),
            (Operator::Lt, Operator::Lt)
            | (Operator::Lteq, Operator::Lt)
            | (Operator::Lt, Operator::Lteq)
            | (Operator::Lteq, Operator::Lteq) => spec_lteq(a.left_operand, av, bv, true),
            (Operator::Gt, Operator::Gt)
            | (Operator::Gteq, Operator::Gt)
            | (Operator::Gt, Operator::Gteq)
            | (Operator::Gteq, Operator::Gteq) => spec_lteq(a.left_operand, bv, av, true),
            _ => false,
        }
    }
}

pub open spec fn is_conjunction(k: LogicalKind) -> bool {
    k is And || k is AndSequence
}

/// Constraint `a` (offered) is structurally compatible with constraint `b` (required).
pub open spec fn spec_compatible(a: ConstraintModel, b: ConstraintModel) -> bool
    decreases a, b, 0int,
{
    match (a, b) {
        (ConstraintModel::Atomic(x), ConstraintModel::Atomic(y)) => spec_subsumed_by(x, y),
        (ConstraintModel::Logical(ka, la), ConstraintModel::Logical(kb, lb)) => {
            if (ka is And && kb is And) || (ka is AndSequence && kb is AndSequence) {
                all_b_any_a(la, lb, 0)
            } else if (ka is Or && kb is Or) || (ka is Xone && kb is Xone) {
                any_a_any_b(la, lb, 0)
            } else {
                false
            }
        },
        (ConstraintModel::Atomic(_), ConstraintModel::Logical(kb, lb)) => {
            if is_conjunction(kb) {
                false
            } else {
                any_b(a, lb, 0)
            }
        },
        (ConstraintModel::Logical(ka, la), ConstraintModel::Atomic(_)) => {
            if is_conjunction(ka) {
                any_a(la, b, 0)
            } else {
                all_a(la, b, 0)
            }
        },
    }
}

/// Some constraint of `la` at index `i` or later is compatible with `b`.
pub open spec fn any_a(la: Seq<ConstraintModel>, b: ConstraintModel, i: int) -> bool
    decreases la, b, la.len() - i,
{
    if i < 0 || i >= la.len() {
        false
    } else {
        spec_compatible(la[i], b) || any_a(la, b, i + 1)
    }
}

/// Every constraint of `la` at index `i` or later is compatible with `b`.
pub open spec fn all_a(la: Seq<ConstraintModel>, b: ConstraintModel, i: int) -> bool
    decreases la, b, la.len() - i,
{
    if i < 0 || i >= la.len() {
        true
    } else {
        spec_compatible(la[i], b) && all_a(la, b, i + 1)
    }
}

/// `a` is compatible with some constraint of `lb` at index `i` or later.
pub open spec fn any_b(a: ConstraintModel, lb: Seq<ConstraintModel>, i: int) -> bool
    decreases a, lb, lb.len() - i,
{
    if i < 0 || i >= lb.len() {
        false
    } else {
        spec_compatible(a, lb[i]) || any_b(a, lb, i + 1)
    }
}

/// Every constraint of `lb` at index `i` or later is met by some constraint of `la`.
pub open spec fn all_b_any_a(la: Seq<ConstraintModel>, lb: Seq<ConstraintModel>, i: int) -> bool
    decreases la, lb, lb.len() - i,
{
    if i < 0 || i >= lb.len() {
        true
    } else {
        any_a(la, lb[i], 0) && all_b_any_a(la, lb, i + 1)
    }
}

/// Some constraint of `la` at index `i` or later is compatible with some constraint of `lb`.
pub open spec fn any_a_any_b(la: Seq<ConstraintModel>, lb: Seq<ConstraintModel>, i: int) -> bool
    decreases la, lb, la.len() - i,
{
    if i < 0 || i >= la.len() {
        false
    } else {
        any_b(la[i], lb, 0) || any_a_any_b(la, lb, i + 1)
    }
}

/// Constraint `a` is structurally identical to constraint `b`.
pub open spec fn spec_identical(a: ConstraintModel, b: ConstraintModel) -> bool
    decreases a, b, 0int,
{
    match (a, b) {
        (ConstraintModel::Atomic(x), ConstraintModel::Atomic(y)) => x == y,
        (ConstraintModel::Logical(ka, la), ConstraintModel::Logical(kb, lb)) => ka == kb && la.len()
            == lb.len() && all_b_any_a_identical(la, lb, 0),
        _ => false,
    }
}

/// Some constraint of `la` at index `i` or later is identical to `b`.
pub open spec fn any_a_identical(la: Seq<ConstraintModel>, b: ConstraintModel, i: int) -> bool
    decreases la, b, la.len() - i,
{
    if i < 0 || i >= la.len() {
        false
    } else {
        spec_identical(la[i], b) || any_a_identical(la, b, i + 1)
    }
}

/// Every constraint of `lb` at index `i` or later is identical to some constraint of `la`.
pub open spec fn all_b_any_a_identical(la: Seq<ConstraintModel>, lb: Seq<ConstraintModel>, i: int) -> bool
    decreases la, lb, lb.len() - i,
{
    if i < 0 || i >= lb.len() {
        true
    } else {
        any_a_identical(la, lb[i], 0) && all_b_any_a_identical(la, lb, i + 1)
    }
}

/// The offered constraints `a` are compatible with the required constraints `b`.
pub open spec fn spec_constraints_compatible(
    a: Option<Seq<ConstraintModel>>,
    b: Option<Seq<ConstraintModel>>,
) -> bool {
    match (a, b) {
        (_, None) => true,
        (None, Some(p)) => p.len() == 0,
        (Some(c), Some(p)) => !(c.len() == 0 && p.len() != 0) && all_b_any_a(c, p, 0),
    }
}

/// The constraints `a` are identical to the constraints `b`.
pub open spec fn spec_constraints_identical(
    a: Option<Seq<ConstraintModel>>,
    b: Option<Seq<ConstraintModel>>,
) -> bool {
    match (a, b) {
        (None, None) => true,
        (Some(x), Some(y)) => (x.len() == 0 && y.len() == 0) || (x.len() == y.len()
            && all_b_any_a_identical(x, y, 0)),
        _ => false,
    }
}

// ---------------------------------------------------------------------------
// Implementation
// ---------------------------------------------------------------------------

/// Whether atomic constraint `a` counts as at least as specific as `b` (bounds compared
/// inclusively whatever their strictness).
pub fn subsumed_by(a: &AtomicConstraint, b: &AtomicConstraint) -> (r: bool)
    ensures
        r == spec_subsumed_by(a@, b@),
{
    if !a.left_operand.eq(&b.left_operand) {
        return false;
    }
    let a_val = &a.right_operand;
    let b_val = &b.right_operand;
    match (a.operator, b.operator) {
        (Operator::Eq, Operator::Eq) | (Operator::Neq, Operator::Neq) => a_val.same(b_val),
        (Operator::IsA, Operator::IsA) => is_subclass_of(a.left_operand.as_str(), a_val, b_val),
        (Operator::IsPartOf, Operator::IsPartOf)
        | (Operator::IsPartOf, Operator::Eq)
        | (Operator::Eq, Operator::IsPartOf) => is_part_of(a.left_operand.as_str(), a_val, b_val),
        (Operator::HasPart, Operator::HasPart)
        | (Operator::HasPart, Operator::Eq)
        | (Operator::Eq, Operator::HasPart) => is_part_of(a.left_operand.as_str(), b_val, a_val),
        (Operator::Lt, Operator::Lt)
        | (Operator::Lteq, Operator::Lt)
        | (Operator::Lt, Operator::Lteq)
        | (Operator::Lteq, Operator::Lteq) => lteq(a.left_operand.as_str(), a_val, b_val, true),
        (Operator::Gt, Operator::Gt)
        | (Operator::Gteq, Operator::Gt)
        | (Operator::Gt, Operator::Gteq)
        | (Operator::Gteq, Operator::Gteq) => lteq(a.left_operand.as_str(), b_val, a_val, true),
        _ => false,
    }
}

/// Whether offered constraint `a` is structurally compatible with required constraint `b`.
pub fn evaluate_structural_compatibility(a: &Constraint, b: &Constraint) -> (r: bool)
    ensures
        r == spec_compatible(a@, b@),
    decreases a, b, 0nat,
{
    match (a, b) {
        (Constraint::Atomic(x), Constraint::Atomic(y)) => subsumed_by(x, y),
        (Constraint::Logical(la), Constraint::Logical(lb)) => match (la, lb) {
            (LogicalConstraint::And { and: al }, LogicalConstraint::And { and: bl })
            | (
                LogicalConstraint::AndSequence { and_sequence: al },
                LogicalConstraint::AndSequence { and_sequence: bl },
            ) => all_b_any_a_compatible(al, bl),
            (LogicalConstraint::Or { or: al }, LogicalConstraint::Or { or: bl })
            | (LogicalConstraint::Xone { xone: al }, LogicalConstraint::Xone { xone: bl }) => any_a_any_b_compatible(al, bl),
            _ => false,
        },
        (Constraint::Atomic(_), Constraint::Logical(lb)) => match lb {
            LogicalConstraint::And { .. } | LogicalConstraint::AndSequence { .. } => false,
            LogicalConstraint::Or { or } | LogicalConstraint::Xone { xone: or } => any_b_compatible(a, or),
        },
        (Constraint::Logical(la), Constraint::Atomic(_)) => match la {
            LogicalConstraint::Or { or } | LogicalConstraint::Xone { xone: or } => all_a_compatible(or, b),
            LogicalConstraint::And { and } | LogicalConstraint::AndSequence { and_sequence: and } =>
                any_a_compatible(and, b),
        },
    }
}

/// Whether some constraint of `al` is compatible with `b`.
fn any_a_compatible(al: &Vec<Constraint>, b: &Constraint) -> (r: bool)
    ensures
        r == any_a(constraint_list_model(al@), b@, 0),
    decreases al, b, 1nat,
{
    let ghost la = constraint_list_model(al@);
    proof {
        lemma_constraints_model_index(al@, al@.len());
    }
    let mut j: usize = 0;
    while j < al.len()
        invariant
            j <= al.len(),
            la == constraint_list_model(al@),
            la.len() == al@.len(),
            forall|k: int| 0 <= k < al@.len() ==> #[trigger] la[k] == al@[k]@,
            any_a(la, b@, 0) == any_a(la, b@, j as int),
        decreases al.len() - j,
    {
        proof {
            assert(decreases_to!(*al => al[j as int]));
        }
        if evaluate_structural_compatibility(&al[j], b) {
            return true;
        }
        j = j + 1;
    }
    false
}

/// Whether every constraint of `al` is compatible with `b`.
fn all_a_compatible(al: &Vec<Constraint>, b: &Constraint) -> (r: bool)
    ensures
        r == all_a(constraint_list_model(al@), b@, 0),
    decreases al, b, 1nat,
{
    let ghost la = constraint_list_model(al@);
    proof {
        lemma_constraints_model_index(al@, al@.len());
    }
    let mut j: usize = 0;
    while j < al.len()
        invariant
            j <= al.len(),
            la == constraint_list_model(al@),
            la.len() == al@.len(),
            forall|k: int| 0 <= k < al@.len() ==> #[trigger] la[k] == al@[k]@,
            all_a(la, b@, 0) == all_a(la, b@, j as int),
        decreases al.len() - j,
    {
        proof {
            assert(decreases_to!(*al => al[j as int]));
        }
        if !evaluate_structural_compatibility(&al[j], b) {
            return false;
        }
        j = j + 1;
    }
    true
}

/// Whether `a` is compatible with some constraint of `bl`.
fn any_b_compatible(a: &Constraint, bl: &Vec<Constraint>) -> (r: bool)
    ensures
        r == any_b(a@, constraint_list_model(bl@), 0),
    decreases a, bl, 1nat,
{
    let ghost lb = constraint_list_model(bl@);
    proof {
        lemma_constraints_model_index(bl@, bl@.len());
    }
    let mut j: usize = 0;
    while j < bl.len()
        invariant
            j <= bl.len(),
            lb == constraint_list_model(bl@),
            lb.len() == bl@.len(),
            forall|k: int| 0 <= k < bl@.len() ==> #[trigger] lb[k] == bl@[k]@,
            any_b(a@, lb, 0) == any_b(a@, lb, j as int),
        decreases bl.len() - j,
    {
        proof {
            assert(decreases_to!(*bl => bl[j as int]));
        }
        if evaluate_structural_compatibility(a, &bl[j]) {
            return true;
        }
        j = j + 1;
    }
    false
}

/// Whether every constraint of `bl` is met by some constraint of `al`.
fn all_b_any_a_compatible(al: &Vec<Constraint>, bl: &Vec<Constraint>) -> (r: bool)
    ensures
        r == all_b_any_a(constraint_list_model(al@), constraint_list_model(bl@), 0),
    decreases al, bl, 2nat,
{
    let ghost la = constraint_list_model(al@);
    let ghost lb = constraint_list_model(bl@);
    proof {
        lemma_constraints_model_index(bl@, bl@.len());
    }
    let mut j: usize = 0;
    while j < bl.len()
        invariant
            j <= bl.len(),
            la == constraint_list_model(al@),
            lb == constraint_list_model(bl@),
            lb.len() == bl@.len(),
            forall|k: int| 0 <= k < bl@.len() ==> #[trigger] lb[k] == bl@[k]@,
            all_b_any_a(la, lb, 0) == all_b_any_a(la, lb, j as int),
        decreases bl.len() - j,
    {
        proof {
            assert(decreases_to!(*bl => bl[j as int]));
        }
        if !any_a_compatible(al, &bl[j]) {
            return false;
        }
        j = j + 1;
    }
    true
}

/// Whether some constraint of `al` is compatible with some constraint of `bl`.
fn any_a_any_b_compatible(al: &Vec<Constraint>, bl: &Vec<Constraint>) -> (r: bool)
    ensures
        r == any_a_any_b(constraint_list_model(al@), constraint_list_model(bl@), 0),
    decreases al, bl, 1nat,
{
    let ghost la = constraint_list_model(al@);
    let ghost lb = constraint_list_model(bl@);
    proof {
        lemma_constraints_model_index(al@, al@.len());
    }
    let mut j: usize = 0;
    while j < al.len()
        invariant
            j <= al.len(),
            lb == constraint_list_model(bl@),
            la == constraint_list_model(al@),
            la.len() == al@.len(),
            forall|k: int| 0 <= k < al@.len() ==> #[trigger] la[k] == al@[k]@,
            any_a_any_b(la, lb, 0) == any_a_any_b(la, lb, j as int),
        decreases al.len() - j,
    {
        proof {
            assert(decreases_to!(*al => al[j as int]));
        }
        if any_b_compatible(&al[j], bl) {
            return true;
        }
        j = j + 1;
    }
    false
}

/// Whether offered constraint `a` is structurally identical to constraint `b`.
pub fn evaluate_structural_identity(a: &Constraint, b: &Constraint) -> (r: bool)
    ensures
        r == spec_identical(a@, b@),
    decreases a, b, 0nat,
{
    match (a, b) {
        (Constraint::Atomic(x), Constraint::Atomic(y)) => {
            x.left_operand.eq(&y.left_operand) && x.operator == y.operator
                && x.right_operand.same(&y.right_operand)
        },
        (Constraint::Logical(la), Constraint::Logical(lb)) => match (la, lb) {
            (LogicalConstraint::And { and: al }, LogicalConstraint::And { and: bl })
            | (
                LogicalConstraint::AndSequence { and_sequence: al },
                LogicalConstraint::AndSequence { and_sequence: bl },
            )
            | (LogicalConstraint::Or { or: al }, LogicalConstraint::Or { or: bl })
            | (LogicalConstraint::Xone { xone: al }, LogicalConstraint::Xone { xone: bl }) => {
                proof {
                    lemma_constraints_model_index(al@, al@.len());
                    lemma_constraints_model_index(bl@, bl@.len());
                }
                al.len() == bl.len() && all_b_any_a_identical_exec(al, bl)
            },
            _ => false,
        },
        _ => false,
    }
}

/// Whether some constraint of `al` is identical to `b`.
fn any_a_identical_exec(al: &Vec<Constraint>, b: &Constraint) -> (r: bool)
    ensures
        r == any_a_identical(constraint_list_model(al@), b@, 0),
    decreases al, b, 1nat,
{
    let ghost la = constraint_list_model(al@);
    proof {
        lemma_constraints_model_index(al@, al@.len());
    }
    let mut j: usize = 0;
    while j < al.len()
        invariant
            j <= al.len(),
            la == constraint_list_model(al@),
            la.len() == al@.len(),
            forall|k: int| 0 <= k < al@.len() ==> #[trigger] la[k] == al@[k]@,
            any_a_identical(la, b@, 0) == any_a_identical(la, b@, j as int),
        decreases al.len() - j,
    {
        proof {
            assert(decreases_to!(*al => al[j as int]));
        }
        if evaluate_structural_identity(&al[j], b) {
            return true;
        }
        j = j + 1;
    }
    false
}

/// Whether every constraint of `bl` is identical to some constraint of `al`.
fn all_b_any_a_identical_exec(al: &Vec<Constraint>, bl: &Vec<Constraint>) -> (r: bool)
    ensures
        r == all_b_any_a_identical(constraint_list_model(al@), constraint_list_model(bl@), 0),
    decreases al, bl, 2nat,
{
    let ghost la = constraint_list_model(al@);
    let ghost lb = constraint_list_model(bl@);
    proof {
        lemma_constraints_model_index(bl@, bl@.len());
    }
    let mut j: usize = 0;
    while j < bl.len()
        invariant
            j <= bl.len(),
            la == constraint_list_model(al@),
            lb == constraint_list_model(bl@),
            lb.len() == bl@.len(),
            forall|k: int| 0 <= k < bl@.len() ==> #[trigger] lb[k] == bl@[k]@,
            all_b_any_a_identical(la, lb, 0) == all_b_any_a_identical(la, lb, j as int),
        decreases bl.len() - j,
    {
        proof {
            assert(decreases_to!(*bl => bl[j as int]));
        }
        if !any_a_identical_exec(al, &bl[j]) {
            return false;
        }
        j = j + 1;
    }
    true
}

/// Whether the offered constraints `a` are compatible with the required constraints `b`.
pub fn constraints_are_compatible(a: &Option<Vec<Constraint>>, b: &Option<Vec<Constraint>>) -> (r: bool)
    ensures
        r == spec_constraints_compatible(opt_constraints_model(*a), opt_constraints_model(*b)),
{
    match (a, b) {
        (_, None) => true,
        (None, Some(p)) => {
            proof {
                lemma_constraints_model_index(p@, p@.len());
            }
            p.len() == 0
        },
        (Some(c), Some(p)) => {
            proof {
                lemma_constraints_model_index(c@, c@.len());
                lemma_constraints_model_index(p@, p@.len());
            }
            if c.len() == 0 && p.len() != 0 {
                false
            } else {
                all_b_any_a_compatible(c, p)
            }
        },
    }
}

/// Whether the constraints `a` are identical to the constraints `b`.
pub fn constraints_are_identical(a: &Option<Vec<Constraint>>, b: &Option<Vec<Constraint>>) -> (r: bool)
    ensures
        r == spec_constraints_identical(opt_constraints_model(*a), opt_constraints_model(*b)),
{
    match (a, b) {
        (None, None) => true,
        (Some(x), Some(y)) => {
            proof {
                lemma_constraints_model_index(x@, x@.len());
                lemma_constraints_model_index(y@, y@.len());
            }
            if x.len() == 0 && y.len() == 0 {
                true
            } else if x.len() == y.len() {
                all_b_any_a_identical_exec(x, y)
            } else {
                false
            }
        },
        _ => false,
    }
}

// ---------------------------------------------------------------------------
// Policy negotiation
// ---------------------------------------------------------------------------

/// The result of negotiating an offer against a required policy.
#[derive(Debug)]
pub enum NegotiationOutcome {
    Success(Policy),
    Forbidden(String),
}

pub enum OutcomeModel {
    Success(PolicyModel),
    Forbidden(Seq<char>),
}

impl View for NegotiationOutcome {
    type V = OutcomeModel;

    open spec fn view(&self) -> OutcomeModel {
        match self {
            NegotiationOutcome::Success(p) => OutcomeModel::Success(p@),
            NegotiationOutcome::Forbidden(m) => OutcomeModel::Forbidden(m@),
        }
    }
}

/// Offered rule `o` meets required rule `r`: the same action, compatible constraints.
pub open spec fn meets(o: RuleModel, r: RuleModel) -> bool {
    o.action == r.action && spec_constraints_compatible(o.constraint, r.constraint)
}

/// Offered rule `o` is confirmed against rule `r`: the same action, identical constraints.
pub open spec fn confirms(o: RuleModel, r: RuleModel) -> bool {
    o.action == r.action && spec_constraints_identical(o.constraint, r.constraint)
}

/// Offered rule `o` collides with some prohibition of `proh`.
pub open spec fn collides(o: RuleModel, proh: Seq<RuleModel>) -> bool {
    exists|j: int| 0 <= j < proh.len() && #[trigger] meets(o, proh[j])
}

/// Some rule of `off` meets `r`.
pub open spec fn met(off: Seq<RuleModel>, r: RuleModel) -> bool {
    exists|j: int| 0 <= j < off.len() && #[trigger] meets(off[j], r)
}

/// Some rule of `off` confirms `r`.
pub open spec fn confirmed(off: Seq<RuleModel>, r: RuleModel) -> bool {
    exists|j: int| 0 <= j < off.len() && #[trigger] confirms(off[j], r)
}

/// The first rule of `off`, at index `i` or later, that meets `r`.
pub open spec fn first_meeting(off: Seq<RuleModel>, r: RuleModel, i: int) -> Option<int>
    decreases off.len() - i,
{
    if i < 0 || i >= off.len() {
        None
    } else if meets(off[i], r) {
        Some(i)
    } else {
        first_meeting(off, r, i + 1)
    }
}

/// The first required rule of `req`, at index `i` or later, that no rule of `off` meets.
pub open spec fn first_unmet(req: Seq<RuleModel>, off: Seq<RuleModel>, i: int) -> Option<int>
    decreases req.len() - i,
{
    if i < 0 || i >= req.len() {
        None
    } else if first_meeting(off, req[i], 0) is None {
        Some(i)
    } else {
        first_unmet(req, off, i + 1)
    }
}

/// The first rule of `off`, at index `i` or later, that collides with a prohibition.
pub open spec fn first_colliding(off: Seq<RuleModel>, proh: Seq<RuleModel>, i: int) -> Option<int>
    decreases off.len() - i,
{
    if i < 0 || i >= off.len() {
        None
    } else if collides(off[i], proh) {
        Some(i)
    } else {
        first_colliding(off, proh, i + 1)
    }
}

/// The first obligation of `obl`, at index `i` or later, that `off` does not confirm.
pub open spec fn first_unconfirmed(obl: Seq<RuleModel>, off: Seq<RuleModel>, i: int) -> Option<int>
    decreases obl.len() - i,
{
    if i < 0 || i >= obl.len() {
        None
    } else if !confirmed(off, obl[i]) {
        Some(i)
    } else {
        first_unconfirmed(obl, off, i + 1)
    }
}

/// The offered permissions that meet the required ones, one per required permission.
pub open spec fn negotiated_permissions(req: Seq<RuleModel>, off: Seq<RuleModel>) -> Seq<RuleModel> {
    Seq::new(req.len(), |k: int| off[first_meeting(off, req[k], 0)->0])
}

pub open spec fn unmet_message(action: Seq<char>) -> Seq<char> {
    "The offer's policy does not satisfy the permission requirement for action '"@ + action + "'"@
}

pub open spec fn collision_message(action: Seq<char>) -> Seq<char> {
    "Requested action '"@ + action + "' collides with prohibition"@
}

pub open spec fn unconfirmed_message(action: Seq<char>) -> Seq<char> {
    "Required obligation '"@ + action + "' was not explicitly matched by the offer"@
}

/// The outcome of negotiating `offered` against `required`.
pub open spec fn spec_negotiate(required: PolicyModel, offered: PolicyModel) -> OutcomeModel {
    let req = rules_or_empty(required.permission);
    let off = rules_or_empty(offered.permission);
    let proh = rules_or_empty(required.prohibition);
    let obl = rules_or_empty(required.obligation);
    let off_obl = rules_or_empty(offered.obligation);
    match first_unmet(req, off, 0) {
        Some(k) => OutcomeModel::Forbidden(unmet_message(req[k].action)),
        None => match first_colliding(off, proh, 0) {
            Some(k) => OutcomeModel::Forbidden(collision_message(off[k].action)),
            None => match first_unconfirmed(obl, off_obl, 0) {
                Some(k) => OutcomeModel::Forbidden(unconfirmed_message(obl[k].action)),
                None => OutcomeModel::Success(
                    PolicyModel {
                        profile: required.profile,
                        permission: if req.len() == 0 {
                            None
                        } else {
                            Some(negotiated_permissions(req, off))
                        },
                        prohibition: required.prohibition,
                        obligation: required.obligation,
                    },
                ),
            },
        },
    }
}

/// Negotiates an offered policy against the policy that the provider requires.
///
/// Every required permission must be met by an offered permission for the same
/// action whose constraints are at least as specific; no offered permission may
/// meet a prohibition; every required obligation must be confirmed by an
/// identical offered obligation. On success the agreed policy keeps the required
/// profile, prohibitions and obligations and takes, for each required permission,
/// the first offered permission that meets it.
pub fn negotiate_policy(required: &Policy, offered: &Policy) -> (r: NegotiationOutcome)
    ensures
        r@ == spec_negotiate(required@, offered@),
{
    let empty: Vec<Rule> = Vec::new();
    let req = rules_ref(&required.permission, &empty);
    let off = rules_ref(&offered.permission, &empty);
    let proh = rules_ref(&required.prohibition, &empty);
    let obl = rules_ref(&required.obligation, &empty);
    let off_obl = rules_ref(&offered.obligation, &empty);
    let ghost rq = rules_model(req@);
    let ghost of = rules_model(off@);
    let ghost ph = rules_model(proh@);
    let ghost ob = rules_model(obl@);
    let ghost oo = rules_model(off_obl@);

    // every required permission is met by an offered one
    let mut negotiated: Vec<Rule> = Vec::new();
    let mut i: usize = 0;
    while i < req.len()
        invariant
            i <= req.len(),
            rq == rules_model(req@),
            of == rules_model(off@),
            rq == rules_or_empty(required@.permission),
            of == rules_or_empty(offered@.permission),
            first_unmet(rq, of, 0) == first_unmet(rq, of, i as int),
            negotiated@.len() == i,
            rules_model(negotiated@) == negotiated_permissions(rq.take(i as int), of),
        decreases req.len() - i,
    {
        let r_perm = &req[i];
        let mut j: usize = 0;
        let mut found = false;
        while j < off.len() && !found
            invariant
                i < req.len(),
                j <= off.len(),
                r_perm == req@[i as int],
                rq == rules_model(req@),
                of == rules_model(off@),
                negotiated@.len() == i,
                found ==> j < off.len() && first_meeting(of, rq[i as int], 0) == Some(j as int),
                !found ==> first_meeting(of, rq[i as int], 0) == first_meeting(of, rq[i as int], j as int),
            decreases off.len() - j, if found { 0int } else { 1int },
        {
            let o_perm = &off[j];
            if r_perm.action.eq(&o_perm.action) && constraints_are_compatible(&o_perm.constraint, &r_perm.constraint) {
                found = true;
            } else {
                j = j + 1;
            }
        }
        if !found {
            let msg = crate::text::concat3(
                "The offer's policy does not satisfy the permission requirement for action '",
                r_perm.action.as_str(),
                "'",
            );
            return NegotiationOutcome::Forbidden(msg);
        }
        let ghost before = negotiated@;
        negotiated.push(off[j].copy());
        i = i + 1;
        proof {
            assert(rules_model(negotiated@) =~= negotiated_permissions(rq.take(i as int), of)) by {
                assert(rules_model(before) == negotiated_permissions(rq.take(i - 1), of));
                assert forall|k: int| 0 <= k < i - 1 implies #[trigger] rules_model(negotiated@)[k]
                    == rules_model(before)[k] by {
                    assert(negotiated@[k] == before[k]);
                }
            }
        }
    }

    // no offered permission collides with a prohibition
    let mut i: usize = 0;
    while i < off.len()
        invariant
            i <= off.len(),
            rq == rules_or_empty(required@.permission),
            of == rules_or_empty(offered@.permission),
            ph == rules_or_empty(required@.prohibition),
            of == rules_model(off@),
            ph == rules_model(proh@),
            first_unmet(rq, of, 0) is None,
            first_colliding(of, ph, 0) == first_colliding(of, ph, i as int),
        decreases off.len() - i,
    {
        let o_perm = &off[i];
        let mut j: usize = 0;
        while j < proh.len()
            invariant
                i < off.len(),
                j <= proh.len(),
                o_perm == off@[i as int],
                rq == rules_or_empty(required@.permission),
                of == rules_or_empty(offered@.permission),
                ph == rules_or_empty(required@.prohibition),
                of == rules_model(off@),
                ph == rules_model(proh@),
                first_unmet(rq, of, 0) is None,
                first_colliding(of, ph, 0) == first_colliding(of, ph, i as int),
                forall|k: int| 0 <= k < j ==> !meets(of[i as int], #[trigger] ph[k]),
            decreases proh.len() - j,
        {
            let prohib = &proh[j];
            if o_perm.action.eq(&prohib.action) && constraints_are_compatible(&o_perm.constraint, &prohib.constraint) {
                assert(meets(of[i as int], ph[j as int]));
                let msg = crate::text::concat3(
                    "Requested action '",
                    prohib.action.as_str(),
                    "' collides with prohibition",
                );
                return NegotiationOutcome::Forbidden(msg);
            }
            j = j + 1;
        }
        i = i + 1;
    }

    // every required obligation is confirmed by the offer
    let mut i: usize = 0;
    while i < obl.len()
        invariant
            i <= obl.len(),
            rq == rules_or_empty(required@.permission),
            of == rules_or_empty(offered@.permission),
            ph == rules_or_empty(required@.prohibition),
            ob == rules_or_empty(required@.obligation),
            oo == rules_or_empty(offered@.obligation),
            ob == rules_model(obl@),
            oo == rules_model(off_obl@),
            first_unmet(rq, of, 0) is None,
            first_colliding(of, ph, 0) is None,
            first_unconfirmed(ob, oo, 0) == first_unconfirmed(ob, oo, i as int),
        decreases obl.len() - i,
    {
        let p_ob = &obl[i];
        let mut j: usize = 0;
        let mut matched = false;
        while j < off_obl.len() && !matched
            invariant
                i < obl.len(),
                j <= off_obl.len(),
                p_ob == obl@[i as int],
                ob == rules_model(obl@),
                oo == rules_model(off_obl@),
                matched ==> confirmed(oo, ob[i as int]),
                !matched ==> forall|k: int| 0 <= k < j ==> !confirms(#[trigger] oo[k], ob[i as int]),
            decreases off_obl.len() - j, if matched { 0int } else { 1int },
        {
            let c_ob = &off_obl[j];
            if c_ob.action.eq(&p_ob.action) && constraints_are_identical(&c_ob.constraint, &p_ob.constraint) {
                assert(confirms(oo[j as int], ob[i as int]));
                matched = true;
            } else {
                j = j + 1;
            }
        }
        if !matched {
            let msg = crate::text::concat3(
                "Required obligation '",
                p_ob.action.as_str(),
                "' was not explicitly matched by the offer",
            );
            return NegotiationOutcome::Forbidden(msg);
        }
        i = i + 1;
    }

    let permission = if negotiated.len() == 0 {
        None
    } else {
        proof {
            assert(rq.take(rq.len() as int) =~= rq);
        }
        Some(negotiated)
    };
    NegotiationOutcome::Success(
        Policy {
            profile: crate::text::copy_opt_string(&required.profile),
            permission,
            prohibition: crate::policy::copy_opt_rules(&required.prohibition),
            obligation: crate::policy::copy_opt_rules(&required.obligation),
        },
    )
}

// ---------------------------------------------------------------------------
// Laws
// ---------------------------------------------------------------------------

proof fn lemma_first_meeting(off: Seq<RuleModel>, r: RuleModel, i: int)
    requires
        0 <= i <= off.len(),
    ensures
        first_meeting(off, r, i) is None <==> forall|j: int| i <= j < off.len() ==> !#[trigger] meets(off[j], r),
        first_meeting(off, r, i) matches Some(k) ==> i <= k < off.len() && meets(off[k], r),
    decreases off.len() - i,
{
    if i < off.len() {
        lemma_first_meeting(off, r, i + 1);
    }
}

proof fn lemma_first_unmet(req: Seq<RuleModel>, off: Seq<RuleModel>, i: int)
    requires
        0 <= i <= req.len(),
    ensures
        first_unmet(req, off, i) is None <==> forall|k: int| i <= k < req.len() ==> #[trigger] first_meeting(off, req[k], 0) is Some,
    decreases req.len() - i,
{
    if i < req.len() {
        lemma_first_unmet(req, off, i + 1);
    }
}

proof fn lemma_first_colliding(off: Seq<RuleModel>, proh: Seq<RuleModel>, i: int)
    requires
        0 <= i <= off.len(),
    ensures
        first_colliding(off, proh, i) is None <==> forall|k: int| i <= k < off.len() ==> !#[trigger] collides(off[k], proh),
    decreases off.len() - i,
{
    if i < off.len() {
        lemma_first_colliding(off, proh, i + 1);
    }
}

proof fn lemma_first_unconfirmed(obl: Seq<RuleModel>, off: Seq<RuleModel>, i: int)
    requires
        0 <= i <= obl.len(),
    ensures
        first_unconfirmed(obl, off, i) is None <==> forall|k: int| i <= k < obl.len() ==> #[trigger] confirmed(off, obl[k]),
    decreases obl.len() - i,
{
    if i < obl.len() {
        lemma_first_unconfirmed(obl, off, i + 1);
    }
}

/// An offer is acceptable: every required permission is met by an offered permission,
/// no offered permission meets a prohibition, every required obligation is confirmed.
pub open spec fn offer_acceptable(required: PolicyModel, offered: PolicyModel) -> bool {
    let req = rules_or_empty(required.permission);
    let off = rules_or_empty(offered.permission);
    let proh = rules_or_empty(required.prohibition);
    let obl = rules_or_empty(required.obligation);
    let off_obl = rules_or_empty(offered.obligation);
    &&& forall|k: int| 0 <= k < req.len() ==> #[trigger] met(off, req[k])
    &&& forall|i: int, j: int| 0 <= i < off.len() && 0 <= j < proh.len() ==> !#[trigger] meets(off[i], proh[j])
    &&& forall|k: int| 0 <= k < obl.len() ==> #[trigger] confirmed(off_obl, obl[k])
}

/// Negotiation succeeds exactly on acceptable offers.
pub proof fn negotiation_succeeds_iff_acceptable(required: PolicyModel, offered: PolicyModel)
    ensures
        spec_negotiate(required, offered) is Success <==> offer_acceptable(required, offered),
{
    let req = rules_or_empty(required.permission);
    let off = rules_or_empty(offered.permission);
    let proh = rules_or_empty(required.prohibition);
    let obl = rules_or_empty(required.obligation);
    let off_obl = rules_or_empty(offered.obligation);
    lemma_first_unmet(req, off, 0);
    lemma_first_colliding(off, proh, 0);
    lemma_first_unconfirmed(obl, off_obl, 0);
    assert forall|k: int| 0 <= k < req.len() implies (#[trigger] first_meeting(off, req[k], 0) is Some <==> met(off, req[k])) by {
        lemma_first_meeting(off, req[k], 0);
        if met(off, req[k]) {
            let j = choose|j: int| 0 <= j < off.len() && meets(off[j], req[k]);
            assert(!(first_meeting(off, req[k], 0) is None));
        }
    }
    if offer_acceptable(required, offered) {
        assert forall|k: int| 0 <= k < off.len() implies !#[trigger] collides(off[k], proh) by {
            if collides(off[k], proh) {
                let j = choose|j: int| 0 <= j < proh.len() && meets(off[k], proh[j]);
                assert(!meets(off[k], proh[j]));
            }
        }
        assert forall|k: int| 0 <= k < req.len() implies #[trigger] first_meeting(off, req[k], 0) is Some by {
            assert(met(off, req[k]));
        }
        assert(first_unmet(req, off, 0) is None);
        assert(first_colliding(off, proh, 0) is None);
        assert(first_unconfirmed(obl, off_obl, 0) is None);
        assert(spec_negotiate(required, offered) is Success);
    }
    if spec_negotiate(required, offered) is Success {
        assert forall|i: int, j: int| 0 <= i < off.len() && 0 <= j < proh.len() implies !#[trigger] meets(off[i], proh[j]) by {
            assert(!collides(off[i], proh));
        }
        assert forall|k: int| 0 <= k < req.len() implies #[trigger] met(off, req[k]) by {
            assert(first_meeting(off, req[k], 0) is Some);
        }
        assert(offer_acceptable(required, offered));
    }
}

/// An agreed policy keeps the required profile, prohibitions and obligations, and
/// holds, for each required permission in order, an offered permission that meets it.
pub proof fn agreed_policy_is_built_from_the_offer(required: PolicyModel, offered: PolicyModel)
    requires
        spec_negotiate(required, offered) is Success,
    ensures
        ({
            let agreed = spec_negotiate(required, offered)->Success_0;
            let req = rules_or_empty(required.permission);
            let off = rules_or_empty(offered.permission);
            let perms = rules_or_empty(agreed.permission);
            &&& agreed.profile == required.profile
            &&& agreed.prohibition == required.prohibition
            &&& agreed.obligation == required.obligation
            &&& (agreed.permission is None <==> req.len() == 0)
            &&& perms.len() == req.len()
            &&& forall|k: int| #![trigger req[k]] 0 <= k < req.len() ==> exists|j: int| 0 <= j < off.len() && #[trigger] perms[k] == off[j]
                && meets(off[j], req[k])
        }),
{
    let req = rules_or_empty(required.permission);
    let off = rules_or_empty(offered.permission);
    let agreed = spec_negotiate(required, offered)->Success_0;
    let perms = rules_or_empty(agreed.permission);
    lemma_first_unmet(req, off, 0);
    assert forall|k: int| #![trigger req[k]] 0 <= k < req.len() implies exists|j: int| 0 <= j < off.len() && #[trigger] perms[k] == off[j]
        && meets(off[j], req[k]) by {
        lemma_first_meeting(off, req[k], 0);
        let j = first_meeting(off, req[k], 0)->0;
        assert(perms[k] == off[j]);
    }
}

proof fn lemma_any_a_identical_at(la: Seq<ConstraintModel>, b: ConstraintModel, i: int, j: int)
    requires
        0 <= i <= j < la.len(),
        spec_identical(la[j], b),
    ensures
        any_a_identical(la, b, i),
    decreases j - i,
{
    if i < j {
        lemma_any_a_identical_at(la, b, i + 1, j);
    }
}

proof fn lemma_all_b_any_a_identical(la: Seq<ConstraintModel>, lb: Seq<ConstraintModel>, i: int)
    requires
        0 <= i <= lb.len(),
        forall|k: int| i <= k < lb.len() ==> any_a_identical(la, #[trigger] lb[k], 0),
    ensures
        all_b_any_a_identical(la, lb, i),
    decreases lb.len() - i,
{
    if i < lb.len() {
        lemma_all_b_any_a_identical(la, lb, i + 1);
    }
}

/// Every constraint is identical to itself.
pub proof fn identical_is_reflexive(c: ConstraintModel)
    ensures
        spec_identical(c, c),
    decreases c,
{
    match c {
        ConstraintModel::Atomic(_) => {},
        ConstraintModel::Logical(k, l) => {
            assert forall|j: int| 0 <= j < l.len() implies any_a_identical(l, #[trigger] l[j], 0) by {
                assert(decreases_to!(c => l));
                assert(decreases_to!(l => l[j]));
                identical_is_reflexive(l[j]);
                lemma_any_a_identical_at(l, l[j], 0, j);
            }
            lemma_all_b_any_a_identical(l, l, 0);
        },
    }
}

/// Every list of constraints, or its absence, is identical to itself.
pub proof fn constraints_identical_is_reflexive(c: Option<Seq<ConstraintModel>>)
    ensures
        spec_constraints_identical(c, c),
{
    match c {
        Some(l) => {
            assert forall|j: int| 0 <= j < l.len() implies any_a_identical(l, #[trigger] l[j], 0) by {
                identical_is_reflexive(l[j]);
                lemma_any_a_identical_at(l, l[j], 0, j);
            }
            lemma_all_b_any_a_identical(l, l, 0);
        },
        None => {},
    }
}

/// An offer that repeats each required obligation among its own obligations confirms
/// every required obligation.
pub proof fn repeated_obligations_are_confirmed(required: PolicyModel, offered: PolicyModel)
    requires
        forall|k: int| 0 <= k < rules_or_empty(required.obligation).len() ==> exists|j: int| 0 <= j < rules_or_empty(offered.obligation).len()
            && #[trigger] rules_or_empty(offered.obligation)[j] == #[trigger] rules_or_empty(required.obligation)[k],
    ensures
        forall|k: int| 0 <= k < rules_or_empty(required.obligation).len() ==> #[trigger] confirmed(
            rules_or_empty(offered.obligation),
            rules_or_empty(required.obligation)[k],
        ),
{
    let obl = rules_or_empty(required.obligation);
    let off_obl = rules_or_empty(offered.obligation);
    assert forall|k: int| 0 <= k < obl.len() implies #[trigger] confirmed(off_obl, obl[k]) by {
        let j = choose|j: int| 0 <= j < off_obl.len() && #[trigger] off_obl[j] == obl[k];
        constraints_identical_is_reflexive(obl[k].constraint);
        assert(confirms(off_obl[j], obl[k]));
    }
}

// ---------------------------------------------------------------------------
// What compatibility means
// ---------------------------------------------------------------------------

proof fn lemma_any_b(a: ConstraintModel, lb: Seq<ConstraintModel>, i: int)
    requires
        0 <= i,
    ensures
        any_b(a, lb, i) <==> exists|j: int| i <= j < lb.len() && #[trigger] spec_compatible(a, lb[j]),
    decreases lb.len() - i,
{
    if i < lb.len() {
        lemma_any_b(a, lb, i + 1);
        if spec_compatible(a, lb[i]) {
            assert(exists|j: int| i <= j < lb.len() && #[trigger] spec_compatible(a, lb[j]));
        }
    }
}

proof fn lemma_any_a(la: Seq<ConstraintModel>, b: ConstraintModel, i: int)
    requires
        0 <= i,
    ensures
        any_a(la, b, i) <==> exists|j: int| i <= j < la.len() && #[trigger] spec_compatible(la[j], b),
    decreases la.len() - i,
{
    if i < la.len() {
        lemma_any_a(la, b, i + 1);
        if spec_compatible(la[i], b) {
            assert(exists|j: int| i <= j < la.len() && #[trigger] spec_compatible(la[j], b));
        }
    }
}

proof fn lemma_all_a(la: Seq<ConstraintModel>, b: ConstraintModel, i: int)
    requires
        0 <= i,
    ensures
        all_a(la, b, i) <==> forall|j: int| i <= j < la.len() ==> #[trigger] spec_compatible(la[j], b),
    decreases la.len() - i,
{
    if i < la.len() {
        lemma_all_a(la, b, i + 1);
        if all_a(la, b, i) {
            assert forall|j: int| i <= j < la.len() implies #[trigger] spec_compatible(la[j], b) by {
                if j > i {
                    assert(all_a(la, b, i + 1));
                }
            }
        }
        if forall|j: int| i <= j < la.len() ==> #[trigger] spec_compatible(la[j], b) {
            assert(spec_compatible(la[i], b));
        }
    }
}

/// Some constraint of `la` is compatible with `b`.
pub open spec fn some_compatible(la: Seq<ConstraintModel>, b: ConstraintModel) -> bool {
    exists|k: int| 0 <= k < la.len() && #[trigger] spec_compatible(la[k], b)
}

proof fn lemma_all_b_any_a(la: Seq<ConstraintModel>, lb: Seq<ConstraintModel>, i: int)
    requires
        0 <= i,
    ensures
        all_b_any_a(la, lb, i) <==> forall|j: int| i <= j < lb.len() ==> #[trigger] some_compatible(la, lb[j]),
    decreases lb.len() - i,
{
    if i < lb.len() {
        lemma_all_b_any_a(la, lb, i + 1);
        lemma_any_a(la, lb[i], 0);
        if all_b_any_a(la, lb, i) {
            assert forall|j: int| i <= j < lb.len() implies #[trigger] some_compatible(la, lb[j]) by {
                if j > i {
                    assert(all_b_any_a(la, lb, i + 1));
                }
            }
        }
        if forall|j: int| i <= j < lb.len() ==> #[trigger] some_compatible(la, lb[j]) {
            assert(some_compatible(la, lb[i]));
        }
    }
}

proof fn lemma_any_a_any_b(la: Seq<ConstraintModel>, lb: Seq<ConstraintModel>, i: int)
    requires
        0 <= i,
    ensures
        any_a_any_b(la, lb, i) <==> exists|j: int, k: int| i <= j < la.len() && 0 <= k < lb.len()
            && #[trigger] spec_compatible(la[j], lb[k]),
    decreases la.len() - i,
{
    if i < la.len() {
        lemma_any_a_any_b(la, lb, i + 1);
        lemma_any_b(la[i], lb, 0);
        if any_b(la[i], lb, 0) {
            let k = choose|k: int| 0 <= k < lb.len() && #[trigger] spec_compatible(la[i], lb[k]);
            assert(spec_compatible(la[i], lb[k]));
        }
        if exists|j: int, k: int| i <= j < la.len() && 0 <= k < lb.len() && #[trigger] spec_compatible(la[j], lb[k]) {
            let (j, k) = choose|j: int, k: int| i <= j < la.len() && 0 <= k < lb.len() && #[trigger] spec_compatible(la[j], lb[k]);
            if j == i {
                assert(any_b(la[i], lb, 0));
            } else {
                assert(exists|j2: int, k2: int| i + 1 <= j2 < la.len() && 0 <= k2 < lb.len() && #[trigger] spec_compatible(la[j2], lb[k2]));
            }
        }
    }
}

/// What structural compatibility of an offered constraint `a` with a required one `b`
/// means when one of them combines others:
/// - an atomic offer never meets a conjunction (`and`, `andSequence`), and meets a
///   disjunction (`or`, `xone`) exactly when it meets one of its branches;
/// - a conjunction offered meets an atomic requirement when one of its branches does,
///   a disjunction offered only when all of its branches do;
/// - conjunctions of the same kind: every required branch is met by some offered one;
///   disjunctions of the same kind: some offered branch meets some required one;
///   combinations of different kinds never meet.
pub proof fn compatibility_of_combined_constraints(a: ConstraintModel, b: ConstraintModel)
    ensures
        match (a, b) {
            (ConstraintModel::Atomic(_), ConstraintModel::Logical(kb, lb)) => {
                &&& (kb == LogicalKind::And || kb == LogicalKind::AndSequence) ==> !spec_compatible(a, b)
                &&& (kb == LogicalKind::Or || kb == LogicalKind::Xone) ==> (spec_compatible(a, b) <==> exists|j: int|
                    0 <= j < lb.len() && #[trigger] spec_compatible(a, lb[j]))
            },
            (ConstraintModel::Logical(ka, la), ConstraintModel::Atomic(_)) => {
                &&& (ka == LogicalKind::And || ka == LogicalKind::AndSequence) ==> (spec_compatible(a, b) <==> exists|j: int|
                    0 <= j < la.len() && #[trigger] spec_compatible(la[j], b))
                &&& (ka == LogicalKind::Or || ka == LogicalKind::Xone) ==> (spec_compatible(a, b) <==> forall|j: int|
                    0 <= j < la.len() ==> #[trigger] spec_compatible(la[j], b))
            },
            (ConstraintModel::Logical(ka, la), ConstraintModel::Logical(kb, lb)) => {
                &&& (ka == kb && (ka == LogicalKind::And || ka == LogicalKind::AndSequence)) ==> (spec_compatible(a, b)
                    <==> forall|j: int| 0 <= j < lb.len() ==> #[trigger] some_compatible(la, lb[j]))
                &&& (ka == kb && (ka == LogicalKind::Or || ka == LogicalKind::Xone)) ==> (spec_compatible(a, b)
                    <==> exists|j: int, k: int| 0 <= j < la.len() && 0 <= k < lb.len() && #[trigger] spec_compatible(la[j], lb[k]))
                &&& ka != kb ==> !spec_compatible(a, b)
            },
            _ => true,
        },
{
    match (a, b) {
        (ConstraintModel::Atomic(_), ConstraintModel::Logical(kb, lb)) => {
            lemma_any_b(a, lb, 0);
        },
        (ConstraintModel::Logical(ka, la), ConstraintModel::Atomic(_)) => {
            lemma_any_a(la, b, 0);
            lemma_all_a(la, b, 0);
        },
        (ConstraintModel::Logical(ka, la), ConstraintModel::Logical(kb, lb)) => {
            lemma_all_b_any_a(la, lb, 0);
            lemma_any_a_any_b(la, lb, 0);
        },
        _ => {},
    }
}

/// The instant `t` is not earlier than the instant `u`: later seconds, or the same
/// second and as many nanoseconds or more.
pub open spec fn not_earlier(t: (i64, u32), u: (i64, u32)) -> bool {
    u.0 < t.0 || (u.0 == t.0 && u.1 <= t.1)
}

/// Time bounds are subsumed by comparing their instants: an offered lower bound (`gt`,
/// `gteq`) on `temporal` is at least as specific as a required one exactly when it is
/// not earlier, and an offered upper bound (`lt`, `lteq`) exactly when it is not later.
/// Bounds that are not RFC 3339 date-times subsume nothing.
pub proof fn time_bounds_subsume_by_their_instants(a: AtomicModel, b: AtomicModel)
    requires
        a.left_operand == "temporal"@,
        b.left_operand == "temporal"@,
    ensures
        ({
            let lower = |o: Operator| o == Operator::Gt || o == Operator::Gteq;
            let upper = |o: Operator| o == Operator::Lt || o == Operator::Lteq;
            match (a.right_operand, b.right_operand) {
                (RightOperandModel::String(sa), RightOperandModel::String(sb)) => match (rfc3339_instant(sa), rfc3339_instant(sb)) {
                    (Some(ta), Some(tb)) => {
                        &&& (lower(a.operator) && lower(b.operator)) ==> (spec_subsumed_by(a, b) <==> not_earlier(ta, tb))
                        &&& (upper(a.operator) && upper(b.operator)) ==> (spec_subsumed_by(a, b) <==> not_earlier(tb, ta))
                    },
                    _ => ((lower(a.operator) && lower(b.operator)) || (upper(a.operator) && upper(b.operator)))
                        ==> !spec_subsumed_by(a, b),
                },
                _ => ((lower(a.operator) && lower(b.operator)) || (upper(a.operator) && upper(b.operator)))
                    ==> !spec_subsumed_by(a, b),
            }
        }),
{
}

/// When one atomic constraint counts as at least as specific as another: only a
/// constraint on the same left operand can; `eq` subsumes `eq` and `neq` subsumes `neq`
/// exactly on the same value; a lower bound (`gt`, `gteq`) never subsumes an upper
/// bound (`lt`, `lteq`) nor the other way round; and bounds on a property other than
/// `temporal` subsume nothing.
pub proof fn subsumption_of_atomic_constraints(a: AtomicModel, b: AtomicModel)
    ensures
        a.left_operand != b.left_operand ==> !spec_subsumed_by(a, b),
        ((a.operator == Operator::Eq && b.operator == Operator::Eq) || (a.operator == Operator::Neq && b.operator
            == Operator::Neq)) ==> (spec_subsumed_by(a, b) <==> (a.left_operand == b.left_operand && a.right_operand
            == b.right_operand)),
        ({
            let lower = |o: Operator| o == Operator::Gt || o == Operator::Gteq;
            let upper = |o: Operator| o == Operator::Lt || o == Operator::Lteq;
            &&& ((lower(a.operator) && upper(b.operator)) || (upper(a.operator) && lower(b.operator)))
                ==> !spec_subsumed_by(a, b)
            &&& ((lower(a.operator) || upper(a.operator)) && a.left_operand != "temporal"@) ==> !spec_subsumed_by(a, b)
        }),
{
}

} // verus!
