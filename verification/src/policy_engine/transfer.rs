//! Transfer checks: may the holder of some claims access data under an agreed policy?
use vstd::prelude::*;
use crate::claims::{claim_str, AuthClaims};
use crate::json::JsonModel;
use crate::policy::{
    constraint_list_model, lemma_constraints_model_index, rules_model,
    rules_or_empty, rules_ref, AtomicConstraint, AtomicModel, Constraint, ConstraintModel, LogicalConstraint,
    Operator, Policy, PolicyModel, RightOperand, RightOperandModel, Rule, RuleModel,
};
use crate::policy_engine::negotiation::is_conjunction;
use crate::policy_engine::negotiation::not_earlier;
use crate::policy_engine::{
    is_part_of, is_subclass_of, lteq, rfc3339_instant, spec_is_part_of, spec_is_subclass_of, spec_lteq,
};
use crate::text::{owned, str_eq};

verus! {

broadcast use vstd::std_specs::vec::group_vec_axioms;

/// Why a rule could not be evaluated.
#[derive(Debug)]
pub enum RuleError {
    /// Only the action `use` is understood.
    UnsupportedAction(String),
    /// The claims do not hold the value that a constraint compares with.
    InsufficientClaims,
}

pub enum RuleErrorModel {
    UnsupportedAction(Seq<char>),
    InsufficientClaims,
}

impl View for RuleError {
    type V = RuleErrorModel;

    open spec fn view(&self) -> RuleErrorModel {
        match self {
            RuleError::UnsupportedAction(a) => RuleErrorModel::UnsupportedAction(a@),
            RuleError::InsufficientClaims => RuleErrorModel::InsufficientClaims,
        }
    }
}

/// The view of the result of evaluating a rule or constraint.
pub open spec fn result_model(r: Result<bool, RuleError>) -> Result<bool, RuleErrorModel> {
    match r {
        Ok(b) => Ok(b),
        Err(e) => Err(e@),
    }
}

/// The result of a transfer check.
#[derive(Debug)]
pub enum TransferOutcome {
    Success,
    Forbidden(String),
}

pub enum TransferOutcomeModel {
    Success,
    Forbidden(Seq<char>),
}

impl View for TransferOutcome {
    type V = TransferOutcomeModel;

    open spec fn view(&self) -> TransferOutcomeModel {
        match self {
            TransferOutcome::Success => TransferOutcomeModel::Success,
            TransferOutcome::Forbidden(m) => TransferOutcomeModel::Forbidden(m@),
        }
    }
}

// ---------------------------------------------------------------------------
// Specification
// ---------------------------------------------------------------------------

/// The value that a constraint on `left` is compared with: the `country` claim for
/// `spatial`, the current time for `temporal`, otherwise the claim of that name.
pub open spec fn claim_operand(left: Seq<char>, claims: Map<Seq<char>, JsonModel>, now: Seq<char>) -> Option<Seq<char>> {
    if left == "spatial"@ {
        claim_str(claims, "country"@)
    } else if left == "temporal"@ {
        Some(now)
    } else {
        claim_str(claims, left)
    }
}

/// Whether the claims satisfy an atomic constraint.
pub open spec fn spec_atomic_satisfied(c: AtomicModel, claims: Map<Seq<char>, JsonModel>, now: Seq<char>) -> Result<bool, RuleErrorModel> {
    match claim_operand(c.left_operand, claims, now) {
        None => Err(RuleErrorModel::InsufficientClaims),
        Some(v) => {
            let ro = RightOperandModel::String(v);
            let l = c.left_operand;
            let cr = c.right_operand;
            Ok(
                match c.operator {
                    Operator::Eq => cr == ro,
                    Operator::Neq => cr != ro,
                    Operator::Gt => spec_lteq(l, cr, ro, false),
                    Operator::Gteq => spec_lteq(l, cr, ro, true),
                    Operator::Lt => spec_lteq(l, ro, cr, false),
                    Operator::Lteq => spec_lteq(l, ro, cr, true),
                    Operator::HasPart => spec_is_part_of(l, cr, ro),
                    Operator::IsPartOf => spec_is_part_of(l, ro, cr),
                    Operator::IsA => spec_is_subclass_of(ro, cr),
                    _ => false,
                },
            )
        },
    }
}

/// Whether the claims satisfy a constraint.
pub open spec fn spec_constraint_satisfied(c: ConstraintModel, claims: Map<Seq<char>, JsonModel>, now: Seq<char>) -> Result<bool, RuleErrorModel>
    decreases c, 0int,
{
    match c {
        ConstraintModel::Atomic(a) => spec_atomic_satisfied(a, claims, now),
        ConstraintModel::Logical(k, l) => if is_conjunction(k) {
            all_satisfied(l, claims, now, 0)
        } else {
            any_satisfied(l, claims, now, 0)
        },
    }
}

/// Evaluates the constraints of `l` from index `i` on until one fails: `Ok(true)`
/// where all hold, `Ok(false)` at the first that does not, the error of the first
/// that cannot be evaluated.
pub open spec fn all_satisfied(l: Seq<ConstraintModel>, claims: Map<Seq<char>, JsonModel>, now: Seq<char>, i: int) -> Result<bool, RuleErrorModel>
    decreases l, l.len() - i,
{
    if i < 0 || i >= l.len() {
        Ok(true)
    } else {
        match spec_constraint_satisfied(l[i], claims, now) {
            Err(e) => Err(e),
            Ok(false) => Ok(false),
            Ok(true) => all_satisfied(l, claims, now, i + 1),
        }
    }
}

/// Evaluates the constraints of `l` from index `i` on until one holds: `Ok(true)`
/// at the first that holds, `Ok(false)` where none does, the error of the first
/// that cannot be evaluated.
pub open spec fn any_satisfied(l: Seq<ConstraintModel>, claims: Map<Seq<char>, JsonModel>, now: Seq<char>, i: int) -> Result<bool, RuleErrorModel>
    decreases l, l.len() - i,
{
    if i < 0 || i >= l.len() {
        Ok(false)
    } else {
        match spec_constraint_satisfied(l[i], claims, now) {
            Err(e) => Err(e),
            Ok(true) => Ok(true),
            Ok(false) => any_satisfied(l, claims, now, i + 1),
        }
    }
}

/// Whether the claims satisfy a rule: only the action `use` is understood, and all
/// its constraints must hold.
pub open spec fn spec_rule_satisfied(rule: RuleModel, claims: Map<Seq<char>, JsonModel>, now: Seq<char>) -> Result<bool, RuleErrorModel> {
    if rule.action != "use"@ {
        Err(RuleErrorModel::UnsupportedAction(rule.action))
    } else {
        match rule.constraint {
            Some(l) => all_satisfied(l, claims, now, 0),
            None => Ok(true),
        }
    }
}

/// A result read as a truth value, `dflt` where it is an error.
pub open spec fn holds_or(r: Result<bool, RuleErrorModel>, dflt: bool) -> bool {
    match r {
        Ok(b) => b,
        Err(_) => dflt,
    }
}

/// Every permission is satisfied (one that cannot be evaluated is not).
pub open spec fn permissions_satisfied(perms: Seq<RuleModel>, claims: Map<Seq<char>, JsonModel>, now: Seq<char>) -> bool {
    forall|i: int| 0 <= i < perms.len() ==> holds_or(#[trigger] spec_rule_satisfied(perms[i], claims, now), false)
}

/// Some prohibition applies (one that cannot be evaluated does).
pub open spec fn prohibition_applies(proh: Seq<RuleModel>, claims: Map<Seq<char>, JsonModel>, now: Seq<char>) -> bool {
    exists|i: int| 0 <= i < proh.len() && holds_or(#[trigger] spec_rule_satisfied(proh[i], claims, now), true)
}

/// The outcome of checking a transfer under `policy` for the holder of `claims` at time `now`.
pub open spec fn spec_check_transfer(policy: PolicyModel, claims: Map<Seq<char>, JsonModel>, now: Seq<char>) -> TransferOutcomeModel {
    if !permissions_satisfied(rules_or_empty(policy.permission), claims, now) {
        TransferOutcomeModel::Forbidden("Permissions not satisifed"@)
    } else if prohibition_applies(rules_or_empty(policy.prohibition), claims, now) {
        TransferOutcomeModel::Forbidden("Prohibitions violated"@)
    } else {
        TransferOutcomeModel::Success
    }
}

// ---------------------------------------------------------------------------
// Implementation
// ---------------------------------------------------------------------------

/// Whether the claims satisfy an atomic constraint at time `now`.
pub fn atomic_constraint_satisfied(constraint: &AtomicConstraint, claims: &AuthClaims, now: &str) -> (r: Result<bool, RuleError>)
    ensures
        result_model(r) == spec_atomic_satisfied(constraint@, claims@, now@),
{
    let left = constraint.left_operand.as_str();
    let value = if str_eq(left, "spatial") {
        claims.get_str("country")
    } else if str_eq(left, "temporal") {
        Some(owned(now))
    } else {
        claims.get_str(left)
    };
    let right_operand = match value {
        Some(v) => RightOperand::String(v),
        None => return Err(RuleError::InsufficientClaims),
    };
    let cr = &constraint.right_operand;
    Ok(
        match constraint.operator {
            Operator::Eq => cr.same(&right_operand),
            Operator::Neq => !cr.same(&right_operand),
            Operator::Gt => lteq(left, cr, &right_operand, false),
            Operator::Gteq => lteq(left, cr, &right_operand, true),
            Operator::Lt => lteq(left, &right_operand, cr, false),
            Operator::Lteq => lteq(left, &right_operand, cr, true),
            Operator::HasPart => is_part_of(left, cr, &right_operand),
            Operator::IsPartOf => is_part_of(left, &right_operand, cr),
            Operator::IsA => is_subclass_of(left, &right_operand, cr),
            _ => false,
        },
    )
}

/// Whether the claims satisfy a constraint at time `now`.
pub fn constraint_satisfied(constraint: &Constraint, claims: &AuthClaims, now: &str) -> (r: Result<bool, RuleError>)
    ensures
        result_model(r) == spec_constraint_satisfied(constraint@, claims@, now@),
    decreases constraint, 0nat,
{
    match constraint {
        Constraint::Logical(c) => logical_constraint_satisfied(c, claims, now),
        Constraint::Atomic(c) => atomic_constraint_satisfied(c, claims, now),
    }
}

/// Whether the claims satisfy a logical constraint at time `now`: every combined
/// constraint for `and` and `andSequence`, some for `or` and `xone`.
pub fn logical_constraint_satisfied(constraint: &LogicalConstraint, claims: &AuthClaims, now: &str) -> (r: Result<bool, RuleError>)
    ensures
        result_model(r) == spec_constraint_satisfied(Constraint::Logical(*constraint)@, claims@, now@),
    decreases constraint, 2nat,
{
    match constraint {
        LogicalConstraint::And { and: list } | LogicalConstraint::AndSequence { and_sequence: list } =>
            all_satisfied_exec(list, claims, now),
        LogicalConstraint::Or { or: list } | LogicalConstraint::Xone { xone: list } =>
            any_satisfied_exec(list, claims, now),
    }
}

/// Evaluates constraints in order until one fails.
fn all_satisfied_exec(list: &Vec<Constraint>, claims: &AuthClaims, now: &str) -> (r: Result<bool, RuleError>)
    ensures
        result_model(r) == all_satisfied(constraint_list_model(list@), claims@, now@, 0),
    decreases list, 1nat,
{
    let ghost l = constraint_list_model(list@);
    proof {
        lemma_constraints_model_index(list@, list@.len());
    }
    let mut i: usize = 0;
    while i < list.len()
        invariant
            i <= list.len(),
            l == constraint_list_model(list@),
            l.len() == list@.len(),
            forall|k: int| 0 <= k < list@.len() ==> #[trigger] l[k] == list@[k]@,
            all_satisfied(l, claims@, now@, 0) == all_satisfied(l, claims@, now@, i as int),
        decreases list.len() - i,
    {
        proof {
            assert(decreases_to!(*list => list[i as int]));
        }
        match constraint_satisfied(&list[i], claims, now) {
            Err(e) => return Err(e),
            Ok(false) => return Ok(false),
            Ok(true) => {},
        }
        i = i + 1;
    }
    Ok(true)
}

/// Evaluates constraints in order until one holds.
fn any_satisfied_exec(list: &Vec<Constraint>, claims: &AuthClaims, now: &str) -> (r: Result<bool, RuleError>)
    ensures
        result_model(r) == any_satisfied(constraint_list_model(list@), claims@, now@, 0),
    decreases list, 1nat,
{
    let ghost l = constraint_list_model(list@);
    proof {
        lemma_constraints_model_index(list@, list@.len());
    }
    let mut i: usize = 0;
    while i < list.len()
        invariant
            i <= list.len(),
            l == constraint_list_model(list@),
            l.len() == list@.len(),
            forall|k: int| 0 <= k < list@.len() ==> #[trigger] l[k] == list@[k]@,
            any_satisfied(l, claims@, now@, 0) == any_satisfied(l, claims@, now@, i as int),
        decreases list.len() - i,
    {
        proof {
            assert(decreases_to!(*list => list[i as int]));
        }
        match constraint_satisfied(&list[i], claims, now) {
            Err(e) => return Err(e),
            Ok(true) => return Ok(true),
            Ok(false) => {},
        }
        i = i + 1;
    }
    Ok(false)
}

/// Whether the claims satisfy a rule at time `now`.
pub fn rule_satisfied(rule: &Rule, claims: &AuthClaims, now: &str) -> (r: Result<bool, RuleError>)
    ensures
        result_model(r) == spec_rule_satisfied(rule@, claims@, now@),
{
    if !str_eq(rule.action.as_str(), "use") {
        return Err(RuleError::UnsupportedAction(rule.action.clone()));
    }
    match &rule.constraint {
        Some(list) => all_satisfied_exec(list, claims, now),
        None => Ok(true),
    }
}

/// Checks a transfer under `policy` for the holder of `claims` at time `now`
/// (an RFC 3339 date-time): every permission must hold and no prohibition may apply.
pub fn check_transfer_policy_at(policy: &Policy, claims: &AuthClaims, now: &str) -> (r: TransferOutcome)
    ensures
        r@ == spec_check_transfer(policy@, claims@, now@),
{
    let empty: Vec<Rule> = Vec::new();
    let perms = rules_ref(&policy.permission, &empty);
    let proh = rules_ref(&policy.prohibition, &empty);
    let ghost pm = rules_model(perms@);
    let ghost ph = rules_model(proh@);
    let mut i: usize = 0;
    while i < perms.len()
        invariant
            i <= perms.len(),
            pm == rules_model(perms@),
            pm == rules_or_empty(policy@.permission),
            forall|k: int| 0 <= k < i ==> holds_or(#[trigger] spec_rule_satisfied(pm[k], claims@, now@), false),
        decreases perms.len() - i,
    {
        match rule_satisfied(&perms[i], claims, now) {
            Ok(true) => {},
            _ => {
                assert(!holds_or(spec_rule_satisfied(pm[i as int], claims@, now@), false));
                return TransferOutcome::Forbidden(owned("Permissions not satisifed"));
            },
        }
        i = i + 1;
    }
    let mut i: usize = 0;
    while i < proh.len()
        invariant
            i <= proh.len(),
            ph == rules_model(proh@),
            ph == rules_or_empty(policy@.prohibition),
            permissions_satisfied(rules_or_empty(policy@.permission), claims@, now@),
            forall|k: int| 0 <= k < i ==> !holds_or(#[trigger] spec_rule_satisfied(ph[k], claims@, now@), true),
        decreases proh.len() - i,
    {
        match rule_satisfied(&proh[i], claims, now) {
            Ok(false) => {},
            _ => {
                assert(holds_or(spec_rule_satisfied(ph[i as int], claims@, now@), true));
                return TransferOutcome::Forbidden(owned("Prohibitions violated"));
            },
        }
        i = i + 1;
    }
    TransferOutcome::Success
}

/// Text that the clock can give: an RFC 3339 date-time, or, for a reading from the
/// year 10000 on, a date-time whose year chrono writes with a leading `+`.
pub open spec fn clock_text(now: Seq<char>) -> bool {
    rfc3339_instant(now) is Some || (now.len() > 0 && now[0] == '+')
}

/// The current time as an RFC 3339 date-time (`chrono::Utc::now().to_rfc3339()`).
/// Which instant comes back is not stated: it depends on the clock. chrono writes
/// years 0 to 9999 with four digits, which its RFC 3339 parser reads back, and other
/// years with their sign first; `Utc::now` panics before 1970, so no year is negative.
#[verifier::external_body]
fn utc_now_rfc3339() -> (r: String)
    ensures
        clock_text(r@),
{
    chrono::Utc::now().to_rfc3339()
}

// ---------------------------------------------------------------------------
// Constraints on the time
// ---------------------------------------------------------------------------

/// A constraint on `temporal` occurs in `c`.
pub open spec fn mentions_temporal(c: ConstraintModel) -> bool
    decreases c, 0int,
{
    match c {
        ConstraintModel::Atomic(a) => a.left_operand == "temporal"@,
        ConstraintModel::Logical(_, l) => any_mentions_temporal(l, 0),
    }
}

/// A constraint on `temporal` occurs in the constraints of `l` from index `i` on.
pub open spec fn any_mentions_temporal(l: Seq<ConstraintModel>, i: int) -> bool
    decreases l, l.len() - i,
{
    if i < 0 || i >= l.len() {
        false
    } else {
        mentions_temporal(l[i]) || any_mentions_temporal(l, i + 1)
    }
}

/// A constraint on `temporal` occurs in `rule`.
pub open spec fn rule_mentions_temporal(rule: RuleModel) -> bool {
    match rule.constraint {
        Some(l) => any_mentions_temporal(l, 0),
        None => false,
    }
}

/// A constraint on `temporal` occurs in one of `rules`.
pub open spec fn rules_mention_temporal(rules: Seq<RuleModel>) -> bool {
    exists|i: int| 0 <= i < rules.len() && #[trigger] rule_mentions_temporal(rules[i])
}

/// A constraint on `temporal` occurs in a permission or a prohibition of `policy`.
pub open spec fn policy_mentions_temporal(policy: PolicyModel) -> bool {
    rules_mention_temporal(rules_or_empty(policy.permission)) || rules_mention_temporal(rules_or_empty(policy.prohibition))
}

proof fn lemma_time_free_constraint(c: ConstraintModel, claims: Map<Seq<char>, JsonModel>, n1: Seq<char>, n2: Seq<char>)
    requires
        !mentions_temporal(c),
    ensures
        spec_constraint_satisfied(c, claims, n1) == spec_constraint_satisfied(c, claims, n2),
    decreases c, 0int,
{
    match c {
        ConstraintModel::Atomic(a) => {},
        ConstraintModel::Logical(_, l) => {
            lemma_time_free_list(l, claims, n1, n2, 0);
        },
    }
}

proof fn lemma_time_free_list(l: Seq<ConstraintModel>, claims: Map<Seq<char>, JsonModel>, n1: Seq<char>, n2: Seq<char>, i: int)
    requires
        !any_mentions_temporal(l, i),
    ensures
        all_satisfied(l, claims, n1, i) == all_satisfied(l, claims, n2, i),
        any_satisfied(l, claims, n1, i) == any_satisfied(l, claims, n2, i),
    decreases l, l.len() - i,
{
    if 0 <= i < l.len() {
        lemma_time_free_constraint(l[i], claims, n1, n2);
        lemma_time_free_list(l, claims, n1, n2, i + 1);
    }
}

/// Where no permission and no prohibition of a policy constrains `temporal`, the
/// outcome of a transfer check does not depend on the time.
pub proof fn time_free_policy_outcome(policy: PolicyModel, claims: Map<Seq<char>, JsonModel>, n1: Seq<char>, n2: Seq<char>)
    requires
        !policy_mentions_temporal(policy),
    ensures
        spec_check_transfer(policy, claims, n1) == spec_check_transfer(policy, claims, n2),
{
    let perms = rules_or_empty(policy.permission);
    let proh = rules_or_empty(policy.prohibition);
    assert forall|i: int| 0 <= i < perms.len() implies #[trigger] spec_rule_satisfied(perms[i], claims, n1)
        == spec_rule_satisfied(perms[i], claims, n2) by {
        assert(!rule_mentions_temporal(perms[i]));
        if let Some(l) = perms[i].constraint {
            lemma_time_free_list(l, claims, n1, n2, 0);
        }
    }
    assert forall|i: int| 0 <= i < proh.len() implies #[trigger] spec_rule_satisfied(proh[i], claims, n1)
        == spec_rule_satisfied(proh[i], claims, n2) by {
        assert(!rule_mentions_temporal(proh[i]));
        if let Some(l) = proh[i].constraint {
            lemma_time_free_list(l, claims, n1, n2, 0);
        }
    }
    if permissions_satisfied(perms, claims, n1) {
        assert forall|i: int| 0 <= i < perms.len() implies holds_or(#[trigger] spec_rule_satisfied(perms[i], claims, n2), false) by {
            assert(holds_or(spec_rule_satisfied(perms[i], claims, n1), false));
        }
    }
    if permissions_satisfied(perms, claims, n2) {
        assert forall|i: int| 0 <= i < perms.len() implies holds_or(#[trigger] spec_rule_satisfied(perms[i], claims, n1), false) by {
            assert(holds_or(spec_rule_satisfied(perms[i], claims, n2), false));
        }
    }
    if prohibition_applies(proh, claims, n1) {
        let i = choose|i: int| 0 <= i < proh.len() && holds_or(#[trigger] spec_rule_satisfied(proh[i], claims, n1), true);
        assert(holds_or(spec_rule_satisfied(proh[i], claims, n2), true));
    }
    if prohibition_applies(proh, claims, n2) {
        let i = choose|i: int| 0 <= i < proh.len() && holds_or(#[trigger] spec_rule_satisfied(proh[i], claims, n2), true);
        assert(holds_or(spec_rule_satisfied(proh[i], claims, n1), true));
    }
}

/// Whether a constraint on `temporal` occurs in `c`.
fn constraint_mentions_temporal(c: &Constraint) -> (r: bool)
    ensures
        r == mentions_temporal(c@),
    decreases c, 1nat,
{
    match c {
        Constraint::Atomic(a) => str_eq(a.left_operand.as_str(), "temporal"),
        Constraint::Logical(l) => match l {
            LogicalConstraint::And { and: list } | LogicalConstraint::AndSequence { and_sequence: list } =>
                list_mentions_temporal(list),
            LogicalConstraint::Or { or: list } | LogicalConstraint::Xone { xone: list } =>
                list_mentions_temporal(list),
        },
    }
}

/// Whether a constraint on `temporal` occurs in `list`.
fn list_mentions_temporal(list: &Vec<Constraint>) -> (r: bool)
    ensures
        r == any_mentions_temporal(constraint_list_model(list@), 0),
    decreases list, 0nat,
{
    let ghost l = constraint_list_model(list@);
    proof {
        lemma_constraints_model_index(list@, list@.len());
    }
    let mut i: usize = 0;
    while i < list.len()
        invariant
            i <= list.len(),
            l == constraint_list_model(list@),
            l.len() == list@.len(),
            forall|k: int| 0 <= k < list@.len() ==> #[trigger] l[k] == list@[k]@,
            any_mentions_temporal(l, 0) == any_mentions_temporal(l, i as int),
        decreases list.len() - i,
    {
        proof {
            assert(decreases_to!(*list => list[i as int]));
        }
        if constraint_mentions_temporal(&list[i]) {
            return true;
        }
        i = i + 1;
    }
    false
}

/// Whether a constraint on `temporal` occurs in one of `rules`.
fn rules_mention_temporal_exec(rules: &Vec<Rule>) -> (r: bool)
    ensures
        r == rules_mention_temporal(rules_model(rules@)),
{
    let ghost rs = rules_model(rules@);
    let mut i: usize = 0;
    while i < rules.len()
        invariant
            i <= rules.len(),
            rs == rules_model(rules@),
            forall|k: int| 0 <= k < i ==> !#[trigger] rule_mentions_temporal(rs[k]),
        decreases rules.len() - i,
    {
        match &rules[i].constraint {
            Some(list) => {
                if list_mentions_temporal(list) {
                    assert(rule_mentions_temporal(rs[i as int]));
                    return true;
                }
            },
            None => {},
        }
        i = i + 1;
    }
    false
}

/// Checks a transfer under `policy` for the holder of `claims` at the current time. The
/// clock is read only where a permission or prohibition constrains `temporal`.
pub fn check_transfer_policy(policy: &Policy, claims: &AuthClaims) -> (r: TransferOutcome)
    ensures
        exists|now: Seq<char>| r@ == spec_check_transfer(policy@, claims@, now),
        policy_mentions_temporal(policy@) ==> exists|now: Seq<char>| clock_text(now) && r@ == spec_check_transfer(
            policy@,
            claims@,
            now,
        ),
        !policy_mentions_temporal(policy@) ==> forall|now: Seq<char>| r@ == spec_check_transfer(policy@, claims@, now),
{
    let empty: Vec<Rule> = Vec::new();
    let timed = rules_mention_temporal_exec(rules_ref(&policy.permission, &empty)) || rules_mention_temporal_exec(
        rules_ref(&policy.prohibition, &empty),
    );
    if timed {
        let now = utc_now_rfc3339();
        let r = check_transfer_policy_at(policy, claims, now.as_str());
        proof {
            assert(clock_text(now@) && r@ == spec_check_transfer(policy@, claims@, now@));
        }
        r
    } else {
        let r = check_transfer_policy_at(policy, claims, "");
        proof {
            assert forall|now: Seq<char>| r@ == spec_check_transfer(policy@, claims@, now) by {
                time_free_policy_outcome(policy@, claims@, ""@, now);
            }
        }
        r
    }
}

/// A policy with no permission and no prohibition allows every transfer.
pub proof fn unrestricted_policy_allows_transfer(policy: PolicyModel, claims: Map<Seq<char>, JsonModel>, now: Seq<char>)
    requires
        rules_or_empty(policy.permission).len() == 0,
        rules_or_empty(policy.prohibition).len() == 0,
    ensures
        spec_check_transfer(policy, claims, now) == TransferOutcomeModel::Success,
{
}

/// Adding rules never allows more: where a policy `q` holds every permission and every
/// prohibition of a policy `p`, a transfer that `q` allows is allowed by `p` as well.
pub proof fn more_rules_never_allow_more(p: PolicyModel, q: PolicyModel, claims: Map<Seq<char>, JsonModel>, now: Seq<char>)
    requires
        forall|i: int| 0 <= i < rules_or_empty(p.permission).len() ==> exists|j: int| 0 <= j < rules_or_empty(q.permission).len()
            && #[trigger] rules_or_empty(q.permission)[j] == #[trigger] rules_or_empty(p.permission)[i],
        forall|i: int| 0 <= i < rules_or_empty(p.prohibition).len() ==> exists|j: int| 0 <= j < rules_or_empty(q.prohibition).len()
            && #[trigger] rules_or_empty(q.prohibition)[j] == #[trigger] rules_or_empty(p.prohibition)[i],
        spec_check_transfer(q, claims, now) == TransferOutcomeModel::Success,
    ensures
        spec_check_transfer(p, claims, now) == TransferOutcomeModel::Success,
{
    let pp = rules_or_empty(p.permission);
    let qp = rules_or_empty(q.permission);
    let ph = rules_or_empty(p.prohibition);
    let qh = rules_or_empty(q.prohibition);
    assert forall|i: int| 0 <= i < pp.len() implies holds_or(#[trigger] spec_rule_satisfied(pp[i], claims, now), false) by {
        let j = choose|j: int| 0 <= j < qp.len() && #[trigger] qp[j] == pp[i];
        assert(holds_or(spec_rule_satisfied(qp[j], claims, now), false));
    }
    if prohibition_applies(ph, claims, now) {
        let i = choose|i: int| 0 <= i < ph.len() && holds_or(#[trigger] spec_rule_satisfied(ph[i], claims, now), true);
        let j = choose|j: int| 0 <= j < qh.len() && #[trigger] qh[j] == ph[i];
        assert(holds_or(spec_rule_satisfied(qh[j], claims, now), true));
        assert(prohibition_applies(qh, claims, now));
    }
}

/// `eq` and `neq` compare the value that the claims give for a constraint with the
/// constraint's own value and answer oppositely: where the claims hold that value,
/// `eq` holds exactly when the two are the same and `neq` exactly when they differ;
/// where they do not, neither can be evaluated.
pub proof fn equality_constraints_compare_the_claim(
    c: AtomicModel,
    claims: Map<Seq<char>, JsonModel>,
    now: Seq<char>,
)
    requires
        c.operator == Operator::Eq || c.operator == Operator::Neq,
    ensures
        ({
            let other = AtomicModel {
                left_operand: c.left_operand,
                operator: if c.operator == Operator::Eq { Operator::Neq } else { Operator::Eq },
                right_operand: c.right_operand,
            };
            match claim_operand(c.left_operand, claims, now) {
                Some(v) => {
                    &&& spec_atomic_satisfied(c, claims, now) == Ok::<bool, RuleErrorModel>(
                        (c.right_operand == RightOperandModel::String(v)) == (c.operator == Operator::Eq),
                    )
                    &&& spec_atomic_satisfied(other, claims, now) == Ok::<bool, RuleErrorModel>(
                        !(c.right_operand == RightOperandModel::String(v)) == (c.operator == Operator::Eq),
                    )
                },
                None => {
                    &&& spec_atomic_satisfied(c, claims, now) == Err::<bool, RuleErrorModel>(RuleErrorModel::InsufficientClaims)
                    &&& spec_atomic_satisfied(other, claims, now) == Err::<bool, RuleErrorModel>(RuleErrorModel::InsufficientClaims)
                },
            }
        }),
{
}

/// A policy whose one permission is `use` under a single `eq` or `neq` constraint, and
/// which prohibits nothing, allows a transfer exactly when the claims hold the compared
/// value and it is the same as the constraint's value (`eq`) or differs from it (`neq`).
pub proof fn equality_permission_allows_by_the_claim(
    policy: PolicyModel,
    c: AtomicModel,
    claims: Map<Seq<char>, JsonModel>,
    now: Seq<char>,
)
    requires
        c.operator == Operator::Eq || c.operator == Operator::Neq,
        policy.permission == Some(seq![RuleModel { action: "use"@, constraint: Some(seq![ConstraintModel::Atomic(c)]) }]),
        rules_or_empty(policy.prohibition).len() == 0,
    ensures
        (spec_check_transfer(policy, claims, now) == TransferOutcomeModel::Success) <==> (match claim_operand(
            c.left_operand,
            claims,
            now,
        ) {
            Some(v) => (c.right_operand == RightOperandModel::String(v)) == (c.operator == Operator::Eq),
            None => false,
        }),
{
    let perms = rules_or_empty(policy.permission);
    let l = seq![ConstraintModel::Atomic(c)];
    assert(perms[0].constraint == Some(l));
    assert(l[0] == ConstraintModel::Atomic(c));
    assert(all_satisfied(l, claims, now, 1) == Ok::<bool, RuleErrorModel>(true));
    assert(spec_constraint_satisfied(l[0], claims, now) == spec_atomic_satisfied(c, claims, now));
    assert(spec_rule_satisfied(perms[0], claims, now) == all_satisfied(l, claims, now, 0));
    let holds = holds_or(spec_rule_satisfied(perms[0], claims, now), false);
    equality_constraints_compare_the_claim(c, claims, now);
    if holds {
        assert forall|i: int| 0 <= i < perms.len() implies holds_or(
            #[trigger] spec_rule_satisfied(perms[i], claims, now),
            false,
        ) by {
            assert(i == 0);
        }
        assert(permissions_satisfied(perms, claims, now));
    } else {
        assert(!permissions_satisfied(perms, claims, now));
    }
}

/// A bound on `temporal` compares the time of the check with the bound, both read as
/// RFC 3339 instants: `lteq` holds while the time is not later than the bound, `lt`
/// while it is earlier, `gteq` from the bound on and `gt` after it. Where either is not
/// an RFC 3339 date-time the bound does not hold.
pub proof fn time_bounds_compare_the_time_of_the_check(
    c: AtomicModel,
    claims: Map<Seq<char>, JsonModel>,
    now: Seq<char>,
)
    requires
        c.left_operand == "temporal"@,
        c.operator == Operator::Lt || c.operator == Operator::Lteq || c.operator == Operator::Gt || c.operator
            == Operator::Gteq,
    ensures
        match c.right_operand {
            RightOperandModel::String(bound) => match (rfc3339_instant(now), rfc3339_instant(bound)) {
                (Some(tn), Some(tb)) => spec_atomic_satisfied(c, claims, now) == Ok::<bool, RuleErrorModel>(
                    match c.operator {
                        Operator::Lteq => not_earlier(tb, tn),
                        Operator::Lt => !not_earlier(tn, tb),
                        Operator::Gteq => not_earlier(tn, tb),
                        _ => !not_earlier(tb, tn),
                    },
                ),
                _ => spec_atomic_satisfied(c, claims, now) == Ok::<bool, RuleErrorModel>(false),
            },
            _ => spec_atomic_satisfied(c, claims, now) == Ok::<bool, RuleErrorModel>(false),
        },
{
    reveal_strlit("temporal");
    reveal_strlit("spatial");
    assert("temporal"@[0] != "spatial"@[0]);
}

/// A rule that cannot be evaluated (its action is not `use`) counts against the
/// transfer whichever list it stands in: as a permission it is not satisfied, as a
/// prohibition it applies.
pub proof fn rules_that_cannot_be_evaluated_forbid(policy: PolicyModel, claims: Map<Seq<char>, JsonModel>, now: Seq<char>, i: int)
    ensures
        (0 <= i < rules_or_empty(policy.permission).len() && rules_or_empty(policy.permission)[i].action != "use"@)
            ==> spec_check_transfer(policy, claims, now) == TransferOutcomeModel::Forbidden("Permissions not satisifed"@),
        (0 <= i < rules_or_empty(policy.prohibition).len() && rules_or_empty(policy.prohibition)[i].action != "use"@)
            ==> spec_check_transfer(policy, claims, now) != TransferOutcomeModel::Success,
{
    let perms = rules_or_empty(policy.permission);
    let proh = rules_or_empty(policy.prohibition);
    if 0 <= i < perms.len() && perms[i].action != "use"@ {
        assert(!holds_or(spec_rule_satisfied(perms[i], claims, now), false));
    }
    if 0 <= i < proh.len() && proh[i].action != "use"@ {
        assert(holds_or(spec_rule_satisfied(proh[i], claims, now), true));
    }
}

} // verus!
