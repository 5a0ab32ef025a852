//! Policies made of other policies: AND, OR and NOT.
//!
//! AND and OR evaluate their policies in order and stop at the first decision
//! that settles the outcome. What they have evaluated by then, and nothing
//! else, becomes the children of their decision.

use crate::policy::Policy;
use crate::trace::{all_granted, any_granted, decisions, CombineOp, Decision, PolicyEvalResult};
use std::sync::Arc;
use vstd::prelude::*;

verus! {

/// Why a combinator could not be made.
#[derive(Clone, Copy, Debug, PartialEq, Eq, Structural)]
pub enum PolicyError {
    /// AND and OR need at least one policy.
    EmptyPolicySet,
}

impl PolicyError {
    /// The error in words.
    pub fn message(&self) -> (text: String)
        ensures
            text@ == "a combinator needs at least one policy"@,
    {
        String::from_str("a combinator needs at least one policy")
    }
}

impl CombineOp {
    /// Whether a decision with this outcome settles an evaluation under the
    /// operation: a denial settles AND, a grant settles OR, and NOT is settled
    /// by its one child.
    pub open spec fn spec_stops_at(&self, outcome: bool) -> bool {
        match self {
            CombineOp::And => !outcome,
            CombineOp::Or => outcome,
            CombineOp::Not => true,
        }
    }

    #[verifier::when_used_as_spec(spec_stops_at)]
    pub fn stops_at(&self, outcome: bool) -> (stops: bool)
        ensures
            stops == self.spec_stops_at(outcome),
    {
        match self {
            CombineOp::And => !outcome,
            CombineOp::Or => outcome,
            CombineOp::Not => true,
        }
    }
}

/// Every decision in `children` is well formed.
pub open spec fn all_well_formed(children: Seq<Decision>) -> bool {
    forall|i: int| 0 <= i < children.len() ==> (#[trigger] children[i]).well_formed()
}

/// `children` is what a short-circuit evaluation leaves behind: it is not
/// empty, and no decision before the last settles the outcome.
pub open spec fn is_run(operation: CombineOp, children: Seq<Decision>) -> bool {
    &&& children.len() >= 1
    &&& forall|i: int|
        0 <= i < children.len() - 1 ==> !operation.stops_at((#[trigger] children[i]).outcome())
}

/// `children` is the complete record of a short-circuit evaluation of `total`
/// policies: a run that ended because its last decision settled the outcome,
/// or because no policy was left.
pub open spec fn is_run_of(operation: CombineOp, children: Seq<Decision>, total: nat) -> bool {
    &&& is_run(operation, children)
    &&& children.len() <= total
    &&& children.len() < total ==> operation.stops_at(children.last().outcome())
}

/// `children` records a short-circuit evaluation of `policies`, in order, on
/// one request: the decision at each place is one that the policy at that
/// place may reach.
pub open spec fn evaluated_in_order<S, R, A, C>(
    policies: Seq<Arc<dyn Policy<S, R, A, C>>>,
    operation: CombineOp,
    subject: &S,
    action: &A,
    resource: &R,
    context: &C,
    children: Seq<Decision>,
) -> bool {
    &&& is_run_of(operation, children, policies.len())
    &&& forall|i: int|
        0 <= i < children.len() ==> (#[trigger] policies[i]).may_decide(
            subject,
            action,
            resource,
            context,
            children[i],
        )
}

/// The decisions of an AND or OR evaluation in progress.
///
/// It holds at least one decision, and only its last may settle the outcome.
pub struct ShortCircuit {
    operation: CombineOp,
    children: Vec<PolicyEvalResult>,
}

impl ShortCircuit {
    #[verifier::type_invariant]
    spec fn is_sound(self) -> bool {
        &&& self.operation != CombineOp::Not
        &&& is_run(self.operation, decisions(self.children@))
    }

    /// AND or OR.
    pub closed spec fn operation(&self) -> CombineOp {
        self.operation
    }

    /// The decisions recorded so far, in order.
    pub closed spec fn children(&self) -> Seq<Decision> {
        decisions(self.children@)
    }

    pub open spec fn spec_is_settled(&self) -> bool {
        self.operation().stops_at(self.children().last().outcome())
    }

    /// Starts an AND evaluation with its first decision.
    pub fn all(first: PolicyEvalResult) -> (run: Self)
        ensures
            run.operation() == CombineOp::And,
            run.children() == seq![first@],
            is_run(run.operation(), run.children()),
    {
        let mut children = Vec::new();
        children.push(first);
        assert(decisions(children@) =~= seq![first@]);
        ShortCircuit { operation: CombineOp::And, children }
    }

    /// Starts an OR evaluation with its first decision.
    pub fn any(first: PolicyEvalResult) -> (run: Self)
        ensures
            run.operation() == CombineOp::Or,
            run.children() == seq![first@],
            is_run(run.operation(), run.children()),
    {
        let mut children = Vec::new();
        children.push(first);
        assert(decisions(children@) =~= seq![first@]);
        ShortCircuit { operation: CombineOp::Or, children }
    }

    /// Whether the last decision settled the outcome, so that no further
    /// policy is to be evaluated.
    #[verifier::when_used_as_spec(spec_is_settled)]
    pub fn is_settled(&self) -> (settled: bool)
        ensures
            settled == self.spec_is_settled(),
            self.operation() != CombineOp::Not,
            is_run(self.operation(), self.children()),
    {
        proof {
            use_type_invariant(self);
        }
        let last: usize = self.children.len() - 1;
        self.operation.stops_at(self.children[last].outcome())
    }

    /// Records the next decision. A settled evaluation records nothing more.
    pub fn record(self, result: PolicyEvalResult) -> (run: Self)
        ensures
            run.operation() == self.operation(),
            run.children() == if self.is_settled() {
                self.children()
            } else {
                self.children().push(result@)
            },
            is_run(run.operation(), run.children()),
    {
        proof {
            use_type_invariant(&self);
        }
        if self.is_settled() {
            self
        } else {
            let ShortCircuit { operation, children } = self;
            let mut children = children;
            let ghost before = decisions(children@);
            children.push(result);
            assert(decisions(children@) =~= before.push(result@));
            ShortCircuit { operation, children }
        }
    }

    /// The combined decision of the evaluation, under `policy_name`.
    pub fn into_result(self, policy_name: String) -> (result: PolicyEvalResult)
        ensures
            result@ == (Decision::Combined {
                policy_name: policy_name@,
                operation: self.operation(),
                children: self.children(),
                outcome: self.operation().apply(self.children()),
            }),
            self.operation().apply(self.children()) == self.children().last().outcome(),
            all_well_formed(self.children()) ==> result@.well_formed(),
    {
        proof {
            use_type_invariant(&self);
        }
        let settled = self.is_settled();
        let ShortCircuit { operation, children } = self;
        let outcome = match operation {
            CombineOp::And => !settled,
            _ => settled,
        };
        proof {
            let held = decisions(children@);
            lemma_run_outcome(operation, held);
        }
        PolicyEvalResult::Combined { policy_name, operation, children, outcome }
    }
}

/// In a run, the last decision tells the outcome: an AND grants exactly when
/// its last decision grants, and so does an OR.
pub proof fn lemma_run_outcome(operation: CombineOp, children: Seq<Decision>)
    requires
        operation != CombineOp::Not,
        is_run(operation, children),
    ensures
        operation.apply(children) == children.last().outcome(),
{
    let last: int = children.len() - 1;
    match operation {
        CombineOp::And => {
            if children.last().outcome() {
                assert forall|i: int| 0 <= i < children.len() implies (
                #[trigger] children[i]).outcome() by {
                    if i < last {
                        assert(!operation.stops_at(children[i].outcome()));
                    }
                }
            } else {
                assert(!children[last].outcome());
            }
        },
        CombineOp::Or => {
            if children.last().outcome() {
                assert(children[last].outcome());
            } else {
                assert forall|i: int| 0 <= i < children.len() implies !(
                #[trigger] children[i]).outcome() by {
                    if i < last {
                        assert(!operation.stops_at(children[i].outcome()));
                    }
                }
            }
        },
        CombineOp::Not => {},
    }
}

/// The decision of a NOT over the decision of its one policy.
pub fn negation(policy_name: String, child: PolicyEvalResult) -> (result: PolicyEvalResult)
    ensures
        result@ == (Decision::Combined {
            policy_name: policy_name@,
            operation: CombineOp::Not,
            children: seq![child@],
            outcome: !child@.outcome(),
        }),
        child@.well_formed() ==> result@.well_formed(),
{
    let outcome = !child.outcome();
    let mut children = Vec::new();
    children.push(child);
    assert(decisions(children@) =~= seq![child@]);
    PolicyEvalResult::Combined { policy_name, operation: CombineOp::Not, children, outcome }
}

/// Grants only if every one of its policies grants.
///
/// The policies are evaluated in order, up to and including the first that
/// denies.
#[verifier::reject_recursive_types(S)]
#[verifier::reject_recursive_types(R)]
#[verifier::reject_recursive_types(A)]
#[verifier::reject_recursive_types(C)]
pub struct AndPolicy<S, R, A, C> {
    policies: Vec<Arc<dyn Policy<S, R, A, C>>>,
}

impl<S, R, A, C> AndPolicy<S, R, A, C> {
    #[verifier::type_invariant]
    spec fn is_not_empty(self) -> bool {
        self.policies@.len() > 0
    }

    /// The policies, in the order of their evaluation.
    pub closed spec fn policies(&self) -> Seq<Arc<dyn Policy<S, R, A, C>>> {
        self.policies@
    }

    /// The conjunction of `policies`, which must not be empty.
    pub fn new(policies: Vec<Arc<dyn Policy<S, R, A, C>>>) -> (made: Result<Self, PolicyError>)
        ensures
            made is Err <==> policies@.len() == 0,
            made matches Ok(policy) ==> policy.policies() == policies@,
    {
        if policies.len() == 0 {
            Err(PolicyError::EmptyPolicySet)
        } else {
            Ok(AndPolicy { policies })
        }
    }
}

impl<S, R, A, C> Policy<S, R, A, C> for AndPolicy<S, R, A, C> where
    S: Sync + Send,
    R: Sync + Send,
    A: Sync + Send,
    C: Sync + Send,
 {
    open spec fn may_decide(
        &self,
        subject: &S,
        action: &A,
        resource: &R,
        context: &C,
        decision: Decision,
    ) -> bool {
        &&& decision matches Decision::Combined { policy_name, operation, children, outcome }
        &&& policy_name == "AndPolicy"@
        &&& operation == CombineOp::And
        &&& evaluated_in_order(
            self.policies(),
            CombineOp::And,
            subject,
            action,
            resource,
            context,
            children,
        )
        &&& outcome == CombineOp::And.apply(children)
    }

    open spec fn may_be_named(&self, name: Seq<char>) -> bool {
        name == "AndPolicy"@
    }

    fn evaluate_access(&self, subject: &S, action: &A, resource: &R, context: &C) -> (result:
        PolicyEvalResult) {
        proof {
            use_type_invariant(self);
        }
        let first = self.policies[0].evaluate_access(subject, action, resource, context);
        let mut run = ShortCircuit::all(first);
        let mut i: usize = 1;
        while i < self.policies.len() && !run.is_settled()
            invariant
                1 <= i <= self.policies@.len(),
                run.operation() == CombineOp::And,
                run.children().len() == i,
                is_run(CombineOp::And, run.children()),
                forall|k: int|
                    0 <= k < i ==> (#[trigger] self.policies@[k]).may_decide(
                        subject,
                        action,
                        resource,
                        context,
                        run.children()[k],
                    ),
            decreases self.policies@.len() - i,
        {
            let next = self.policies[i].evaluate_access(subject, action, resource, context);
            run = run.record(next);
            i = i + 1;
        }
        run.into_result(self.policy_name())
    }

    fn policy_name(&self) -> (name: String) {
        String::from_str("AndPolicy")
    }
}

/// Grants if any one of its policies grants.
///
/// The policies are evaluated in order, up to and including the first that
/// grants.
#[verifier::reject_recursive_types(S)]
#[verifier::reject_recursive_types(R)]
#[verifier::reject_recursive_types(A)]
#[verifier::reject_recursive_types(C)]
pub struct OrPolicy<S, R, A, C> {
    policies: Vec<Arc<dyn Policy<S, R, A, C>>>,
}

impl<S, R, A, C> OrPolicy<S, R, A, C> {
    #[verifier::type_invariant]
    spec fn is_not_empty(self) -> bool {
        self.policies@.len() > 0
    }

    /// The policies, in the order of their evaluation.
    pub closed spec fn policies(&self) -> Seq<Arc<dyn Policy<S, R, A, C>>> {
        self.policies@
    }

    /// The disjunction of `policies`, which must not be empty.
    pub fn new(policies: Vec<Arc<dyn Policy<S, R, A, C>>>) -> (made: Result<Self, PolicyError>)
        ensures
            made is Err <==> policies@.len() == 0,
            made matches Ok(policy) ==> policy.policies() == policies@,
    {
        if policies.len() == 0 {
            Err(PolicyError::EmptyPolicySet)
        } else {
            Ok(OrPolicy { policies })
        }
    }
}

impl<S, R, A, C> Policy<S, R, A, C> for OrPolicy<S, R, A, C> where
    S: Sync + Send,
    R: Sync + Send,
    A: Sync + Send,
    C: Sync + Send,
 {
    open spec fn may_decide(
        &self,
        subject: &S,
        action: &A,
        resource: &R,
        context: &C,
        decision: Decision,
    ) -> bool {
        &&& decision matches Decision::Combined { policy_name, operation, children, outcome }
        &&& policy_name == "OrPolicy"@
        &&& operation == CombineOp::Or
        &&& evaluated_in_order(
            self.policies(),
            CombineOp::Or,
            subject,
            action,
            resource,
            context,
            children,
        )
        &&& outcome == CombineOp::Or.apply(children)
    }

    open spec fn may_be_named(&self, name: Seq<char>) -> bool {
        name == "OrPolicy"@
    }

    fn evaluate_access(&self, subject: &S, action: &A, resource: &R, context: &C) -> (result:
        PolicyEvalResult) {
        proof {
            use_type_invariant(self);
        }
        let first = self.policies[0].evaluate_access(subject, action, resource, context);
        let mut run = ShortCircuit::any(first);
        let mut i: usize = 1;
        while i < self.policies.len() && !run.is_settled()
            invariant
                1 <= i <= self.policies@.len(),
                run.operation() == CombineOp::Or,
                run.children().len() == i,
                is_run(CombineOp::Or, run.children()),
                forall|k: int|
                    0 <= k < i ==> (#[trigger] self.policies@[k]).may_decide(
                        subject,
                        action,
                        resource,
                        context,
                        run.children()[k],
                    ),
            decreases self.policies@.len() - i,
        {
            let next = self.policies[i].evaluate_access(subject, action, resource, context);
            run = run.record(next);
            i = i + 1;
        }
        run.into_result(self.policy_name())
    }

    fn policy_name(&self) -> (name: String) {
        String::from_str("OrPolicy")
    }
}

/// Grants exactly when its policy denies.
#[verifier::reject_recursive_types(S)]
#[verifier::reject_recursive_types(R)]
#[verifier::reject_recursive_types(A)]
#[verifier::reject_recursive_types(C)]
pub struct NotPolicy<S, R, A, C> {
    // One policy. A trait object is moved only inside a container, so it
    // is held in a vector.
    policy: Vec<Arc<dyn Policy<S, R, A, C>>>,
}

impl<S, R, A, C> NotPolicy<S, R, A, C> {
    #[verifier::type_invariant]
    spec fn holds_one(self) -> bool {
        self.policy@.len() == 1
    }

    /// The policy that is negated, as a sequence of one.
    pub closed spec fn policies(&self) -> Seq<Arc<dyn Policy<S, R, A, C>>> {
        self.policy@
    }

    /// The negation of `policy`.
    pub fn new(policy: Arc<dyn Policy<S, R, A, C>>) -> (made: Self)
        ensures
            made.policies().len() == 1,
            made.policies()[0] == policy,
    {
        let mut held = Vec::new();
        held.push(policy);
        NotPolicy { policy: held }
    }
}

impl<S, R, A, C> Policy<S, R, A, C> for NotPolicy<S, R, A, C> where
    S: Sync + Send,
    R: Sync + Send,
    A: Sync + Send,
    C: Sync + Send,
 {
    open spec fn may_decide(
        &self,
        subject: &S,
        action: &A,
        resource: &R,
        context: &C,
        decision: Decision,
    ) -> bool {
        &&& decision matches Decision::Combined { policy_name, operation, children, outcome }
        &&& policy_name == "NotPolicy"@
        &&& operation == CombineOp::Not
        &&& children.len() == 1
        &&& self.policies()[0].may_decide(subject, action, resource, context, children[0])
        &&& outcome == !children[0].outcome()
    }

    open spec fn may_be_named(&self, name: Seq<char>) -> bool {
        name == "NotPolicy"@
    }

    fn evaluate_access(&self, subject: &S, action: &A, resource: &R, context: &C) -> (result:
        PolicyEvalResult) {
        proof {
            use_type_invariant(self);
        }
        let inner = self.policy[0].evaluate_access(subject, action, resource, context);
        negation(self.policy_name(), inner)
    }

    fn policy_name(&self) -> (name: String) {
        String::from_str("NotPolicy")
    }
}

/// Every decision of an AND is the conjunction of the decisions that it
/// evaluated: it grants exactly when all of them grant. It evaluated all of
/// its policies if it grants, and otherwise stopped at the first denial, which
/// is therefore its last child. It is well formed if its children are.
pub proof fn lemma_and_outcome<S, R, A, C>(
    policy: AndPolicy<S, R, A, C>,
    subject: &S,
    action: &A,
    resource: &R,
    context: &C,
    decision: Decision,
) where S: Sync + Send, R: Sync + Send, A: Sync + Send, C: Sync + Send
    requires
        policy.may_decide(subject, action, resource, context, decision),
    ensures
        decision is Combined,
        decision->outcome == all_granted(decision->children),
        1 <= decision->children.len() <= policy.policies().len(),
        decision->outcome ==> decision->children.len() == policy.policies().len(),
        forall|k: int|
            0 <= k < decision->children.len() && !(#[trigger] decision->children[k]).outcome()
                ==> k == decision->children.len() - 1,
        all_well_formed(decision->children) ==> decision.well_formed(),
{
    let children = decision->children;
    lemma_run_outcome(CombineOp::And, children);
    assert forall|k: int| 0 <= k < children.len() && !(#[trigger] children[k]).outcome() implies k
        == children.len() - 1 by {
        if k < children.len() - 1 {
            assert(!CombineOp::And.stops_at(children[k].outcome()));
        }
    }
}

/// Every decision of an OR is the disjunction of the decisions that it
/// evaluated: it grants exactly when one of them grants. It evaluated all of
/// its policies if it denies, and otherwise stopped at the first grant, which
/// is therefore its last child. It is well formed if its children are.
pub proof fn lemma_or_outcome<S, R, A, C>(
    policy: OrPolicy<S, R, A, C>,
    subject: &S,
    action: &A,
    resource: &R,
    context: &C,
    decision: Decision,
) where S: Sync + Send, R: Sync + Send, A: Sync + Send, C: Sync + Send
    requires
        policy.may_decide(subject, action, resource, context, decision),
    ensures
        decision is Combined,
        decision->outcome == any_granted(decision->children),
        1 <= decision->children.len() <= policy.policies().len(),
        !decision->outcome ==> decision->children.len() == policy.policies().len(),
        forall|k: int|
            0 <= k < decision->children.len() && (#[trigger] decision->children[k]).outcome()
                ==> k == decision->children.len() - 1,
        all_well_formed(decision->children) ==> decision.well_formed(),
{
    let children = decision->children;
    lemma_run_outcome(CombineOp::Or, children);
    assert forall|k: int| 0 <= k < children.len() && (#[trigger] children[k]).outcome() implies k
        == children.len() - 1 by {
        if k < children.len() - 1 {
            assert(!CombineOp::Or.stops_at(children[k].outcome()));
        }
    }
}

/// Every decision of a NOT has one child, a decision of the negated policy,
/// and grants exactly when that child denies. It is well formed if its child
/// is.
pub proof fn lemma_not_outcome<S, R, A, C>(
    policy: NotPolicy<S, R, A, C>,
    subject: &S,
    action: &A,
    resource: &R,
    context: &C,
    decision: Decision,
) where S: Sync + Send, R: Sync + Send, A: Sync + Send, C: Sync + Send
    requires
        policy.may_decide(subject, action, resource, context, decision),
    ensures
        decision is Combined,
        decision->children.len() == 1,
        policy.policies()[0].may_decide(subject, action, resource, context, decision->children[0]),
        decision->outcome == !decision->children[0].outcome(),
        decision->children[0].well_formed() ==> decision.well_formed(),
{
}

} // verus!
