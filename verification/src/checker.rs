//! The permission checker: the entry point of a host application.

use crate::combinators::{all_well_formed, evaluated_in_order, is_run, ShortCircuit};
use crate::policy::{Policy, SecurityRuleMetadata};
use crate::trace::{
    option_text, AccessEvaluation, CombineOp, Decision, EvalTrace, PolicyEvalResult, Verdict,
};
use std::sync::Arc;
use vstd::prelude::*;

verus! {

/// What an audit log is told of one evaluated policy.
#[derive(Debug)]
pub struct AuditEvent {
    /// The name that the policy gave itself.
    pub policy_name: String,
    /// The category among the policy's audit fields.
    pub category: Option<String>,
    /// Whether the policy granted.
    pub granted: bool,
    /// The reason of the policy's decision.
    pub reason: Option<String>,
}

impl AuditEvent {
    /// The event for a policy named `policy_name`, with the audit fields
    /// `metadata`, that decided `result`.
    pub fn of(policy_name: String, metadata: &SecurityRuleMetadata, result: &PolicyEvalResult) -> (event:
        Self)
        ensures
            event.policy_name@ == policy_name@,
            option_text(event.category) == option_text(metadata.category),
            event.granted == result@.outcome(),
            option_text(event.reason) == result@.reason(),
    {
        AuditEvent {
            policy_name,
            category: metadata.category.clone(),
            granted: result.outcome(),
            reason: result.reason(),
        }
    }
}

/// The answer of a checker that holds no policy.
pub open spec fn no_policies_verdict() -> Verdict {
    Verdict::Denied {
        trace: Some(
            Decision::Denied {
                policy_name: "PermissionChecker"@,
                reason: "No policies configured"@,
            },
        ),
        reason: "No policies configured"@,
    }
}

/// The reason that a grant carries: that of the last decision below `root`,
/// which is the one that granted.
pub open spec fn granting_reason(root: Decision) -> Option<Seq<char>> {
    match root {
        Decision::Combined { children, .. } => if children.len() > 0 {
            children.last().reason()
        } else {
            None
        },
        _ => root.reason(),
    }
}

/// The answer on the decision `root`, where a policy named `granted_by` made
/// the last decision below it.
pub open spec fn verdict_of(root: Decision, granted_by: Seq<char>) -> Verdict {
    if root.outcome() {
        Verdict::Granted {
            policy_name: granted_by,
            reason: granting_reason(root),
            trace: Some(root),
        }
    } else {
        Verdict::Denied { trace: Some(root), reason: "All policies denied access"@ }
    }
}

impl AccessEvaluation {
    /// The denial of a checker that holds no policy.
    pub fn no_policies() -> (evaluation: Self)
        ensures
            evaluation@ == no_policies_verdict(),
    {
        let leaf = PolicyEvalResult::Denied {
            policy_name: String::from_str("PermissionChecker"),
            reason: String::from_str("No policies configured"),
        };
        AccessEvaluation::Denied {
            trace: EvalTrace::with_root(leaf),
            reason: String::from_str("No policies configured"),
        }
    }

    /// The answer on the decision `root` of a checker, where a policy named
    /// `granted_by` made the last decision below it: a grant in that policy's
    /// name if `root` grants, a denial if it does not.
    pub fn from_decision(root: PolicyEvalResult, granted_by: String) -> (evaluation: Self)
        ensures
            evaluation@ == verdict_of(root@, granted_by@),
    {
        if root.outcome() {
            let reason = match &root {
                PolicyEvalResult::Combined { children, .. } => {
                    if children.len() > 0 {
                        assert(crate::trace::decisions(children@).last() == children@[children@.len()
                            - 1]@);
                        children[children.len() - 1].reason()
                    } else {
                        None
                    }
                },
                _ => root.reason(),
            };
            AccessEvaluation::Granted {
                policy_name: granted_by,
                reason,
                trace: EvalTrace::with_root(root),
            }
        } else {
            AccessEvaluation::Denied {
                trace: EvalTrace::with_root(root),
                reason: String::from_str("All policies denied access"),
            }
        }
    }
}

/// Holds policies in the order in which they were added, and grants a request
/// as soon as one of them grants it. With no policy it denies.
#[verifier::reject_recursive_types(S)]
#[verifier::reject_recursive_types(R)]
#[verifier::reject_recursive_types(A)]
#[verifier::reject_recursive_types(C)]
pub struct PermissionChecker<S, R, A, C> {
    policies: Vec<Arc<dyn Policy<S, R, A, C>>>,
}

impl<S, R, A, C> Default for PermissionChecker<S, R, A, C> {
    fn default() -> (checker: Self)
        ensures
            checker.policies().len() == 0,
    {
        PermissionChecker::new()
    }
}

impl<S, R, A, C> PermissionChecker<S, R, A, C> {
    /// The policies, in the order in which they were added.
    pub closed spec fn policies(&self) -> Seq<Arc<dyn Policy<S, R, A, C>>> {
        self.policies@
    }

    /// The answers that the checker may give to a request.
    pub open spec fn may_conclude(
        &self,
        subject: &S,
        action: &A,
        resource: &R,
        context: &C,
        verdict: Verdict,
    ) -> bool {
        if self.policies().len() == 0 {
            verdict == no_policies_verdict()
        } else {
            &&& verdict.trace() matches Some(root)
            &&& root matches Decision::Combined { policy_name, operation, children, outcome }
            &&& policy_name == "PermissionChecker"@
            &&& operation == CombineOp::Or
            &&& evaluated_in_order(
                self.policies(),
                CombineOp::Or,
                subject,
                action,
                resource,
                context,
                children,
            )
            &&& outcome == CombineOp::Or.apply(children)
            &&& verdict == verdict_of(root, verdict.granted_by())
            &&& outcome ==> self.policies()[children.len() - 1].may_be_named(verdict.granted_by())
        }
    }

    /// The audit events that go with an answer: one for each decision below
    /// the root of its trace, in order.
    pub open spec fn may_report(&self, verdict: Verdict, events: Seq<AuditEvent>) -> bool {
        if self.policies().len() == 0 {
            events.len() == 0
        } else {
            &&& verdict.trace() matches Some(Decision::Combined { children, .. })
            &&& events.len() == children.len()
            &&& forall|i: int|
                0 <= i < events.len() ==> {
                    &&& self.policies()[i].may_be_named((#[trigger] events[i]).policy_name@)
                    &&& events[i].granted == children[i].outcome()
                    &&& option_text(events[i].reason) == children[i].reason()
                }
            &&& verdict is Granted ==> events.last().policy_name@ == verdict.granted_by()
        }
    }

    pub fn new() -> (checker: Self)
        ensures
            checker.policies().len() == 0,
    {
        PermissionChecker { policies: Vec::new() }
    }

    /// Adds `policy` behind the policies that the checker holds.
    pub fn add_policy(&mut self, policy: Arc<dyn Policy<S, R, A, C>>)
        ensures
            final(self).policies().len() == old(self).policies().len() + 1,
            final(self).policies().last() == policy,
            final(self).policies().drop_last() == old(self).policies(),
    {
        let mut added = Vec::new();
        added.push(policy);
        self.policies.append(&mut added);
    }

    /// Decides the request: the policies are evaluated in order, up to and
    /// including the first that grants.
    pub fn evaluate_access(&self, subject: &S, action: &A, resource: &R, context: &C) -> (evaluation:
        AccessEvaluation)
        ensures
            self.may_conclude(subject, action, resource, context, evaluation@),
    {
        let (evaluation, _events) = self.evaluate_access_with_audit(
            subject,
            action,
            resource,
            context,
        );
        evaluation
    }

    /// Decides the request as `evaluate_access` does, and reports an audit
    /// event for each policy that was evaluated.
    pub fn evaluate_access_with_audit(
        &self,
        subject: &S,
        action: &A,
        resource: &R,
        context: &C,
    ) -> (answer: (AccessEvaluation, Vec<AuditEvent>))
        ensures
            self.may_conclude(subject, action, resource, context, answer.0@),
            self.may_report(answer.0@, answer.1@),
    {
        let mut events: Vec<AuditEvent> = Vec::new();
        if self.policies.len() == 0 {
            return (AccessEvaluation::no_policies(), events);
        }
        let first = self.policies[0].evaluate_access(subject, action, resource, context);
        let mut name = self.policies[0].policy_name();
        events.push(AuditEvent::of(name.clone(), &self.policies[0].security_metadata(), &first));
        let mut run = ShortCircuit::any(first);
        let mut i: usize = 1;
        while i < self.policies.len() && !run.is_settled()
            invariant
                1 <= i <= self.policies@.len(),
                run.operation() == CombineOp::Or,
                run.children().len() == i,
                is_run(CombineOp::Or, run.children()),
                forall|k: int|
                    0 <= k < i ==> (#[trigger] self.policies@[k]).may_decide(
                        subject,
                        action,
                        resource,
                        context,
                        run.children()[k],
                    ),
                events@.len() == i,
                forall|k: int|
                    0 <= k < i ==> {
                        &&& self.policies@[k].may_be_named((#[trigger] events@[k]).policy_name@)
                        &&& events@[k].granted == run.children()[k].outcome()
                        &&& option_text(events@[k].reason) == run.children()[k].reason()
                    },
                events@[i - 1].policy_name@ == name@,
            decreases self.policies@.len() - i,
        {
            let next = self.policies[i].evaluate_access(subject, action, resource, context);
            name = self.policies[i].policy_name();
            events.push(
                AuditEvent::of(name.clone(), &self.policies[i].security_metadata(), &next),
            );
            run = run.record(next);
            i = i + 1;
        }
        let root = run.into_result(String::from_str("PermissionChecker"));
        let evaluation = AccessEvaluation::from_decision(root, name);
        (evaluation, events)
    }
}

/// A checker that holds no policy denies every request, with the reason "No
/// policies configured".
pub proof fn lemma_no_policies_denies<S, R, A, C>(
    checker: PermissionChecker<S, R, A, C>,
    subject: &S,
    action: &A,
    resource: &R,
    context: &C,
    verdict: Verdict,
)
    requires
        checker.policies().len() == 0,
        checker.may_conclude(subject, action, resource, context, verdict),
    ensures
        verdict is Denied,
        verdict->Denied_reason == "No policies configured"@,
{
}

/// The trace of every answer has a root, and the root is well formed wherever
/// the decisions below it are.
pub proof fn lemma_trace_well_formed<S, R, A, C>(
    checker: PermissionChecker<S, R, A, C>,
    subject: &S,
    action: &A,
    resource: &R,
    context: &C,
    verdict: Verdict,
)
    requires
        checker.may_conclude(subject, action, resource, context, verdict),
        verdict.trace() matches Some(Decision::Combined { children, .. }) ==> all_well_formed(
            children,
        ),
    ensures
        verdict.trace() matches Some(root) && root.well_formed(),
{
}

/// A grant is in the name of the first policy that granted: that policy made
/// the last decision in the trace, every decision before it is a denial, and
/// the grant carries that policy's name and its reason.
pub proof fn lemma_granted_by_first<S, R, A, C>(
    checker: PermissionChecker<S, R, A, C>,
    subject: &S,
    action: &A,
    resource: &R,
    context: &C,
    verdict: Verdict,
)
    requires
        checker.may_conclude(subject, action, resource, context, verdict),
        verdict is Granted,
    ensures
        checker.policies().len() > 0,
        verdict.trace() matches Some(Decision::Combined { children, .. }) && {
            let last: int = children.len() - 1;
            &&& 1 <= children.len() <= checker.policies().len()
            &&& children[last].outcome()
            &&& forall|k: int| 0 <= k < last ==> !(#[trigger] children[k]).outcome()
            &&& checker.policies()[last].may_decide(
                subject,
                action,
                resource,
                context,
                children[last],
            )
            &&& checker.policies()[last].may_be_named(verdict->Granted_policy_name)
            &&& verdict->Granted_reason == children[last].reason()
        },
{
    let children = verdict.trace().unwrap()->children;
    crate::combinators::lemma_run_outcome(CombineOp::Or, children);
    assert forall|k: int| 0 <= k < children.len() - 1 implies !(#[trigger] children[k]).outcome() by {
        assert(!CombineOp::Or.stops_at(children[k].outcome()));
    }
}

/// Where no policy of a checker can grant the request, the checker denies it
/// with the reason "All policies denied access", and its trace holds one
/// decision for each policy, in the order of the policies.
pub proof fn lemma_all_denying_denies<S, R, A, C>(
    checker: PermissionChecker<S, R, A, C>,
    subject: &S,
    action: &A,
    resource: &R,
    context: &C,
    verdict: Verdict,
)
    requires
        checker.policies().len() > 0,
        checker.may_conclude(subject, action, resource, context, verdict),
        forall|i: int, decision: Decision|
            0 <= i < checker.policies().len() && #[trigger] checker.policies()[i].may_decide(
                subject,
                action,
                resource,
                context,
                decision,
            ) ==> !decision.outcome(),
    ensures
        verdict is Denied,
        verdict->Denied_reason == "All policies denied access"@,
        verdict.trace() matches Some(Decision::Combined { children, .. }) && {
            &&& children.len() == checker.policies().len()
            &&& forall|i: int|
                0 <= i < children.len() ==> (#[trigger] checker.policies()[i]).may_decide(
                    subject,
                    action,
                    resource,
                    context,
                    children[i],
                )
        },
{
    let children = verdict.trace().unwrap()->children;
    let last: int = children.len() - 1;
    assert(checker.policies()[last].may_decide(subject, action, resource, context, children[last]));
    crate::combinators::lemma_run_outcome(CombineOp::Or, children);
}

} // verus!
