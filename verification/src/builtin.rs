//! The built-in policies.

use crate::policy::{Policy, RelationshipResolver};
use crate::trace::{Decision, PolicyEvalResult};
use core::marker::PhantomData;
use uuid::Uuid;
use vstd::prelude::*;

verus! {

/// `uuid::Uuid`, the identifier of a role. The library carries such values
/// and compares them, and reads nothing else of them.
#[verifier::external_type_specification]
#[verifier::external_body]
pub struct ExUuid(Uuid);

/// `Uuid`'s `==`, which compares the sixteen bytes of the two identifiers:
/// it holds exactly when they are the same identifier.
#[verifier::external_body]
fn same_uuid(left: &Uuid, right: &Uuid) -> (same: bool)
    ensures
        same == (*left == *right),
{
    left == right
}

/// Some role in `required` is also in `held`.
pub open spec fn share_a_role(required: Seq<Uuid>, held: Seq<Uuid>) -> bool {
    exists|i: int, j: int|
        0 <= i < required.len() && 0 <= j < held.len() && #[trigger] required[i]
            == #[trigger] held[j]
}

/// Whether a subject that holds the roles `held` has one of the roles
/// `required`.
pub fn has_required_role(required: &Vec<Uuid>, held: &Vec<Uuid>) -> (found: bool)
    ensures
        found == share_a_role(required@, held@),
{
    let mut i: usize = 0;
    while i < required.len()
        invariant
            i <= required.len(),
            forall|p: int, q: int|
                0 <= p < i && 0 <= q < held@.len() ==> #[trigger] required@[p]
                    != #[trigger] held@[q],
        decreases required.len() - i,
    {
        let mut j: usize = 0;
        while j < held.len()
            invariant
                i < required.len(),
                j <= held.len(),
                forall|q: int| 0 <= q < j ==> required@[i as int] != #[trigger] held@[q],
            decreases held.len() - j,
        {
            if same_uuid(&required[i], &held[j]) {
                return true;
            }
            j = j + 1;
        }
        i = i + 1;
    }
    false
}

/// The decision of a role-based policy on whether the subject has a required
/// role.
pub open spec fn rbac_decision(has_role: bool) -> Decision {
    if has_role {
        Decision::Granted { policy_name: "RbacPolicy"@, reason: Some("User has required role"@) }
    } else {
        Decision::Denied {
            policy_name: "RbacPolicy"@,
            reason: "User doesn't have required role"@,
        }
    }
}

/// The decision of a role-based policy on whether the subject has a required
/// role.
pub fn rbac_result(has_role: bool) -> (result: PolicyEvalResult)
    ensures
        result@ == rbac_decision(has_role),
{
    if has_role {
        PolicyEvalResult::Granted {
            policy_name: String::from_str("RbacPolicy"),
            reason: Some(String::from_str("User has required role")),
        }
    } else {
        PolicyEvalResult::Denied {
            policy_name: String::from_str("RbacPolicy"),
            reason: String::from_str("User doesn't have required role"),
        }
    }
}

/// Role-based access control: grants when the subject holds one of the roles
/// that the resource and the action require. The context plays no part.
pub struct RbacPolicy<
    S,
    R,
    A,
    F1: Fn(&R, &A) -> Vec<Uuid>,
    F2: Fn(&S) -> Vec<Uuid>,
> {
    required_roles_resolver: F1,
    user_roles_resolver: F2,
    _marker: PhantomData<(S, R, A)>,
}

impl<S, R, A, F1: Fn(&R, &A) -> Vec<Uuid>, F2: Fn(&S) -> Vec<Uuid>> RbacPolicy<S, R, A, F1, F2> {
    #[verifier::type_invariant]
    spec fn total(self) -> bool {
        &&& forall|resource: &R, action: &A|
            call_requires(self.required_roles_resolver, (resource, action))
        &&& forall|subject: &S| call_requires(self.user_roles_resolver, (subject,))
    }

    /// The function that gives the roles that a resource and an action
    /// require.
    pub closed spec fn required_roles_resolver(&self) -> F1 {
        self.required_roles_resolver
    }

    /// The function that gives the roles that a subject holds.
    pub closed spec fn user_roles_resolver(&self) -> F2 {
        self.user_roles_resolver
    }

    /// A policy over the two functions, each of which must accept every
    /// argument.
    pub fn new(required_roles_resolver: F1, user_roles_resolver: F2) -> (policy: Self)
        requires
            forall|resource: &R, action: &A|
                call_requires(required_roles_resolver, (resource, action)),
            forall|subject: &S| call_requires(user_roles_resolver, (subject,)),
        ensures
            policy.required_roles_resolver() == required_roles_resolver,
            policy.user_roles_resolver() == user_roles_resolver,
    {
        RbacPolicy { required_roles_resolver, user_roles_resolver, _marker: PhantomData }
    }
}

impl<S, R, A, C, F1, F2> Policy<S, R, A, C> for RbacPolicy<S, R, A, F1, F2> where
    S: Sync + Send,
    R: Sync + Send,
    A: Sync + Send,
    C: Sync + Send,
    F1: Fn(&R, &A) -> Vec<Uuid> + Sync + Send,
    F2: Fn(&S) -> Vec<Uuid> + Sync + Send,
 {
    open spec fn may_decide(
        &self,
        subject: &S,
        action: &A,
        resource: &R,
        context: &C,
        decision: Decision,
    ) -> bool {
        exists|required: Vec<Uuid>, held: Vec<Uuid>|
            {
                &&& call_ensures(self.required_roles_resolver(), (resource, action), required)
                &&& call_ensures(self.user_roles_resolver(), (subject,), held)
                &&& decision == rbac_decision(#[trigger] share_a_role(required@, held@))
            }
    }

    open spec fn may_be_named(&self, name: Seq<char>) -> bool {
        name == "RbacPolicy"@
    }

    fn evaluate_access(&self, subject: &S, action: &A, resource: &R, context: &C) -> (result:
        PolicyEvalResult) {
        proof {
            use_type_invariant(self);
        }
        let required = (self.required_roles_resolver)(resource, action);
        let held = (self.user_roles_resolver)(subject);
        let has_role = has_required_role(&required, &held);
        assert(has_role == share_a_role(required@, held@));
        rbac_result(has_role)
    }

    fn policy_name(&self) -> (name: String) {
        String::from_str("RbacPolicy")
    }
}

/// The decision of an attribute-based policy whose condition gave `met`.
pub open spec fn abac_decision(met: bool) -> Decision {
    if met {
        Decision::Granted {
            policy_name: "AbacPolicy"@,
            reason: Some("Condition evaluated to true"@),
        }
    } else {
        Decision::Denied { policy_name: "AbacPolicy"@, reason: "Condition evaluated to false"@ }
    }
}

/// The decision of an attribute-based policy whose condition gave `met`.
pub fn abac_result(met: bool) -> (result: PolicyEvalResult)
    ensures
        result@ == abac_decision(met),
{
    if met {
        PolicyEvalResult::Granted {
            policy_name: String::from_str("AbacPolicy"),
            reason: Some(String::from_str("Condition evaluated to true")),
        }
    } else {
        PolicyEvalResult::Denied {
            policy_name: String::from_str("AbacPolicy"),
            reason: String::from_str("Condition evaluated to false"),
        }
    }
}

/// Attribute-based access control: grants exactly when its condition holds of
/// the subject, the resource, the action and the context.
pub struct AbacPolicy<S, R, A, C, F: Fn(&S, &R, &A, &C) -> bool> {
    condition: F,
    _marker: PhantomData<(S, R, A, C)>,
}

impl<S, R, A, C, F: Fn(&S, &R, &A, &C) -> bool> AbacPolicy<S, R, A, C, F> {
    #[verifier::type_invariant]
    spec fn total(self) -> bool {
        forall|subject: &S, resource: &R, action: &A, context: &C|
            call_requires(self.condition, (subject, resource, action, context))
    }

    /// The condition that the policy tests.
    pub closed spec fn condition(&self) -> F {
        self.condition
    }

    /// A policy that grants when `condition` holds. The condition must accept
    /// every request.
    pub fn new(condition: F) -> (policy: Self)
        requires
            forall|subject: &S, resource: &R, action: &A, context: &C|
                call_requires(condition, (subject, resource, action, context)),
        ensures
            policy.condition() == condition,
    {
        AbacPolicy { condition, _marker: PhantomData }
    }
}

impl<S, R, A, C, F> Policy<S, R, A, C> for AbacPolicy<S, R, A, C, F> where
    S: Sync + Send,
    R: Sync + Send,
    A: Sync + Send,
    C: Sync + Send,
    F: Fn(&S, &R, &A, &C) -> bool + Sync + Send,
 {
    open spec fn may_decide(
        &self,
        subject: &S,
        action: &A,
        resource: &R,
        context: &C,
        decision: Decision,
    ) -> bool {
        exists|met: bool|
            call_ensures(self.condition(), (subject, resource, action, context), met) && decision
                == abac_decision(met)
    }

    open spec fn may_be_named(&self, name: Seq<char>) -> bool {
        name == "AbacPolicy"@
    }

    fn evaluate_access(&self, subject: &S, action: &A, resource: &R, context: &C) -> (result:
        PolicyEvalResult) {
        proof {
            use_type_invariant(self);
        }
        let met = (self.condition)(subject, resource, action, context);
        abac_result(met)
    }

    fn policy_name(&self) -> (name: String) {
        String::from_str("AbacPolicy")
    }
}

/// The decision of a relationship-based policy for `relationship`, on whether
/// the relationship holds.
pub open spec fn rebac_decision(relationship: Seq<char>, related: bool) -> Decision {
    if related {
        Decision::Granted {
            policy_name: "RebacPolicy"@,
            reason: Some("Subject has '"@ + relationship + "' relationship with resource"@),
        }
    } else {
        Decision::Denied {
            policy_name: "RebacPolicy"@,
            reason: "Subject does not have '"@ + relationship + "' relationship with resource"@,
        }
    }
}

/// The decision of a relationship-based policy for `relationship`, on whether
/// the relationship holds.
pub fn rebac_result(relationship: &str, related: bool) -> (result: PolicyEvalResult)
    ensures
        result@ == rebac_decision(relationship@, related),
{
    if related {
        let mut reason = String::from_str("Subject has '");
        reason.append(relationship);
        reason.append("' relationship with resource");
        PolicyEvalResult::Granted {
            policy_name: String::from_str("RebacPolicy"),
            reason: Some(reason),
        }
    } else {
        let mut reason = String::from_str("Subject does not have '");
        reason.append(relationship);
        reason.append("' relationship with resource");
        PolicyEvalResult::Denied { policy_name: String::from_str("RebacPolicy"), reason }
    }
}

/// Relationship-based access control: grants when its resolver finds the
/// relationship between the subject and the resource. The action and the
/// context play no part.
pub struct RebacPolicy<S, R, A, C, RG> {
    relationship: String,
    resolver: RG,
    _marker: PhantomData<(S, R, A, C)>,
}

impl<S, R, A, C, RG> RebacPolicy<S, R, A, C, RG> {
    /// The relationship that the policy asks for.
    pub closed spec fn relationship(&self) -> Seq<char> {
        self.relationship@
    }

    /// The resolver that the policy asks.
    pub closed spec fn resolver(&self) -> RG {
        self.resolver
    }

    /// A policy that asks `resolver` for `relationship`.
    pub fn new(relationship: &str, resolver: RG) -> (policy: Self)
        ensures
            policy.relationship() == relationship@,
            policy.resolver() == resolver,
    {
        RebacPolicy { relationship: String::from_str(relationship), resolver, _marker: PhantomData }
    }
}

impl<S, R, A, C, RG> Policy<S, R, A, C> for RebacPolicy<S, R, A, C, RG> where
    S: Sync + Send,
    R: Sync + Send,
    A: Sync + Send,
    C: Sync + Send,
    RG: RelationshipResolver<S, R> + Send + Sync,
 {
    open spec fn may_decide(
        &self,
        subject: &S,
        action: &A,
        resource: &R,
        context: &C,
        decision: Decision,
    ) -> bool {
        exists|related: bool|
            {
                &&& #[trigger] self.resolver().may_answer(
                    subject,
                    resource,
                    self.relationship(),
                    related,
                )
                &&& decision == rebac_decision(self.relationship(), related)
            }
    }

    open spec fn may_be_named(&self, name: Seq<char>) -> bool {
        name == "RebacPolicy"@
    }

    fn evaluate_access(&self, subject: &S, action: &A, resource: &R, context: &C) -> (result:
        PolicyEvalResult) {
        let related = self.resolver.has_relationship(
            subject,
            resource,
            self.relationship.as_str(),
        );
        assert(self.resolver().may_answer(subject, resource, self.relationship(), related));
        rebac_result(self.relationship.as_str(), related)
    }

    fn policy_name(&self) -> (name: String) {
        String::from_str("RebacPolicy")
    }
}

} // verus!
