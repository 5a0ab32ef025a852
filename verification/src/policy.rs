//! What a policy is, and what the engine asks of the host's own types.

use crate::trace::{Decision, PolicyEvalResult};
use vstd::prelude::*;

verus! {

/// Audit fields that a policy may attach to itself. All are absent unless the
/// policy says otherwise.
#[derive(Debug)]
pub struct SecurityRuleMetadata {
    pub name: Option<String>,
    pub category: Option<String>,
    pub description: Option<String>,
    pub reference: Option<String>,
    pub ruleset_name: Option<String>,
    pub uuid: Option<String>,
    pub version: Option<String>,
    pub license: Option<String>,
}

impl SecurityRuleMetadata {
    /// No field is set.
    pub open spec fn is_empty(&self) -> bool {
        &&& self.name is None
        &&& self.category is None
        &&& self.description is None
        &&& self.reference is None
        &&& self.ruleset_name is None
        &&& self.uuid is None
        &&& self.version is None
        &&& self.license is None
    }

    pub fn new() -> (metadata: Self)
        ensures
            metadata.is_empty(),
    {
        SecurityRuleMetadata {
            name: None,
            category: None,
            description: None,
            reference: None,
            ruleset_name: None,
            uuid: None,
            version: None,
            license: None,
        }
    }
}

impl Default for SecurityRuleMetadata {
    fn default() -> (metadata: Self)
        ensures
            metadata.is_empty(),
    {
        SecurityRuleMetadata::new()
    }
}

/// A unit of decision: whether a subject may perform an action on a resource
/// in a context.
///
/// An evaluation may consult the host (a resolver may query a database), so
/// two evaluations of one request may differ. `may_decide` holds of every
/// decision that an evaluation can reach.
pub trait Policy<Subject, Resource, Action, Context>: Send + Sync {
    /// The decisions that this policy may reach on a request. A policy that
    /// says nothing of itself may reach any.
    open spec fn may_decide(
        &self,
        subject: &Subject,
        action: &Action,
        resource: &Resource,
        context: &Context,
        decision: Decision,
    ) -> bool {
        true
    }

    /// The names that this policy may give itself. A policy that says nothing
    /// of itself may give any.
    open spec fn may_be_named(&self, name: Seq<char>) -> bool {
        true
    }

    /// Decides the request.
    fn evaluate_access(
        &self,
        subject: &Subject,
        action: &Action,
        resource: &Resource,
        context: &Context,
    ) -> (result: PolicyEvalResult)
        ensures
            self.may_decide(subject, action, resource, context, result@),
    ;

    /// The name under which this policy appears in traces.
    fn policy_name(&self) -> (name: String)
        ensures
            self.may_be_named(name@),
    ;

    /// Audit fields for this policy. A policy that does not say otherwise has
    /// none.
    fn security_metadata(&self) -> (metadata: SecurityRuleMetadata)
        default_ensures
            metadata.is_empty(),
    {
        SecurityRuleMetadata::new()
    }
}

/// Answers whether a relationship holds between a subject and a resource.
///
/// A resolver that cannot find out answers `false`.
pub trait RelationshipResolver<Subject, Resource>: Send + Sync {
    /// The answers that this resolver may give. A resolver that says nothing
    /// of itself may give either.
    open spec fn may_answer(
        &self,
        subject: &Subject,
        resource: &Resource,
        relationship: Seq<char>,
        answer: bool,
    ) -> bool {
        true
    }

    fn has_relationship(&self, subject: &Subject, resource: &Resource, relationship: &str) -> (answer:
        bool)
        ensures
            self.may_answer(subject, resource, relationship@, answer),
    ;
}

/// Marks a type as the context of a permission check.
pub trait PermissionContext: core::fmt::Debug + Send + Sync {

}

/// Marks a type as the resource of a permission check.
pub trait PermissionResource: core::fmt::Debug + Send + Sync {

}

/// Marks a type as the action of a permission check.
pub trait PermissionAction: core::fmt::Debug + Send + Sync {

}

} // verus!
