//! An embeddable authorization decision engine.
//!
//! A policy decides whether a subject may perform an action on a resource in a
//! context. Policies compose with AND, OR and NOT, and a checker grants access
//! as soon as one of its policies does. Every decision carries the tree of the
//! decisions that led to it.

pub mod builder;
pub mod builtin;
pub mod checker;
pub mod combinators;
pub mod policy;
pub mod trace;

pub use builder::{
    built_result, Condition, Effect, Given, GivenAll, PolicyBuilder, Predicate, PredicatePolicy,
    Unset,
};
pub use builtin::{
    abac_result, has_required_role, rbac_result, rebac_result, AbacPolicy, RbacPolicy, RebacPolicy,
};
pub use checker::{AuditEvent, PermissionChecker};
pub use combinators::{negation, AndPolicy, NotPolicy, OrPolicy, PolicyError, ShortCircuit};
pub use policy::{
    PermissionAction, PermissionContext, PermissionResource, Policy, RelationshipResolver,
    SecurityRuleMetadata,
};
pub use trace::{AccessEvaluation, CombineOp, EvalTrace, PolicyEvalResult};
