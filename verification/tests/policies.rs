use gatehouse::{
    abac_result, built_result, has_required_role, rbac_result, rebac_result, AbacPolicy, Effect,
    PermissionChecker, Policy, PolicyBuilder, PolicyEvalResult, RbacPolicy, RebacPolicy,
    RelationshipResolver,
};
use std::sync::Arc;
use uuid::Uuid;

#[derive(Debug, Clone)]
struct User {
    id: Uuid,
    roles: Vec<Uuid>,
    name: String,
}

#[derive(Debug, Clone)]
struct Document {
    owner_id: Uuid,
    required: Vec<Uuid>,
}

#[derive(Debug, Clone, PartialEq)]
enum Action {
    Read,
    Write,
}

#[derive(Debug, Clone)]
struct Clock {
    hour: u32,
}

fn user(roles: Vec<Uuid>) -> User {
    User { id: Uuid::new_v4(), roles, name: "ann".to_string() }
}

fn document(required: Vec<Uuid>) -> Document {
    Document { owner_id: Uuid::new_v4(), required }
}

#[test]
fn rbac_grants_on_a_shared_role() {
    let a = Uuid::from_u128(1);
    let b = Uuid::from_u128(2);
    let policy = RbacPolicy::new(
        |resource: &Document, _action: &Action| resource.required.clone(),
        |subject: &User| subject.roles.clone(),
    );
    let result = Policy::<User, Document, Action, Clock>::evaluate_access(
        &policy,
        &user(vec![a]),
        &Action::Read,
        &document(vec![a, b]),
        &Clock { hour: 9 },
    );
    assert!(result.outcome());
    assert_eq!(result.format(0), "✓ RbacPolicy GRANTED: User has required role");
}

#[test]
fn rbac_denies_without_a_shared_role() {
    let a = Uuid::from_u128(1);
    let b = Uuid::from_u128(2);
    let c = Uuid::from_u128(3);
    let policy = RbacPolicy::new(
        |resource: &Document, _action: &Action| resource.required.clone(),
        |subject: &User| subject.roles.clone(),
    );
    let result = Policy::<User, Document, Action, Clock>::evaluate_access(
        &policy,
        &user(vec![c]),
        &Action::Read,
        &document(vec![a, b]),
        &Clock { hour: 9 },
    );
    assert!(!result.outcome());
    assert_eq!(result.format(0), "✗ RbacPolicy DENIED: User doesn't have required role");
}

#[test]
fn rbac_required_roles_depend_on_the_action() {
    let reader = Uuid::new_v4();
    let writer = Uuid::new_v4();
    let policy = RbacPolicy::new(
        move |_resource: &Document, action: &Action| match action {
            Action::Read => vec![reader, writer],
            Action::Write => vec![writer],
        },
        |subject: &User| subject.roles.clone(),
    );
    let subject = user(vec![reader]);
    let resource = document(vec![]);
    let clock = Clock { hour: 9 };
    assert!(policy.evaluate_access(&subject, &Action::Read, &resource, &clock).outcome());
    assert!(!policy.evaluate_access(&subject, &Action::Write, &resource, &clock).outcome());
    assert_eq!(Policy::<User, Document, Action, Clock>::policy_name(&policy), "RbacPolicy");
}

#[test]
fn roles_are_compared_as_identifiers() {
    let a = Uuid::from_u128(0x0123_4567_89ab_cdef_0123_4567_89ab_cdef);
    let same = Uuid::from_u128(0x0123_4567_89ab_cdef_0123_4567_89ab_cdef);
    let other = Uuid::from_u128(0x0123_4567_89ab_cdef_0123_4567_89ab_cdee);
    assert!(has_required_role(&vec![a], &vec![same]));
    assert!(!has_required_role(&vec![a], &vec![other]));
    assert!(!has_required_role(&vec![a], &vec![]));
    assert!(!has_required_role(&vec![], &vec![a]));
    assert!(!has_required_role(&vec![], &vec![]));
    assert!(has_required_role(&vec![other, a], &vec![Uuid::nil(), same]));
    assert!(!has_required_role(&vec![a, a], &vec![other, Uuid::nil()]));
}

#[test]
fn rbac_decisions() {
    assert_eq!(rbac_result(true).format(0), "✓ RbacPolicy GRANTED: User has required role");
    assert_eq!(
        rbac_result(false).format(0),
        "✗ RbacPolicy DENIED: User doesn't have required role"
    );
}

#[test]
fn abac_grants_when_its_condition_holds() {
    let policy = AbacPolicy::new(
        |subject: &User, resource: &Document, _action: &Action, _context: &Clock| {
            subject.id == resource.owner_id
        },
    );
    let owner = user(vec![]);
    let owned = Document { owner_id: owner.id, required: vec![] };
    let other = document(vec![]);
    let clock = Clock { hour: 9 };
    let result = policy.evaluate_access(&owner, &Action::Read, &owned, &clock);
    assert!(result.outcome());
    assert_eq!(result.format(0), "✓ AbacPolicy GRANTED: Condition evaluated to true");
    let result = policy.evaluate_access(&owner, &Action::Read, &other, &clock);
    assert!(!result.outcome());
    assert_eq!(result.format(0), "✗ AbacPolicy DENIED: Condition evaluated to false");
    assert_eq!(policy.policy_name(), "AbacPolicy");
}

#[test]
fn abac_condition_sees_all_four_inputs() {
    let policy = AbacPolicy::new(
        |subject: &User, resource: &Document, action: &Action, context: &Clock| {
            subject.name == "ann"
                && resource.required.is_empty()
                && *action == Action::Write
                && context.hour < 12
        },
    );
    let subject = user(vec![]);
    let resource = document(vec![]);
    assert!(policy
        .evaluate_access(&subject, &Action::Write, &resource, &Clock { hour: 9 })
        .outcome());
    assert!(!policy
        .evaluate_access(&subject, &Action::Read, &resource, &Clock { hour: 9 })
        .outcome());
    assert!(!policy
        .evaluate_access(&subject, &Action::Write, &resource, &Clock { hour: 13 })
        .outcome());
}

#[test]
fn abac_decisions() {
    assert_eq!(abac_result(true).format(0), "✓ AbacPolicy GRANTED: Condition evaluated to true");
    assert_eq!(abac_result(false).format(0), "✗ AbacPolicy DENIED: Condition evaluated to false");
}

struct Answers(bool);

impl RelationshipResolver<User, Document> for Answers {
    fn has_relationship(&self, _subject: &User, _resource: &Document, relationship: &str) -> bool {
        self.0 && relationship == "owner"
    }
}

#[test]
fn rebac_grants_when_the_resolver_finds_the_relationship() {
    let policy = RebacPolicy::<User, Document, Action, Clock, _>::new("owner", Answers(true));
    let result =
        policy.evaluate_access(&user(vec![]), &Action::Read, &document(vec![]), &Clock { hour: 1 });
    match &result {
        PolicyEvalResult::Granted { policy_name, reason } => {
            assert_eq!(policy_name, "RebacPolicy");
            assert_eq!(
                reason.as_deref(),
                Some("Subject has 'owner' relationship with resource")
            );
        }
        other => panic!("expected a grant, got {:?}", other),
    }
    assert_eq!(policy.policy_name(), "RebacPolicy");
}

#[test]
fn rebac_denies_when_the_resolver_does_not() {
    let policy = RebacPolicy::<User, Document, Action, Clock, _>::new("owner", Answers(false));
    let result =
        policy.evaluate_access(&user(vec![]), &Action::Read, &document(vec![]), &Clock { hour: 1 });
    match &result {
        PolicyEvalResult::Denied { policy_name, reason } => {
            assert_eq!(policy_name, "RebacPolicy");
            assert_eq!(reason, "Subject does not have 'owner' relationship with resource");
        }
        other => panic!("expected a denial, got {:?}", other),
    }
}

#[test]
fn rebac_asks_for_its_own_relationship() {
    let policy = RebacPolicy::<User, Document, Action, Clock, _>::new("manager", Answers(true));
    let result =
        policy.evaluate_access(&user(vec![]), &Action::Read, &document(vec![]), &Clock { hour: 1 });
    assert_eq!(
        result.format(0),
        "✗ RebacPolicy DENIED: Subject does not have 'manager' relationship with resource"
    );
}

#[test]
fn rebac_decisions() {
    assert_eq!(
        rebac_result("viewer", true).format(0),
        "✓ RebacPolicy GRANTED: Subject has 'viewer' relationship with resource"
    );
    assert_eq!(
        rebac_result("", false).format(0),
        "✗ RebacPolicy DENIED: Subject does not have '' relationship with resource"
    );
}

#[test]
fn built_decisions() {
    assert_eq!(
        built_result("p", Effect::Allow, true).format(0),
        "✓ p GRANTED: policy allowed access"
    );
    assert_eq!(
        built_result("p", Effect::Deny, true).format(0),
        "✗ p DENIED: policy denied access"
    );
    assert_eq!(
        built_result("p", Effect::Allow, false).format(0),
        "✗ p DENIED: policy predicate did not match"
    );
    assert_eq!(
        built_result("p", Effect::Deny, false).format(0),
        "✗ p DENIED: policy predicate did not match"
    );
}

#[test]
fn a_builder_without_predicates_allows() {
    let policy = PolicyBuilder::<User, Document, Action, Clock>::new("open").build();
    let result =
        policy.evaluate_access(&user(vec![]), &Action::Read, &document(vec![]), &Clock { hour: 1 });
    assert!(result.outcome());
    assert_eq!(result.format(0), "✓ open GRANTED: policy allowed access");
    assert_eq!(policy.policy_name(), "open");
}

#[test]
fn a_deny_builder_without_predicates_denies() {
    let policy =
        PolicyBuilder::<User, Document, Action, Clock>::new("closed").effect(Effect::Deny).build();
    let result =
        policy.evaluate_access(&user(vec![]), &Action::Read, &document(vec![]), &Clock { hour: 1 });
    assert!(!result.outcome());
    assert_eq!(result.reason(), Some("policy denied access".to_string()));
    assert_eq!(result.format(0), "✗ closed DENIED: policy denied access");
}

#[test]
fn a_deny_builder_that_does_not_match_still_denies() {
    let policy = PolicyBuilder::<User, Document, Action, Clock>::new("closed")
        .effect(Effect::Deny)
        .subjects(|subject: &User| subject.name == "bob")
        .build();
    let result =
        policy.evaluate_access(&user(vec![]), &Action::Read, &document(vec![]), &Clock { hour: 1 });
    assert!(!result.outcome());
    assert_eq!(result.format(0), "✗ closed DENIED: policy predicate did not match");
}

#[test]
fn each_predicate_of_a_builder_must_hold() {
    let subject = user(vec![]);
    let resource = document(vec![]);
    let build = || {
        PolicyBuilder::<User, Document, Action, Clock>::new("office hours")
            .subjects(|subject: &User| subject.name == "ann")
            .actions(|action: &Action| *action == Action::Read)
            .resources(|resource: &Document| resource.required.is_empty())
            .context(|context: &Clock| context.hour >= 9 && context.hour < 17)
            .when(|subject: &User, _action: &Action, resource: &Document, _context: &Clock| {
                subject.id != resource.owner_id
            })
            .build()
    };
    let policy = build();
    assert!(policy.evaluate_access(&subject, &Action::Read, &resource, &Clock { hour: 9 }).outcome());

    let stranger = User { id: Uuid::new_v4(), roles: vec![], name: "bob".to_string() };
    assert!(!policy
        .evaluate_access(&stranger, &Action::Read, &resource, &Clock { hour: 9 })
        .outcome());
    assert!(!policy
        .evaluate_access(&subject, &Action::Write, &resource, &Clock { hour: 9 })
        .outcome());
    let guarded = document(vec![Uuid::new_v4()]);
    assert!(!policy.evaluate_access(&subject, &Action::Read, &guarded, &Clock { hour: 9 }).outcome());
    assert!(!policy
        .evaluate_access(&subject, &Action::Read, &resource, &Clock { hour: 18 })
        .outcome());
    let own = Document { owner_id: subject.id, required: vec![] };
    let result = policy.evaluate_access(&subject, &Action::Read, &own, &Clock { hour: 9 });
    assert_eq!(result.format(0), "✗ office hours DENIED: policy predicate did not match");
}

#[test]
fn a_predicate_set_again_replaces_the_first() {
    let policy = PolicyBuilder::<User, Document, Action, Clock>::new("named")
        .subjects(|subject: &User| subject.name == "bob")
        .subjects(|subject: &User| subject.name == "ann")
        .build();
    assert!(policy
        .evaluate_access(&user(vec![]), &Action::Read, &document(vec![]), &Clock { hour: 1 })
        .outcome());
}

#[test]
fn the_effect_can_be_set_back() {
    let policy = PolicyBuilder::<User, Document, Action, Clock>::new("again")
        .effect(Effect::Deny)
        .effect(Effect::Allow)
        .build();
    assert!(policy
        .evaluate_access(&user(vec![]), &Action::Read, &document(vec![]), &Clock { hour: 1 })
        .outcome());
}

#[test]
fn built_policies_serve_a_checker() {
    let mut checker = PermissionChecker::<User, Document, Action, Clock>::new();
    checker.add_policy(Arc::new(
        PolicyBuilder::new("deny_policy_0").effect(Effect::Deny).build(),
    ));
    checker.add_policy(Arc::new(
        PolicyBuilder::new("readers")
            .actions(|action: &Action| *action == Action::Read)
            .build(),
    ));
    let subject = user(vec![]);
    let resource = document(vec![]);
    let clock = Clock { hour: 1 };
    let read = checker.evaluate_access(&subject, &Action::Read, &resource, &clock);
    assert!(read.is_granted());
    let write = checker.evaluate_access(&subject, &Action::Write, &resource, &clock);
    assert!(!write.is_granted());
    match write {
        gatehouse::AccessEvaluation::Denied { trace, reason } => {
            assert_eq!(reason, "All policies denied access");
            assert_eq!(
                trace.format(),
                "✗ PermissionChecker (OR)\n  ✗ deny_policy_0 DENIED: policy denied access\n  ✗ readers DENIED: policy predicate did not match"
            );
        }
        other => panic!("expected a denial, got {:?}", other),
    }
}

#[test]
fn builtin_policies_serve_a_checker() {
    let admin = Uuid::new_v4();
    let mut checker = PermissionChecker::<User, Document, Action, Clock>::new();
    checker.add_policy(Arc::new(RbacPolicy::new(
        move |_resource: &Document, _action: &Action| vec![admin],
        |subject: &User| subject.roles.clone(),
    )));
    checker.add_policy(Arc::new(AbacPolicy::new(
        |subject: &User, resource: &Document, _action: &Action, _context: &Clock| {
            subject.id == resource.owner_id
        },
    )));
    checker.add_policy(Arc::new(RebacPolicy::new("owner", Answers(false))));
    let clock = Clock { hour: 1 };
    let resource = document(vec![]);

    let an_admin = user(vec![admin]);
    match checker.evaluate_access(&an_admin, &Action::Read, &resource, &clock) {
        gatehouse::AccessEvaluation::Granted { policy_name, reason, .. } => {
            assert_eq!(policy_name, "RbacPolicy");
            assert_eq!(reason, Some("User has required role".to_string()));
        }
        other => panic!("expected a grant, got {:?}", other),
    }

    let owner = User { id: resource.owner_id, roles: vec![], name: "ann".to_string() };
    match checker.evaluate_access(&owner, &Action::Read, &resource, &clock) {
        gatehouse::AccessEvaluation::Granted { policy_name, trace, .. } => {
            assert_eq!(policy_name, "AbacPolicy");
            assert_eq!(
                trace.format(),
                "✓ PermissionChecker (OR)\n  ✗ RbacPolicy DENIED: User doesn't have required role\n  ✓ AbacPolicy GRANTED: Condition evaluated to true"
            );
        }
        other => panic!("expected a grant, got {:?}", other),
    }

    let nobody = user(vec![]);
    match checker.evaluate_access(&nobody, &Action::Read, &resource, &clock) {
        gatehouse::AccessEvaluation::Denied { trace, .. } => assert_eq!(
            trace.format(),
            "✗ PermissionChecker (OR)\n  ✗ RbacPolicy DENIED: User doesn't have required role\n  ✗ AbacPolicy DENIED: Condition evaluated to false\n  ✗ RebacPolicy DENIED: Subject does not have 'owner' relationship with resource"
        ),
        other => panic!("expected a denial, got {:?}", other),
    }
}
