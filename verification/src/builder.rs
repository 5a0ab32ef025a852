//! A builder for policies made of plain predicates.
//!
//! A built policy tests the subject, the action, the resource and the
//! context, each by its own predicate, and then the whole request by one more.
//! A predicate that was never set holds of everything, so a builder that was
//! given none builds a policy that matches every request.

use crate::policy::Policy;
use crate::trace::{Decision, PolicyEvalResult};
use core::marker::PhantomData;
use vstd::prelude::*;

verus! {

/// What a built policy does with a request that it matches.
#[derive(Clone, Copy, Debug, PartialEq, Eq, Structural)]
pub enum Effect {
    Allow,
    Deny,
}

/// A test of one part of a request.
pub trait Predicate<T>: Send + Sync {
    /// The answers that the test may give of `value`.
    spec fn may_hold(&self, value: &T, answer: bool) -> bool;

    fn test(&self, value: &T) -> (answer: bool)
        ensures
            self.may_hold(value, answer),
    ;
}

/// A test of a whole request.
pub trait Condition<S, R, A, C>: Send + Sync {
    /// The answers that the test may give of the request.
    spec fn may_hold(&self, subject: &S, action: &A, resource: &R, context: &C, answer: bool) -> bool;

    fn test(&self, subject: &S, action: &A, resource: &R, context: &C) -> (answer: bool)
        ensures
            self.may_hold(subject, action, resource, context, answer),
    ;
}

/// The place of a predicate that was not set. It holds of everything.
#[derive(Clone, Copy, Debug)]
pub struct Unset;

impl<T> Predicate<T> for Unset {
    open spec fn may_hold(&self, value: &T, answer: bool) -> bool {
        answer
    }

    fn test(&self, value: &T) -> (answer: bool) {
        true
    }
}

impl<S, R, A, C> Condition<S, R, A, C> for Unset {
    open spec fn may_hold(&self, subject: &S, action: &A, resource: &R, context: &C, answer: bool) -> bool {
        answer
    }

    fn test(&self, subject: &S, action: &A, resource: &R, context: &C) -> (answer: bool) {
        true
    }
}

/// A predicate on one part of a request, given as a function that accepts
/// every value.
pub struct Given<T, F: Fn(&T) -> bool> {
    predicate: F,
    _marker: PhantomData<T>,
}

impl<T, F: Fn(&T) -> bool> Given<T, F> {
    #[verifier::type_invariant]
    spec fn total(self) -> bool {
        forall|value: &T| call_requires(self.predicate, (value,))
    }

    /// The function that was given.
    pub closed spec fn predicate(&self) -> F {
        self.predicate
    }

    pub fn new(predicate: F) -> (given: Self)
        requires
            forall|value: &T| call_requires(predicate, (value,)),
        ensures
            given.predicate() == predicate,
    {
        Given { predicate, _marker: PhantomData }
    }
}

impl<T: Send + Sync, F: Fn(&T) -> bool + Send + Sync> Predicate<T> for Given<T, F> {
    open spec fn may_hold(&self, value: &T, answer: bool) -> bool {
        call_ensures(self.predicate(), (value,), answer)
    }

    fn test(&self, value: &T) -> (answer: bool) {
        proof {
            use_type_invariant(self);
        }
        (self.predicate)(value)
    }
}

/// A predicate on a whole request, given as a function that accepts every
/// request.
pub struct GivenAll<S, R, A, C, F: Fn(&S, &A, &R, &C) -> bool> {
    predicate: F,
    _marker: PhantomData<(S, R, A, C)>,
}

impl<S, R, A, C, F: Fn(&S, &A, &R, &C) -> bool> GivenAll<S, R, A, C, F> {
    #[verifier::type_invariant]
    spec fn total(self) -> bool {
        forall|subject: &S, action: &A, resource: &R, context: &C|
            call_requires(self.predicate, (subject, action, resource, context))
    }

    /// The function that was given.
    pub closed spec fn predicate(&self) -> F {
        self.predicate
    }

    pub fn new(predicate: F) -> (given: Self)
        requires
            forall|subject: &S, action: &A, resource: &R, context: &C|
                call_requires(predicate, (subject, action, resource, context)),
        ensures
            given.predicate() == predicate,
    {
        GivenAll { predicate, _marker: PhantomData }
    }
}

impl<S, R, A, C, F> Condition<S, R, A, C> for GivenAll<S, R, A, C, F> where
    S: Send + Sync,
    R: Send + Sync,
    A: Send + Sync,
    C: Send + Sync,
    F: Fn(&S, &A, &R, &C) -> bool + Send + Sync,
 {
    open spec fn may_hold(&self, subject: &S, action: &A, resource: &R, context: &C, answer: bool) -> bool {
        call_ensures(self.predicate(), (subject, action, resource, context), answer)
    }

    fn test(&self, subject: &S, action: &A, resource: &R, context: &C) -> (answer: bool) {
        proof {
            use_type_invariant(self);
        }
        (self.predicate)(subject, action, resource, context)
    }
}

/// The decision of a built policy named `name`, with the effect `effect`, on
/// whether its predicates matched the request.
///
/// A request that is not matched is denied whatever the effect.
pub open spec fn built_decision(name: Seq<char>, effect: Effect, matched: bool) -> Decision {
    if !matched {
        Decision::Denied { policy_name: name, reason: "policy predicate did not match"@ }
    } else if effect == Effect::Allow {
        Decision::Granted { policy_name: name, reason: Some("policy allowed access"@) }
    } else {
        Decision::Denied { policy_name: name, reason: "policy denied access"@ }
    }
}

/// The decision of a built policy named `name`, with the effect `effect`, on
/// whether its predicates matched the request.
pub fn built_result(name: &str, effect: Effect, matched: bool) -> (result: PolicyEvalResult)
    ensures
        result@ == built_decision(name@, effect, matched),
{
    if !matched {
        PolicyEvalResult::Denied {
            policy_name: String::from_str(name),
            reason: String::from_str("policy predicate did not match"),
        }
    } else {
        match effect {
            Effect::Allow => PolicyEvalResult::Granted {
                policy_name: String::from_str(name),
                reason: Some(String::from_str("policy allowed access")),
            },
            Effect::Deny => PolicyEvalResult::Denied {
                policy_name: String::from_str(name),
                reason: String::from_str("policy denied access"),
            },
        }
    }
}

/// The answers that the five tests, asked in order until one fails, may give
/// together.
pub open spec fn may_match<S, R, A, C, PS, PA, PR, PC, PW>(
    subject_test: PS,
    action_test: PA,
    resource_test: PR,
    context_test: PC,
    condition: PW,
    subject: &S,
    action: &A,
    resource: &R,
    context: &C,
    matched: bool,
) -> bool where
    PS: Predicate<S>,
    PA: Predicate<A>,
    PR: Predicate<R>,
    PC: Predicate<C>,
    PW: Condition<S, R, A, C>,
 {
    if matched {
        &&& subject_test.may_hold(subject, true)
        &&& action_test.may_hold(action, true)
        &&& resource_test.may_hold(resource, true)
        &&& context_test.may_hold(context, true)
        &&& condition.may_hold(subject, action, resource, context, true)
    } else {
        ||| subject_test.may_hold(subject, false)
        ||| {
            &&& subject_test.may_hold(subject, true)
            &&& action_test.may_hold(action, false)
        }
        ||| {
            &&& subject_test.may_hold(subject, true)
            &&& action_test.may_hold(action, true)
            &&& resource_test.may_hold(resource, false)
        }
        ||| {
            &&& subject_test.may_hold(subject, true)
            &&& action_test.may_hold(action, true)
            &&& resource_test.may_hold(resource, true)
            &&& context_test.may_hold(context, false)
        }
        ||| {
            &&& subject_test.may_hold(subject, true)
            &&& action_test.may_hold(action, true)
            &&& resource_test.may_hold(resource, true)
            &&& context_test.may_hold(context, true)
            &&& condition.may_hold(subject, action, resource, context, false)
        }
    }
}

/// A policy made by a [`PolicyBuilder`].
pub struct PredicatePolicy<S, R, A, C, PS, PA, PR, PC, PW> {
    name: String,
    effect: Effect,
    subject_test: PS,
    action_test: PA,
    resource_test: PR,
    context_test: PC,
    condition: PW,
    _marker: PhantomData<(S, R, A, C)>,
}

impl<S, R, A, C, PS, PA, PR, PC, PW> PredicatePolicy<S, R, A, C, PS, PA, PR, PC, PW> {
    pub closed spec fn name(&self) -> Seq<char> {
        self.name@
    }

    pub closed spec fn effect(&self) -> Effect {
        self.effect
    }

    pub closed spec fn subject_test(&self) -> PS {
        self.subject_test
    }

    pub closed spec fn action_test(&self) -> PA {
        self.action_test
    }

    pub closed spec fn resource_test(&self) -> PR {
        self.resource_test
    }

    pub closed spec fn context_test(&self) -> PC {
        self.context_test
    }

    pub closed spec fn condition(&self) -> PW {
        self.condition
    }
}

impl<S, R, A, C, PS, PA, PR, PC, PW> Policy<S, R, A, C> for PredicatePolicy<
    S,
    R,
    A,
    C,
    PS,
    PA,
    PR,
    PC,
    PW,
> where
    S: Send + Sync,
    R: Send + Sync,
    A: Send + Sync,
    C: Send + Sync,
    PS: Predicate<S>,
    PA: Predicate<A>,
    PR: Predicate<R>,
    PC: Predicate<C>,
    PW: Condition<S, R, A, C>,
 {
    open spec fn may_decide(
        &self,
        subject: &S,
        action: &A,
        resource: &R,
        context: &C,
        decision: Decision,
    ) -> bool {
        exists|matched: bool|
            {
                &&& #[trigger] may_match(
                    self.subject_test(),
                    self.action_test(),
                    self.resource_test(),
                    self.context_test(),
                    self.condition(),
                    subject,
                    action,
                    resource,
                    context,
                    matched,
                )
                &&& decision == built_decision(self.name(), self.effect(), matched)
            }
    }

    open spec fn may_be_named(&self, name: Seq<char>) -> bool {
        name == self.name()
    }

    fn evaluate_access(&self, subject: &S, action: &A, resource: &R, context: &C) -> (result:
        PolicyEvalResult) {
        let matched = self.subject_test.test(subject) && self.action_test.test(action)
            && self.resource_test.test(resource) && self.context_test.test(context)
            && self.condition.test(subject, action, resource, context);
        assert(may_match(
            self.subject_test(),
            self.action_test(),
            self.resource_test(),
            self.context_test(),
            self.condition(),
            subject,
            action,
            resource,
            context,
            matched,
        ));
        built_result(self.name.as_str(), self.effect, matched)
    }

    fn policy_name(&self) -> (name: String) {
        self.name.clone()
    }
}

/// Collects a name, an effect and up to five predicates, and builds a policy
/// of them. The effect is `Allow` unless it is set.
pub struct PolicyBuilder<S, R, A, C, PS = Unset, PA = Unset, PR = Unset, PC = Unset, PW = Unset> {
    name: String,
    effect: Effect,
    subject_test: PS,
    action_test: PA,
    resource_test: PR,
    context_test: PC,
    condition: PW,
    _marker: PhantomData<(S, R, A, C)>,
}

impl<S, R, A, C> PolicyBuilder<S, R, A, C, Unset, Unset, Unset, Unset, Unset> {
    /// A builder for a policy named `name`, with no predicate set.
    pub fn new(name: &str) -> (builder: Self)
        ensures
            builder.name() == name@,
            builder.effect_set() == Effect::Allow,
    {
        PolicyBuilder {
            name: String::from_str(name),
            effect: Effect::Allow,
            subject_test: Unset,
            action_test: Unset,
            resource_test: Unset,
            context_test: Unset,
            condition: Unset,
            _marker: PhantomData,
        }
    }
}

impl<S, R, A, C, PS, PA, PR, PC, PW> PolicyBuilder<S, R, A, C, PS, PA, PR, PC, PW> {
    pub closed spec fn name(&self) -> Seq<char> {
        self.name@
    }

    pub closed spec fn effect_set(&self) -> Effect {
        self.effect
    }

    pub closed spec fn subject_test(&self) -> PS {
        self.subject_test
    }

    pub closed spec fn action_test(&self) -> PA {
        self.action_test
    }

    pub closed spec fn resource_test(&self) -> PR {
        self.resource_test
    }

    pub closed spec fn context_test(&self) -> PC {
        self.context_test
    }

    pub closed spec fn condition(&self) -> PW {
        self.condition
    }

    /// Sets what the policy does with a request that it matches.
    pub fn effect(self, effect: Effect) -> (builder: Self)
        ensures
            builder.effect_set() == effect,
            builder.name() == self.name(),
            builder.subject_test() == self.subject_test(),
            builder.action_test() == self.action_test(),
            builder.resource_test() == self.resource_test(),
            builder.context_test() == self.context_test(),
            builder.condition() == self.condition(),
    {
        let PolicyBuilder {
            name,
            effect: _,
            subject_test,
            action_test,
            resource_test,
            context_test,
            condition,
            _marker,
        } = self;
        PolicyBuilder {
            name,
            effect,
            subject_test,
            action_test,
            resource_test,
            context_test,
            condition,
            _marker,
        }
    }

    /// Sets the predicate on the subject, which must accept every subject.
    pub fn subjects<F: Fn(&S) -> bool>(self, predicate: F) -> (builder: PolicyBuilder<
        S,
        R,
        A,
        C,
        Given<S, F>,
        PA,
        PR,
        PC,
        PW,
    >)
        requires
            forall|subject: &S| call_requires(predicate, (subject,)),
        ensures
            builder.subject_test().predicate() == predicate,
            builder.name() == self.name(),
            builder.effect_set() == self.effect_set(),
            builder.action_test() == self.action_test(),
            builder.resource_test() == self.resource_test(),
            builder.context_test() == self.context_test(),
            builder.condition() == self.condition(),
    {
        PolicyBuilder {
            name: self.name,
            effect: self.effect,
            subject_test: Given::new(predicate),
            action_test: self.action_test,
            resource_test: self.resource_test,
            context_test: self.context_test,
            condition: self.condition,
            _marker: PhantomData,
        }
    }

    /// Sets the predicate on the action, which must accept every action.
    pub fn actions<F: Fn(&A) -> bool>(self, predicate: F) -> (builder: PolicyBuilder<
        S,
        R,
        A,
        C,
        PS,
        Given<A, F>,
        PR,
        PC,
        PW,
    >)
        requires
            forall|action: &A| call_requires(predicate, (action,)),
        ensures
            builder.action_test().predicate() == predicate,
            builder.name() == self.name(),
            builder.effect_set() == self.effect_set(),
            builder.subject_test() == self.subject_test(),
            builder.resource_test() == self.resource_test(),
            builder.context_test() == self.context_test(),
            builder.condition() == self.condition(),
    {
        PolicyBuilder {
            name: self.name,
            effect: self.effect,
            subject_test: self.subject_test,
            action_test: Given::new(predicate),
            resource_test: self.resource_test,
            context_test: self.context_test,
            condition: self.condition,
            _marker: PhantomData,
        }
    }

    /// Sets the predicate on the resource, which must accept every resource.
    pub fn resources<F: Fn(&R) -> bool>(self, predicate: F) -> (builder: PolicyBuilder<
        S,
        R,
        A,
        C,
        PS,
        PA,
        Given<R, F>,
        PC,
        PW,
    >)
        requires
            forall|resource: &R| call_requires(predicate, (resource,)),
        ensures
            builder.resource_test().predicate() == predicate,
            builder.name() == self.name(),
            builder.effect_set() == self.effect_set(),
            builder.subject_test() == self.subject_test(),
            builder.action_test() == self.action_test(),
            builder.context_test() == self.context_test(),
            builder.condition() == self.condition(),
    {
        PolicyBuilder {
            name: self.name,
            effect: self.effect,
            subject_test: self.subject_test,
            action_test: self.action_test,
            resource_test: Given::new(predicate),
            context_test: self.context_test,
            condition: self.condition,
            _marker: PhantomData,
        }
    }

    /// Sets the predicate on the context, which must accept every context.
    pub fn context<F: Fn(&C) -> bool>(self, predicate: F) -> (builder: PolicyBuilder<
        S,
        R,
        A,
        C,
        PS,
        PA,
        PR,
        Given<C, F>,
        PW,
    >)
        requires
            forall|context: &C| call_requires(predicate, (context,)),
        ensures
            builder.context_test().predicate() == predicate,
            builder.name() == self.name(),
            builder.effect_set() == self.effect_set(),
            builder.subject_test() == self.subject_test(),
            builder.action_test() == self.action_test(),
            builder.resource_test() == self.resource_test(),
            builder.condition() == self.condition(),
    {
        PolicyBuilder {
            name: self.name,
            effect: self.effect,
            subject_test: self.subject_test,
            action_test: self.action_test,
            resource_test: self.resource_test,
            context_test: Given::new(predicate),
            condition: self.condition,
            _marker: PhantomData,
        }
    }

    /// Sets the predicate on the whole request, which must accept every
    /// request.
    pub fn when<F: Fn(&S, &A, &R, &C) -> bool>(self, predicate: F) -> (builder: PolicyBuilder<
        S,
        R,
        A,
        C,
        PS,
        PA,
        PR,
        PC,
        GivenAll<S, R, A, C, F>,
    >)
        requires
            forall|subject: &S, action: &A, resource: &R, context: &C|
                call_requires(predicate, (subject, action, resource, context)),
        ensures
            builder.condition().predicate() == predicate,
            builder.name() == self.name(),
            builder.effect_set() == self.effect_set(),
            builder.subject_test() == self.subject_test(),
            builder.action_test() == self.action_test(),
            builder.resource_test() == self.resource_test(),
            builder.context_test() == self.context_test(),
    {
        PolicyBuilder {
            name: self.name,
            effect: self.effect,
            subject_test: self.subject_test,
            action_test: self.action_test,
            resource_test: self.resource_test,
            context_test: self.context_test,
            condition: GivenAll::new(predicate),
            _marker: PhantomData,
        }
    }

    /// The policy of what was collected.
    pub fn build(self) -> (policy: PredicatePolicy<S, R, A, C, PS, PA, PR, PC, PW>)
        ensures
            policy.name() == self.name(),
            policy.effect() == self.effect_set(),
            policy.subject_test() == self.subject_test(),
            policy.action_test() == self.action_test(),
            policy.resource_test() == self.resource_test(),
            policy.context_test() == self.context_test(),
            policy.condition() == self.condition(),
    {
        PredicatePolicy {
            name: self.name,
            effect: self.effect,
            subject_test: self.subject_test,
            action_test: self.action_test,
            resource_test: self.resource_test,
            context_test: self.context_test,
            condition: self.condition,
            _marker: PhantomData,
        }
    }
}

/// A policy built with no predicate set matches every request: it grants if
/// its effect is `Allow`, and denies with the reason "policy denied access"
/// if its effect is `Deny`.
pub proof fn lemma_no_predicate_matches_all<S, R, A, C>(
    policy: PredicatePolicy<S, R, A, C, Unset, Unset, Unset, Unset, Unset>,
    subject: &S,
    action: &A,
    resource: &R,
    context: &C,
    decision: Decision,
) where S: Send + Sync, R: Send + Sync, A: Send + Sync, C: Send + Sync
    requires
        policy.may_decide(subject, action, resource, context, decision),
    ensures
        decision == built_decision(policy.name(), policy.effect(), true),
        policy.effect() == Effect::Allow ==> decision is Granted,
        policy.effect() == Effect::Deny ==> decision == (Decision::Denied {
            policy_name: policy.name(),
            reason: "policy denied access"@,
        }),
{
}

} // verus!
