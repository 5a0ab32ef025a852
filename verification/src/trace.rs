//! Decisions and the tree of decisions that explains them.

use vstd::prelude::*;

verus! {

/// The boolean operation that a combined decision applies to its children.
#[derive(Clone, Copy, Debug, PartialEq, Eq, Structural)]
pub enum CombineOp {
    And,
    Or,
    Not,
}

impl CombineOp {
    /// The name under which the operation appears in a rendered trace.
    pub open spec fn label(self) -> Seq<char> {
        match self {
            CombineOp::And => "AND"@,
            CombineOp::Or => "OR"@,
            CombineOp::Not => "NOT"@,
        }
    }

    /// Whether the operation may be applied to `count` children: NOT takes
    /// exactly one, AND and OR take at least one.
    pub open spec fn accepts(self, count: nat) -> bool {
        match self {
            CombineOp::Not => count == 1,
            _ => count >= 1,
        }
    }

    /// The outcome of the operation on the outcomes of `children`.
    pub open spec fn apply(self, children: Seq<Decision>) -> bool {
        match self {
            CombineOp::And => all_granted(children),
            CombineOp::Or => any_granted(children),
            CombineOp::Not => !children[0].outcome(),
        }
    }

    pub fn as_str(&self) -> (text: &'static str)
        ensures
            text@ == self.label(),
    {
        match self {
            CombineOp::And => "AND",
            CombineOp::Or => "OR",
            CombineOp::Not => "NOT",
        }
    }
}

/// The decision of one policy, or of a combination of policies.
#[derive(Debug)]
#[allow(inconsistent_fields)]
pub enum PolicyEvalResult {
    Granted { policy_name: String, reason: Option<String> },
    Denied { policy_name: String, reason: String },
    Combined {
        policy_name: String,
        operation: CombineOp,
        children: Vec<PolicyEvalResult>,
        outcome: bool,
    },
}

/// What a [`PolicyEvalResult`] holds, as a mathematical tree.
#[allow(inconsistent_fields)]
pub enum Decision {
    Granted { policy_name: Seq<char>, reason: Option<Seq<char>> },
    Denied { policy_name: Seq<char>, reason: Seq<char> },
    Combined {
        policy_name: Seq<char>,
        operation: CombineOp,
        children: Seq<Decision>,
        outcome: bool,
    },
}

/// Every decision in `children` grants.
pub open spec fn all_granted(children: Seq<Decision>) -> bool {
    forall|i: int| 0 <= i < children.len() ==> (#[trigger] children[i]).outcome()
}

/// Some decision in `children` grants.
pub open spec fn any_granted(children: Seq<Decision>) -> bool {
    exists|i: int| 0 <= i < children.len() && (#[trigger] children[i]).outcome()
}

/// `width` spaces.
pub open spec fn indentation(width: nat) -> Seq<char> {
    Seq::new(width, |i: int| ' ')
}

/// The glyph that opens a line of a rendered trace.
pub open spec fn outcome_mark(outcome: bool) -> Seq<char> {
    if outcome {
        "✓"@
    } else {
        "✗"@
    }
}

/// What a granted line shows after `GRANTED`.
pub open spec fn reason_suffix(reason: Option<Seq<char>>) -> Seq<char> {
    match reason {
        Some(text) => ": "@ + text,
        None => Seq::empty(),
    }
}

/// The lines of `children`, each at `indent` and each preceded by a line break.
pub open spec fn format_children(children: Seq<Decision>, indent: nat) -> Seq<char>
    decreases children,
{
    if children.len() == 0 {
        Seq::empty()
    } else {
        format_children(children.drop_last(), indent) + "\n"@ + children.last().format(indent)
    }
}

/// The text of an optional string.
pub open spec fn option_text(text: Option<String>) -> Option<Seq<char>> {
    match text {
        Some(held) => Some(held@),
        None => None,
    }
}

/// The trees of `results`, in order.
pub open spec fn decisions(results: Seq<PolicyEvalResult>) -> Seq<Decision>
    decreases results,
{
    Seq::new(
        results.len(),
        |i: int|
            if 0 <= i < results.len() {
                results[i]@
            } else {
                arbitrary()
            },
    )
}

impl Decision {
    /// Whether the decision grants access.
    pub open spec fn outcome(self) -> bool {
        match self {
            Decision::Granted { .. } => true,
            Decision::Denied { .. } => false,
            Decision::Combined { outcome, .. } => outcome,
        }
    }

    /// The reason of a single policy's decision.
    pub open spec fn reason(self) -> Option<Seq<char>> {
        match self {
            Decision::Granted { reason, .. } => reason,
            Decision::Denied { reason, .. } => Some(reason),
            Decision::Combined { .. } => None,
        }
    }

    /// The name of the policy that decided.
    pub open spec fn policy_name(self) -> Seq<char> {
        match self {
            Decision::Granted { policy_name, .. } => policy_name,
            Decision::Denied { policy_name, .. } => policy_name,
            Decision::Combined { policy_name, .. } => policy_name,
        }
    }

    /// A combined decision holds the outcome of its operation on its
    /// children, which are themselves well formed.
    pub open spec fn well_formed(self) -> bool
        decreases self,
    {
        match self {
            Decision::Combined { operation, children, outcome, .. } => {
                &&& operation.accepts(children.len())
                &&& outcome == operation.apply(children)
                &&& forall|i: int| 0 <= i < children.len() ==> (#[trigger] children[i]).well_formed()
            },
            _ => true,
        }
    }

    /// The rendered tree: one line per decision, children below their parent
    /// and two spaces deeper, in the order in which they were evaluated.
    pub open spec fn format(self, indent: nat) -> Seq<char>
        decreases self,
    {
        match self {
            Decision::Granted { policy_name, reason } => {
                indentation(indent) + outcome_mark(true) + " "@ + policy_name + " GRANTED"@
                    + reason_suffix(reason)
            },
            Decision::Denied { policy_name, reason } => {
                indentation(indent) + outcome_mark(false) + " "@ + policy_name + " DENIED: "@
                    + reason
            },
            Decision::Combined { policy_name, operation, children, outcome } => {
                indentation(indent) + outcome_mark(outcome) + " "@ + policy_name + " ("@
                    + operation.label() + ")"@ + format_children(children, indent + 2)
            },
        }
    }
}

impl View for PolicyEvalResult {
    type V = Decision;

    open spec fn view(&self) -> Decision
        decreases self,
    {
        match self {
            PolicyEvalResult::Granted { policy_name, reason } => Decision::Granted {
                policy_name: policy_name@,
                reason: option_text(*reason),
            },
            PolicyEvalResult::Denied { policy_name, reason } => Decision::Denied {
                policy_name: policy_name@,
                reason: reason@,
            },
            PolicyEvalResult::Combined { policy_name, operation, children, outcome } => {
                Decision::Combined {
                    policy_name: policy_name@,
                    operation: *operation,
                    children: decisions(children@),
                    outcome: *outcome,
                }
            },
        }
    }
}

impl Clone for PolicyEvalResult {
    /// A copy of the whole tree.
    fn clone(&self) -> (copy: Self)
        ensures
            copy@ == self@,
        decreases self,
    {
        match self {
            PolicyEvalResult::Granted { policy_name, reason } => PolicyEvalResult::Granted {
                policy_name: policy_name.clone(),
                reason: reason.clone(),
            },
            PolicyEvalResult::Denied { policy_name, reason } => PolicyEvalResult::Denied {
                policy_name: policy_name.clone(),
                reason: reason.clone(),
            },
            PolicyEvalResult::Combined { policy_name, operation, children, outcome } => {
                let mut copies: Vec<PolicyEvalResult> = Vec::new();
                let mut i: usize = 0;
                while i < children.len()
                    invariant
                        i <= children.len(),
                        copies@.len() == i,
                        forall|k: int| 0 <= k < i ==> (#[trigger] copies@[k])@ == children@[k]@,
                        self matches PolicyEvalResult::Combined { children: held, .. }
                            && held == children,
                    decreases children.len() - i,
                {
                    copies.push(children[i].clone());
                    i = i + 1;
                }
                assert(decisions(copies@) =~= decisions(children@));
                PolicyEvalResult::Combined {
                    policy_name: policy_name.clone(),
                    operation: *operation,
                    children: copies,
                    outcome: *outcome,
                }
            },
        }
    }
}

impl PolicyEvalResult {
    pub open spec fn spec_outcome(&self) -> bool {
        self@.outcome()
    }

    /// Whether this decision grants access.
    #[verifier::when_used_as_spec(spec_outcome)]
    pub fn outcome(&self) -> (granted: bool)
        ensures
            granted == self@.outcome(),
    {
        match self {
            PolicyEvalResult::Granted { .. } => true,
            PolicyEvalResult::Denied { .. } => false,
            PolicyEvalResult::Combined { outcome, .. } => *outcome,
        }
    }

    /// The reason that this decision gives, if it gives one.
    pub fn reason(&self) -> (reason: Option<String>)
        ensures
            option_text(reason) == self@.reason(),
    {
        match self {
            PolicyEvalResult::Granted { reason, .. } => reason.clone(),
            PolicyEvalResult::Denied { reason, .. } => Some(reason.clone()),
            PolicyEvalResult::Combined { .. } => None,
        }
    }

    /// Renders the tree of decisions below this one, indented by `indent`
    /// spaces.
    pub fn format(&self, indent: usize) -> (text: String)
        ensures
            text@ == self@.format(indent as nat),
    {
        let prefix = spaces(indent);
        self.render(prefix.as_str(), Ghost(indent as nat))
    }

    fn render(&self, prefix: &str, Ghost(indent): Ghost<nat>) -> (text: String)
        requires
            prefix@ == indentation(indent),
        ensures
            text@ == self@.format(indent),
        decreases self,
    {
        let mut text = String::from_str(prefix);
        match self {
            PolicyEvalResult::Granted { policy_name, reason } => {
                text.append("✓");
                text.append(" ");
                text.append(policy_name.as_str());
                text.append(" GRANTED");
                match reason {
                    Some(why) => {
                        let ghost head = text@;
                        text.append(": ");
                        text.append(why.as_str());
                        assert(text@ == head + (": "@ + why@));
                    },
                    None => {
                        assert(text@ == text@ + Seq::<char>::empty());
                    },
                }
            },
            PolicyEvalResult::Denied { policy_name, reason } => {
                text.append("✗");
                text.append(" ");
                text.append(policy_name.as_str());
                text.append(" DENIED: ");
                text.append(reason.as_str());
            },
            PolicyEvalResult::Combined { policy_name, operation, children, outcome } => {
                text.append(if *outcome { "✓" } else { "✗" });
                text.append(" ");
                text.append(policy_name.as_str());
                text.append(" (");
                text.append(operation.as_str());
                text.append(")");
                let mut deeper = String::from_str(prefix);
                deeper.append("  ");
                proof {
                    reveal_strlit("  ");
                    assert(deeper@ =~= indentation(indent + 2));
                }
                let ghost head = text@;
                let mut i: usize = 0;
                assert(decisions(children@).take(0) =~= Seq::<Decision>::empty());
                assert(text@ == head + format_children(decisions(children@).take(0), indent + 2));
                while i < children.len()
                    invariant
                        i <= children.len(),
                        deeper@ == indentation(indent + 2),
                        text@ == head + format_children(decisions(children@).take(i as int), indent + 2),
                        self matches PolicyEvalResult::Combined { children: held, .. }
                            && held == children,
                    decreases children.len() - i,
                {
                    let line = children[i].render(deeper.as_str(), Ghost(indent + 2));
                    let ghost before = decisions(children@).take(i as int);
                    let ghost after = decisions(children@).take(i + 1);
                    proof {
                        assert(after.drop_last() =~= before);
                        assert(after.last() == children@[i as int]@);
                    }
                    text.append("\n");
                    text.append(line.as_str());
                    proof {
                        assert(text@ =~= head + format_children(after, indent + 2));
                    }
                    i = i + 1;
                }
                assert(decisions(children@).take(i as int) =~= decisions(children@));
            },
        }
        text
    }
}

/// A string of `width` spaces.
fn spaces(width: usize) -> (text: String)
    ensures
        text@ == indentation(width as nat),
{
    let mut text = String::new();
    let mut i: usize = 0;
    assert(text@ =~= indentation(0));
    while i < width
        invariant
            i <= width,
            text@ == indentation(i as nat),
        decreases width - i,
    {
        text.append(" ");
        proof {
            reveal_strlit(" ");
            assert(text@ =~= indentation((i + 1) as nat));
        }
        i = i + 1;
    }
    text
}

/// The tree of decisions behind one access decision. It is empty until a root
/// is set.
#[derive(Debug)]
pub struct EvalTrace {
    root: Option<PolicyEvalResult>,
}

impl View for EvalTrace {
    type V = Option<Decision>;

    closed spec fn view(&self) -> Option<Decision> {
        match self.root {
            Some(root) => Some(root@),
            None => None,
        }
    }
}

impl Clone for EvalTrace {
    fn clone(&self) -> (copy: Self)
        ensures
            copy@ == self@,
    {
        match &self.root {
            Some(root) => EvalTrace { root: Some(root.clone()) },
            None => EvalTrace { root: None },
        }
    }
}

impl Default for EvalTrace {
    fn default() -> (trace: Self)
        ensures
            trace@ is None,
    {
        EvalTrace { root: None }
    }
}

impl EvalTrace {
    /// What a trace renders to: the tree below its root, or a fixed sentence
    /// where it has none.
    pub open spec fn spec_format(&self) -> Seq<char> {
        match self@ {
            Some(root) => root.format(0),
            None => "No evaluation trace available"@,
        }
    }

    pub fn new() -> (trace: Self)
        ensures
            trace@ is None,
    {
        EvalTrace { root: None }
    }

    pub fn with_root(result: PolicyEvalResult) -> (trace: Self)
        ensures
            trace@ == Some(result@),
    {
        EvalTrace { root: Some(result) }
    }

    pub fn set_root(&mut self, result: PolicyEvalResult)
        ensures
            final(self)@ == Some(result@),
    {
        self.root = Some(result);
    }

    pub fn root(&self) -> (root: Option<&PolicyEvalResult>)
        ensures
            root is Some <==> self@ is Some,
            root matches Some(held) ==> self@ == Some(held@),
    {
        self.root.as_ref()
    }

    /// Renders the trace as an indented tree.
    pub fn format(&self) -> (text: String)
        ensures
            text@ == self.spec_format(),
    {
        match &self.root {
            Some(root) => root.format(0),
            None => String::from_str("No evaluation trace available"),
        }
    }
}

/// The answer to an access request, with the trace of the decisions behind it.
#[derive(Debug)]
#[allow(inconsistent_fields)]
pub enum AccessEvaluation {
    Granted {
        /// The policy that granted access.
        policy_name: String,
        /// The reason that policy gave, if any.
        reason: Option<String>,
        /// Every decision made up to and including the grant.
        trace: EvalTrace,
    },
    Denied {
        /// Every decision made.
        trace: EvalTrace,
        /// Why the request as a whole was denied.
        reason: String,
    },
}

/// What an [`AccessEvaluation`] holds, as a mathematical value.
#[allow(inconsistent_fields)]
pub enum Verdict {
    Granted { policy_name: Seq<char>, reason: Option<Seq<char>>, trace: Option<Decision> },
    Denied { trace: Option<Decision>, reason: Seq<char> },
}

impl Verdict {
    /// The name of the policy that granted; of a denial, no name.
    pub open spec fn granted_by(self) -> Seq<char> {
        match self {
            Verdict::Granted { policy_name, .. } => policy_name,
            Verdict::Denied { .. } => Seq::empty(),
        }
    }

    /// The root of the trace of either answer.
    pub open spec fn trace(self) -> Option<Decision> {
        match self {
            Verdict::Granted { trace, .. } => trace,
            Verdict::Denied { trace, .. } => trace,
        }
    }
}

impl View for AccessEvaluation {
    type V = Verdict;

    open spec fn view(&self) -> Verdict {
        match self {
            AccessEvaluation::Granted { policy_name, reason, trace } => Verdict::Granted {
                policy_name: policy_name@,
                reason: option_text(*reason),
                trace: trace@,
            },
            AccessEvaluation::Denied { trace, reason } => Verdict::Denied {
                trace: trace@,
                reason: reason@,
            },
        }
    }
}

impl Clone for AccessEvaluation {
    fn clone(&self) -> (copy: Self)
        ensures
            copy@ == self@,
    {
        match self {
            AccessEvaluation::Granted { policy_name, reason, trace } => {
                AccessEvaluation::Granted {
                    policy_name: policy_name.clone(),
                    reason: reason.clone(),
                    trace: trace.clone(),
                }
            },
            AccessEvaluation::Denied { trace, reason } => AccessEvaluation::Denied {
                trace: trace.clone(),
                reason: reason.clone(),
            },
        }
    }
}

impl AccessEvaluation {
    pub open spec fn spec_is_granted(&self) -> bool {
        self is Granted
    }

    /// Whether access was granted.
    #[verifier::when_used_as_spec(spec_is_granted)]
    pub fn is_granted(&self) -> (granted: bool)
        ensures
            granted == (self is Granted),
    {
        match self {
            AccessEvaluation::Granted { .. } => true,
            AccessEvaluation::Denied { .. } => false,
        }
    }

    /// `Ok` for a grant; for a denial, the error that `error_fn` makes of the
    /// denial's reason.
    pub fn to_result<E>(&self, error_fn: impl FnOnce(&str) -> E) -> (result: Result<(), E>)
        requires
            self matches AccessEvaluation::Denied { reason, .. } ==> forall|text: &str|
                text@ == reason@ ==> call_requires(error_fn, (text,)),
        ensures
            self is Granted <==> result is Ok,
            self matches AccessEvaluation::Denied { reason, .. } ==> exists|text: &str|
                text@ == reason@ && call_ensures(error_fn, (text,), result->Err_0),
    {
        match self {
            AccessEvaluation::Granted { .. } => Ok(()),
            AccessEvaluation::Denied { reason, .. } => {
                let text = reason.as_str();
                let error = error_fn(text);
                assert(call_ensures(error_fn, (text,), error));
                Err(error)
            },
        }
    }
}

} // verus!
