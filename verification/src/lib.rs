//! A node lifecycle modelled with typestates: each lifecycle stage is a
//! marker type of its own, and every transition method is scoped to the one
//! stage (or the set of stages) from which it is legal, so an illegal
//! transition is rejected when the program is compiled rather than when it
//! runs.
//!
//! A node progresses forward through `New -> Syncing -> Running -> Leaving ->
//! Removed`, or is diverted to `Failed` from any active stage and then to
//! `Removed`. `Removed` is terminal.

use vstd::prelude::*;

pub mod states;
mod sealed;

verus! {

/// The lifecycle stage a state marker stands for, as a specification value.
pub enum StateKind {
    New,
    Syncing,
    Running,
    Leaving,
    Failed,
    Removed,
}

/// The stages from which a node may still be failed: every stage except
/// `Failed` and `Removed`.
pub open spec fn is_active(kind: StateKind) -> bool {
    match kind {
        StateKind::New => true,
        StateKind::Syncing => true,
        StateKind::Running => true,
        StateKind::Leaving => true,
        StateKind::Failed => false,
        StateKind::Removed => false,
    }
}

/// The lifecycle diagram: which stage may directly follow which.
pub open spec fn step_allowed(from: StateKind, to: StateKind) -> bool {
    match (from, to) {
        (StateKind::New, StateKind::Syncing) => true,
        (StateKind::Syncing, StateKind::Running) => true,
        (StateKind::Running, StateKind::Leaving) => true,
        (StateKind::Leaving, StateKind::Removed) => true,
        (StateKind::Failed, StateKind::Removed) => true,
        (other, StateKind::Failed) => is_active(other),
        _ => false,
    }
}

/// Failure may be triggered from exactly the four active stages: `New`,
/// `Syncing`, `Running` and `Leaving`, and from no other.
pub proof fn lemma_active_exactly(kind: StateKind)
    ensures
        is_active(kind) <==> (kind == StateKind::New || kind == StateKind::Syncing
            || kind == StateKind::Running || kind == StateKind::Leaving),
{
}

/// A node state.
///
/// Closed to extension by clients: only the six markers in [`states`]
/// implement the (private) certification trait it requires.
pub trait NodeState: sealed::Sealed {
    /// The lifecycle stage this marker stands for.
    spec fn kind() -> StateKind;
}

/// Selects the states that are active.
///
/// Implemented for exactly `New`, `Syncing`, `Running` and `Leaving`; every
/// implementor must show that its stage is an active one.
pub trait NodeStateActive: NodeState {
    /// The stage of every active state satisfies [`is_active`].
    proof fn kind_is_active()
        ensures
            is_active(Self::kind()),
    ;
}

/// The error a transition reports when it cannot produce its successor.
///
/// No current transition fails, but every transition's signature commits to
/// the possibility, so callers must handle both outcomes.
#[derive(Debug)]
pub struct NodeError {
    message: String,
}

impl NodeError {
    /// The explanation, as a specification value.
    pub closed spec fn message_spec(&self) -> Seq<char> {
        self.message@
    }

    pub fn new(message: String) -> (e: Self)
        ensures
            e.message_spec() == message@,
    {
        NodeError { message }
    }

    /// The implementation-defined explanation.
    pub fn message(&self) -> (m: &str)
        ensures
            m@ == self.message_spec(),
    {
        self.message.as_str()
    }
}

/// Result type for nodes.
type NodeResult<T> = Result<T, NodeError>;

/// Shared context for all nodes.
#[derive(Debug)]
pub struct NodeContext {
    pub name: String,
}

impl NodeContext {
    pub fn new(name: &str) -> (ctx: Self)
        ensures
            ctx.name@ == name@,
    {
        NodeContext { name: name.to_owned() }
    }
}

impl Clone for NodeContext {
    /// A clone equals the value it was cloned from.
    fn clone(&self) -> (other: Self)
        ensures
            other == *self,
    {
        NodeContext { name: self.name.clone() }
    }
}

impl Default for NodeContext {
    /// The default context carries an empty name.
    fn default() -> (ctx: Self)
        ensures
            ctx.name@ == Seq::<char>::empty(),
    {
        NodeContext { name: String::new() }
    }
}

impl PartialEq for NodeContext {
    fn eq(&self, other: &Self) -> (r: bool) {
        self.name == other.name
    }
}

impl vstd::std_specs::cmp::PartialEqSpecImpl for NodeContext {
    open spec fn obeys_eq_spec() -> bool {
        true
    }

    open spec fn eq_spec(&self, other: &Self) -> bool {
        self.name@ == other.name@
    }
}

/// A node, whose current lifecycle stage is the type parameter `S`.
///
/// A transition consumes the node and produces a new node carrying the
/// successor marker; the old value is unusable afterwards.
pub struct Node<S: NodeState> {
    ctx: NodeContext,
    state: S,
}

/// Defined methods on all nodes.
impl<S: NodeState> Node<S> {
    /// The context, as a specification value.
    pub closed spec fn ctx_spec(&self) -> NodeContext {
        self.ctx
    }

    /// The state marker, as a specification value.
    pub closed spec fn state_spec(&self) -> S {
        self.state
    }

    /// Get the context.
    pub fn ctx(&self) -> (c: &NodeContext)
        ensures
            *c == self.ctx_spec(),
    {
        &self.ctx
    }
}

impl Node<states::New> {
    /// Create a new node in a valid initial state, holding the given context.
    pub fn new(ctx: NodeContext) -> (node: Self)
        ensures
            node.ctx_spec() == ctx,
    {
        Node { ctx, state: states::New {} }
    }

    /// Start the node. Always succeeds, and keeps the context unchanged.
    pub fn start(self) -> (r: NodeResult<Node<states::Syncing>>)
        ensures
            r is Ok,
            r->Ok_0.ctx_spec() == self.ctx_spec(),
            step_allowed(states::New::kind(), states::Syncing::kind()),
    {
        Ok(Node { ctx: self.ctx, state: states::Syncing {} })
    }
}

impl Node<states::Syncing> {
    /// Node is done syncing and ready to run. Always succeeds, and keeps the
    /// context unchanged.
    pub fn run(self) -> (r: NodeResult<Node<states::Running>>)
        ensures
            r is Ok,
            r->Ok_0.ctx_spec() == self.ctx_spec(),
            step_allowed(states::Syncing::kind(), states::Running::kind()),
    {
        Ok(Node { ctx: self.ctx, state: states::Running {} })
    }
}

impl Node<states::Running> {
    /// Stop the node. Always succeeds, and keeps the context unchanged.
    pub fn stop(self) -> (r: NodeResult<Node<states::Leaving>>)
        ensures
            r is Ok,
            r->Ok_0.ctx_spec() == self.ctx_spec(),
            step_allowed(states::Running::kind(), states::Leaving::kind()),
    {
        Ok(Node { ctx: self.ctx, state: states::Leaving {} })
    }
}

impl Node<states::Leaving> {
    /// Remove the node. Always succeeds, keeps the context unchanged, and is
    /// terminal: no transition leads out of `Removed`.
    pub fn remove(self) -> (r: NodeResult<Node<states::Removed>>)
        ensures
            r is Ok,
            r->Ok_0.ctx_spec() == self.ctx_spec(),
            step_allowed(states::Leaving::kind(), states::Removed::kind()),
    {
        Ok(Node { ctx: self.ctx, state: states::Removed {} })
    }
}

impl Node<states::Failed> {
    /// Remove the node. Always succeeds, keeps the context unchanged, and is
    /// terminal: `Removed` is reached from `Failed` as well as from `Leaving`.
    pub fn remove(self) -> (r: NodeResult<Node<states::Removed>>)
        ensures
            r is Ok,
            r->Ok_0.ctx_spec() == self.ctx_spec(),
            step_allowed(states::Failed::kind(), states::Removed::kind()),
    {
        Ok(Node { ctx: self.ctx, state: states::Removed {} })
    }

    /// The explanation recorded when the node failed, verbatim.
    pub fn reason(&self) -> (r: &str)
        ensures
            r@ == self.state_spec().reason_spec(),
    {
        self.state.reason()
    }
}

impl Node<states::Removed> {
    // No state transitions are possible from this state.
}

/// Define shared methods on a subset of nodes.
impl<S: NodeStateActive> Node<S> {
    /// Divert the node to `Failed`, recording the reason verbatim and keeping
    /// the context unchanged. Available on every active state and on no other.
    pub fn fail(self, reason: &str) -> (node: Node<states::Failed>)
        ensures
            node.ctx_spec() == self.ctx_spec(),
            node.state_spec().reason_spec() == reason@,
            step_allowed(S::kind(), states::Failed::kind()),
    {
        proof {
            S::kind_is_active();
        }
        Node { ctx: self.ctx, state: states::Failed::new(reason.to_owned()) }
    }
}

impl NodeStateActive for states::New {
    proof fn kind_is_active() {
    }
}

impl NodeStateActive for states::Syncing {
    proof fn kind_is_active() {
    }
}

impl NodeStateActive for states::Running {
    proof fn kind_is_active() {
    }
}

impl NodeStateActive for states::Leaving {
    proof fn kind_is_active() {
    }
}

} // verus!
