//! The agent graph and the transition rule of an agent's life cycle.
use vstd::prelude::*;
use crate::text::owned;
use crate::types::AgentState;

verus! {

/// A node of the agent graph: its index, its name and the state of its agent.
#[derive(Debug, Clone)]
pub struct Node {
    pub id: usize,
    pub name: String,
    pub state: AgentState,
}

/// Agents as nodes, with directed edges between node indices.
#[derive(Debug, Clone)]
pub struct AgentGraph {
    pub nodes: Vec<Node>,
    pub edges: Vec<(usize, usize)>,
}

impl AgentGraph {
    /// Each node carries its own position as its id.
    pub open spec fn well_formed(&self) -> bool {
        forall|i: int| 0 <= i < self.nodes@.len() ==> (#[trigger] self.nodes@[i]).id == i
    }

    /// An empty graph.
    pub fn new() -> (r: AgentGraph)
        ensures
            r.nodes@.len() == 0,
            r.edges@.len() == 0,
            r.well_formed(),
    {
        AgentGraph { nodes: Vec::new(), edges: Vec::new() }
    }

    /// Appends a node named `name` in state `state`; its id is the number of
    /// nodes before it.
    pub fn add_node(&mut self, name: &str, state: AgentState)
        requires
            old(self).nodes@.len() < usize::MAX,
        ensures
            final(self).nodes@.len() == old(self).nodes@.len() + 1,
            final(self).nodes@.drop_last() == old(self).nodes@,
            final(self).nodes@.last().id == old(self).nodes@.len(),
            final(self).nodes@.last().name@ == name@,
            final(self).nodes@.last().state == state,
            final(self).edges@ == old(self).edges@,
            old(self).well_formed() ==> final(self).well_formed(),
    {
        let id = self.nodes.len();
        self.nodes.push(Node { id, name: owned(name), state });
        assert(self.nodes@.drop_last() =~= old(self).nodes@);
    }

    /// Appends the edge `from -> to`.
    pub fn add_edge(&mut self, from: usize, to: usize)
        ensures
            final(self).edges@ == old(self).edges@.push((from, to)),
            final(self).nodes@ == old(self).nodes@,
    {
        self.edges.push((from, to));
    }
}

/// The moves of an agent's life cycle: idle to planning to executing to
/// reviewing to completed, one step at a time, and from any state to failed.
pub open spec fn allowed_transition(current: AgentState, next: AgentState) -> bool {
    match (current, next) {
        (AgentState::Idle, AgentState::Planning) => true,
        (AgentState::Planning, AgentState::Executing) => true,
        (AgentState::Executing, AgentState::Reviewing) => true,
        (AgentState::Reviewing, AgentState::Completed) => true,
        (_, AgentState::Failed) => true,
        _ => false,
    }
}

/// Whether an agent may move from `current` to `next`.
pub fn transition(current: &AgentState, next: &AgentState) -> (r: bool)
    ensures
        r == allowed_transition(*current, *next),
{
    match (current, next) {
        (AgentState::Idle, AgentState::Planning) => true,
        (AgentState::Planning, AgentState::Executing) => true,
        (AgentState::Executing, AgentState::Reviewing) => true,
        (AgentState::Reviewing, AgentState::Completed) => true,
        (_, AgentState::Failed) => true,
        _ => false,
    }
}

} // verus!
