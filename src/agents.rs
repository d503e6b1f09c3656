//! Small synchronous agents and tools that act on one piece of text.
use vstd::prelude::*;
use crate::text::{upper_of, uppercase};
use crate::types::{AgentInput, AgentOutput};

verus! {

/// An agent that turns one input into one output.
pub trait MicroAgent {
    /// The agent's name.
    fn name(&self) -> &'static str;

    /// Runs the agent on `input`.
    fn execute(&self, input: AgentInput) -> Result<AgentOutput, String>;
}

/// Upper-cases its input.
#[derive(Debug, Clone, Copy, Default)]
pub struct UppercaseAgent;

impl MicroAgent for UppercaseAgent {
    fn name(&self) -> &'static str {
        "uppercase"
    }

    fn execute(&self, input: AgentInput) -> (r: Result<AgentOutput, String>)
        ensures
            r is Ok && r->Ok_0.text@ == upper_of(input.text@),
    {
        Ok(AgentOutput { text: uppercase(input.text.as_str()) })
    }
}

/// What a tool returns.
#[derive(Debug, Clone)]
pub struct ToolOutput {
    pub text: String,
}

/// A tool's name and what it does.
#[derive(Debug)]
pub struct ToolInfo {
    pub name: String,
    pub description: String,
}

/// A named tool that agents may run.
pub trait Tool {
    /// The tool's name.
    fn name(&self) -> &'static str;

    /// What the tool does.
    fn description(&self) -> &'static str;

    /// Runs the tool on `input`.
    fn run(&self, input: AgentInput) -> Result<ToolOutput, String>;
}

/// Returns its input unchanged.
#[derive(Debug, Clone, Copy, Default)]
pub struct EchoTool;

impl Tool for EchoTool {
    fn name(&self) -> &'static str {
        "echo"
    }

    fn description(&self) -> &'static str {
        "Returns the input text"
    }

    fn run(&self, input: AgentInput) -> (r: Result<ToolOutput, String>)
        ensures
            r is Ok && r->Ok_0.text@ == input.text@,
    {
        Ok(ToolOutput { text: input.text })
    }
}

} // verus!
