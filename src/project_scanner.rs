//! The project scanner: an agent that runs the `project_scanner` skill at a
//! fixed interval and reports how much it produced. The waiting between rounds
//! is left to the caller.
use vstd::prelude::*;
use vstd::string::*;
use crate::host_abi::DirectoryLister;
use crate::plugin_engine::{CallError, PluginEngine};
use crate::sandbox::{well_traced, RunTrace};

verus! {

/// What one round of the scanner reports.
#[derive(Debug, Clone, PartialEq, Eq, Structural)]
pub enum ScanReport {
    /// The skill ran and emitted this many bytes.
    Produced(usize),
    /// No skill named `project_scanner` is loaded.
    Missing,
    /// The skill could not be instantiated or trapped.
    Failed,
}

/// The report for the result of one call of the skill: the output's length in
/// bytes, `Missing` for an unknown skill, `Failed` for any other error.
pub open spec fn report_for(result: Result<String, CallError>) -> ScanReport {
    match result {
        Ok(out) => ScanReport::Produced(vstd::utf8::encode_utf8(out@).len() as usize),
        Err(CallError::SkillNotFound) => ScanReport::Missing,
        Err(_) => ScanReport::Failed,
    }
}

/// The report for the result of one call of the skill.
pub fn report_of(result: &Result<String, CallError>) -> (r: ScanReport)
    ensures
        r == report_for(*result),
{
    match result {
        Ok(out) => ScanReport::Produced(out.as_str().len()),
        Err(CallError::SkillNotFound) => ScanReport::Missing,
        Err(_) => ScanReport::Failed,
    }
}

/// The scanner agent: a loaded engine and the time between rounds.
pub struct ProjectScannerAgent<L> {
    pub engine: PluginEngine<L>,
    /// Milliseconds between two rounds.
    pub interval_ms: u64,
}

impl<L: DirectoryLister + Clone + Send + 'static> ProjectScannerAgent<L> {
    /// A scanner over `engine`, running every `interval_ms` milliseconds.
    pub fn new(engine: PluginEngine<L>, interval_ms: u64) -> (r: ProjectScannerAgent<L>)
        ensures
            r.engine == engine,
            r.interval_ms == interval_ms,
    {
        ProjectScannerAgent { engine, interval_ms }
    }

    /// The agent's name.
    pub fn name(&self) -> (r: &'static str)
        ensures
            r@ == "project_scanner"@,
    {
        "project_scanner"
    }

    /// Runs one round: calls the `project_scanner` skill. A missing skill and
    /// a failed call are reported, never raised.
    pub fn scan_once(&self) -> (r: ScanReport)
        requires
            self.engine.well_formed(),
        ensures
            r == ScanReport::Missing <==> !self.engine.skills().contains_key("project_scanner"@),
            exists|result: Result<String, CallError>| {
                &&& r == report_for(result)
                &&& (result matches Err(CallError::SkillNotFound) <==> !self.engine.skills().contains_key(
                    "project_scanner"@,
                ))
                &&& (result is Ok ==> exists|trace: RunTrace| well_traced(result->Ok_0@, trace))
            },
    {
        let result = self.engine.call_skill(self.name(), None);
        let r = report_of(&result);
        assert(r == report_for(result));
        r
    }
}

} // verus!
