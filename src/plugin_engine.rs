//! The skill execution facade: loads the skill directory into the registry and
//! runs a named skill in a fresh sandbox, returning everything it emitted.
use vstd::prelude::*;
use vstd::string::*;
use crate::host_abi::DirectoryLister;
use crate::registry::{binary_of, compile_source, SkillEngine, source_binary, source_compiles, wasm_error_text, wat_binary, wat_parses, SkillFile, SkillRegistry, SkillSource};
use crate::sandbox::{exports_func, run_module, well_traced, RunOutcome, RunTrace};
use crate::text::owned;

verus! {

/// Relies on `dirs::home_dir`: the current user's home directory, where it is
/// known and is valid text. Nothing is promised of the value.
#[verifier::external_body]
fn home_directory() -> Option<String> {
    dirs::home_dir().and_then(|p| p.to_str().map(|s| s.to_string()))
}

/// Why a load of the skill directory failed.
#[derive(Debug, Clone)]
pub enum LoadError {
    /// The file of the skill `skill` did not parse or validate.
    Compile { skill: String, message: String },
    /// The engine could not be set up.
    Engine(String),
}

/// Why a call of a skill failed.
#[derive(Debug, Clone)]
pub enum CallError {
    /// No skill of that name is registered.
    SkillNotFound,
    /// The skill's imports did not resolve against the host, or its context
    /// could not be set up.
    Instantiation(String),
    /// The guest faulted while it ran, or its entry point does not take and
    /// return nothing.
    ExecutionTrap(String),
}

/// The registry that loading `files` in order produces: each name with the
/// binary of its last file, a later file replacing an earlier one.
pub open spec fn skill_table(files: Seq<SkillFile>) -> Map<Seq<char>, Seq<u8>>
    decreases files.len(),
{
    if files.len() == 0 {
        Map::empty()
    } else {
        skill_table(files.drop_last()).insert(files.last().name@, binary_of(files.last()))
    }
}

/// `rel` appended to `base` as a path: with a `/` between them unless `base`
/// is empty or already ends in one.
pub open spec fn joined_path(base: Seq<char>, rel: Seq<char>) -> Seq<char> {
    if base.len() == 0 {
        rel
    } else if base.last() == '/' {
        base + rel
    } else {
        base + seq!['/'] + rel
    }
}

/// The default skill directory under a home directory, or under `./` where
/// the home directory is unknown.
pub open spec fn default_dir_of(home: Option<Seq<char>>) -> Seq<char> {
    joined_path(
        match home {
            Some(h) => h,
            None => "./"@,
        },
        ".supercode/skills"@,
    )
}

/// Appends `rel` to `base` as a path component.
pub fn join_path(base: &str, rel: &str) -> (r: String)
    ensures
        r@ == joined_path(base@, rel@),
{
    let mut out = owned(base);
    let n = base.unicode_len();
    if n > 0 && base.get_char(n - 1) != '/' {
        out.append("/");
        proof { reveal_strlit("/"); }
    }
    out.append(rel);
    proof {
        if base@.len() > 0 && base@.last() != '/' {
            assert(out@ =~= base@ + seq!['/'] + rel@);
        }
    }
    out
}

/// The default skill directory for the home directory `home`.
pub fn default_skills_dir(home: Option<&str>) -> (r: String)
    ensures
        r@ == default_dir_of(
            match home {
                Some(h) => Some(h@),
                None => None,
            },
        ),
{
    match home {
        Some(h) => join_path(h, ".supercode/skills"),
        None => join_path("./", ".supercode/skills"),
    }
}

/// The engine, the registry of compiled skills, the skill directory and the
/// lister that serves the guests' `readdir`.
pub struct PluginEngine<L> {
    engine: SkillEngine,
    modules: SkillRegistry,
    skills_dir: String,
    lister: L,
}

impl<L: DirectoryLister + Clone + Send + 'static> PluginEngine<L> {
    /// The registered skills, each with the binary module it was compiled from.
    pub closed spec fn skills(&self) -> Map<Seq<char>, Seq<u8>> {
        self.modules@
    }

    /// The engine that compiles and runs the skills.
    pub closed spec fn engine(&self) -> SkillEngine {
        self.engine
    }

    /// The lister that serves the guests' `readdir`.
    pub closed spec fn lister(&self) -> L {
        self.lister
    }

    /// The skill directory.
    pub closed spec fn dir(&self) -> Seq<char> {
        self.skills_dir@
    }

    /// The registry holds each skill name once.
    pub closed spec fn well_formed(&self) -> bool {
        self.modules.well_formed()
    }

    /// An engine with no skills loaded, on the directory `skills_dir`, or on
    /// `.supercode/skills` under the user's home directory where none is given.
    pub fn new(skills_dir: Option<String>, lister: L) -> (r: Result<PluginEngine<L>, LoadError>)
        ensures
            r is Ok ==> r->Ok_0.well_formed(),
            r is Ok ==> r->Ok_0.skills() == Map::<Seq<char>, Seq<u8>>::empty(),
            r is Ok && skills_dir is Some ==> r->Ok_0.dir() == skills_dir->0@,
            r is Ok && skills_dir is None ==> exists|home: Option<Seq<char>>| r->Ok_0.dir() == default_dir_of(home),
            r is Err ==> r matches Err(LoadError::Engine(_)),
    {
        let dir = match skills_dir {
            Some(d) => d,
            None => {
                let home = home_directory();
                match home {
                    Some(h) => {
                        let d = default_skills_dir(Some(h.as_str()));
                        assert(d@ == default_dir_of(Some(h@)));
                        d
                    },
                    None => {
                        let d = default_skills_dir(None);
                        assert(d@ == default_dir_of(None));
                        d
                    },
                }
            },
        };
        match SkillEngine::new() {
            Ok(engine) => Ok(PluginEngine { engine, modules: SkillRegistry::new(), skills_dir: dir, lister }),
            Err(e) => Err(LoadError::Engine(wasm_error_text(&e))),
        }
    }

    /// The skill directory.
    pub fn skills_dir(&self) -> (r: &str)
        ensures
            r@ == self.dir(),
    {
        self.skills_dir.as_str()
    }

    /// Compiles every file of the skill directory and replaces the registry
    /// with the result in one step. The first file that fails to compile fails
    /// the whole load, names that file and leaves the registry as it was. Two
    /// files of one name: the later one wins.
    pub fn load_skills(&mut self, files: Vec<SkillFile>) -> (r: Result<(), LoadError>)
        requires
            old(self).well_formed(),
        ensures
            final(self).well_formed(),
            final(self).dir() == old(self).dir(),
            final(self).engine() == old(self).engine(),
            final(self).lister() == old(self).lister(),
            r is Ok <==> forall|i: int| 0 <= i < files@.len() ==> source_compiles(#[trigger] files@[i].source),
            r is Ok ==> final(self).skills() == skill_table(files@),
            r is Err ==> final(self).skills() == old(self).skills(),
            r is Err ==> r matches Err(LoadError::Compile { .. }),
            r matches Err(LoadError::Compile { skill, .. }) ==> exists|i: int|
                0 <= i < files@.len() && !source_compiles(#[trigger] files@[i].source) && (forall|j: int|
                    0 <= j < i ==> source_compiles(#[trigger] files@[j].source)) && skill@ == files@[i].name@,
    {
        let mut fresh = SkillRegistry::new();
        let mut i: usize = 0;
        while i < files.len()
            invariant
                i <= files@.len(),
                self.well_formed(),
                self.skills() == old(self).skills(),
                self.dir() == old(self).dir(),
                self.engine() == old(self).engine(),
                self.lister() == old(self).lister(),
                fresh.well_formed(),
                fresh@ == skill_table(files@.subrange(0, i as int)),
                forall|j: int| 0 <= j < i ==> source_compiles(#[trigger] files@[j].source),
            decreases files@.len() - i,
        {
            let f = &files[i];
            match compile_source(&self.engine, &f.source) {
                Ok(skill) => {
                    let ghost prefix = files@.subrange(0, i as int + 1);
                    assert(prefix.drop_last() =~= files@.subrange(0, i as int));
                    assert(prefix.last() == files@[i as int]);
                    fresh.insert(owned(f.name.as_str()), skill);
                },
                Err(message) => {
                    let r = Err(LoadError::Compile { skill: owned(f.name.as_str()), message });
                    assert(!source_compiles(files@[i as int].source));
                    return r;
                },
            }
            i = i + 1;
        }
        assert(files@.subrange(0, files@.len() as int) =~= files@);
        self.modules = fresh;
        Ok(())
    }

    /// Whether a skill named `name` is registered.
    pub fn has_skill(&self, name: &str) -> (r: bool)
        requires
            self.well_formed(),
        ensures
            r == self.skills().contains_key(name@),
    {
        self.modules.contains(name)
    }

    /// Runs the skill `name` in a fresh sandbox and returns what it emitted
    /// through the capabilities during this call: the output of that call's
    /// capability calls, in order, and nothing else. The entry point is `run`,
    /// else `_start`; with neither, only instantiation can have emitted. `input` is reserved: no
    /// capability hands it to the guest yet.
    pub fn call_skill(&self, name: &str, input: Option<&str>) -> (r: Result<String, CallError>)
        requires
            self.well_formed(),
        ensures
            r matches Err(CallError::SkillNotFound) <==> !self.skills().contains_key(name@),
            r is Ok ==> exists|trace: RunTrace| well_traced(r->Ok_0@, trace) && trace.binary == self.skills()[name@],
            r matches Err(CallError::ExecutionTrap(_)) ==> exports_func(self.skills()[name@], "run"@) || exports_func(
                self.skills()[name@],
                "_start"@,
            ),
    {
        match self.modules.get(name) {
            None => Err(CallError::SkillNotFound),
            Some(skill) => {
                let outcome = run_module(&self.engine, skill, self.lister.clone());
                let ghost ended = outcome;
                let r = finish(outcome);
                proof {
                    if let RunOutcome::Finished(s, trace) = ended {
                        assert(well_traced(r->Ok_0@, trace@) && trace@.binary == self.skills()[name@]);
                    }
                }
                r
            },
        }
    }
}

/// The result of a call from how its run ended: the collected output, or the
/// instantiation or execution error with wasmtime's description.
pub fn finish(outcome: RunOutcome) -> (r: Result<String, CallError>)
    ensures
        match outcome {
            RunOutcome::NotInstantiated(_) => r matches Err(CallError::Instantiation(_)),
            RunOutcome::Trapped(_) => r matches Err(CallError::ExecutionTrap(_)),
            RunOutcome::Finished(s, _) => r == Ok::<String, CallError>(s),

        },
{
    match outcome {
        RunOutcome::NotInstantiated(e) => Err(CallError::Instantiation(wasm_error_text(&e))),
        RunOutcome::Trapped(e) => Err(CallError::ExecutionTrap(wasm_error_text(&e))),
        RunOutcome::Finished(out, _) => Ok(out),
    }
}

/// Loading the same files twice gives the same result both times: both
/// loads succeed or both fail, and after two successful loads the registries
/// hold the same skill names, each compiled from the same binary, so every
/// lookup answers alike.
pub proof fn reload_is_deterministic<L: DirectoryLister + Clone + Send + 'static>(
    first: PluginEngine<L>,
    first_ok: bool,
    second: PluginEngine<L>,
    second_ok: bool,
    files: Seq<SkillFile>,
)
    requires
        first_ok <==> forall|i: int| 0 <= i < files.len() ==> source_compiles(#[trigger] files[i].source),
        second_ok <==> forall|i: int| 0 <= i < files.len() ==> source_compiles(#[trigger] files[i].source),
        first_ok ==> first.skills() == skill_table(files),
        second_ok ==> second.skills() == skill_table(files),
    ensures
        first_ok == second_ok,
        first_ok ==> first.skills().dom() == second.skills().dom(),
        first_ok ==> forall|name: Seq<char>| #[trigger] first.skills().contains_key(name) == second.skills().contains_key(name),
        first_ok ==> first.skills() == second.skills(),
{
}

/// A text module and the binary it encodes load alike: the one compiles
/// exactly when the other does, and both register the same binary.
pub proof fn text_and_binary_converge(text: String, binary: Vec<u8>)
    requires
        wat_parses(text@),
        binary@ == wat_binary(text@),
    ensures
        source_compiles(SkillSource::Text(text)) == source_compiles(SkillSource::Binary(binary)),
        source_binary(SkillSource::Text(text)) == source_binary(SkillSource::Binary(binary)),
{
}

} // verus!
