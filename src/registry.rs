//! The skill registry: compiled modules by skill name, built from the files of
//! a skill directory.
use vstd::prelude::*;
use crate::text::owned;
use wasmtime::{Engine, Module};

verus! {

/// The two recognised forms of a skill file.
#[derive(Debug, Clone, Copy, PartialEq, Eq, Structural)]
pub enum SkillFormat {
    /// A binary WebAssembly module (`.wasm`).
    Binary,
    /// A module in the WebAssembly text format (`.wat`).
    Text,
}

/// The form that a file extension announces, if it is one of the two.
pub open spec fn format_of(extension: Seq<char>) -> Option<SkillFormat> {
    if extension == "wasm"@ {
        Some(SkillFormat::Binary)
    } else if extension == "wat"@ {
        Some(SkillFormat::Text)
    } else {
        None
    }
}

/// Classifies a file by its extension; any other extension is ignored.
pub fn skill_format(extension: &str) -> (r: Option<SkillFormat>)
    ensures
        r == format_of(extension@),
{
    let e = owned(extension);
    let wasm = owned("wasm");
    let wat = owned("wat");
    proof {
        reveal_strlit("wasm");
        reveal_strlit("wat");
    }
    if e == wasm {
        Some(SkillFormat::Binary)
    } else if e == wat {
        Some(SkillFormat::Text)
    } else {
        None
    }
}

/// The name of a skill: its file stem, or `skill` where the stem is missing or
/// is not valid text.
pub open spec fn name_of(stem: Option<Seq<char>>) -> Seq<char> {
    match stem {
        Some(s) => s,
        None => "skill"@,
    }
}

/// The skill name for a file stem.
pub fn skill_name(stem: Option<&str>) -> (r: String)
    ensures
        r@ == name_of(
            match stem {
                Some(s) => Some(s@),
                None => None,
            },
        ),
{
    match stem {
        Some(s) => owned(s),
        None => owned("skill"),
    }
}

/// The content of a recognised skill file.
#[derive(Debug, Clone)]
pub enum SkillSource {
    /// The bytes of a binary module.
    Binary(Vec<u8>),
    /// The text of a module in the text format.
    Text(String),
}

/// One recognised file of the skill directory: the skill's name and source.
#[derive(Debug, Clone)]
pub struct SkillFile {
    pub name: String,
    pub source: SkillSource,
}

/// Address space reserved up front for each guest's linear memory. With
/// wasmtime's default of 4 GiB plus guard regions, every invocation claims
/// that much address space, which a host with a bounded address space
/// refuses; a small reservation, with room to grow, bounds what each
/// invocation claims.
pub const MEMORY_RESERVATION: u64 = 10 << 20;

/// Size of the guard regions around each linear memory.
pub const MEMORY_GUARD: u64 = 64 << 10;

/// Address space kept free after a linear memory for it to grow into.
pub const MEMORY_GROWTH_RESERVE: u64 = 1 << 20;

/// Relies on `Config` and `Engine::new`: an engine whose linear memories
/// reserve `reservation` bytes of address space up front, with guard regions
/// of `guard` bytes and `growth` bytes kept for growth, or the error that
/// rejected that configuration.
#[verifier::external_body]
fn sandbox_engine(reservation: u64, guard: u64, growth: u64) -> Result<Engine, wasmtime::Error> {
    let mut config = wasmtime::Config::new();
    config.memory_reservation(reservation).memory_guard_size(guard).memory_reservation_for_growth(growth);
    Engine::new(&config)
}

/// The engine that compiles and runs skills. Every one is configured alike,
/// so whether a module compiles depends on its bytes alone.
pub struct SkillEngine {
    engine: Engine,
}

impl SkillEngine {
    /// An engine with the library's memory configuration, or the error that
    /// rejected it.
    pub fn new() -> (r: Result<SkillEngine, wasmtime::Error>) {
        match sandbox_engine(MEMORY_RESERVATION, MEMORY_GUARD, MEMORY_GROWTH_RESERVE) {
            Ok(engine) => Ok(SkillEngine { engine }),
            Err(e) => Err(e),
        }
    }

    /// The wasmtime engine.
    pub(crate) fn engine(&self) -> &Engine {
        &self.engine
    }
}

#[verifier::external_type_specification]
#[verifier::external_body]
pub struct ExWatError(wat::Error);

/// What `wat::parse_str` returns on success for the text `text`: the binary
/// module it encodes.
pub uninterp spec fn wat_binary(text: Seq<char>) -> Seq<u8>;

/// Whether `wat::parse_str` accepts the text `text`.
pub uninterp spec fn wat_parses(text: Seq<char>) -> bool;

/// Whether `Module::new` compiles the binary `wasm` on a `SkillEngine`, all of
/// which share one configuration.
pub uninterp spec fn wasm_compiles(wasm: Seq<u8>) -> bool;

/// Relies on `wat::parse_str`: whether it succeeds and, on success, the
/// binary encoding of the text module depend on the text alone.
#[verifier::external_body]
fn parse_wat(text: &str) -> (r: Result<Vec<u8>, wat::Error>)
    ensures
        r is Ok <==> wat_parses(text@),
        r is Ok ==> r->Ok_0@ == wat_binary(text@),
{
    wat::parse_str(text)
}

/// Relies on the `Display` impl of `wat::Error`: its diagnostic text.
#[verifier::external_body]
fn wat_error_text(e: &wat::Error) -> String {
    format!("{e}")
}

/// Relies on the `Display` impl of `wasmtime::Error`: its description.
#[verifier::external_body]
pub(crate) fn wasm_error_text(e: &wasmtime::Error) -> String {
    format!("{e}")
}

/// Relies on `Module::new`: the module compiled for `engine` from the binary
/// `wasm`, or the parse or validation error. Every `SkillEngine` has the same
/// configuration, so success depends on the bytes alone.
#[verifier::external_body]
fn compile_binary(engine: &SkillEngine, wasm: &[u8]) -> (r: Result<Module, wasmtime::Error>)
    ensures
        r is Ok <==> wasm_compiles(wasm@),
{
    Module::new(&engine.engine, wasm)
}

/// The binary module that a skill source stands for.
pub open spec fn source_binary(s: SkillSource) -> Seq<u8> {
    match s {
        SkillSource::Binary(b) => b@,
        SkillSource::Text(t) => wat_binary(t@),
    }
}

/// The binary module that a skill file stands for.
pub open spec fn binary_of(f: SkillFile) -> Seq<u8> {
    source_binary(f.source)
}

/// Whether a skill source compiles: a text one must parse, and the binary it
/// stands for must compile.
pub open spec fn source_compiles(s: SkillSource) -> bool {
    match s {
        SkillSource::Binary(b) => wasm_compiles(b@),
        SkillSource::Text(t) => wat_parses(t@) && wasm_compiles(wat_binary(t@)),
    }
}

/// A compiled module together with the binary it was compiled from.
pub struct CompiledSkill {
    module: Module,
    binary: Ghost<Seq<u8>>,
}

impl CompiledSkill {
    /// The binary module this skill was compiled from.
    pub closed spec fn binary(&self) -> Seq<u8> {
        self.binary@
    }

    /// The compiled module.
    pub fn module(&self) -> &Module {
        &self.module
    }
}

/// Compiles one skill source: a text module is first encoded as a binary one,
/// then both take the same path. Fails with the diagnostic exactly when the
/// source does not compile.
pub fn compile_source(engine: &SkillEngine, source: &SkillSource) -> (r: Result<CompiledSkill, String>)
    ensures
        r is Ok <==> source_compiles(*source),
        r is Ok ==> r->Ok_0.binary() == source_binary(*source),
{
    match source {
        SkillSource::Binary(b) => match compile_binary(engine, b.as_slice()) {
            Ok(m) => Ok(CompiledSkill { module: m, binary: Ghost(b@) }),
            Err(e) => Err(wasm_error_text(&e)),
        },
        SkillSource::Text(t) => match parse_wat(t.as_str()) {
            Ok(wasm) => match compile_binary(engine, wasm.as_slice()) {
                Ok(m) => Ok(CompiledSkill { module: m, binary: Ghost(wasm@) }),
                Err(e) => Err(wasm_error_text(&e)),
            },
            Err(e) => Err(wat_error_text(&e)),
        },
    }
}

/// A registered skill: its name and its compiled module.
pub struct SkillEntry {
    name: String,
    skill: CompiledSkill,
}

/// Skill names mapped to compiled modules, each name at most once.
pub struct SkillRegistry {
    entries: Vec<SkillEntry>,
    table: Ghost<Map<Seq<char>, Seq<u8>>>,
}

impl View for SkillRegistry {
    /// Each registered name with the binary module its skill was compiled from.
    type V = Map<Seq<char>, Seq<u8>>;

    closed spec fn view(&self) -> Map<Seq<char>, Seq<u8>> {
        self.table@
    }
}

impl SkillRegistry {
    /// The entries hold each name once, and the table holds exactly them.
    pub closed spec fn well_formed(&self) -> bool {
        &&& forall|i: int, j: int|
            0 <= i < self.entries@.len() && 0 <= j < self.entries@.len() && i != j
                ==> (#[trigger] self.entries@[i]).name@ != (#[trigger] self.entries@[j]).name@
        &&& forall|i: int| 0 <= i < self.entries@.len() ==> {
            &&& self.table@.contains_key((#[trigger] self.entries@[i]).name@)
            &&& self.table@[self.entries@[i].name@] == self.entries@[i].skill.binary()
        }
        &&& forall|k: Seq<char>| #[trigger] self.table@.contains_key(k)
            ==> exists|i: int| 0 <= i < self.entries@.len() && (#[trigger] self.entries@[i]).name@ == k
    }

    /// An empty registry.
    pub fn new() -> (r: SkillRegistry)
        ensures
            r.well_formed(),
            r@ == Map::<Seq<char>, Seq<u8>>::empty(),
    {
        SkillRegistry { entries: Vec::new(), table: Ghost(Map::empty()) }
    }

    /// The position of the entry named `name`, if any.
    fn position(&self, name: &String) -> (r: Option<usize>)
        requires
            self.well_formed(),
        ensures
            match r {
                Some(i) => i < self.entries@.len() && self.entries@[i as int].name@ == name@,
                None => !self@.contains_key(name@),
            },
    {
        let mut i: usize = 0;
        while i < self.entries.len()
            invariant
                i <= self.entries@.len(),
                forall|j: int| 0 <= j < i ==> (#[trigger] self.entries@[j]).name@ != name@,
            decreases self.entries@.len() - i,
        {
            if self.entries[i].name == *name {
                return Some(i);
            }
            i = i + 1;
        }
        None
    }

    /// Registers `module` under `name`, replacing an earlier skill of that
    /// name; `binary` is the module it was compiled from.
    pub fn insert(&mut self, name: String, skill: CompiledSkill)
        requires
            old(self).well_formed(),
        ensures
            final(self).well_formed(),
            final(self)@ == old(self)@.insert(name@, skill.binary()),
    {
        let ghost key = name@;
        let ghost binary = skill.binary();
        match self.position(&name) {
            Some(i) => {
                self.entries.set(i, SkillEntry { name, skill });
                self.table = Ghost(self.table@.insert(key, binary));
                assert forall|k: Seq<char>| #[trigger] self.table@.contains_key(k) implies exists|j: int|
                    0 <= j < self.entries@.len() && (#[trigger] self.entries@[j]).name@ == k by {
                    if k != key {
                        let j = choose|j: int| 0 <= j < old(self).entries@.len() && (#[trigger] old(self).entries@[j]).name@ == k;
                        assert(self.entries@[j].name@ == k);
                    } else {
                        assert(self.entries@[i as int].name@ == k);
                    }
                }
            },
            None => {
                self.entries.push(SkillEntry { name, skill });
                self.table = Ghost(self.table@.insert(key, binary));
                let ghost n: int = self.entries@.len() - 1;
                assert forall|k: Seq<char>| #[trigger] self.table@.contains_key(k) implies exists|j: int|
                    0 <= j < self.entries@.len() && (#[trigger] self.entries@[j]).name@ == k by {
                    if k != key {
                        let j = choose|j: int| 0 <= j < old(self).entries@.len() && (#[trigger] old(self).entries@[j]).name@ == k;
                        assert(self.entries@[j].name@ == k);
                    } else {
                        assert(self.entries@[n].name@ == k);
                    }
                }
            },
        }
    }

    /// The compiled skill registered under `name`, if any.
    pub fn get(&self, name: &str) -> (r: Option<&CompiledSkill>)
        requires
            self.well_formed(),
        ensures
            r is Some <==> self@.contains_key(name@),
            r is Some ==> r->0.binary() == self@[name@],
    {
        let key = owned(name);
        match self.position(&key) {
            Some(i) => Some(&self.entries[i].skill),
            None => None,
        }
    }

    /// Whether a skill named `name` is registered.
    pub fn contains(&self, name: &str) -> (r: bool)
        requires
            self.well_formed(),
        ensures
            r == self@.contains_key(name@),
    {
        self.get(name).is_some()
    }

    /// The number of registered skills.
    pub fn len(&self) -> (r: usize)
        requires
            self.well_formed(),
        ensures
            r == self@.dom().len(),
    {
        proof { self.lemma_dom_len(); }
        self.entries.len()
    }

    proof fn lemma_dom_len(&self)
        requires
            self.well_formed(),
        ensures
            self@.dom().len() == self.entries@.len(),
    {
        let names = self.entries@.map_values(|e: SkillEntry| e.name@);
        assert forall|i: int, j: int| 0 <= i < names.len() && 0 <= j < names.len() && i != j
            implies names[i] != names[j] by {
            assert(self.entries@[i].name@ != self.entries@[j].name@);
        }
        names.unique_seq_to_set();
        assert(names.to_set() =~= self@.dom()) by {
            assert forall|k: Seq<char>| names.to_set().contains(k) implies self@.dom().contains(k) by {
                let i = choose|i: int| 0 <= i < names.len() && names[i] == k;
                assert(self.entries@[i].name@ == k);
            }
            assert forall|k: Seq<char>| self@.dom().contains(k) implies names.to_set().contains(k) by {
                let i = choose|i: int| 0 <= i < self.entries@.len() && (#[trigger] self.entries@[i]).name@ == k;
                assert(names[i] == k);
            }
        }
    }
}

} // verus!
