//! The invocation context: one store with its own linear memory, host state
//! and instance, built fresh for every call of a skill and dropped after it.
use vstd::prelude::*;
use crate::host_abi::{append_listing, calls_output, host_write, lemma_calls_output_append, name_texts, readdir_path, DirectoryLister, HostCall, OutputAccumulator};
use crate::registry::{CompiledSkill, SkillEngine};
use wasmtime::{Instance, Linker, Store};
use wasmtime_wasi::p1::WasiP1Ctx;

verus! {

#[verifier::external_type_specification]
#[verifier::external_body]
pub struct ExEngine(wasmtime::Engine);

#[verifier::external_type_specification]
#[verifier::external_body]
pub struct ExModule(wasmtime::Module);

#[verifier::external_type_specification]
#[verifier::external_body]
pub struct ExWasmError(wasmtime::Error);

#[verifier::external_type_specification]
#[verifier::external_body]
pub struct ExInstance(wasmtime::Instance);

#[verifier::external_type_specification]
#[verifier::external_body]
pub struct ExWasiP1Ctx(wasmtime_wasi::p1::WasiP1Ctx);

#[verifier::external_type_specification]
#[verifier::external_body]
#[verifier::reject_recursive_types(T)]
pub struct ExStore<T: 'static>(wasmtime::Store<T>);

#[verifier::external_type_specification]
#[verifier::external_body]
#[verifier::reject_recursive_types(T)]
pub struct ExLinker<T>(wasmtime::Linker<T>);

/// The capabilities a guest may import from the `host` namespace.
#[derive(Debug, Clone, Copy, PartialEq, Eq, Structural)]
pub enum Capability {
    Write,
    Readdir,
}

impl Capability {
    /// The import name of the capability.
    pub fn import_name(self) -> (r: &'static str)
        ensures
            self == Capability::Write ==> r@ == "write"@,
            self == Capability::Readdir ==> r@ == "readdir"@,
    {
        match self {
            Capability::Write => "write",
            Capability::Readdir => "readdir",
        }
    }
}

/// The host side of one invocation: the output accumulator, the directory
/// lister behind `readdir`, the system-interface context, and the capability
/// calls the guest has made so far.
pub struct HostState<L> {
    pub out: OutputAccumulator,
    pub lister: L,
    pub wasi: WasiP1Ctx,
    pub calls: Ghost<Seq<HostCall>>,
}

/// Relies on `WasiCtxBuilder::new().inherit_stdio().build_p1()`: a fresh
/// system-interface context whose standard streams are those of the host.
#[verifier::external_body]
fn inherited_stdio_wasi() -> WasiP1Ctx {
    wasmtime_wasi::WasiCtxBuilder::new().inherit_stdio().build_p1()
}

impl<L: DirectoryLister> HostState<L> {
    /// The output is exactly what the recorded capability calls produced.
    pub open spec fn consistent(&self) -> bool {
        self.out@ == calls_output(self.calls@)
    }

    /// Fresh host state for one invocation: no call made, nothing emitted.
    pub fn fresh(lister: L) -> (r: HostState<L>)
        ensures
            r.out@ == Seq::<char>::empty(),
            r.calls@ == Seq::<HostCall>::empty(),
            r.consistent(),
            r.lister == lister,
    {
        HostState { out: OutputAccumulator::new(), lister, wasi: inherited_stdio_wasi(), calls: Ghost(Seq::empty()) }
    }

    /// Runs the capability `cap` on the guest memory `mem` with the guest's
    /// `(ptr, len)` pair, and records the call. For `readdir` the lister is
    /// asked for the path that `readdir_path` reads, and only then.
    pub fn on_capability(&mut self, cap: Capability, mem: &[u8], ptr: i32, len: i32) -> (c: Ghost<HostCall>)
        ensures
            final(self).lister == old(self).lister,
            final(self).calls@ == old(self).calls@.push(c@),
            final(self).out@ == old(self).out@ + crate::host_abi::call_output(c@),
            old(self).consistent() ==> final(self).consistent(),
            cap == Capability::Write ==> c@ == (HostCall::Write { mem: mem@, ptr, len }),
            cap == Capability::Readdir ==> (c@ matches HostCall::Readdir { mem: m, ptr: p, len: l, .. } && m == mem@
                && p == ptr && l == len),
    {
        let call = match cap {
            Capability::Write => {
                host_write(&mut self.out, mem, ptr, len);
                Ghost(HostCall::Write { mem: mem@, ptr, len })
            },
            Capability::Readdir => {
                match readdir_path(mem, ptr, len) {
                    Some(path) => {
                        let listing = self.lister.list_dir(path.as_str());
                        let ghost names = if listing is Some {
                            Some(name_texts(listing->0@))
                        } else {
                            None
                        };
                        append_listing(&mut self.out, listing);
                        proof {
                            if names is None {
                                assert(old(self).out@ + Seq::<char>::empty() =~= old(self).out@);
                            }
                        }
                        Ghost(HostCall::Readdir { mem: mem@, ptr, len, listing: names })
                    },
                    None => {
                        assert(old(self).out@ + Seq::<char>::empty() =~= old(self).out@);
                        Ghost(HostCall::Readdir { mem: mem@, ptr, len, listing: None })
                    },
                }
            },
        };
        self.calls = Ghost(self.calls@.push(call@));
        proof {
            assert(self.calls@.drop_last() =~= old(self).calls@);
        }
        call
    }
}

/// Relies on `Linker::func_wrap`: defines `host.<name>` as a function of two
/// `i32` that hands the guest's exported `memory` and the host state to
/// `HostState::on_capability`; without such an export the call does nothing.
#[verifier::external_body]
fn link_capability<L: DirectoryLister + Send + 'static>(
    linker: &mut Linker<HostState<L>>,
    name: &str,
    cap: Capability,
) -> Result<(), wasmtime::Error> {
    linker.func_wrap("host", name, move |mut caller: wasmtime::Caller<'_, HostState<L>>, ptr: i32, len: i32| {
        if let Some(wasmtime::Extern::Memory(mem)) = caller.get_export("memory") {
            let (data, state) = mem.data_and_store_mut(&mut caller);
            state.on_capability(cap, data, ptr, len);
        }
    }).map(|_| ())
}

/// Relies on `wasmtime_wasi::p1::add_to_linker_sync`: adds the system
/// interface, served from the `wasi` field of the host state.
#[verifier::external_body]
fn link_wasi<L: DirectoryLister + Send + 'static>(linker: &mut Linker<HostState<L>>) -> Result<(), wasmtime::Error> {
    wasmtime_wasi::p1::add_to_linker_sync(linker, |s: &mut HostState<L>| &mut s.wasi)
}

/// Whether the module `wasm` exports a function named `name`: what
/// `Instance::get_func` finds on any instance of it.
pub uninterp spec fn exports_func(wasm: Seq<u8>, name: Seq<char>) -> bool;

/// `after` is `before` extended by further capability calls, and the output
/// grew by exactly what those calls produced.
pub open spec fn only_capabilities_ran(
    before_calls: Seq<HostCall>,
    before_out: Seq<char>,
    after_calls: Seq<HostCall>,
    after_out: Seq<char>,
) -> bool {
    exists|extra: Seq<HostCall>|
        after_calls == before_calls + extra && after_out == before_out + #[trigger] calls_output(extra)
}

/// A store and a linker made on one engine, before instantiation. `calls`
/// and `out` follow the host state inside the store: guest code reaches it
/// only through the capabilities, which only record calls and append output.
#[verifier::reject_recursive_types(L)]
struct Sandbox<L: 'static> {
    store: Store<HostState<L>>,
    linker: Linker<HostState<L>>,
    calls: Ghost<Seq<HostCall>>,
    out: Ghost<Seq<char>>,
}

/// An instance together with the store that owns it.
#[verifier::reject_recursive_types(L)]
struct Live<L: 'static> {
    store: Store<HostState<L>>,
    instance: Instance,
    binary: Ghost<Seq<u8>>,
    calls: Ghost<Seq<HostCall>>,
    out: Ghost<Seq<char>>,
}

impl<L: DirectoryLister + Send + 'static> Sandbox<L> {
    /// Relies on `Store::new` and `Linker::new`: a store owning `state` and an
    /// empty linker, both on the engine of `engine`, so that the linker may
    /// instantiate into the store.
    #[verifier::external_body]
    fn open(engine: &SkillEngine, state: HostState<L>) -> (r: Sandbox<L>)
        ensures
            r.calls@ == state.calls@,
            r.out@ == state.out@,
    {
        Sandbox {
            calls: Ghost(state.calls@),
            out: Ghost(state.out@),
            linker: Linker::new(engine.engine()),
            store: Store::new(engine.engine(), state),
        }
    }

    /// Defines the capability `cap` in the linker under `host.<name>`.
    fn link(&mut self, name: &str, cap: Capability) -> (r: Result<(), wasmtime::Error>)
        ensures
            final(self).calls == old(self).calls,
            final(self).out == old(self).out,
    {
        link_capability(&mut self.linker, name, cap)
    }

    /// Adds the system interface to the linker.
    fn link_system(&mut self) -> (r: Result<(), wasmtime::Error>)
        ensures
            final(self).calls == old(self).calls,
            final(self).out == old(self).out,
    {
        link_wasi(&mut self.linker)
    }

    /// Relies on `Linker::instantiate`: an instance of the skill's module in
    /// this store, or the import-resolution or instantiation error (also for
    /// a module compiled on another engine). The linker and the store share
    /// one engine, as wasmtime requires. Instantiation may run the module's
    /// start function, which reaches the host state only through the
    /// capabilities.
    #[verifier::external_body]
    fn instantiate(self, skill: &CompiledSkill) -> (r: Result<Live<L>, wasmtime::Error>)
        ensures
            r is Ok ==> r->Ok_0.binary@ == skill.binary(),
            r is Ok ==> only_capabilities_ran(self.calls@, self.out@, r->Ok_0.calls@, r->Ok_0.out@),
    {
        let mut store = self.store;
        match self.linker.instantiate(&mut store, skill.module()) {
            Ok(instance) => Ok(Live { store, instance, binary: Ghost(skill.binary()), calls: self.calls, out: self.out }),
            Err(e) => Err(e),
        }
    }
}

impl<L: DirectoryLister + Send + 'static> Live<L> {
    /// Relies on `Instance::get_func` and `Func::call` with no parameters and
    /// no results: `None` where the instance exports no function named
    /// `name`, else the call run to completion, or its trap or signature
    /// mismatch. The store owns the instance and so the function. The guest
    /// reaches the host state only through the capabilities.
    #[verifier::external_body]
    fn call_export(&mut self, name: &str) -> (r: Option<Result<(), wasmtime::Error>>)
        ensures
            final(self).binary == old(self).binary,
            r is None <==> !exports_func(old(self).binary@, name@),
            r is None ==> final(self).calls == old(self).calls && final(self).out == old(self).out,
            only_capabilities_ran(old(self).calls@, old(self).out@, final(self).calls@, final(self).out@),
    {
        match self.instance.get_func(&mut self.store, name) {
            Some(f) => Some(f.call(&mut self.store, &[], &mut [])),
            None => None,
        }
    }

    /// Relies on `Store::into_data`: the host state that the store owned.
    #[verifier::external_body]
    fn into_state(self) -> (r: HostState<L>)
        ensures
            r.calls@ == self.calls@,
            r.out@ == self.out@,
    {
        self.store.into_data()
    }
}

/// What happened in one invocation that ran to its end: the binary that ran,
/// the capability calls made, those made while the module was instantiated,
/// which exports it has, and which entry point ran (`Some(true)` for `run`,
/// `Some(false)` for `_start`, `None` for neither).
pub struct RunTrace {
    pub binary: Seq<u8>,
    pub calls: Seq<HostCall>,
    pub at_instantiation: Seq<HostCall>,
    pub run_exported: bool,
    pub start_exported: bool,
    pub entry: Option<bool>,
}

/// A trace of a run: its output is that of its calls, the calls made at
/// instantiation come first, the export flags are the binary's, the entry
/// point is `run` where exported, else `_start`, and without an entry point
/// only instantiation made calls.
pub open spec fn well_traced(s: Seq<char>, t: RunTrace) -> bool {
    &&& s == calls_output(t.calls)
    &&& t.at_instantiation.is_prefix_of(t.calls)
    &&& t.run_exported == exports_func(t.binary, "run"@)
    &&& t.start_exported == exports_func(t.binary, "_start"@)
    &&& t.entry == (if t.run_exported {
        Some(true)
    } else if t.start_exported {
        Some(false)
    } else {
        None
    })
    &&& t.entry is None ==> t.calls == t.at_instantiation
}

/// How an invocation ended, before its output is handed out.
pub enum RunOutcome {
    /// The context could not be built: import resolution or instantiation failed.
    NotInstantiated(wasmtime::Error),
    /// The entry point trapped, or does not take and return nothing.
    Trapped(wasmtime::Error),
    /// The entry point returned, or there was none: the collected output and
    /// the trace of this invocation that produced it.
    Finished(String, Ghost<RunTrace>),
}

proof fn lemma_grows(a_calls: Seq<HostCall>, a_out: Seq<char>, b_calls: Seq<HostCall>, b_out: Seq<char>)
    requires
        a_out == calls_output(a_calls),
        only_capabilities_ran(a_calls, a_out, b_calls, b_out),
    ensures
        b_out == calls_output(b_calls),
        a_calls.is_prefix_of(b_calls),
{
    let extra = choose|extra: Seq<HostCall>| b_calls == a_calls + extra && b_out == a_out + #[trigger] calls_output(extra);
    lemma_calls_output_append(a_calls, extra);
    assert(b_calls.subrange(0, a_calls.len() as int) =~= a_calls);
}

/// Builds a fresh context for the skill on `engine`, with the capabilities and
/// the system interface linked, calls its entry point (`run`, else `_start`,
/// else none) and hands out the output. That output is exactly what the
/// capability calls of this invocation produced, from an empty accumulator:
/// nothing of an earlier invocation is in it.
pub fn run_module<L: DirectoryLister + Send + 'static>(engine: &SkillEngine, skill: &CompiledSkill, lister: L) -> (r: RunOutcome)
    ensures
        r matches RunOutcome::Finished(s, trace) ==> well_traced(s@, trace@) && trace@.binary == skill.binary(),
        r is Trapped ==> exports_func(skill.binary(), "run"@) || exports_func(skill.binary(), "_start"@),
{
    let state = HostState::fresh(lister);
    assert(calls_output(Seq::<HostCall>::empty()) == Seq::<char>::empty());
    let mut sandbox = Sandbox::open(engine, state);
    let write = Capability::Write;
    if let Err(e) = sandbox.link(write.import_name(), write) {
        return RunOutcome::NotInstantiated(e);
    }
    let readdir = Capability::Readdir;
    if let Err(e) = sandbox.link(readdir.import_name(), readdir) {
        return RunOutcome::NotInstantiated(e);
    }
    if let Err(e) = sandbox.link_system() {
        return RunOutcome::NotInstantiated(e);
    }
    let ghost (c_open, o_open) = (sandbox.calls@, sandbox.out@);
    let mut live = match sandbox.instantiate(skill) {
        Ok(l) => l,
        Err(e) => return RunOutcome::NotInstantiated(e),
    };
    proof { lemma_grows(c_open, o_open, live.calls@, live.out@); }
    let ghost at_instantiation = live.calls@;
    let ghost binary = live.binary@;
    let ghost run_exported = exports_func(binary, "run"@);
    let ghost start_exported = exports_func(binary, "_start"@);
    let ghost entry: Option<bool>;
    let ghost o0 = live.out@;
    match live.call_export("run") {
        Some(Err(e)) => return RunOutcome::Trapped(e),
        Some(Ok(())) => {
            proof {
                lemma_grows(at_instantiation, o0, live.calls@, live.out@);
                entry = Some(true);
            }
        },
        None => {
            let ghost (c1, o1) = (live.calls@, live.out@);
            match live.call_export("_start") {
                Some(Err(e)) => return RunOutcome::Trapped(e),
                Some(Ok(())) => {
                    proof {
                        lemma_grows(c1, o1, live.calls@, live.out@);
                        entry = Some(false);
                    }
                },
                None => {
                    proof {
                        entry = None;
                    }
                },
            }
        },
    }
    let state = live.into_state();
    let ghost trace = RunTrace {
        binary,
        calls: state.calls@,
        at_instantiation,
        run_exported,
        start_exported,
        entry,
    };
    RunOutcome::Finished(state.out.into_string(), Ghost(trace))
}

} // verus!
