//! The runtime driver: capability linking, module loading and entry
//! invocation, the exec path, and the post-run exit protocol.
//!
//! The engine's own work — compiling, instantiating, running module code —
//! happens outside this crate.  Functions here take the instantiated
//! module's exports and what the engine reported for the calls it made
//! (an [`EngineRun`]) as plain values, and decide everything else:
//! what the cage's host context holds, which export is the entry, what
//! the launch does to the signal and stack state, and how the run's
//! outcome turns into thread and cage exits.

use vstd::prelude::*;

use crate::cage::{exit_step, CageIdAllocator, CageManager, ThreadRegistry, CAGE_START_ID,
    THREAD_START_ID};
use crate::config::{base_config, clone_config, copy_bytes, copy_strings, Config, ConfigV};
use crate::hostctx::{posix_for_args, CommonCtx, ForkCtx, ForkV, HostCtx, HostV, PosixCtx,
    SharedHandle, ThreadPoolHandle};
use crate::invoker::{marshal_args, marshal_spec, InvokeError};
use crate::module::{entry_func, epoch_global, has_epoch, initializer, ModuleInstance, ModuleV,
    Val};

verus! {

/// An acquired workload: the raw module bytes and the optional launch
/// configuration that came with them.
pub struct Workload {
    /// Wasm module
    pub webasm: Vec<u8>,
    /// Keep configuration
    pub config: Option<Config>,
}

/// Spec-level image of a [`Workload`].
#[verifier::ext_equal]
pub ghost struct WorkloadV {
    pub webasm: Seq<u8>,
    pub config: Option<ConfigV>,
}

impl DeepView for Workload {
    type V = WorkloadV;

    open spec fn deep_view(&self) -> WorkloadV {
        WorkloadV { webasm: self.webasm@, config: self.config.deep_view() }
    }
}

/// What the engine reports when a call into module code fails: if the
/// module requested an exit, the status it exited with.
#[derive(Clone, Copy, PartialEq, Eq, Structural, Debug)]
pub struct Trap {
    pub exit_status: Option<i32>,
}

/// What the engine reported for the calls the loader asked it to make:
/// the initializer call (consulted only when the module has an
/// initializer export) and the entry-point call (consulted only when an
/// entry was resolved and its arguments marshalled).
pub struct EngineRun {
    pub init: Result<(), Trap>,
    pub call: Result<Vec<Val>, Trap>,
}

/// Spec-level image of an [`EngineRun`].
#[verifier::ext_equal]
pub ghost struct RunV {
    pub init: Result<(), Trap>,
    pub call: Result<Seq<Val>, Trap>,
}

/// Spec-level image of a reported call outcome.
pub open spec fn call_view(c: Result<Vec<Val>, Trap>) -> Result<Seq<Val>, Trap> {
    match c {
        Ok(v) => Ok(v@),
        Err(t) => Err(t),
    }
}

impl EngineRun {
    pub open spec fn dv(&self) -> RunV {
        RunV { init: self.init, call: call_view(self.call) }
    }
}

/// Why a cage failed to run.
#[derive(Clone, Copy, PartialEq, Eq, Structural, Debug)]
pub enum RuntimeError {
    /// The initializer export is not a no-parameter, no-result function.
    InitializerSignature,
    /// The initializer call failed.
    InitializerTrap(Trap),
    /// The entry point's textual arguments could not be marshalled.
    Invoke(InvokeError),
    /// The entry-point call failed.
    EntryTrap(Trap),
}

/// The stack bounds installed for a cage's main thread: the module's
/// stack-pointer export becomes the base, its stack-low export the top.
#[derive(Clone, Copy, PartialEq, Eq, Structural, Debug)]
pub struct StackBounds {
    pub base: u64,
    pub top: u64,
}

/// One registration with the per-cage signal-delivery subsystem: which
/// thread of which cage, the address of its signal/epoch cell, and
/// whether it is the cage's main thread.
#[derive(Clone, Copy, PartialEq, Eq, Structural, Debug)]
pub struct SignalReg {
    pub pid: u64,
    pub tid: u64,
    pub epoch_addr: u64,
    pub main_thread: bool,
}

/// What loading the main module did and produced: the installed stack
/// bounds, the signal registration for the main thread, whether signal
/// delivery was enabled, and the entry point's results.
#[derive(Debug)]
pub struct LaunchEffects {
    pub stack: StackBounds,
    pub signal: SignalReg,
    pub signals_enabled: bool,
    pub results: Vec<Val>,
}

/// Spec-level image of a [`LaunchEffects`].
#[verifier::ext_equal]
pub ghost struct LaunchV {
    pub stack: StackBounds,
    pub signal: SignalReg,
    pub signals_enabled: bool,
    pub results: Seq<Val>,
}

/// The capability groups the linker binds into every module's namespace.
#[derive(Clone, Copy, PartialEq, Eq, Structural, Debug)]
pub enum CapabilityGroup {
    /// POSIX-compatibility syscalls, over the per-cage POSIX accessor.
    PosixPreview1,
    /// Threading syscalls, over the per-cage thread-pool accessor.
    Threading,
    /// Cage-common syscalls, over the cage-common accessor.
    CageCommon,
    /// Cage-management (fork/exec) syscalls, over the fork/exec accessor.
    CageMultiProcess,
}

pub open spec fn capability_groups() -> Seq<CapabilityGroup> {
    seq![
        CapabilityGroup::PosixPreview1,
        CapabilityGroup::Threading,
        CapabilityGroup::CageCommon,
        CapabilityGroup::CageMultiProcess,
    ]
}

/// The fixed capability groups a cage's linker exposes, in linking order.
/// All of them are linked unconditionally — the module format is known in
/// advance to require exactly these; there is no feature negotiation.  A
/// wiring failure is fatal to the cage under construction and is
/// reported, never retried.
pub fn link_capabilities() -> (r: Vec<CapabilityGroup>)
    ensures
        r@ == capability_groups(),
{
    let mut r: Vec<CapabilityGroup> = Vec::new();
    r.push(CapabilityGroup::PosixPreview1);
    r.push(CapabilityGroup::Threading);
    r.push(CapabilityGroup::CageCommon);
    r.push(CapabilityGroup::CageMultiProcess);
    proof {
        assert(r@ =~= capability_groups());
    }
    r
}

/// Handles to the shared infrastructure a new cage is wired to: the
/// compiled module, the linker, the cage manager, the identity allocator
/// and the thread pool.
#[derive(Clone, Copy, PartialEq, Eq, Structural, Debug)]
pub struct EngineHandles {
    pub module: SharedHandle,
    pub linker: SharedHandle,
    pub manager: SharedHandle,
    pub allocator: SharedHandle,
    pub thread_pool: ThreadPoolHandle,
}

/// The host context a cage starts with: POSIX state built from the
/// configured arguments, the shared thread pool, cage-common state under
/// the given identity, and fork/exec state carrying the module bytes and
/// configuration.
pub open spec fn cage_setup_spec(
    webasm: Seq<u8>,
    config: Option<ConfigV>,
    pid: u64,
    h: EngineHandles,
) -> HostV {
    HostV {
        preview1_ctx: Some(posix_for_args(base_config(config).args)),
        wasi_threads: Some(h.thread_pool),
        lind_common_ctx: Some(CommonCtx { pid, allocator: h.allocator }),
        lind_fork_ctx: Some(
            ForkV {
                module: h.module,
                linker: h.linker,
                manager: h.manager,
                allocator: h.allocator,
                webasm,
                config,
                pid,
            },
        ),
    }
}

/// Build the host context for a cage with identity `pid`.
pub fn setup_cage(webasm: &Vec<u8>, config: &Option<Config>, pid: u64, handles: &EngineHandles) -> (h:
    HostCtx)
    ensures
        h.deep_view() == cage_setup_spec(webasm@, config.deep_view(), pid, *handles),
{
    let cfg_args: Vec<String> = match config {
        Some(c) => copy_strings(&c.args),
        None => Vec::new(),
    };
    let posix = PosixCtx::build(&cfg_args);
    let cfg_copy: Option<Config> = match config {
        Some(c) => Some(clone_config(c)),
        None => None,
    };
    let h = HostCtx {
        preview1_ctx: Some(posix),
        wasi_threads: Some(handles.thread_pool),
        lind_common_ctx: Some(CommonCtx::new_with_pid(pid, handles.allocator)),
        lind_fork_ctx: Some(
            ForkCtx {
                module: handles.module,
                linker: handles.linker,
                manager: handles.manager,
                allocator: handles.allocator,
                webasm: copy_bytes(webasm),
                config: cfg_copy,
                pid,
            },
        ),
    };
    proof {
        assert(cfg_args.deep_view() =~~= base_config(config.deep_view()).args);
        assert(h.deep_view() =~~= cage_setup_spec(webasm@, config.deep_view(), pid, *handles));
    }
    h
}

/// What loading produces once the initializer (if any) has run: the stack
/// bounds and main-thread signal registration are installed either way;
/// then the entry, if one resolves, is invoked on the marshalled
/// arguments, and an absent entry is an empty success.
pub open spec fn load_entry_spec(m: ModuleV, pid: u64, texts: Seq<Seq<char>>, run: RunV) -> Result<
    LaunchV,
    RuntimeError,
>
    recommends
        has_epoch(m),
{
    let stack = StackBounds { base: m.stack_pointer, top: m.stack_low };
    let signal = SignalReg {
        pid,
        tid: THREAD_START_ID,
        epoch_addr: epoch_global(m).unwrap().addr,
        main_thread: true,
    };
    match entry_func(m) {
        None => Ok(LaunchV { stack, signal, signals_enabled: true, results: Seq::empty() }),
        Some(f) => match invoke_spec(f.sig, texts, run.call) {
            Ok(vs) => Ok(LaunchV { stack, signal, signals_enabled: true, results: vs }),
            Err(e) => Err(e),
        },
    }
}

/// Everything invoking one function on textual arguments decides: one
/// argument is consumed and parsed per declared parameter; then the
/// call's reported outcome passes through, a failure surfaced as the
/// invocation's failure rather than swallowed.
pub open spec fn invoke_spec(
    sig: crate::module::FuncSigV,
    texts: Seq<Seq<char>>,
    call: Result<Seq<Val>, Trap>,
) -> Result<Seq<Val>, RuntimeError> {
    match marshal_spec(sig.params, texts) {
        Err(e) => Err(RuntimeError::Invoke(e)),
        Ok(_) => match call {
            Ok(vs) => Ok(vs),
            Err(t) => Err(RuntimeError::EntryTrap(t)),
        },
    }
}

/// Everything loading the main module decides, as a function of the
/// module's exports, the cage identity, the textual arguments and what
/// the engine reported.
pub open spec fn load_spec(m: ModuleV, pid: u64, texts: Seq<Seq<char>>, run: RunV) -> Result<
    LaunchV,
    RuntimeError,
>
    recommends
        has_epoch(m),
{
    match initializer(m) {
        Some(f) => if f.sig.params.len() != 0 || f.sig.results != 0 {
            Err(RuntimeError::InitializerSignature)
        } else {
            match run.init {
                Ok(_) => load_entry_spec(m, pid, texts, run),
                Err(t) => Err(RuntimeError::InitializerTrap(t)),
            }
        },
        None => load_entry_spec(m, pid, texts, run),
    }
}

/// Copy a vector of values.
fn copy_vals(v: &Vec<Val>) -> (r: Vec<Val>)
    ensures
        r@ == v@,
{
    let mut r: Vec<Val> = Vec::new();
    let mut i: usize = 0;
    while i < v.len()
        invariant
            i <= v@.len(),
            r@.len() == i,
            forall|j: int| 0 <= j < i ==> r@[j] == v@[j],
        decreases v@.len() - i,
    {
        r.push(v[i]);
        i = i + 1;
    }
    proof {
        assert(r@ =~= v@);
    }
    r
}

/// The process exit code a result vector denotes: the first result when
/// it is a 32-bit integer, zero otherwise.
pub open spec fn exit_code_spec(results: Seq<Val>) -> i32 {
    if results.len() >= 1 {
        match results[0] {
            Val::I32(c) => c,
            _ => 0,
        }
    } else {
        0
    }
}

pub fn exit_code_of(results: &Vec<Val>) -> (r: i32)
    ensures
        r == exit_code_spec(results@),
{
    if results.len() >= 1 {
        match results[0] {
            Val::I32(c) => c,
            _ => 0,
        }
    } else {
        0
    }
}

/// The cage's own exit, issued when its last thread has exited: the exit
/// syscall the embedder performs with this code.
#[derive(Clone, Copy, PartialEq, Eq, Structural, Debug)]
pub struct CageExit {
    pub code: i32,
}

/// The driver's post-run step for an exiting thread: the thread count
/// drops by one; exactly when this was the cage's last thread, the cage
/// exits with the code its results denote and the live-cage counter is
/// decremented — one logical step, never decremented while other threads
/// of the cage still run.
pub fn settle_main_exit(
    results: &Vec<Val>,
    threads: &mut ThreadRegistry,
    mgr: &mut CageManager,
) -> (r: Option<CageExit>)
    requires
        old(threads).live_threads() >= 1,
        old(mgr).live_cages() >= 1,
    ensures
        ({
            let (t2, c2, last) = exit_step(old(threads).live_threads(), old(mgr).live_cages());
            &&& final(threads).live_threads() == t2
            &&& final(mgr).live_cages() == c2
            &&& r == if last {
                Some(CageExit { code: exit_code_spec(results@) })
            } else {
                None::<CageExit>
            }
        }),
{
    let code = exit_code_of(results);
    let last = threads.exit_thread();
    if last {
        mgr.decrement();
        Some(CageExit { code })
    } else {
        None
    }
}

/// How a runtime error maps at process level: an error carrying a module
/// exit status becomes that exit code; any other error propagates to the
/// caller unchanged.
pub open spec fn exit_disposition_spec(e: RuntimeError) -> Option<i32> {
    match e {
        RuntimeError::InitializerTrap(t) => t.exit_status,
        RuntimeError::EntryTrap(t) => t.exit_status,
        _ => None,
    }
}

pub fn exit_disposition(e: &RuntimeError) -> (r: Option<i32>)
    ensures
        r == exit_disposition_spec(*e),
{
    match e {
        RuntimeError::InitializerTrap(t) => t.exit_status,
        RuntimeError::EntryTrap(t) => t.exit_status,
        _ => None,
    }
}

/// What a successful launch hands back: the cage's host context, the
/// fresh identity allocator shared with every cage forked from it, the
/// launch effects, and the cage exit if the main thread was the last.
pub struct ExecOutcome {
    pub host: HostCtx,
    pub allocator: CageIdAllocator,
    pub launch: LaunchEffects,
    pub exit: Option<CageExit>,
}

/// What a successful exec re-launch hands back: the execed cage's host
/// context and the launch effects.  Thread-exit settlement stays with the
/// initial launch's driver.
pub struct ExecLaunch {
    pub host: HostCtx,
    pub launch: LaunchEffects,
}

// The runtime
#[derive(Clone)]
pub struct Runtime;

impl Runtime {
    /// Load and run a module in its cage: run the initializer export if
    /// one exists, resolve the program entry (the empty export name
    /// first, the conventional start name second), install the stack
    /// bounds from the module's stack exports, register the signal/epoch
    /// cell for the cage's main thread and enable signal delivery, then
    /// invoke the entry on the marshalled arguments.  A module with no
    /// entry yields an empty success.  A module without the signal/epoch
    /// export cannot run at all: that is this function's precondition.
    pub fn load_main_module(
        instance: &ModuleInstance,
        pid: u64,
        args: &Vec<String>,
        run: &EngineRun,
    ) -> (r: Result<LaunchEffects, RuntimeError>)
        requires
            has_epoch(instance.deep_view()),
        ensures
            ({
                let s = load_spec(instance.deep_view(), pid, args.deep_view(), run.dv());
                match r {
                    Ok(e) => s matches Ok(l) && e.stack == l.stack && e.signal == l.signal
                        && e.signals_enabled == l.signals_enabled && e.results@ == l.results,
                    Err(er) => s == Err::<LaunchV, RuntimeError>(er),
                }
            }),
    {
        let ghost m = instance.deep_view();
        match instance.get_func("_initialize") {
            Some(i) => {
                let f = &instance.funcs[i];
                if f.sig.params.len() != 0 || f.sig.results != 0 {
                    return Err(RuntimeError::InitializerSignature);
                }
                match &run.init {
                    Ok(_) => {},
                    Err(t) => {
                        return Err(RuntimeError::InitializerTrap(*t));
                    },
                }
            },
            None => {},
        }
        let entry = instance.resolve_entry();
        let stack = StackBounds { base: instance.stack_pointer, top: instance.stack_low };
        let gi = match instance.get_global("epoch") {
            Some(gi) => gi,
            None => {
                return unreached();
            },
        };
        let signal = SignalReg {
            pid,
            tid: THREAD_START_ID,
            epoch_addr: instance.globals[gi].addr,
            main_thread: true,
        };
        match entry {
            None => Ok(
                LaunchEffects { stack, signal, signals_enabled: true, results: Vec::new() },
            ),
            Some(fi) => {
                let f = &instance.funcs[fi];
                match Runtime::invoke_func(&f.sig, args, &run.call) {
                    Ok(results) => Ok(
                        LaunchEffects { stack, signal, signals_enabled: true, results },
                    ),
                    Err(e) => Err(e),
                }
            },
        }
    }

    /// Invoke a function on textual arguments: for each declared
    /// parameter one argument is parsed according to the parameter's
    /// numeric type (see [`marshal_args`]); then the call's reported
    /// outcome decides — the full typed result vector passes through,
    /// and a failed call is surfaced with its trap, never swallowed.
    pub fn invoke_func(
        sig: &crate::module::FuncSig,
        args: &Vec<String>,
        call: &Result<Vec<Val>, Trap>,
    ) -> (r: Result<Vec<Val>, RuntimeError>)
        ensures
            ({
                let s = invoke_spec(sig.deep_view(), args.deep_view(), call_view(*call));
                match r {
                    Ok(v) => s == Ok::<Seq<Val>, RuntimeError>(v@),
                    Err(e) => s == Err::<Seq<Val>, RuntimeError>(e),
                }
            }),
    {
        match marshal_args(&sig.params, args) {
            Err(e) => Err(RuntimeError::Invoke(e)),
            Ok(_values) => match call {
                Ok(vs) => Ok(copy_vals(vs)),
                Err(t) => Err(RuntimeError::EntryTrap(*t)),
            },
        }
    }

    /// Run the first module of a launch.
    ///
    /// The cage manager gains the new cage; the cage's host context is
    /// built under the reserved starting identity with a fresh shared
    /// identity allocator; the module is loaded and its entry run (see
    /// [`Runtime::load_main_module`]); and on success the exiting main
    /// thread is settled: exactly when it was the cage's last thread, the
    /// cage exits with the code the first result denotes and the manager
    /// count returns to where it started.  On failure the error is handed
    /// back for the embedder to map through [`exit_disposition`]; the
    /// cage stays counted, as its construction left it.
    pub fn execute(
        workload: &Workload,
        instance: &ModuleInstance,
        run: &EngineRun,
        handles: &EngineHandles,
        mgr: &mut CageManager,
        threads: &mut ThreadRegistry,
    ) -> (r: Result<ExecOutcome, RuntimeError>)
        requires
            has_epoch(instance.deep_view()),
            old(mgr).live_cages() < u64::MAX as nat,
            old(threads).live_threads() >= 1,
        ensures
            ({
                let s = load_spec(
                    instance.deep_view(),
                    CAGE_START_ID,
                    base_config(workload.config.deep_view()).args,
                    run.dv(),
                );
                match r {
                    Ok(o) => {
                        &&& s matches Ok(l) && o.launch.stack == l.stack && o.launch.signal
                            == l.signal && o.launch.signals_enabled == l.signals_enabled
                            && o.launch.results@ == l.results
                        &&& o.host.deep_view() == cage_setup_spec(
                            workload.webasm@,
                            workload.config.deep_view(),
                            CAGE_START_ID,
                            *handles,
                        )
                        &&& o.allocator.wf() && o.allocator.start_id() == CAGE_START_ID
                            && o.allocator.last_id() == CAGE_START_ID
                            && o.allocator.issued_ids() == Seq::<u64>::empty()
                        &&& final(threads).live_threads() == old(threads).live_threads() - 1
                        &&& final(mgr).live_cages() == if old(threads).live_threads() == 1 {
                            old(mgr).live_cages()
                        } else {
                            old(mgr).live_cages() + 1
                        }
                        &&& o.exit == if old(threads).live_threads() == 1 {
                            Some(CageExit { code: exit_code_spec(o.launch.results@) })
                        } else {
                            None::<CageExit>
                        }
                    },
                    Err(e) => {
                        &&& s == Err::<LaunchV, RuntimeError>(e)
                        &&& final(threads).live_threads() == old(threads).live_threads()
                        &&& final(mgr).live_cages() == old(mgr).live_cages() + 1
                    },
                }
            }),
    {
        let args: Vec<String> = match &workload.config {
            Some(c) => copy_strings(&c.args),
            None => Vec::new(),
        };
        proof {
            assert(args.deep_view() =~~= base_config(workload.config.deep_view()).args);
        }
        mgr.increment();
        let allocator = CageIdAllocator::new(CAGE_START_ID);
        let host = setup_cage(&workload.webasm, &workload.config, CAGE_START_ID, handles);
        match Runtime::load_main_module(instance, CAGE_START_ID, &args, run) {
            Ok(launch) => {
                let exit = settle_main_exit(&launch.results, threads, mgr);
                Ok(ExecOutcome { host, allocator, launch, exit })
            },
            Err(e) => Err(e),
        }
    }

    /// Run a module under an existing cage identity: the exec path.
    ///
    /// Invoked when a running module execs: the engine, module and linker
    /// are built from scratch by the embedder — exec replaces the image
    /// rather than duplicating it — while the cage identity and the
    /// shared identity allocator carry over unchanged, and a new
    /// cage-common state is constructed rather than forked.  The host
    /// context is built from the rewritten configuration (see
    /// [`crate::config::rewrite_exec_config`]) and the module is loaded
    /// and run exactly as at first launch.
    pub fn execute_with_lind(
        webasm: &Vec<u8>,
        config: &Option<Config>,
        instance: &ModuleInstance,
        run: &EngineRun,
        handles: &EngineHandles,
        pid: u64,
    ) -> (r: Result<ExecLaunch, RuntimeError>)
        requires
            has_epoch(instance.deep_view()),
        ensures
            ({
                let s = load_spec(
                    instance.deep_view(),
                    pid,
                    base_config(config.deep_view()).args,
                    run.dv(),
                );
                match r {
                    Ok(o) => {
                        &&& s matches Ok(l) && o.launch.stack == l.stack && o.launch.signal
                            == l.signal && o.launch.signals_enabled == l.signals_enabled
                            && o.launch.results@ == l.results
                        &&& o.host.deep_view() == cage_setup_spec(
                            webasm@,
                            config.deep_view(),
                            pid,
                            *handles,
                        )
                    },
                    Err(e) => s == Err::<LaunchV, RuntimeError>(e),
                }
            }),
    {
        let args: Vec<String> = match config {
            Some(c) => copy_strings(&c.args),
            None => Vec::new(),
        };
        proof {
            assert(args.deep_view() =~~= base_config(config.deep_view()).args);
        }
        let host = setup_cage(webasm, config, pid, handles);
        match Runtime::load_main_module(instance, pid, &args, run) {
            Ok(launch) => Ok(ExecLaunch { host, launch }),
            Err(e) => Err(e),
        }
    }
}

/// Missing entry point (law): a module with no initializer export and no
/// entry under either recognized name loads to an empty, successful
/// result list — not an error — whatever the engine reported.
pub proof fn lemma_missing_entry_point(m: ModuleV, pid: u64, texts: Seq<Seq<char>>, run: RunV)
    requires
        has_epoch(m),
        initializer(m) is None,
        entry_func(m) is None,
    ensures
        load_spec(m, pid, texts, run) matches Ok(l) && l.results == Seq::<Val>::empty(),
{
}

/// Round-trip (law): when the module's entry resolves, its arguments
/// marshal, the initializer (if any) is well-formed and succeeded, and
/// the run returned the single 32-bit integer `n`, then loading succeeds
/// with exactly that result and the exit code it denotes is `n`.
pub proof fn lemma_exit_code_round_trip(
    m: ModuleV,
    pid: u64,
    texts: Seq<Seq<char>>,
    run: RunV,
    n: i32,
)
    requires
        has_epoch(m),
        initializer(m) matches Some(f) ==> f.sig.params.len() == 0 && f.sig.results == 0,
        run.init is Ok,
        entry_func(m) is Some,
        marshal_spec(entry_func(m).unwrap().sig.params, texts) is Ok,
        run.call == Ok::<Seq<Val>, Trap>(seq![Val::I32(n)]),
    ensures
        load_spec(m, pid, texts, run) matches Ok(l) && l.results == seq![Val::I32(n)]
            && exit_code_spec(l.results) == n,
{
}

} // verus!
