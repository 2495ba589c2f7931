use cage_runtime::cage::{CageManager, ThreadRegistry};
use cage_runtime::config::Config;
use cage_runtime::hostctx::{SharedHandle, ThreadPoolHandle};
use cage_runtime::invoker::InvokeError;
use cage_runtime::module::{FuncExport, FuncSig, GlobalExport, ModuleInstance, Val, ValKind};
use cage_runtime::runtime::{
    exit_code_of, exit_disposition, link_capabilities, CapabilityGroup, EngineHandles, EngineRun,
    Runtime, RuntimeError, Trap, Workload,
};

fn handles() -> EngineHandles {
    EngineHandles {
        module: SharedHandle { id: 1 },
        linker: SharedHandle { id: 2 },
        manager: SharedHandle { id: 3 },
        allocator: SharedHandle { id: 4 },
        thread_pool: ThreadPoolHandle { id: 5 },
    }
}

fn epoch_global() -> GlobalExport {
    GlobalExport { name: "epoch".to_owned(), addr: 4096 }
}

fn start_module() -> ModuleInstance {
    ModuleInstance {
        funcs: vec![FuncExport {
            name: "_start".to_owned(),
            sig: FuncSig { params: vec![], results: 1 },
        }],
        globals: vec![epoch_global()],
        stack_low: 1024,
        stack_pointer: 65536,
    }
}

fn ok_run(results: Vec<Val>) -> EngineRun {
    EngineRun { init: Ok(()), call: Ok(results) }
}

#[test]
fn missing_entry_point_is_empty_success() {
    // No initializer export, no start-name export: an empty, successful
    // result list, not an error.
    let module = ModuleInstance {
        funcs: vec![],
        globals: vec![epoch_global()],
        stack_low: 8,
        stack_pointer: 16,
    };
    let run = ok_run(vec![Val::I32(1)]);
    let effects = Runtime::load_main_module(&module, 1, &vec![], &run).unwrap();
    assert!(effects.results.is_empty());
    assert!(effects.signals_enabled);
}

#[test]
fn loader_installs_stack_and_signal_state() {
    let module = start_module();
    let run = ok_run(vec![Val::I32(0)]);
    let effects = Runtime::load_main_module(&module, 7, &vec![], &run).unwrap();
    // stack base from the stack-pointer export, top from the stack-low one
    assert_eq!(effects.stack.base, 65536);
    assert_eq!(effects.stack.top, 1024);
    // the epoch cell registered for the cage's first thread, as main
    assert_eq!(effects.signal.pid, 7);
    assert_eq!(effects.signal.tid, 1);
    assert_eq!(effects.signal.epoch_addr, 4096);
    assert!(effects.signal.main_thread);
    assert!(effects.signals_enabled);
}

#[test]
fn exit_code_round_trip() {
    // A module whose `_start` returns the 32-bit integer N exits the
    // cage with code N.
    let workload = Workload { webasm: vec![0, 97, 115, 109], config: None };
    let module = start_module();
    let run = ok_run(vec![Val::I32(42)]);
    let mut mgr = CageManager::new(0);
    let mut threads = ThreadRegistry::new(1);
    let outcome =
        Runtime::execute(&workload, &module, &run, &handles(), &mut mgr, &mut threads).unwrap();
    assert_eq!(outcome.launch.results, vec![Val::I32(42)]);
    let exit = outcome.exit.expect("single-threaded cage must exit");
    assert_eq!(exit.code, 42);
    // created, ran, exited: the live-cage count is back where it started
    assert_eq!(mgr.live(), 0);
    assert_eq!(threads.live(), 0);
}

#[test]
fn execute_keeps_cage_alive_while_threads_remain() {
    let workload = Workload { webasm: vec![1], config: None };
    let module = start_module();
    let run = ok_run(vec![Val::I32(3)]);
    let mut mgr = CageManager::new(0);
    let mut threads = ThreadRegistry::new(2);
    let outcome =
        Runtime::execute(&workload, &module, &run, &handles(), &mut mgr, &mut threads).unwrap();
    assert!(outcome.exit.is_none());
    assert_eq!(mgr.live(), 1);
    assert_eq!(threads.live(), 1);
}

#[test]
fn execute_builds_initial_cage_context() {
    let config = Config {
        steward: None,
        args: vec!["alpha".to_owned()],
        files: vec![],
        env: vec![],
    };
    let workload = Workload { webasm: vec![9, 9], config: Some(config) };
    let module = start_module();
    let run = ok_run(vec![Val::I32(0)]);
    let mut mgr = CageManager::new(0);
    let mut threads = ThreadRegistry::new(1);
    let outcome =
        Runtime::execute(&workload, &module, &run, &handles(), &mut mgr, &mut threads).unwrap();
    let host = &outcome.host;
    let posix = host.preview1_ctx.as_ref().unwrap();
    assert_eq!(posix.argv, vec!["main.wasm".to_owned(), "alpha".to_owned()]);
    assert_eq!(posix.preopen_host, "/home");
    assert_eq!(posix.preopen_guest, ".");
    assert!(posix.inherit_stdio && posix.inherit_stdin && posix.inherit_stderr);
    assert_eq!(host.lind_common_ctx.as_ref().unwrap().pid, 1);
    assert_eq!(host.wasi_threads, Some(ThreadPoolHandle { id: 5 }));
    let fork_state = host.lind_fork_ctx.as_ref().unwrap();
    assert_eq!(fork_state.pid, 1);
    assert_eq!(fork_state.webasm, vec![9, 9]);
    // the fresh shared allocator starts at the reserved first identity
    let mut alloc = outcome.allocator;
    assert_eq!(alloc.allocate(), 2);
}

#[test]
fn exec_path_carries_identity_over() {
    let module = start_module();
    let run = ok_run(vec![Val::I32(0)]);
    let conf = Config {
        steward: None,
        args: vec!["b".to_owned()],
        files: vec![],
        env: vec![],
    };
    let launch = Runtime::execute_with_lind(
        &vec![7, 7],
        &Some(conf),
        &module,
        &run,
        &handles(),
        12,
    )
    .unwrap();
    assert_eq!(launch.host.lind_common_ctx.as_ref().unwrap().pid, 12);
    assert_eq!(launch.host.lind_fork_ctx.as_ref().unwrap().pid, 12);
    let posix = launch.host.preview1_ctx.as_ref().unwrap();
    assert_eq!(posix.argv, vec!["main.wasm".to_owned(), "b".to_owned()]);
}

#[test]
fn initializer_runs_before_entry() {
    let module = ModuleInstance {
        funcs: vec![
            FuncExport {
                name: "_initialize".to_owned(),
                sig: FuncSig { params: vec![], results: 0 },
            },
            FuncExport { name: "_start".to_owned(), sig: FuncSig { params: vec![], results: 1 } },
        ],
        globals: vec![epoch_global()],
        stack_low: 0,
        stack_pointer: 0,
    };
    let good = Runtime::load_main_module(&module, 1, &vec![], &ok_run(vec![Val::I32(5)]));
    assert_eq!(good.unwrap().results, vec![Val::I32(5)]);

    let trapped = EngineRun {
        init: Err(Trap { exit_status: None }),
        call: Ok(vec![Val::I32(5)]),
    };
    let bad = Runtime::load_main_module(&module, 1, &vec![], &trapped);
    assert_eq!(bad.unwrap_err(), RuntimeError::InitializerTrap(Trap { exit_status: None }));
}

#[test]
fn initializer_with_wrong_signature_is_rejected() {
    let module = ModuleInstance {
        funcs: vec![FuncExport {
            name: "_initialize".to_owned(),
            sig: FuncSig { params: vec![ValKind::I32], results: 0 },
        }],
        globals: vec![epoch_global()],
        stack_low: 0,
        stack_pointer: 0,
    };
    let r = Runtime::load_main_module(&module, 1, &vec![], &ok_run(vec![]));
    assert_eq!(r.unwrap_err(), RuntimeError::InitializerSignature);
}

#[test]
fn entry_prefers_empty_export_name() {
    let module = ModuleInstance {
        funcs: vec![
            FuncExport { name: "_start".to_owned(), sig: FuncSig { params: vec![], results: 1 } },
            FuncExport {
                name: "".to_owned(),
                sig: FuncSig { params: vec![ValKind::I32], results: 0 },
            },
        ],
        globals: vec![epoch_global()],
        stack_low: 0,
        stack_pointer: 0,
    };
    // The empty-name export wins, so its I32 parameter consumes one
    // textual argument; with none supplied the arity error surfaces.
    let r = Runtime::load_main_module(&module, 1, &vec![], &ok_run(vec![]));
    assert_eq!(r.unwrap_err(), RuntimeError::Invoke(InvokeError::NotEnoughArguments));
}

#[test]
fn entry_arguments_come_from_config() {
    let module = ModuleInstance {
        funcs: vec![FuncExport {
            name: "_start".to_owned(),
            sig: FuncSig { params: vec![ValKind::I32], results: 0 },
        }],
        globals: vec![epoch_global()],
        stack_low: 0,
        stack_pointer: 0,
    };
    let args = vec!["not-a-number".to_owned()];
    let r = Runtime::load_main_module(&module, 1, &args, &ok_run(vec![]));
    assert_eq!(r.unwrap_err(), RuntimeError::Invoke(InvokeError::BadIntegerText));
}

#[test]
fn entry_trap_surfaces_with_exit_mapping() {
    let module = start_module();
    let trapping = EngineRun {
        init: Ok(()),
        call: Err(Trap { exit_status: Some(3) }),
    };
    let r = Runtime::load_main_module(&module, 1, &vec![], &trapping);
    let err = r.unwrap_err();
    assert_eq!(err, RuntimeError::EntryTrap(Trap { exit_status: Some(3) }));
    // an error the runtime recognizes becomes the process exit code
    assert_eq!(exit_disposition(&err), Some(3));
    // one it does not recognize propagates
    let opaque = RuntimeError::EntryTrap(Trap { exit_status: None });
    assert_eq!(exit_disposition(&opaque), None);
    assert_eq!(exit_disposition(&RuntimeError::InitializerSignature), None);
    let init_exit = RuntimeError::InitializerTrap(Trap { exit_status: Some(8) });
    assert_eq!(exit_disposition(&init_exit), Some(8));
}

#[test]
fn exit_code_reads_first_i32_result() {
    assert_eq!(exit_code_of(&vec![Val::I32(7), Val::I32(9)]), 7);
    assert_eq!(exit_code_of(&vec![Val::I64(7)]), 0);
    assert_eq!(exit_code_of(&vec![]), 0);
    assert_eq!(exit_code_of(&vec![Val::I32(-1)]), -1);
}

#[test]
fn linker_binds_fixed_capability_groups() {
    // All groups linked unconditionally, in one fixed order.
    assert_eq!(
        link_capabilities(),
        vec![
            CapabilityGroup::PosixPreview1,
            CapabilityGroup::Threading,
            CapabilityGroup::CageCommon,
            CapabilityGroup::CageMultiProcess,
        ],
    );
}

#[test]
fn epoch_export_detection() {
    let with = start_module();
    assert!(with.has_epoch_export());
    let without = ModuleInstance {
        funcs: vec![],
        globals: vec![GlobalExport { name: "other".to_owned(), addr: 1 }],
        stack_low: 0,
        stack_pointer: 0,
    };
    assert!(!without.has_epoch_export());
}
