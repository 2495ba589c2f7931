use cage_runtime::config::{Config, EnvEntry, FileSpec};
use cage_runtime::hostctx::{HostCtx, SharedHandle, ThreadPoolHandle};
use cage_runtime::runtime::{setup_cage, EngineHandles};

fn handles() -> EngineHandles {
    EngineHandles {
        module: SharedHandle { id: 10 },
        linker: SharedHandle { id: 11 },
        manager: SharedHandle { id: 12 },
        allocator: SharedHandle { id: 13 },
        thread_pool: ThreadPoolHandle { id: 14 },
    }
}

fn sample_config() -> Config {
    Config {
        steward: Some("https://steward.example".to_owned()),
        args: vec!["one".to_owned(), "two".to_owned()],
        files: vec![FileSpec { name: "stdio".to_owned() }],
        env: vec![EnvEntry { key: "HOME".to_owned(), value: "/home".to_owned() }],
    }
}

fn parent_ctx() -> HostCtx {
    let webasm = vec![0u8, 97, 115, 109];
    setup_cage(&webasm, &Some(sample_config()), 1, &handles())
}

#[test]
fn fork_copies_posix_state() {
    let parent = parent_ctx();
    let child = parent.fork();
    let p = parent.preview1_ctx.as_ref().unwrap();
    let c = child.preview1_ctx.as_ref().unwrap();
    assert_eq!(p.argv, c.argv);
    assert_eq!(p.inherit_stdio, c.inherit_stdio);
    assert_eq!(p.preopen_host, c.preopen_host);
    assert_eq!(p.preopen_guest, c.preopen_guest);
}

#[test]
fn fork_independence_of_argv() {
    // Mutating the child's argument vector must not change the parent's,
    // and the other way round.
    let parent = parent_ctx();
    let mut child = parent.fork();
    child.set_posix_args(vec!["rewritten".to_owned()]);
    assert_eq!(
        parent.preview1_ctx.as_ref().unwrap().argv,
        vec!["main.wasm".to_owned(), "one".to_owned(), "two".to_owned()],
    );
    assert_eq!(child.preview1_ctx.as_ref().unwrap().argv, vec!["rewritten".to_owned()]);

    let mut parent = parent;
    parent.set_posix_args(vec!["parent-only".to_owned()]);
    assert_eq!(child.preview1_ctx.as_ref().unwrap().argv, vec!["rewritten".to_owned()]);
}

#[test]
fn fork_shares_thread_pool() {
    // The child's thread-pool handle is reference-identical to the
    // parent's: the same shared pool, not a copy of the infrastructure.
    let parent = parent_ctx();
    let child = parent.fork();
    assert_eq!(child.wasi_threads, parent.wasi_threads);
    assert_eq!(child.thread_pool(), ThreadPoolHandle { id: 14 });
}

#[test]
fn fork_propagates_absent_substates() {
    let empty = HostCtx::default();
    let child = empty.fork();
    assert!(child.preview1_ctx.is_none());
    assert!(child.wasi_threads.is_none());
    assert!(child.lind_common_ctx.is_none());
    assert!(child.lind_fork_ctx.is_none());
}

#[test]
fn fork_copies_fork_state_and_shares_handles() {
    let parent = parent_ctx();
    let child = parent.fork();
    let pf = parent.lind_fork_ctx.as_ref().unwrap();
    let cf = child.lind_fork_ctx.as_ref().unwrap();
    assert_eq!(pf.module, cf.module);
    assert_eq!(pf.linker, cf.linker);
    assert_eq!(pf.manager, cf.manager);
    assert_eq!(pf.allocator, cf.allocator);
    assert_eq!(pf.webasm, cf.webasm);
    assert_eq!(pf.pid, cf.pid);
    assert_eq!(parent.lind_common_ctx, child.lind_common_ctx);
}

#[test]
fn get_ctx_hands_out_fork_state() {
    let parent = parent_ctx();
    let fork_state = parent.get_ctx();
    assert_eq!(fork_state.pid, 1);
    assert_eq!(fork_state.module, SharedHandle { id: 10 });
    assert_eq!(fork_state.webasm, vec![0u8, 97, 115, 109]);
    let conf = fork_state.config.as_ref().unwrap();
    assert_eq!(conf.args, vec!["one".to_owned(), "two".to_owned()]);
}

#[test]
fn accessors_reach_each_capability_group() {
    let parent = parent_ctx();
    assert_eq!(
        parent.preview1_ref().argv,
        vec!["main.wasm".to_owned(), "one".to_owned(), "two".to_owned()],
    );
    assert_eq!(parent.common_ref().pid, 1);
    assert_eq!(parent.common_ref().allocator, SharedHandle { id: 13 });
    assert_eq!(parent.thread_pool(), ThreadPoolHandle { id: 14 });
}
