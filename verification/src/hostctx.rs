//! The per-cage host context: the bundle of capability state a module's
//! imported host functions work on, and the fork that duplicates it.
//!
//! Ownership table (every field is one of the two, on purpose):
//! - forked on `fork` (the child gets its own copy): `preview1_ctx`,
//!   `lind_common_ctx`, `lind_fork_ctx` — they carry observable process
//!   identity (argv, environment, signal routing, cage identity).
//! - shared on `fork` (the child holds the same handle): `wasi_threads`,
//!   and the handles inside `lind_fork_ctx` — they are mechanical
//!   infrastructure, safe to share across cages.

use vstd::prelude::*;

use crate::cage::CAGE_START_ID;
use crate::config::{
    clone_config, copy_bytes, copy_env, copy_strings, Config, ConfigV, EnvEntry, EnvEntryV,
    program_placeholder,
};

verus! {

/// Handle to the thread-pool infrastructure shared by a whole fork tree.
/// Two contexts whose handles are equal refer to the same pool.
#[derive(Clone, Copy, PartialEq, Eq, Structural, Debug)]
pub struct ThreadPoolHandle {
    pub id: u64,
}

impl DeepView for ThreadPoolHandle {
    type V = ThreadPoolHandle;

    open spec fn deep_view(&self) -> ThreadPoolHandle {
        *self
    }
}

/// Handle to one piece of shared, reference-counted infrastructure (the
/// compiled module, the linker, the cage manager, the identity allocator).
/// Copying the handle shares the referent; it never duplicates it.
#[derive(Clone, Copy, PartialEq, Eq, Structural, Debug)]
pub struct SharedHandle {
    pub id: u64,
}

/// The POSIX-compatibility sub-state of a cage: argument vector,
/// environment, standard-I/O bindings and the ambient directory preopen.
pub struct PosixCtx {
    pub argv: Vec<String>,
    pub env: Vec<EnvEntry>,
    pub inherit_stdio: bool,
    pub inherit_stdin: bool,
    pub inherit_stderr: bool,
    pub preopen_host: String,
    pub preopen_guest: String,
}

/// Spec-level image of a [`PosixCtx`].
#[verifier::ext_equal]
pub ghost struct PosixV {
    pub argv: Seq<Seq<char>>,
    pub env: Seq<EnvEntryV>,
    pub inherit_stdio: bool,
    pub inherit_stdin: bool,
    pub inherit_stderr: bool,
    pub preopen_host: Seq<char>,
    pub preopen_guest: Seq<char>,
}

impl DeepView for PosixCtx {
    type V = PosixV;

    open spec fn deep_view(&self) -> PosixV {
        PosixV {
            argv: self.argv.deep_view(),
            env: self.env.deep_view(),
            inherit_stdio: self.inherit_stdio,
            inherit_stdin: self.inherit_stdin,
            inherit_stderr: self.inherit_stderr,
            preopen_host: self.preopen_host@,
            preopen_guest: self.preopen_guest@,
        }
    }
}

/// The ambient directory granted to every cage, bound as its current
/// directory.
pub open spec fn home_dir() -> Seq<char> {
    "/home"@
}

/// The guest-side name the ambient directory is bound under.
pub open spec fn current_dir_alias() -> Seq<char> {
    "."@
}

/// The POSIX sub-state a cage starts with: the placeholder program name
/// followed by the configured arguments, inherited standard I/O, and the
/// ambient home directory preopened as the current directory.  The
/// declared environment entries are not installed here; the initial
/// environment is empty.
pub open spec fn posix_for_args(args: Seq<Seq<char>>) -> PosixV {
    PosixV {
        argv: seq![program_placeholder()] + args,
        env: Seq::empty(),
        inherit_stdio: true,
        inherit_stdin: true,
        inherit_stderr: true,
        preopen_host: home_dir(),
        preopen_guest: current_dir_alias(),
    }
}

impl PosixCtx {
    /// Build the POSIX sub-state for a cage launched with `args`.
    pub fn build(args: &Vec<String>) -> (r: PosixCtx)
        ensures
            r.deep_view() == posix_for_args(args.deep_view()),
    {
        let r = PosixCtx {
            argv: crate::config::build_argv(args),
            env: Vec::new(),
            inherit_stdio: true,
            inherit_stdin: true,
            inherit_stderr: true,
            preopen_host: "/home".to_owned(),
            preopen_guest: ".".to_owned(),
        };
        proof {
            assert(r.deep_view() =~~= posix_for_args(args.deep_view()));
        }
        r
    }

    /// Duplicate the POSIX sub-state for a forked cage: the child observes
    /// the same argv and environment, in storage of its own.
    pub fn fork(&self) -> (r: PosixCtx)
        ensures
            r.deep_view() == self.deep_view(),
    {
        let r = PosixCtx {
            argv: copy_strings(&self.argv),
            env: copy_env(&self.env),
            inherit_stdio: self.inherit_stdio,
            inherit_stdin: self.inherit_stdin,
            inherit_stderr: self.inherit_stderr,
            preopen_host: self.preopen_host.clone(),
            preopen_guest: self.preopen_guest.clone(),
        };
        proof {
            assert(r.deep_view() =~~= self.deep_view());
        }
        r
    }

    /// Replace the argument vector; nothing else changes.
    pub fn set_args(&mut self, args: Vec<String>)
        ensures
            final(self).deep_view() == (PosixV { argv: args.deep_view(), ..old(self).deep_view() }),
    {
        self.argv = args;
        proof {
            assert(self.deep_view() =~~= (PosixV {
                argv: self.argv.deep_view(),
                ..old(self).deep_view()
            }));
        }
    }
}

/// The cage-common sub-state: the cage's identity and its handle to the
/// shared identity allocator, consulted when signals are routed.
#[derive(Clone, Copy, PartialEq, Eq, Structural, Debug)]
pub struct CommonCtx {
    pub pid: u64,
    pub allocator: SharedHandle,
}

impl DeepView for CommonCtx {
    type V = CommonCtx;

    open spec fn deep_view(&self) -> CommonCtx {
        *self
    }
}

impl CommonCtx {
    /// Common state for the first cage of a launch.
    pub fn new(allocator: SharedHandle) -> (r: CommonCtx)
        ensures
            r == (CommonCtx { pid: CAGE_START_ID, allocator }),
    {
        CommonCtx { pid: CAGE_START_ID, allocator }
    }

    /// Common state for a cage that keeps a given identity (the exec path).
    pub fn new_with_pid(pid: u64, allocator: SharedHandle) -> (r: CommonCtx)
        ensures
            r == (CommonCtx { pid, allocator }),
    {
        CommonCtx { pid, allocator }
    }

    /// Duplicate the common state for a forked cage.
    pub fn fork(&self) -> (r: CommonCtx)
        ensures
            r == *self,
    {
        *self
    }
}

/// The fork/exec control sub-state: what a cage needs to fork or exec on
/// its own — handles to the shared compiled module, linker, cage manager
/// and identity allocator, plus the raw module bytes, the current
/// configuration and the cage's identity.
pub struct ForkCtx {
    pub module: SharedHandle,
    pub linker: SharedHandle,
    pub manager: SharedHandle,
    pub allocator: SharedHandle,
    pub webasm: Vec<u8>,
    pub config: Option<Config>,
    pub pid: u64,
}

/// Spec-level image of a [`ForkCtx`].
#[verifier::ext_equal]
pub ghost struct ForkV {
    pub module: SharedHandle,
    pub linker: SharedHandle,
    pub manager: SharedHandle,
    pub allocator: SharedHandle,
    pub webasm: Seq<u8>,
    pub config: Option<ConfigV>,
    pub pid: u64,
}

impl DeepView for ForkCtx {
    type V = ForkV;

    open spec fn deep_view(&self) -> ForkV {
        ForkV {
            module: self.module,
            linker: self.linker,
            manager: self.manager,
            allocator: self.allocator,
            webasm: self.webasm@,
            config: self.config.deep_view(),
            pid: self.pid,
        }
    }
}

impl ForkCtx {
    /// Duplicate the fork/exec state for a forked cage: the shared handles
    /// are copied (sharing their referents), the bytes and configuration
    /// are duplicated.
    pub fn fork(&self) -> (r: ForkCtx)
        ensures
            r.deep_view() == self.deep_view(),
    {
        let config = match &self.config {
            Some(c) => Some(clone_config(c)),
            None => None,
        };
        let r = ForkCtx {
            module: self.module,
            linker: self.linker,
            manager: self.manager,
            allocator: self.allocator,
            webasm: copy_bytes(&self.webasm),
            config,
            pid: self.pid,
        };
        proof {
            assert(r.deep_view() =~~= self.deep_view());
        }
        r
    }
}

/// The per-cage host structure: all capability state a module instance
/// works on.  Fields start out absent and are installed one by one while
/// the cage is constructed; an uninitialized field simply stays absent
/// through a fork.
pub struct HostCtx {
    pub preview1_ctx: Option<PosixCtx>,
    pub wasi_threads: Option<ThreadPoolHandle>,
    pub lind_common_ctx: Option<CommonCtx>,
    pub lind_fork_ctx: Option<ForkCtx>,
}

/// Spec-level image of a [`HostCtx`].
#[verifier::ext_equal]
pub ghost struct HostV {
    pub preview1_ctx: Option<PosixV>,
    pub wasi_threads: Option<ThreadPoolHandle>,
    pub lind_common_ctx: Option<CommonCtx>,
    pub lind_fork_ctx: Option<ForkV>,
}

impl DeepView for HostCtx {
    type V = HostV;

    open spec fn deep_view(&self) -> HostV {
        HostV {
            preview1_ctx: self.preview1_ctx.deep_view(),
            wasi_threads: self.wasi_threads,
            lind_common_ctx: self.lind_common_ctx,
            lind_fork_ctx: self.lind_fork_ctx.deep_view(),
        }
    }
}

impl Default for HostCtx {
    /// A host context with nothing installed yet.
    fn default() -> (r: HostCtx)
        ensures
            r.preview1_ctx is None,
            r.wasi_threads is None,
            r.lind_common_ctx is None,
            r.lind_fork_ctx is None,
    {
        HostCtx {
            preview1_ctx: None,
            wasi_threads: None,
            lind_common_ctx: None,
            lind_fork_ctx: None,
        }
    }
}

impl HostCtx {
    /// Fork the host context for a new cage.
    ///
    /// The POSIX, cage-common and fork/exec sub-states are duplicated, so
    /// the child observes the same values in storage of its own; the
    /// thread-pool handle is the parent's own handle, shared.  An absent
    /// sub-state stays absent.  The parent is not changed.
    pub fn fork(&self) -> (child: HostCtx)
        ensures
            child.deep_view() == self.deep_view(),
            child.wasi_threads == self.wasi_threads,
    {
        let forked_preview1_ctx = match &self.preview1_ctx {
            Some(ctx) => Some(ctx.fork()),
            None => None,
        };
        let forked_lind_fork_ctx = match &self.lind_fork_ctx {
            Some(ctx) => Some(ctx.fork()),
            None => None,
        };
        let forked_lind_common_ctx = match &self.lind_common_ctx {
            Some(ctx) => Some(ctx.fork()),
            None => None,
        };
        let child = HostCtx {
            preview1_ctx: forked_preview1_ctx,
            lind_fork_ctx: forked_lind_fork_ctx,
            lind_common_ctx: forked_lind_common_ctx,
            wasi_threads: self.wasi_threads,
        };
        proof {
            assert(child.deep_view() =~~= self.deep_view());
        }
        child
    }

    /// The capability accessor for the POSIX-compatibility syscalls.
    pub fn preview1_ref(&self) -> (r: &PosixCtx)
        requires
            self.preview1_ctx is Some,
        ensures
            r.deep_view() == self.deep_view().preview1_ctx.unwrap(),
    {
        match &self.preview1_ctx {
            Some(ctx) => ctx,
            None => unreached(),
        }
    }

    /// The capability accessor for the threading syscalls.
    pub fn thread_pool(&self) -> (r: ThreadPoolHandle)
        requires
            self.wasi_threads is Some,
        ensures
            r == self.wasi_threads.unwrap(),
    {
        match &self.wasi_threads {
            Some(h) => *h,
            None => unreached(),
        }
    }

    /// The capability accessor for the cage-common syscalls.
    pub fn common_ref(&self) -> (r: &CommonCtx)
        requires
            self.lind_common_ctx is Some,
        ensures
            *r == self.lind_common_ctx.unwrap(),
    {
        match &self.lind_common_ctx {
            Some(ctx) => ctx,
            None => unreached(),
        }
    }

    /// The capability accessor for the cage-management syscalls: a copy of
    /// the fork/exec control state.
    pub fn get_ctx(&self) -> (r: ForkCtx)
        requires
            self.lind_fork_ctx is Some,
        ensures
            r.deep_view() == self.deep_view().lind_fork_ctx.unwrap(),
    {
        match &self.lind_fork_ctx {
            Some(ctx) => ctx.fork(),
            None => unreached(),
        }
    }

    /// Replace the POSIX argument vector of this context; every other part
    /// of the context is untouched.
    pub fn set_posix_args(&mut self, args: Vec<String>)
        requires
            old(self).preview1_ctx is Some,
        ensures
            final(self).deep_view() == (HostV {
                preview1_ctx: Some(
                    PosixV { argv: args.deep_view(), ..old(self).deep_view().preview1_ctx.unwrap() },
                ),
                ..old(self).deep_view()
            }),
    {
        let taken = self.preview1_ctx.take();
        match taken {
            Some(mut p) => {
                p.set_args(args);
                self.preview1_ctx = Some(p);
                proof {
                    assert(self.deep_view() =~~= (HostV {
                        preview1_ctx: Some(
                            PosixV {
                                argv: args.deep_view(),
                                ..old(self).deep_view().preview1_ctx.unwrap()
                            },
                        ),
                        ..old(self).deep_view()
                    }));
                }
            },
            None => {
                proof {
                    assert(false);
                }
                self.preview1_ctx = None;
            },
        }
    }
}

/// Fork independence (law): after a fork the child's POSIX state is a copy
/// of the parent's; rewriting the child's argument vector produces a POSIX
/// state carrying exactly the new vector, while the parent still carries
/// its own — the two contexts share no argv storage.
pub proof fn lemma_fork_argv_independence(
    parent: HostCtx,
    child: HostCtx,
    new_argv: Seq<Seq<char>>,
    mutated: PosixV,
)
    requires
        parent.deep_view().preview1_ctx is Some,
        child.deep_view() == parent.deep_view(),
        mutated == (PosixV { argv: new_argv, ..child.deep_view().preview1_ctx.unwrap() }),
        new_argv != parent.deep_view().preview1_ctx.unwrap().argv,
    ensures
        mutated.argv == new_argv,
        parent.deep_view().preview1_ctx.unwrap().argv != new_argv,
{
}

/// Fork sharing (law): the forked child's thread-pool handle is the
/// parent's own handle — both contexts refer to one pool.
pub proof fn lemma_fork_thread_pool_shared(parent: HostCtx, child: HostCtx)
    requires
        child.deep_view() == parent.deep_view(),
    ensures
        child.deep_view().wasi_threads == parent.deep_view().wasi_threads,
{
}

} // verus!
