//! Model of an instantiated module as the runtime reads it: its exported
//! functions and globals, its stack exports, and the conventional export
//! names the loader recognizes.

use vstd::prelude::*;
use vstd::string::StrSliceExecFns;

verus! {

/// The declared type of one module-function parameter.
#[derive(Clone, Copy, PartialEq, Eq, Structural, Debug)]
pub enum ValKind {
    I32,
    I64,
    /// 32-bit float; carried as a bit pattern wherever a value appears.
    F32,
    /// 64-bit float; carried as a bit pattern wherever a value appears.
    F64,
    /// A parameter type that textual invocation does not support
    /// (references, vectors).
    Other,
}

/// One typed module value.  Floating-point values are carried as their raw
/// bit patterns; the runtime moves them, it never computes with them.
#[derive(Clone, Copy, PartialEq, Eq, Structural, Debug)]
pub enum Val {
    I32(i32),
    I64(i64),
    F32(u32),
    F64(u64),
    /// The null function reference used as the zero-valued placeholder for
    /// result slots.
    NullRef,
}

impl DeepView for ValKind {
    type V = ValKind;

    open spec fn deep_view(&self) -> ValKind {
        *self
    }
}

/// The signature of an exported function: its parameter types and how many
/// results it declares.
pub struct FuncSig {
    pub params: Vec<ValKind>,
    pub results: usize,
}

/// Spec-level image of a [`FuncSig`].
#[verifier::ext_equal]
pub ghost struct FuncSigV {
    pub params: Seq<ValKind>,
    pub results: usize,
}

impl DeepView for FuncSig {
    type V = FuncSigV;

    open spec fn deep_view(&self) -> FuncSigV {
        FuncSigV { params: self.params.deep_view(), results: self.results }
    }
}

/// One exported function.
pub struct FuncExport {
    pub name: String,
    pub sig: FuncSig,
}

/// Spec-level image of a [`FuncExport`].
#[verifier::ext_equal]
pub ghost struct FuncExportV {
    pub name: Seq<char>,
    pub sig: FuncSigV,
}

impl DeepView for FuncExport {
    type V = FuncExportV;

    open spec fn deep_view(&self) -> FuncExportV {
        FuncExportV { name: self.name@, sig: self.sig.deep_view() }
    }
}

/// One exported mutable global.  `addr` is the stable host address of the
/// global's cell, as the engine reports it; the runtime only registers it,
/// it never dereferences it.
pub struct GlobalExport {
    pub name: String,
    pub addr: u64,
}

/// Spec-level image of a [`GlobalExport`].
#[verifier::ext_equal]
pub ghost struct GlobalV {
    pub name: Seq<char>,
    pub addr: u64,
}

impl DeepView for GlobalExport {
    type V = GlobalV;

    open spec fn deep_view(&self) -> GlobalV {
        GlobalV { name: self.name@, addr: self.addr }
    }
}

/// What the runtime reads off an instantiated module: its exports and the
/// two stack exports that bound the module's stack region.
pub struct ModuleInstance {
    pub funcs: Vec<FuncExport>,
    pub globals: Vec<GlobalExport>,
    pub stack_low: u64,
    pub stack_pointer: u64,
}

/// Spec-level image of a [`ModuleInstance`].
#[verifier::ext_equal]
pub ghost struct ModuleV {
    pub funcs: Seq<FuncExportV>,
    pub globals: Seq<GlobalV>,
    pub stack_low: u64,
    pub stack_pointer: u64,
}

impl DeepView for ModuleInstance {
    type V = ModuleV;

    open spec fn deep_view(&self) -> ModuleV {
        ModuleV {
            funcs: self.funcs.deep_view(),
            globals: self.globals.deep_view(),
            stack_low: self.stack_low,
            stack_pointer: self.stack_pointer,
        }
    }
}

/// The conventional initializer export: present on reactor-style modules.
pub open spec fn initialize_name() -> Seq<char> {
    "_initialize"@
}

/// The first export name tried for the program entry.
pub open spec fn empty_entry_name() -> Seq<char> {
    ""@
}

/// The conventional default entry name, tried second.
pub open spec fn start_name() -> Seq<char> {
    "_start"@
}

/// The conventional name of the per-thread signal/epoch global.
pub open spec fn epoch_name() -> Seq<char> {
    "epoch"@
}

/// First exported function of the given name, if any.
pub open spec fn find_func(funcs: Seq<FuncExportV>, name: Seq<char>) -> Option<FuncExportV>
    decreases funcs.len(),
{
    if funcs.len() == 0 {
        None
    } else if funcs[0].name == name {
        Some(funcs[0])
    } else {
        find_func(funcs.drop_first(), name)
    }
}

/// First exported global of the given name, if any.
pub open spec fn find_global(globals: Seq<GlobalV>, name: Seq<char>) -> Option<GlobalV>
    decreases globals.len(),
{
    if globals.len() == 0 {
        None
    } else if globals[0].name == name {
        Some(globals[0])
    } else {
        find_global(globals.drop_first(), name)
    }
}

/// The module's initializer export, if it has one.
pub open spec fn initializer(m: ModuleV) -> Option<FuncExportV> {
    find_func(m.funcs, initialize_name())
}

/// The module's program entry: the export under the empty name first, the
/// conventional start name second.
pub open spec fn entry_func(m: ModuleV) -> Option<FuncExportV> {
    match find_func(m.funcs, empty_entry_name()) {
        Some(f) => Some(f),
        None => find_func(m.funcs, start_name()),
    }
}

/// The module's signal/epoch global, if it exports one.
pub open spec fn epoch_global(m: ModuleV) -> Option<GlobalV> {
    find_global(m.globals, epoch_name())
}

pub open spec fn has_epoch(m: ModuleV) -> bool {
    epoch_global(m) is Some
}

/// String equality by characters.
pub fn str_eq(a: &str, b: &str) -> (r: bool)
    ensures
        r == (a@ == b@),
{
    let an = a.unicode_len();
    let bn = b.unicode_len();
    if an != bn {
        return false;
    }
    let mut i: usize = 0;
    while i < an
        invariant
            i <= an,
            an as nat == a@.len(),
            bn as nat == b@.len(),
            an == bn,
            forall|j: int| 0 <= j < i ==> a@[j] == b@[j],
        decreases an - i,
    {
        if a.get_char(i) != b.get_char(i) {
            return false;
        }
        i = i + 1;
    }
    proof {
        assert(a@ =~= b@);
    }
    true
}

proof fn lemma_find_func_from(funcs: Seq<FuncExportV>, name: Seq<char>, i: int)
    requires
        0 <= i <= funcs.len(),
        forall|j: int| 0 <= j < i ==> funcs[j].name != name,
    ensures
        find_func(funcs, name) == find_func(funcs.skip(i), name),
    decreases i,
{
    if i == 0 {
        assert(funcs.skip(0) =~= funcs);
    } else {
        lemma_find_func_from(funcs, name, i - 1);
        assert(funcs.skip(i - 1).len() > 0);
        assert(funcs.skip(i - 1)[0] == funcs[i - 1]);
        assert(funcs.skip(i - 1)[0].name != name);
        assert(funcs.skip(i - 1).drop_first() =~= funcs.skip(i));
    }
}

proof fn lemma_find_global_from(globals: Seq<GlobalV>, name: Seq<char>, i: int)
    requires
        0 <= i <= globals.len(),
        forall|j: int| 0 <= j < i ==> globals[j].name != name,
    ensures
        find_global(globals, name) == find_global(globals.skip(i), name),
    decreases i,
{
    if i == 0 {
        assert(globals.skip(0) =~= globals);
    } else {
        lemma_find_global_from(globals, name, i - 1);
        assert(globals.skip(i - 1).len() > 0);
        assert(globals.skip(i - 1)[0] == globals[i - 1]);
        assert(globals.skip(i - 1)[0].name != name);
        assert(globals.skip(i - 1).drop_first() =~= globals.skip(i));
    }
}

impl ModuleInstance {
    /// Index of the first exported function of the given name.
    pub fn get_func(&self, name: &str) -> (r: Option<usize>)
        ensures
            match r {
                Some(i) => i < self.funcs@.len() && find_func(self.deep_view().funcs, name@)
                    == Some(self.deep_view().funcs[i as int]),
                None => find_func(self.deep_view().funcs, name@) is None,
            },
    {
        let ghost fv = self.deep_view().funcs;
        let mut i: usize = 0;
        while i < self.funcs.len()
            invariant
                i <= self.funcs@.len(),
                fv == self.deep_view().funcs,
                fv.len() == self.funcs@.len(),
                forall|j: int| 0 <= j < i ==> #[trigger] fv[j].name != name@,
            decreases self.funcs@.len() - i,
        {
            if str_eq(self.funcs[i].name.as_str(), name) {
                proof {
                    lemma_find_func_from(fv, name@, i as int);
                    assert(fv.skip(i as int)[0] == fv[i as int]);
                }
                return Some(i);
            }
            i = i + 1;
        }
        proof {
            lemma_find_func_from(fv, name@, i as int);
            assert(fv.skip(i as int).len() == 0);
        }
        None
    }

    /// Index of the first exported global of the given name.
    pub fn get_global(&self, name: &str) -> (r: Option<usize>)
        ensures
            match r {
                Some(i) => i < self.globals@.len() && find_global(self.deep_view().globals, name@)
                    == Some(self.deep_view().globals[i as int]),
                None => find_global(self.deep_view().globals, name@) is None,
            },
    {
        let ghost gv = self.deep_view().globals;
        let mut i: usize = 0;
        while i < self.globals.len()
            invariant
                i <= self.globals@.len(),
                gv == self.deep_view().globals,
                gv.len() == self.globals@.len(),
                forall|j: int| 0 <= j < i ==> #[trigger] gv[j].name != name@,
            decreases self.globals@.len() - i,
        {
            if str_eq(self.globals[i].name.as_str(), name) {
                proof {
                    lemma_find_global_from(gv, name@, i as int);
                    assert(gv.skip(i as int)[0] == gv[i as int]);
                }
                return Some(i);
            }
            i = i + 1;
        }
        proof {
            lemma_find_global_from(gv, name@, i as int);
            assert(gv.skip(i as int).len() == 0);
        }
        None
    }

    /// Resolve the program entry: the export under the empty name first,
    /// the conventional start name second.
    pub fn resolve_entry(&self) -> (r: Option<usize>)
        ensures
            match r {
                Some(i) => i < self.funcs@.len() && entry_func(self.deep_view()) == Some(
                    self.deep_view().funcs[i as int],
                ),
                None => entry_func(self.deep_view()) is None,
            },
    {
        match self.get_func("") {
            Some(i) => Some(i),
            None => self.get_func("_start"),
        }
    }

    /// Whether the module exports the signal/epoch global the signal
    /// subsystem needs.
    pub fn has_epoch_export(&self) -> (r: bool)
        ensures
            r == has_epoch(self.deep_view()),
    {
        self.get_global("epoch").is_some()
    }
}

} // verus!
