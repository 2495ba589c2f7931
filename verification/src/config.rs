//! The launch configuration a cage runs under, and the exec-engine rewrite
//! of its argument vector.

use vstd::prelude::*;

verus! {

/// One declared environment entry.
pub struct EnvEntry {
    pub key: String,
    pub value: String,
}

/// Spec-level image of an [`EnvEntry`].
#[verifier::ext_equal]
pub ghost struct EnvEntryV {
    pub key: Seq<char>,
    pub value: Seq<char>,
}

impl DeepView for EnvEntry {
    type V = EnvEntryV;

    open spec fn deep_view(&self) -> EnvEntryV {
        EnvEntryV { key: self.key@, value: self.value@ }
    }
}

/// One declared file mount.
pub struct FileSpec {
    pub name: String,
}

impl DeepView for FileSpec {
    type V = Seq<char>;

    open spec fn deep_view(&self) -> Seq<char> {
        self.name@
    }
}

/// The configuration a cage is launched under: an optional attestation
/// service address, the program arguments, and the declared file mounts and
/// environment entries.
///
/// The configuration is immutable once loaded, except for `args`: the exec
/// engine synthesizes a fresh argument vector for every exec call (see
/// [`rewrite_exec_config`]); the loaded `args` apply to the initial launch
/// alone.
pub struct Config {
    pub steward: Option<String>,
    pub args: Vec<String>,
    pub files: Vec<FileSpec>,
    pub env: Vec<EnvEntry>,
}

/// Spec-level image of a [`Config`].
#[verifier::ext_equal]
pub ghost struct ConfigV {
    pub steward: Option<Seq<char>>,
    pub args: Seq<Seq<char>>,
    pub files: Seq<Seq<char>>,
    pub env: Seq<EnvEntryV>,
}

impl DeepView for Config {
    type V = ConfigV;

    open spec fn deep_view(&self) -> ConfigV {
        ConfigV {
            steward: self.steward.deep_view(),
            args: self.args.deep_view(),
            files: self.files.deep_view(),
            env: self.env.deep_view(),
        }
    }
}

/// The configuration used when none was supplied: no attestation service,
/// no arguments, no mounts, no environment.
pub open spec fn default_config() -> ConfigV {
    ConfigV {
        steward: None,
        args: Seq::empty(),
        files: Seq::empty(),
        env: Seq::empty(),
    }
}

impl Default for Config {
    fn default() -> (r: Config)
        ensures
            r.deep_view() == default_config(),
    {
        let r = Config { steward: None, args: Vec::new(), files: Vec::new(), env: Vec::new() };
        proof {
            assert(r.deep_view() =~~= default_config());
        }
        r
    }
}

/// Copy a vector of strings; the copy holds the same strings.
pub(crate) fn copy_strings(v: &Vec<String>) -> (r: Vec<String>)
    ensures
        r@ == v@,
{
    let r = v.clone();
    proof {
        assert forall|i: int| 0 <= i < v@.len() implies r@[i] == v@[i] by {
            assert(cloned::<String>(v@[i], r@[i]));
        }
        assert(r@ =~= v@);
    }
    r
}

pub(crate) fn copy_files(v: &Vec<FileSpec>) -> (r: Vec<FileSpec>)
    ensures
        r.deep_view() == v.deep_view(),
{
    let mut r: Vec<FileSpec> = Vec::new();
    let mut i: usize = 0;
    while i < v.len()
        invariant
            i <= v@.len(),
            r@.len() == i,
            forall|j: int| 0 <= j < i ==> #[trigger] r@[j].name@ == v@[j].name@,
        decreases v@.len() - i,
    {
        r.push(FileSpec { name: v[i].name.clone() });
        i = i + 1;
    }
    proof {
        assert(r.deep_view() =~~= v.deep_view());
    }
    r
}

pub(crate) fn copy_env(v: &Vec<EnvEntry>) -> (r: Vec<EnvEntry>)
    ensures
        r.deep_view() == v.deep_view(),
{
    let mut r: Vec<EnvEntry> = Vec::new();
    let mut i: usize = 0;
    while i < v.len()
        invariant
            i <= v@.len(),
            r@.len() == i,
            forall|j: int|
                0 <= j < i ==> #[trigger] r@[j].key@ == v@[j].key@ && r@[j].value@ == v@[j].value@,
        decreases v@.len() - i,
    {
        r.push(EnvEntry { key: v[i].key.clone(), value: v[i].value.clone() });
        i = i + 1;
    }
    proof {
        assert(r.deep_view() =~~= v.deep_view());
    }
    r
}

/// Copy a vector of bytes; the copy holds the same bytes.
pub(crate) fn copy_bytes(v: &Vec<u8>) -> (r: Vec<u8>)
    ensures
        r@ == v@,
{
    let r = v.clone();
    proof {
        assert forall|i: int| 0 <= i < v@.len() implies r@[i] == v@[i] by {
            assert(cloned::<u8>(v@[i], r@[i]));
        }
        assert(r@ =~= v@);
    }
    r
}

/// Copy a configuration; the copy describes the same launch.
pub fn clone_config(c: &Config) -> (r: Config)
    ensures
        r.deep_view() == c.deep_view(),
{
    let steward = match &c.steward {
        Some(s) => Some(s.clone()),
        None => None,
    };
    let r = Config {
        steward,
        args: copy_strings(&c.args),
        files: copy_files(&c.files),
        env: copy_env(&c.env),
    };
    proof {
        assert(r.deep_view() =~~= c.deep_view());
    }
    r
}

/// The argument vector an exec call hands to the execed program: the raw
/// exec arguments with their first element (the program name) stripped.
pub open spec fn exec_args(raw: Seq<Seq<char>>) -> Seq<Seq<char>> {
    if raw.len() >= 1 {
        raw.drop_first()
    } else {
        Seq::empty()
    }
}

/// The configuration an exec call starts from: the one the cage was launched
/// under, or the default when none was supplied.
pub open spec fn base_config(c: Option<ConfigV>) -> ConfigV {
    match c {
        Some(v) => v,
        None => default_config(),
    }
}

fn strip_first(v: &Vec<String>) -> (r: Vec<String>)
    ensures
        r.deep_view() == exec_args(v.deep_view()),
{
    let mut r: Vec<String> = Vec::new();
    let mut i: usize = 1;
    while i < v.len()
        invariant
            1 <= i <= v@.len() || (v@.len() == 0 && i == 1),
            r@.len() == i - 1 || (v@.len() == 0 && r@.len() == 0),
            forall|j: int| 0 <= j < r@.len() ==> #[trigger] r@[j] == v@[j + 1],
        decreases v@.len() - i,
    {
        r.push(v[i].clone());
        i = i + 1;
    }
    proof {
        assert(r.deep_view() =~~= exec_args(v.deep_view()));
    }
    r
}

/// Exec-engine argument rewrite: the execed program keeps the launch
/// configuration (or the default, when none was supplied) in every field
/// but `args`, which is replaced by the exec call's own argument list with
/// the program name stripped — whatever `args` the old configuration held.
pub fn rewrite_exec_config(conf: &Option<Config>, raw_args: &Vec<String>) -> (r: Config)
    ensures
        r.deep_view().args == exec_args(raw_args.deep_view()),
        r.deep_view().steward == base_config(conf.deep_view()).steward,
        r.deep_view().files == base_config(conf.deep_view()).files,
        r.deep_view().env == base_config(conf.deep_view()).env,
{
    let mut base: Config = match conf {
        Some(c) => clone_config(c),
        None => Config::default(),
    };
    base.args = strip_first(raw_args);
    base
}

/// The placeholder program name: the module reaches the runtime through a
/// handle, never a path, so the conventional first argument is synthesized.
pub open spec fn program_placeholder() -> Seq<char> {
    "main.wasm"@
}

/// The POSIX-style argument vector handed to a cage: the placeholder
/// program name, then the configured arguments in order.
pub fn build_argv(args: &Vec<String>) -> (r: Vec<String>)
    ensures
        r.deep_view() == seq![program_placeholder()] + args.deep_view(),
{
    let mut r: Vec<String> = Vec::new();
    r.push("main.wasm".to_owned());
    let mut i: usize = 0;
    while i < args.len()
        invariant
            i <= args@.len(),
            r@.len() == i + 1,
            r@[0]@ == program_placeholder(),
            forall|j: int| 1 <= j < i + 1 ==> #[trigger] r@[j] == args@[j - 1],
        decreases args@.len() - i,
    {
        r.push(args[i].clone());
        i = i + 1;
    }
    proof {
        assert(r.deep_view() =~~= seq![program_placeholder()] + args.deep_view());
    }
    r
}

} // verus!
