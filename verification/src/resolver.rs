//! Module resolution: builtin modules first, files second.
//!
//! A specifier that names a builtin module resolves to it without a look at
//! the file system. Any other specifier is tried as a file of the working
//! directory under three names in turn: the specifier itself, then with `.mjs`
//! and with `.cjs` appended; the first that exists wins. Whether a file exists
//! is for the embedding program to find out: resolution asks for one probe at
//! a time and goes on from the answer.

use vstd::prelude::*;
use crate::exports::{bound, entries, HostBinding, Namespace};
use crate::fs::FsModule;
use crate::os::OsModule;
use crate::path::model::extname_of;
use crate::path::{extname, PathModule};
use crate::process::ProcessModule;
use crate::text::{same_text, texts};

verus! {

/// The builtin modules.
#[derive(Clone, Copy, Debug, PartialEq, Eq, Structural)]
pub enum Builtin {
    Os,
    Path,
    Process,
    Fs,
}

/// The builtin modules under their reserved names.
pub open spec fn builtin_table() -> Seq<(Seq<char>, Builtin)> {
    seq![
        ("os"@, Builtin::Os),
        ("path"@, Builtin::Path),
        ("process"@, Builtin::Process),
        ("fs"@, Builtin::Fs),
    ]
}

/// The reserved names are bound to the four builtin modules, each to its
/// own; `console` is not among them, since the console is a global and no
/// module.
pub proof fn lemma_builtin_table()
    ensures
        bound(builtin_table(), "os"@) == Some(Builtin::Os),
        bound(builtin_table(), "path"@) == Some(Builtin::Path),
        bound(builtin_table(), "process"@) == Some(Builtin::Process),
        bound(builtin_table(), "fs"@) == Some(Builtin::Fs),
        bound(builtin_table(), "console"@) is None,
{
    reveal_strlit("os");
    reveal_strlit("path");
    reveal_strlit("process");
    reveal_strlit("fs");
    reveal_strlit("console");
    reveal_with_fuel(crate::exports::bound_within, 5);
    let t = builtin_table();
    assert(t[0].0[0] == 'o' && t[0].0.len() == 2);
    assert(t[1].0[0] == 'p' && t[1].0.len() == 4);
    assert(t[2].0[0] == 'p' && t[2].0.len() == 7);
    assert(t[3].0[0] == 'f' && t[3].0.len() == 2);
    assert("console"@[0] == 'c' && "console"@.len() == 7 && "console"@[1] == 'o');
    assert(t[2].0[1] == 'r');
}

/// The registry of builtin modules. It is filled when it is made and cannot
/// be changed afterwards.
pub struct Registry {
    modules: Vec<(String, Builtin)>,
}

impl View for Registry {
    type V = Seq<(Seq<char>, Builtin)>;

    closed spec fn view(&self) -> Seq<(Seq<char>, Builtin)> {
        entries(self.modules@)
    }
}

/// Builds the registry of the builtin modules.
pub fn create_module_instances() -> (registry: Registry)
    ensures
        registry@ == builtin_table(),
{
    let mut modules: Vec<(String, Builtin)> = Vec::new();
    modules.push((String::from_str("os"), Builtin::Os));
    modules.push((String::from_str("path"), Builtin::Path));
    modules.push((String::from_str("process"), Builtin::Process));
    modules.push((String::from_str("fs"), Builtin::Fs));
    assert(entries(modules@) =~= builtin_table());
    Registry { modules }
}

impl Registry {
    /// The builtin module registered under exactly this name, if there is one.
    pub fn lookup(&self, name: &str) -> (found: Option<Builtin>)
        ensures
            found == bound(self@, name@),
    {
        let mut i: usize = self.modules.len();
        while i > 0
            invariant
                i <= self.modules.len(),
                bound(self@, name@) == crate::exports::bound_within(self@, name@, i as int),
            decreases i,
        {
            i -= 1;
            if same_text(self.modules[i].0.as_str(), name) {
                return Some(self.modules[i].1);
            }
        }
        None
    }
}

/// What a builtin module binds, in order.
pub open spec fn bindings_of(builtin: Builtin) -> Seq<(Seq<char>, HostBinding)> {
    match builtin {
        Builtin::Os => OsModule::bindings(),
        Builtin::Path => PathModule::bindings(),
        Builtin::Process => ProcessModule::bindings(),
        Builtin::Fs => FsModule::bindings(),
    }
}

/// A table of bindings is well formed when no name is bound twice and none
/// is the name of the aggregate export.
pub open spec fn well_formed(bindings: Seq<(Seq<char>, HostBinding)>) -> bool {
    &&& forall|i: int, j: int|
        0 <= i < j < bindings.len() ==> (#[trigger] bindings[i]).0 != (#[trigger] bindings[j]).0
    &&& forall|i: int|
        0 <= i < bindings.len() ==> (#[trigger] bindings[i]).0 != crate::exports::default_name()
}

proof fn lemma_os_bindings()
    ensures
        well_formed(OsModule::bindings()),
{
    reveal_strlit("type");
    reveal_strlit("release");
    reveal_strlit("version");
    reveal_strlit("machine");
    reveal_strlit("arch");
    reveal_strlit("platform");
    reveal_strlit("tmpdir");
    reveal_strlit("default");
    let b = OsModule::bindings();
    assert(b[0].0[0] == 't' && b[0].0[1] == 'y');
    assert(b[1].0[0] == 'r');
    assert(b[2].0[0] == 'v');
    assert(b[3].0[0] == 'm');
    assert(b[4].0[0] == 'a');
    assert(b[5].0[0] == 'p');
    assert(b[6].0[0] == 't' && b[6].0[1] == 'm');
    assert("default"@[0] == 'd');
}

proof fn lemma_path_bindings()
    ensures
        well_formed(PathModule::bindings()),
{
    reveal_strlit("parse");
    reveal_strlit("format");
    reveal_strlit("normalize");
    reveal_strlit("resolve");
    reveal_strlit("join");
    reveal_strlit("dirname");
    reveal_strlit("basename");
    reveal_strlit("extname");
    reveal_strlit("isAbsolute");
    reveal_strlit("sep");
    reveal_strlit("delimiter");
    reveal_strlit("default");
    let b = PathModule::bindings();
    assert(b[0].0[0] == 'p');
    assert(b[1].0[0] == 'f');
    assert(b[2].0[0] == 'n');
    assert(b[3].0[0] == 'r');
    assert(b[4].0[0] == 'j');
    assert(b[5].0[0] == 'd' && b[5].0[1] == 'i');
    assert(b[6].0[0] == 'b');
    assert(b[7].0[0] == 'e');
    assert(b[8].0[0] == 'i');
    assert(b[9].0[0] == 's');
    assert(b[10].0[0] == 'd' && b[10].0[1] == 'e' && b[10].0[2] == 'l');
    assert("default"@[0] == 'd' && "default"@[1] == 'e' && "default"@[2] == 'f');
}

proof fn lemma_process_bindings()
    ensures
        well_formed(ProcessModule::bindings()),
{
    reveal_strlit("argv");
    reveal_strlit("env");
    reveal_strlit("cwd");
    reveal_strlit("arch");
    reveal_strlit("platform");
    reveal_strlit("exit");
    reveal_strlit("default");
    let b = ProcessModule::bindings();
    assert(b[0].0[0] == 'a' && b[0].0[1] == 'r' && b[0].0[2] == 'g');
    assert(b[1].0[0] == 'e' && b[1].0[1] == 'n');
    assert(b[2].0[0] == 'c');
    assert(b[3].0[0] == 'a' && b[3].0[1] == 'r' && b[3].0[2] == 'c');
    assert(b[4].0[0] == 'p');
    assert(b[5].0[0] == 'e' && b[5].0[1] == 'x');
    assert("default"@[0] == 'd');
}

proof fn lemma_fs_bindings()
    ensures
        well_formed(FsModule::bindings()),
{
    reveal_strlit("open");
    reveal_strlit("openSync");
    reveal_strlit("default");
    let b = FsModule::bindings();
    assert(b[0].0.len() == 4);
    assert(b[1].0.len() == 8);
    assert(b[0].0[0] == 'o' && b[1].0[0] == 'o');
    assert("default"@[0] == 'd');
}

/// Every builtin module binds each of its names once, and none of them is
/// `default`: the names it declares are all different.
pub proof fn lemma_bindings_well_formed(builtin: Builtin)
    ensures
        well_formed(bindings_of(builtin)),
{
    match builtin {
        Builtin::Os => lemma_os_bindings(),
        Builtin::Path => lemma_path_bindings(),
        Builtin::Process => lemma_process_bindings(),
        Builtin::Fs => lemma_fs_bindings(),
    }
}

/// The names that a builtin module declares before it is evaluated.
pub fn declare(builtin: Builtin) -> (names: Vec<String>)
    ensures
        texts(names@) == crate::exports::names_of(bindings_of(builtin)).push(
            crate::exports::default_name(),
        ),
{
    match builtin {
        Builtin::Os => OsModule::declare(),
        Builtin::Path => PathModule::declare(),
        Builtin::Process => ProcessModule::declare(),
        Builtin::Fs => FsModule::declare(),
    }
}

/// The builtin loader: evaluates a builtin module to its namespace.
pub fn load_builtin(builtin: Builtin) -> (ns: Namespace<HostBinding>)
    ensures
        ns.named_exports() == bindings_of(builtin),
        ns.default_export() == bindings_of(builtin),
{
    match builtin {
        Builtin::Os => OsModule::evaluate(),
        Builtin::Path => PathModule::evaluate(),
        Builtin::Process => ProcessModule::evaluate(),
        Builtin::Fs => FsModule::evaluate(),
    }
}

/// How many file names a specifier is tried under.
pub const CANDIDATES: usize = 3;

/// The file name that a specifier is tried under at the given turn.
pub open spec fn candidate_path(name: Seq<char>, index: int) -> Seq<char> {
    if index == 1 {
        name + ".mjs"@
    } else if index == 2 {
        name + ".cjs"@
    } else {
        name
    }
}

/// The kinds of script files.
#[derive(Clone, Copy, Debug, PartialEq, Eq, Structural)]
pub enum ModuleKind {
    /// An ECMAScript module.
    EsModule,
    /// A CommonJS module: a file with the extension `.cjs`.
    CommonJs,
}

/// The kind of the script file at `path`, by its extension.
pub open spec fn kind_of(path: Seq<char>) -> ModuleKind {
    if extname_of(path) == ".cjs"@ {
        ModuleKind::CommonJs
    } else {
        ModuleKind::EsModule
    }
}

/// No resolver had a match for the specifier.
#[derive(Debug, PartialEq, Eq)]
pub struct ResolutionError {
    pub specifier: String,
}

/// A stage of the resolution of one specifier.
#[derive(Debug, PartialEq, Eq)]
pub enum Step {
    /// The file at `path` is to be probed; it is candidate number `index`.
    Probe { index: usize, path: String },
    /// The specifier names a builtin module, which the builtin loader loads.
    Builtin(Builtin),
    /// The specifier names the file at `path`, which the script loader loads
    /// as a module of the given kind.
    File { path: String, kind: ModuleKind },
    /// Nothing matched.
    Failed(ResolutionError),
}

/// A stage of a resolution, with texts in place of strings.
pub enum StepModel {
    Probe { index: int, path: Seq<char> },
    Builtin(Builtin),
    File { path: Seq<char>, kind: ModuleKind },
    Failed { specifier: Seq<char> },
}

impl View for Step {
    type V = StepModel;

    open spec fn view(&self) -> StepModel {
        match *self {
            Step::Probe { index, path } => StepModel::Probe { index: index as int, path: path@ },
            Step::Builtin(b) => StepModel::Builtin(b),
            Step::File { path, kind } => StepModel::File { path: path@, kind },
            Step::Failed(e) => StepModel::Failed { specifier: e.specifier@ },
        }
    }
}

/// How resolution begins: with the builtin module of that name, or, where
/// there is none, with a probe of the first candidate.
pub open spec fn first_step(table: Seq<(Seq<char>, Builtin)>, name: Seq<char>) -> StepModel {
    match bound(table, name) {
        Some(b) => StepModel::Builtin(b),
        None => StepModel::Probe { index: 0, path: candidate_path(name, 0) },
    }
}

/// How resolution goes on from the answer to a probe: an existing file is
/// the match; otherwise the next candidate is probed, and after the last one
/// resolution fails.
pub open spec fn next_step(name: Seq<char>, index: int, found: bool) -> StepModel {
    if 0 <= index < CANDIDATES && found {
        StepModel::File {
            path: candidate_path(name, index),
            kind: kind_of(candidate_path(name, index)),
        }
    } else if 0 <= index && index + 1 < CANDIDATES {
        StepModel::Probe { index: index + 1, path: candidate_path(name, index + 1) }
    } else {
        StepModel::Failed { specifier: name }
    }
}

/// The file name that `name` is tried under at turn `index`.
fn candidate(name: &str, index: usize) -> (path: String)
    ensures
        path@ == candidate_path(name@, index as int),
{
    let mut path = String::from_str(name);
    if index == 1 {
        path.append(".mjs");
    } else if index == 2 {
        path.append(".cjs");
    }
    path
}

/// Begins the resolution of a specifier.
pub fn begin(registry: &Registry, name: &str) -> (step: Step)
    ensures
        step@ == first_step(registry@, name@),
{
    match registry.lookup(name) {
        Some(b) => Step::Builtin(b),
        None => Step::Probe { index: 0, path: candidate(name, 0) },
    }
}

/// Goes on with the resolution of a specifier after candidate `index` was
/// probed and `found` says whether it is an existing file.
pub fn after_probe(name: &str, index: usize, found: bool) -> (step: Step)
    ensures
        step@ == next_step(name@, index as int, found),
{
    if index < CANDIDATES && found {
        let path = candidate(name, index);
        let extension = extname(path.as_str());
        let kind = if same_text(extension.as_str(), ".cjs") {
            ModuleKind::CommonJs
        } else {
            ModuleKind::EsModule
        };
        Step::File { path, kind }
    } else if index < CANDIDATES - 1 {
        Step::Probe { index: index + 1, path: candidate(name, index + 1) }
    } else {
        Step::Failed(ResolutionError { specifier: String::from_str(name) })
    }
}

/// Where a resolution ends when it is driven from `step` on and the files in
/// `files` are those that exist. `turns` bounds the probes that are made.
pub open spec fn driven(step: StepModel, name: Seq<char>, files: Set<Seq<char>>, turns: nat) -> StepModel
    decreases turns,
{
    match step {
        StepModel::Probe { index, path } => if turns == 0 {
            step
        } else {
            driven(next_step(name, index, files.contains(path)), name, files, (turns - 1) as nat)
        },
        _ => step,
    }
}

/// The whole resolution of a specifier, given the files that exist.
pub open spec fn resolution(
    table: Seq<(Seq<char>, Builtin)>,
    name: Seq<char>,
    files: Set<Seq<char>>,
) -> StepModel {
    driven(first_step(table, name), name, files, CANDIDATES as nat)
}

/// What a resolution comes to: a builtin module wherever the specifier names
/// one; else the first candidate that exists, in the order of the candidates;
/// else failure.
pub proof fn lemma_resolution(table: Seq<(Seq<char>, Builtin)>, name: Seq<char>, files: Set<Seq<char>>)
    ensures
        resolution(table, name, files) == match bound(table, name) {
            Some(b) => StepModel::Builtin(b),
            None => if files.contains(candidate_path(name, 0)) {
                StepModel::File {
                    path: candidate_path(name, 0),
                    kind: kind_of(candidate_path(name, 0)),
                }
            } else if files.contains(candidate_path(name, 1)) {
                StepModel::File {
                    path: candidate_path(name, 1),
                    kind: kind_of(candidate_path(name, 1)),
                }
            } else if files.contains(candidate_path(name, 2)) {
                StepModel::File {
                    path: candidate_path(name, 2),
                    kind: kind_of(candidate_path(name, 2)),
                }
            } else {
                StepModel::Failed { specifier: name }
            },
        },
{
    reveal_with_fuel(driven, 4);
}

/// Builtin modules come first: a specifier that names a builtin module
/// resolves to it whatever files exist, a file of the same name included.
pub proof fn lemma_builtin_first(
    table: Seq<(Seq<char>, Builtin)>,
    name: Seq<char>,
    files: Set<Seq<char>>,
)
    requires
        bound(table, name) is Some,
    ensures
        resolution(table, name, files) == StepModel::Builtin(bound(table, name)->Some_0),
{
    lemma_resolution(table, name, files);
}

} // verus!
