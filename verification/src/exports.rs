//! The export protocol of builtin modules.
//!
//! A builtin module binds values to names. Its namespace offers every binding
//! twice: as a named export of its own, and as a property of the one export
//! called `default`. Both ways lead to the same value.

use vstd::prelude::*;
use crate::text::{same_text, texts};

verus! {

/// What the bindings of builtin modules stand for. The embedding program
/// turns each into the script value or host function it names.
#[derive(Clone, Copy, Debug, PartialEq, Eq, Structural)]
pub enum HostBinding {
    OsType,
    OsRelease,
    OsVersion,
    OsMachine,
    OsArch,
    OsPlatform,
    OsTmpDir,
    PathParse,
    PathFormat,
    PathNormalize,
    PathResolve,
    PathJoin,
    PathDirname,
    PathBasename,
    PathExtname,
    PathIsAbsolute,
    PathSep,
    PathDelimiter,
    ProcessArgv,
    ProcessEnv,
    ProcessCwd,
    ProcessArch,
    ProcessPlatform,
    ProcessExit,
    FsOpen,
    FsOpenSync,
}

/// The name of the aggregate export.
pub open spec fn default_name() -> Seq<char> {
    "default"@
}

/// A list of bindings with each name as text.
pub open spec fn entries<T>(list: Seq<(String, T)>) -> Seq<(Seq<char>, T)> {
    list.map_values(|e: (String, T)| (e.0@, e.1))
}

/// The names of a list of bindings, in order.
pub open spec fn names_of<T>(list: Seq<(Seq<char>, T)>) -> Seq<Seq<char>> {
    list.map_values(|e: (Seq<char>, T)| e.0)
}

/// What `name` is bound to among the first `n` bindings of `list`: the last
/// binding of that name, as setting a property twice keeps the later value.
pub open spec fn bound_within<T>(list: Seq<(Seq<char>, T)>, name: Seq<char>, n: int) -> Option<T>
    decreases n,
{
    if n <= 0 || n > list.len() {
        None
    } else if list[n - 1].0 == name {
        Some(list[n - 1].1)
    } else {
        bound_within(list, name, n - 1)
    }
}

/// What `name` is bound to in `list`.
pub open spec fn bound<T>(list: Seq<(Seq<char>, T)>, name: Seq<char>) -> Option<T> {
    bound_within(list, name, list.len() as int)
}

/// The evaluated namespace of a builtin module.
pub struct Namespace<T> {
    /// The bindings exported under their own names.
    pub named: Vec<(String, T)>,
    /// The bindings held as properties of the `default` export.
    pub default: Vec<(String, T)>,
}

impl<T: Copy> Namespace<T> {
    /// The named exports, in the order they were bound.
    pub open spec fn named_exports(&self) -> Seq<(Seq<char>, T)> {
        entries(self.named@)
    }

    /// The properties of the `default` export, in the order they were bound.
    pub open spec fn default_export(&self) -> Seq<(Seq<char>, T)> {
        entries(self.default@)
    }

    /// Every name the namespace exports: the named exports, then `default`.
    pub open spec fn export_names(&self) -> Seq<Seq<char>> {
        names_of(self.named_exports()).push(default_name())
    }

    /// The value exported under `name` itself.
    pub fn get_named(&self, name: &str) -> (value: Option<T>)
        ensures
            value == bound(self.named_exports(), name@),
    {
        find_binding(&self.named, name)
    }

    /// The value of the property `name` of the `default` export.
    pub fn get_default(&self, name: &str) -> (value: Option<T>)
        ensures
            value == bound(self.default_export(), name@),
    {
        find_binding(&self.default, name)
    }
}

fn find_binding<T: Copy>(list: &Vec<(String, T)>, name: &str) -> (value: Option<T>)
    ensures
        value == bound(entries(list@), name@),
{
    let mut i: usize = list.len();
    while i > 0
        invariant
            i <= list.len(),
            bound(entries(list@), name@) == bound_within(entries(list@), name@, i as int),
        decreases i,
    {
        i -= 1;
        if same_text(list[i].0.as_str(), name) {
            return Some(list[i].1);
        }
    }
    None
}

fn copy_bindings<T: Copy>(bindings: &Vec<(String, T)>) -> (out: Vec<(String, T)>)
    ensures
        out@ == bindings@,
{
    let mut out: Vec<(String, T)> = Vec::new();
    let mut i: usize = 0;
    while i < bindings.len()
        invariant
            i <= bindings.len(),
            out@ == bindings@.take(i as int),
        decreases bindings.len() - i,
    {
        out.push((bindings[i].0.clone(), bindings[i].1));
        assert(bindings@.take(i + 1) == bindings@.take(i as int).push(bindings@[i as int]));
        i += 1;
    }
    assert(bindings@.take(bindings.len() as int) == bindings@);
    out
}

/// Adds the binding of `name` to `value` at the end of `table`.
pub fn bind<T: Copy>(table: &mut Vec<(String, T)>, name: &str, value: T)
    ensures
        entries(final(table)@) == entries(old(table)@).push((name@, value)),
{
    table.push((String::from_str(name), value));
    assert(entries(table@) =~= entries(old(table)@).push((name@, value)));
}

/// Builds the namespace of a builtin module from its bindings: each binding
/// becomes a named export and a property of the `default` export.
pub fn export_default<T: Copy>(bindings: &Vec<(String, T)>) -> (ns: Namespace<T>)
    ensures
        ns.named_exports() == entries(bindings@),
        ns.default_export() == entries(bindings@),
{
    Namespace { named: copy_bindings(bindings), default: copy_bindings(bindings) }
}

/// The names a module declares for a list of bindings: the bindings' names in
/// order, then `default`.
pub fn declared_names<T: Copy>(bindings: &Vec<(String, T)>) -> (names: Vec<String>)
    ensures
        texts(names@) == names_of(entries(bindings@)).push(default_name()),
{
    let mut names: Vec<String> = Vec::new();
    let mut i: usize = 0;
    let ghost all = names_of(entries(bindings@));
    while i < bindings.len()
        invariant
            i <= bindings.len(),
            all == names_of(entries(bindings@)),
            names@.map_values(|s: String| s@) == all.take(i as int),
        decreases bindings.len() - i,
    {
        let ghost before = names@;
        names.push(bindings[i].0.clone());
        assert(names@.map_values(|s: String| s@) =~= before.map_values(|s: String| s@).push(
            bindings@[i as int].0@,
        ));
        assert(all.take(i + 1) =~= all.take(i as int).push(all[i as int]));
        i += 1;
    }
    assert(all.take(bindings.len() as int) == all);
    let ghost before = names@;
    names.push(String::from_str("default"));
    assert(names@.map_values(|s: String| s@) =~= before.map_values(|s: String| s@).push(
        default_name(),
    ));
    names
}

/// The dual shape of a namespace: where the named exports and the properties
/// of `default` are the same bindings, as `export_default` makes them, a name
/// looked up either way gives the same value.
pub proof fn lemma_dual_shape<T: Copy>(ns: Namespace<T>, name: Seq<char>)
    requires
        ns.named_exports() == ns.default_export(),
    ensures
        bound(ns.named_exports(), name) == bound(ns.default_export(), name),
{
}

/// A name is bound exactly when it is among the names of the bindings.
pub proof fn lemma_bound_iff_named<T>(list: Seq<(Seq<char>, T)>, name: Seq<char>)
    ensures
        bound(list, name) is Some <==> names_of(list).contains(name),
{
    lemma_bound_within(list, name, list.len() as int);
    if bound(list, name) is Some {
        let i = choose|i: int| 0 <= i < list.len() && list[i].0 == name;
        assert(names_of(list)[i] == name);
    }
    if names_of(list).contains(name) {
        let i = choose|i: int| 0 <= i < names_of(list).len() && names_of(list)[i] == name;
        assert(list[i].0 == name);
    }
}

proof fn lemma_bound_within<T>(list: Seq<(Seq<char>, T)>, name: Seq<char>, n: int)
    requires
        0 <= n <= list.len(),
    ensures
        bound_within(list, name, n) is Some <==> exists|i: int| 0 <= i < n && list[i].0 == name,
        bound_within(list, name, n) is Some ==> exists|i: int|
            0 <= i < n && list[i].0 == name && bound_within(list, name, n) == Some(list[i].1),
    decreases n,
{
    if n > 0 {
        lemma_bound_within(list, name, n - 1);
        if list[n - 1].0 == name {
            assert(0 <= n - 1 < n && list[n - 1].0 == name);
        }
    }
}

} // verus!
