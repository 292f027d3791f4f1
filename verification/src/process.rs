//! The `process` builtin module.

use vstd::prelude::*;
use crate::exports::{
    bind, declared_names, default_name, entries, export_default, names_of, HostBinding,
    Namespace,
};
use crate::text::texts;

verus! {

/// The `process` builtin module.
pub struct ProcessModule;

impl ProcessModule {
    /// What the module binds, in order.
    pub open spec fn bindings() -> Seq<(Seq<char>, HostBinding)> {
        seq![
            ("argv"@, HostBinding::ProcessArgv),
            ("env"@, HostBinding::ProcessEnv),
            ("cwd"@, HostBinding::ProcessCwd),
            ("arch"@, HostBinding::ProcessArch),
            ("platform"@, HostBinding::ProcessPlatform),
            ("exit"@, HostBinding::ProcessExit),
        ]
    }

    /// The table of the module's bindings.
    pub fn table() -> (table: Vec<(String, HostBinding)>)
        ensures
            entries(table@) == Self::bindings(),
    {
        let mut table: Vec<(String, HostBinding)> = Vec::new();
        assert(entries(table@) =~= Seq::empty());
        bind(&mut table, "argv", HostBinding::ProcessArgv);
        bind(&mut table, "env", HostBinding::ProcessEnv);
        bind(&mut table, "cwd", HostBinding::ProcessCwd);
        bind(&mut table, "arch", HostBinding::ProcessArch);
        bind(&mut table, "platform", HostBinding::ProcessPlatform);
        bind(&mut table, "exit", HostBinding::ProcessExit);
        assert(entries(table@) =~= Self::bindings());
        table
    }

    /// The names the module exports: those of its bindings, then `default`.
    pub fn declare() -> (names: Vec<String>)
        ensures
            texts(names@) == names_of(Self::bindings()).push(default_name()),
    {
        declared_names(&Self::table())
    }

    /// The namespace of the module: every binding as a named export and as a
    /// property of `default`.
    pub fn evaluate() -> (ns: Namespace<HostBinding>)
        ensures
            ns.named_exports() == Self::bindings(),
            ns.default_export() == Self::bindings(),
    {
        export_default(&Self::table())
    }
}

} // verus!
