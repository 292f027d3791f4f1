//! The builtin modules, their export protocol, and module resolution.

use yaso::exports::{export_default, HostBinding};
use yaso::fs::FsModule;
use yaso::os::OsModule;
use yaso::path::PathModule;
use yaso::process::ProcessModule;
use yaso::resolver::{
    after_probe, begin, create_module_instances, declare, load_builtin, Builtin, ModuleKind,
    ResolutionError, Step,
};

fn probe(index: usize, path: &str) -> Step {
    Step::Probe { index, path: path.to_string() }
}

#[test]
fn os_module_declares_its_exports() {
    assert_eq!(
        OsModule::declare(),
        vec!["type", "release", "version", "machine", "arch", "platform", "tmpdir", "default"]
    );
}

#[test]
fn path_module_declares_its_exports() {
    assert_eq!(
        PathModule::declare(),
        vec![
            "parse", "format", "normalize", "resolve", "join", "dirname", "basename", "extname",
            "isAbsolute", "sep", "delimiter", "default"
        ]
    );
}

#[test]
fn process_module_declares_its_exports() {
    assert_eq!(
        ProcessModule::declare(),
        vec!["argv", "env", "cwd", "arch", "platform", "exit", "default"]
    );
}

#[test]
fn every_binding_is_exported_twice() {
    for builtin in [Builtin::Os, Builtin::Path, Builtin::Process, Builtin::Fs] {
        let names = declare(builtin);
        let ns = load_builtin(builtin);
        assert_eq!(names.last().unwrap(), "default");
        assert_eq!(ns.named.len() + 1, names.len());
        for name in &names[..names.len() - 1] {
            let named = ns.get_named(name);
            assert!(named.is_some(), "{} is exported by name", name);
            assert_eq!(named, ns.get_default(name), "{} is the same both ways", name);
        }
        assert_eq!(ns.get_named("default"), None);
        assert_eq!(ns.get_named("nothing"), None);
        assert_eq!(ns.get_default("nothing"), None);
    }
}

#[test]
fn bindings_name_what_they_stand_for() {
    assert_eq!(OsModule::evaluate().get_named("tmpdir"), Some(HostBinding::OsTmpDir));
    assert_eq!(PathModule::evaluate().get_default("isAbsolute"), Some(HostBinding::PathIsAbsolute));
    assert_eq!(ProcessModule::evaluate().get_named("exit"), Some(HostBinding::ProcessExit));
    assert_eq!(FsModule::evaluate().get_default("openSync"), Some(HostBinding::FsOpenSync));
    assert_eq!(OsModule::evaluate().get_named("arch"), Some(HostBinding::OsArch));
    assert_eq!(ProcessModule::evaluate().get_named("arch"), Some(HostBinding::ProcessArch));
}

#[test]
fn export_default_keeps_the_later_binding_of_a_name() {
    let bindings = vec![("x".to_string(), 1u8), ("y".to_string(), 2u8), ("x".to_string(), 3u8)];
    let ns = export_default(&bindings);
    assert_eq!(ns.named, bindings);
    assert_eq!(ns.default, bindings);
    assert_eq!(ns.get_named("x"), Some(3));
    assert_eq!(ns.get_default("x"), Some(3));
    assert_eq!(ns.get_named("y"), Some(2));
}

#[test]
fn registry_holds_the_reserved_names() {
    let registry = create_module_instances();
    assert_eq!(registry.lookup("os"), Some(Builtin::Os));
    assert_eq!(registry.lookup("path"), Some(Builtin::Path));
    assert_eq!(registry.lookup("process"), Some(Builtin::Process));
    assert_eq!(registry.lookup("fs"), Some(Builtin::Fs));
    assert_eq!(registry.lookup("console"), None);
    assert_eq!(registry.lookup("OS"), None);
    assert_eq!(registry.lookup("os.mjs"), None);
    assert_eq!(registry.lookup(""), None);
}

#[test]
fn builtin_wins_over_file_of_the_same_name() {
    let registry = create_module_instances();
    // No probe is asked for, so a file called `fs` cannot be picked.
    assert_eq!(begin(&registry, "fs"), Step::Builtin(Builtin::Fs));
    assert_eq!(begin(&registry, "os"), Step::Builtin(Builtin::Os));
}

#[test]
fn files_are_tried_in_order() {
    let registry = create_module_instances();
    assert_eq!(begin(&registry, "lib"), probe(0, "lib"));
    assert_eq!(after_probe("lib", 0, false), probe(1, "lib.mjs"));
    assert_eq!(after_probe("lib", 1, false), probe(2, "lib.cjs"));
    assert_eq!(
        after_probe("lib", 2, false),
        Step::Failed(ResolutionError { specifier: "lib".to_string() })
    );
}

#[test]
fn first_existing_file_wins() {
    assert_eq!(
        after_probe("lib", 0, true),
        Step::File { path: "lib".to_string(), kind: ModuleKind::EsModule }
    );
    assert_eq!(
        after_probe("lib", 1, true),
        Step::File { path: "lib.mjs".to_string(), kind: ModuleKind::EsModule }
    );
    assert_eq!(
        after_probe("lib", 2, true),
        Step::File { path: "lib.cjs".to_string(), kind: ModuleKind::CommonJs }
    );
}

#[test]
fn kind_follows_the_extension() {
    assert_eq!(
        after_probe("old.cjs", 0, true),
        Step::File { path: "old.cjs".to_string(), kind: ModuleKind::CommonJs }
    );
    assert_eq!(
        after_probe("old.cjs", 1, true),
        Step::File { path: "old.cjs.mjs".to_string(), kind: ModuleKind::EsModule }
    );
}

#[test]
fn probes_beyond_the_last_fail() {
    assert_eq!(
        after_probe("lib", 3, true),
        Step::Failed(ResolutionError { specifier: "lib".to_string() })
    );
    assert_eq!(
        after_probe("lib", usize::MAX, false),
        Step::Failed(ResolutionError { specifier: "lib".to_string() })
    );
}
