//! The `os` builtin module: facts about the host system.
//!
//! The facts are taken once, when the host is built, and kept for its whole
//! life; the functions here read them from that record.

use vstd::prelude::*;
use vstd::slice::slice_subrange;
use vstd::utf8::{decode_utf8, valid_utf8};
use crate::exports::{
    bind, declared_names, default_name, entries, export_default, names_of, HostBinding,
    Namespace,
};
use crate::text::texts;

verus! {

/// What `String::from_utf8_lossy` makes of a sequence of bytes.
pub uninterp spec fn lossy_utf8(bytes: Seq<u8>) -> Seq<char>;

/// `String::from_utf8_lossy` of the standard library, as an owned string:
/// the text that the bytes encode, with the replacement character in place
/// of each invalid sequence. For valid UTF-8 it is the decoded text.
#[verifier::external_body]
fn decode_lossy(bytes: &[u8]) -> (out: String)
    ensures
        out@ == lossy_utf8(bytes@),
        valid_utf8(bytes@) ==> out@ == decode_utf8(bytes@),
{
    String::from_utf8_lossy(bytes).into_owned()
}

/// `text` is what `bytes` decode to: the text they encode where they are
/// UTF-8, and in any case what lossy decoding makes of them.
pub open spec fn decodes_to(bytes: Seq<u8>, text: Seq<char>) -> bool {
    &&& text == lossy_utf8(bytes)
    &&& valid_utf8(bytes) ==> text == decode_utf8(bytes)
}

/// Where the C string held in `buf` ends: at the first NUL, or at the end of
/// the buffer where it holds none.
pub open spec fn c_string_len(buf: Seq<u8>) -> int
    decreases buf.len(),
{
    if buf.len() == 0 || buf[0] == 0 {
        0
    } else {
        1 + c_string_len(buf.drop_first())
    }
}

/// The bytes of the C string held in `buf`.
pub open spec fn c_string(buf: Seq<u8>) -> Seq<u8> {
    buf.take(c_string_len(buf))
}

/// The length of a C string lies within its buffer, no byte before it is
/// NUL, and a NUL follows unless the buffer ends there.
pub proof fn lemma_c_string_len(buf: Seq<u8>)
    ensures
        0 <= c_string_len(buf) <= buf.len(),
        forall|i: int| 0 <= i < c_string_len(buf) ==> buf[i] != 0,
        c_string_len(buf) < buf.len() ==> buf[c_string_len(buf)] == 0,
    decreases buf.len(),
{
    if buf.len() > 0 && buf[0] != 0 {
        let rest = buf.drop_first();
        lemma_c_string_len(rest);
        assert forall|i: int| 0 <= i < c_string_len(buf) implies buf[i] != 0 by {
            if i > 0 {
                assert(buf[i] == rest[i - 1]);
            }
        }
        if c_string_len(buf) < buf.len() {
            assert(buf[c_string_len(buf)] == rest[c_string_len(rest)]);
        }
    }
}

/// The text of the C string held in `buf`: what its bytes decode to, with the
/// replacement character wherever they are not UTF-8.
pub fn c_string_text(buf: &[u8]) -> (out: String)
    ensures
        decodes_to(c_string(buf@), out@),
{
    let mut n: usize = 0;
    assert(buf@.subrange(0, buf.len() as int) == buf@);
    while n < buf.len() && buf[n] != 0
        invariant
            n <= buf.len(),
            c_string_len(buf@) == n + c_string_len(buf@.subrange(n as int, buf.len() as int)),
        decreases buf.len() - n,
    {
        assert(buf@.subrange(n as int, buf.len() as int).drop_first() == buf@.subrange(
            n + 1,
            buf.len() as int,
        ));
        n += 1;
    }
    assert(buf@.subrange(0, n as int) == buf@.take(n as int));
    decode_lossy(slice_subrange(buf, 0, n))
}

/// The names that the system gives itself.
#[derive(Debug, Clone, PartialEq, Eq)]
pub struct Uname {
    pub sysname: String,
    pub nodename: String,
    pub release: String,
    pub version: String,
    pub machine: String,
}

impl Uname {
    /// Reads the five fields out of the buffers that the system filled in, each
    /// holding a C string.
    pub fn new(
        sysname: &[u8],
        nodename: &[u8],
        release: &[u8],
        version: &[u8],
        machine: &[u8],
    ) -> (uname: Uname)
        ensures
            decodes_to(c_string(sysname@), uname.sysname@),
            decodes_to(c_string(nodename@), uname.nodename@),
            decodes_to(c_string(release@), uname.release@),
            decodes_to(c_string(version@), uname.version@),
            decodes_to(c_string(machine@), uname.machine@),
    {
        Uname {
            sysname: c_string_text(sysname),
            nodename: c_string_text(nodename),
            release: c_string_text(release),
            version: c_string_text(version),
            machine: c_string_text(machine),
        }
    }
}

/// The text that stands for a fact the system would not tell.
pub open spec fn not_available() -> Seq<char> {
    "N/A"@
}

/// The facts about the system that the `os` module reports. They are taken
/// once and never change afterwards.
#[derive(Debug, Clone, PartialEq, Eq)]
pub struct OsInfo {
    pub kernel: String,
    pub release: String,
    pub version: String,
    pub machine: String,
}

impl OsInfo {
    /// The facts out of what the system answered, or `N/A` for each of them
    /// where it gave no answer.
    pub fn new(uname: Option<Uname>) -> (info: OsInfo)
        ensures
            match uname {
                Some(u) => {
                    &&& info.kernel@ == u.sysname@
                    &&& info.release@ == u.release@
                    &&& info.version@ == u.version@
                    &&& info.machine@ == u.machine@
                },
                None => {
                    &&& info.kernel@ == not_available()
                    &&& info.release@ == not_available()
                    &&& info.version@ == not_available()
                    &&& info.machine@ == not_available()
                },
            },
    {
        match uname {
            Some(u) => OsInfo {
                kernel: u.sysname,
                release: u.release,
                version: u.version,
                machine: u.machine,
            },
            None => OsInfo {
                kernel: String::from_str("N/A"),
                release: String::from_str("N/A"),
                version: String::from_str("N/A"),
                machine: String::from_str("N/A"),
            },
        }
    }
}

/// The name of the kernel.
pub fn get_type(info: &OsInfo) -> (out: &str)
    ensures
        out@ == info.kernel@,
{
    info.kernel.as_str()
}

/// The release of the kernel.
pub fn get_release(info: &OsInfo) -> (out: &str)
    ensures
        out@ == info.release@,
{
    info.release.as_str()
}

/// The version of the kernel.
pub fn get_version(info: &OsInfo) -> (out: &str)
    ensures
        out@ == info.version@,
{
    info.version.as_str()
}

/// The hardware identifier of the machine.
pub fn get_machine(info: &OsInfo) -> (out: &str)
    ensures
        out@ == info.machine@,
{
    info.machine.as_str()
}

/// The `os` builtin module.
pub struct OsModule;

impl OsModule {
    /// What the module binds, in order.
    pub open spec fn bindings() -> Seq<(Seq<char>, HostBinding)> {
        seq![
            ("type"@, HostBinding::OsType),
            ("release"@, HostBinding::OsRelease),
            ("version"@, HostBinding::OsVersion),
            ("machine"@, HostBinding::OsMachine),
            ("arch"@, HostBinding::OsArch),
            ("platform"@, HostBinding::OsPlatform),
            ("tmpdir"@, HostBinding::OsTmpDir),
        ]
    }

    /// The table of the module's bindings.
    pub fn table() -> (table: Vec<(String, HostBinding)>)
        ensures
            entries(table@) == Self::bindings(),
    {
        let mut table: Vec<(String, HostBinding)> = Vec::new();
        assert(entries(table@) =~= Seq::empty());
        bind(&mut table, "type", HostBinding::OsType);
        bind(&mut table, "release", HostBinding::OsRelease);
        bind(&mut table, "version", HostBinding::OsVersion);
        bind(&mut table, "machine", HostBinding::OsMachine);
        bind(&mut table, "arch", HostBinding::OsArch);
        bind(&mut table, "platform", HostBinding::OsPlatform);
        bind(&mut table, "tmpdir", HostBinding::OsTmpDir);
        assert(entries(table@) =~= Self::bindings());
        table
    }

    /// The names the module exports: those of its bindings, then `default`.
    pub fn declare() -> (names: Vec<String>)
        ensures
            texts(names@) == names_of(Self::bindings()).push(default_name()),
    {
        declared_names(&Self::table())
    }

    /// The namespace of the module: every binding as a named export and as a
    /// property of `default`.
    pub fn evaluate() -> (ns: Namespace<HostBinding>)
        ensures
            ns.named_exports() == Self::bindings(),
            ns.default_export() == Self::bindings(),
    {
        export_default(&Self::table())
    }
}

} // verus!
