//! crep: Cargo Remote Execution Protocol.
//!
//! The messages exchanged by the rargo client and the broker, and the
//! platform triples a build can target.
use vstd::prelude::*;
use vstd::string::*;
use crate::order::{chars_le, chars_of, str_le, lemma_chars_le_antisymmetric, lemma_chars_le_reflexive, lemma_chars_le_total, lemma_chars_le_transitive};

verus! {

broadcast use vstd::seq_lib::group_to_multiset_ensures;

// ANSI-colored origin tags (with reset): [LOCAL] in a teal-ish blue,
// [REMOTE] in abrasive's gold/orange.

/// The tag for lines about what happens on this machine.
pub const LOCAL: &'static str = "\x1b[38;2;100;200;220m[LOCAL] \x1b[0m";

/// The tag for lines about what happens on the broker.
pub const REMOTE: &'static str = "\x1b[38;2;232;185;49m[REMOTE]\x1b[0m";

// ---- Messages -----

/// A message of the protocol, with the metadata that every message carries.
#[derive(Debug)]
pub struct Message {
    pub msg_type: MessageType,
    pub metadata: MessageMetadata,
}

/// What every message carries besides its payload.
#[derive(Debug)]
pub struct MessageMetadata {
    /// The instance name is a unique identifier for a given instance of abrasive.
    /// An instance has: exactly one broker, N workers and optionally an
    /// observability SPA server.
    pub instance_name: String,
    /// Unique user id, scoped by instance (not universally unique).
    pub user_id: u32,
}

/// The payload of a message.
#[derive(Debug)]
pub enum MessageType {
    /// The client asks the broker to execute a cargo command.
    CommandRequest(CommandRequest),
    /// The broker returns the exit code for the cargo command and a list of
    /// CAS paths for the binaries built by this cargo invocation.
    ///
    /// Binaries are found with this flag:
    ///     --message-format=json-render-diagnostics
    CommandResponse(CommandResponse),
    /// The client asks for files from the CAS
    BulkFileRequest { files: Vec<Digest> },
    /// The broker returns files from the CAS
    BulkFileResponse { files: Vec<File> },
    CargoStdout(Vec<u8>),
    CargoStderr(Vec<u8>),
}

/// A request to run a cargo command on the broker.
#[derive(Debug)]
pub struct CommandRequest {
    pub command: CargoCommand,
    /// For speculative sync. This can be empty, the broker will ask for any
    /// missing files.
    pub files: Vec<File>,
    /// src everything digest so the broker can check if it needs to ask for
    /// any missing files.
    pub source_digest: [u8; 32],
}

/// A cargo command that ran to completion.
#[derive(Debug)]
pub struct CommandResponseSuccess {
    pub exit_code: u8,
    /// The binaries that the command built.
    pub files: Vec<File>,
}

/// The broker's answer to a command request.
#[derive(Debug)]
pub enum CommandResponse {
    Complete(CommandResponseSuccess),
    NeedFiles(Vec<File>),
}

// ---- Types -----

/// An environment variable for a cargo command.
#[derive(Debug, Clone, PartialEq, Eq)]
pub struct EnvironmentVariable {
    /// The variable name.
    pub name: String,
    /// The variable value.
    pub value: String,
}

/// The environment variables are in the protocol's order: by name,
/// lexicographically by code point (equivalently, by their UTF-8 bytes).
pub open spec fn names_sorted(s: Seq<EnvironmentVariable>) -> bool {
    forall|i: int, j: int| 0 <= i < j < s.len() ==> chars_le(#[trigger] s[i].name@, #[trigger] s[j].name@)
}

/// No two environment variables share a name.
pub open spec fn names_distinct(s: Seq<EnvironmentVariable>) -> bool {
    forall|i: int, j: int| 0 <= i < s.len() && 0 <= j < s.len() && i != j ==> #[trigger] s[i].name@
        != #[trigger] s[j].name@
}

/// Two lists of environment variables in the protocol's order that hold the
/// same variables, no name twice, are the same list: equivalent commands
/// carry their variables in one and the same order.
pub proof fn lemma_sorted_lists_agree(s: Seq<EnvironmentVariable>, t: Seq<EnvironmentVariable>)
    requires
        names_sorted(s),
        names_sorted(t),
        names_distinct(s),
        names_distinct(t),
        s.to_multiset() == t.to_multiset(),
    ensures
        s == t,
    decreases s.len(),
{
    broadcast use vstd::seq_lib::group_to_multiset_ensures;

    vstd::seq_lib::to_multiset_len(s);
    vstd::seq_lib::to_multiset_len(t);
    if s.len() == 0 {
        assert(t.to_multiset().len() == 0);
        assert(t =~= s);
    } else {
        assert(t.len() > 0);
        assert(s.to_multiset().count(s[0]) > 0);
        assert(t.contains(s[0]));
        let j = choose|j: int| 0 <= j < t.len() && t[j] == s[0];
        assert(t.to_multiset().count(t[0]) > 0);
        assert(s.contains(t[0]));
        let i = choose|i: int| 0 <= i < s.len() && s[i] == t[0];
        if i != 0 {
            assert(chars_le(s[0].name@, s[i].name@));
        } else {
            lemma_chars_le_reflexive(s[0].name@);
        }
        if j != 0 {
            assert(chars_le(t[0].name@, t[j].name@));
        } else {
            lemma_chars_le_reflexive(t[0].name@);
        }
        lemma_chars_le_antisymmetric(s[0].name@, t[0].name@);
        assert(i == 0);
        assert(t[0] == s[0]);
        let s1 = s.drop_first();
        let t1 = t.drop_first();
        assert(s.remove(0) =~= s1);
        assert(t.remove(0) =~= t1);
        vstd::seq_lib::to_multiset_remove(s, 0);
        vstd::seq_lib::to_multiset_remove(t, 0);
        assert forall|a: int, b: int| 0 <= a < b < s1.len() implies chars_le(
            #[trigger] s1[a].name@,
            #[trigger] s1[b].name@,
        ) by {
            assert(s1[a] == s[a + 1] && s1[b] == s[b + 1]);
        }
        assert forall|a: int, b: int| 0 <= a < b < t1.len() implies chars_le(
            #[trigger] t1[a].name@,
            #[trigger] t1[b].name@,
        ) by {
            assert(t1[a] == t[a + 1] && t1[b] == t[b + 1]);
        }
        assert forall|a: int, b: int| 0 <= a < s1.len() && 0 <= b < s1.len() && a != b implies #[trigger] s1[a].name@
            != #[trigger] s1[b].name@ by {
            assert(s1[a] == s[a + 1] && s1[b] == s[b + 1]);
        }
        assert forall|a: int, b: int| 0 <= a < t1.len() && 0 <= b < t1.len() && a != b implies #[trigger] t1[a].name@
            != #[trigger] t1[b].name@ by {
            assert(t1[a] == t[a + 1] && t1[b] == t[b + 1]);
        }
        lemma_sorted_lists_agree(s1, t1);
        assert(s =~= seq![s[0]] + s1);
        assert(t =~= seq![t[0]] + t1);
    }
}

/// The same list, sorted by name.
fn sort_by_name(v: Vec<EnvironmentVariable>) -> (r: Vec<EnvironmentVariable>)
    ensures
        names_sorted(r@),
        r@.to_multiset() == v@.to_multiset(),
        names_sorted(v@) ==> r@ == v@,
{
    let ghost orig = v@;
    let mut input = v;
    let mut out: Vec<EnvironmentVariable> = Vec::new();
    let ghost mut k: int = 0;
    assert(orig.take(0) =~= Seq::<EnvironmentVariable>::empty());
    assert(orig.skip(0) =~= orig);
    while input.len() > 0
        invariant
            0 <= k <= orig.len(),
            input@ == orig.skip(k),
            names_sorted(out@),
            out@.to_multiset() == orig.take(k).to_multiset(),
            names_sorted(orig) ==> out@ == orig.take(k),
        decreases input.len(),
    {
        let x = input.remove(0);
        assert(x == orig[k]);
        assert(input@ =~= orig.skip(k + 1));
        let mut p: usize = 0;
        while p < out.len() && str_le(out[p].name.as_str(), x.name.as_str())
            invariant
                p <= out@.len(),
                forall|q: int| 0 <= q < p ==> chars_le(#[trigger] out@[q].name@, x.name@),
            decreases out.len() - p,
        {
            p = p + 1;
        }
        proof {
            if names_sorted(orig) {
                assert forall|q: int| 0 <= q < out@.len() implies chars_le(#[trigger] out@[q].name@, x.name@) by {
                    assert(out@[q] == orig[q]);
                }
                if p < out@.len() {
                    assert(chars_le(out@[p as int].name@, x.name@));
                }
                assert(p == out@.len());
            }
            if p < out@.len() {
                lemma_chars_le_total(out@[p as int].name@, x.name@);
            }
        }
        let ghost before = out@;
        out.insert(p, x);
        proof {
            assert(out@ == before.insert(p as int, x));
            assert forall|i: int, j: int| 0 <= i < j < out@.len() implies chars_le(#[trigger] out@[i].name@, #[trigger] out@[j].name@) by {
                if j == p {
                    assert(out@[i] == before[i]);
                } else if i == p {
                    assert(out@[j] == before[j - 1]);
                    if j - 1 > p {
                        assert(chars_le(before[p as int].name@, before[j - 1].name@));
                    } else {
                        lemma_chars_le_reflexive(before[p as int].name@);
                    }
                    lemma_chars_le_transitive(x.name@, before[p as int].name@, before[j - 1].name@);
                } else if j < p {
                } else if i < p {
                    assert(out@[j] == before[j - 1]);
                } else {
                    assert(out@[i] == before[i - 1]);
                    assert(out@[j] == before[j - 1]);
                }
            }
            assert(orig.take(k + 1) =~= orig.take(k).push(x));
            if names_sorted(orig) {
                assert(out@ =~= orig.take(k + 1));
            }
            k = k + 1;
        }
    }
    proof {
        assert(orig.take(k) =~= orig);
    }
    out
}

/// A cargo command for the broker to run.
///
/// In order to ensure that equivalent commands always hash to the same
/// value, the environment variables are always sorted by name
/// (lexicographically by code point, equivalently by UTF-8 bytes).
#[derive(Debug)]
pub struct CargoCommand {
    /// The arguments passed to abrasive meant for cargo, split on whitespace.
    /// this does not include the 'cargo' / 'abrasive' part of the command.
    /// for example:
    /// ["build", "--lib", "-p", "crep"]
    args: Vec<String>,
    /// If the cargo flag '--target' is not explicitly set, the broker targets
    /// host_platform.
    ///
    /// This defines the target platform the binary must be built for. For remote
    /// test execute, this constrains the execution environment. The server MUST
    /// choose to execute the test on a worker satisfying the requirements of the
    /// selected target.
    host_platform: PlatformTriple,
    /// The environment variables to set when running the cargo command. The worker
    /// may provide its own default environment variables; these defaults can be
    /// overridden using this field. Additional variables can also be specified.
    environment_variables: Vec<EnvironmentVariable>,
    /// The working directory, relative to the input root, for the command to run
    /// in. It must be a directory which exists in the workspace tree. If it is left
    /// empty, then the action is run in the input root.
    working_directory: String,
}

impl CargoCommand {
    #[verifier::type_invariant]
    spec fn wf(self) -> bool {
        names_sorted(self.environment_variables@)
    }

    pub closed spec fn spec_args(self) -> Seq<String> {
        self.args@
    }

    pub closed spec fn spec_host_platform(self) -> PlatformTriple {
        self.host_platform
    }

    pub closed spec fn spec_environment_variables(self) -> Seq<EnvironmentVariable> {
        self.environment_variables@
    }

    pub closed spec fn spec_working_directory(self) -> String {
        self.working_directory
    }

    /// A command with these fields; the environment variables are put in the
    /// protocol's order (sorted by name), and nothing else changes.
    pub fn new(
        args: Vec<String>,
        host_platform: PlatformTriple,
        environment_variables: Vec<EnvironmentVariable>,
        working_directory: String,
    ) -> (cmd: Self)
        ensures
            cmd.spec_args() == args@,
            cmd.spec_host_platform() == host_platform,
            cmd.spec_working_directory() == working_directory,
            names_sorted(cmd.spec_environment_variables()),
            cmd.spec_environment_variables().to_multiset() == environment_variables@.to_multiset(),
            names_sorted(environment_variables@) ==> cmd.spec_environment_variables()
                == environment_variables@,
    {
        let sorted = sort_by_name(environment_variables);
        CargoCommand { args, host_platform, environment_variables: sorted, working_directory }
    }

    /// The arguments for cargo.
    pub fn args(&self) -> (r: &Vec<String>)
        ensures
            r@ == self.spec_args(),
    {
        &self.args
    }

    /// The platform the command builds for when no `--target` is given.
    pub fn host_platform(&self) -> (r: PlatformTriple)
        ensures
            r == self.spec_host_platform(),
    {
        self.host_platform
    }

    /// The environment variables, sorted by name.
    pub fn environment_variables(&self) -> (r: &Vec<EnvironmentVariable>)
        ensures
            r@ == self.spec_environment_variables(),
            names_sorted(r@),
    {
        proof {
            use_type_invariant(self);
        }
        &self.environment_variables
    }

    /// The working directory, relative to the input root.
    pub fn working_directory(&self) -> (r: &String)
        ensures
            *r == self.spec_working_directory(),
    {
        &self.working_directory
    }
}

/// The characters of a lowercase hexadecimal string.
pub open spec fn is_lower_hex(s: Seq<char>) -> bool {
    forall|i: int| 0 <= i < s.len() ==> ('0' <= #[trigger] s[i] && s[i] <= '9') || ('a' <= s[i] && s[i] <= 'f')
}

/// The digest of a blob.
#[derive(Debug, PartialEq, Eq)]
pub struct Digest {
    /// The hash, represented as a lowercase hexadecimal string, padded with
    /// leading zeroes up to the hash function length.
    hash: String,
    /// The size of the blob, in bytes.
    size_bytes: u64,
}

impl Digest {
    #[verifier::type_invariant]
    spec fn wf(self) -> bool {
        is_lower_hex(self.hash@)
    }

    pub closed spec fn spec_hash(self) -> String {
        self.hash
    }

    pub closed spec fn spec_size_bytes(self) -> u64 {
        self.size_bytes
    }

    /// The digest with this hash and size, or `None` when the hash is not a
    /// lowercase hexadecimal string.
    pub fn new(hash: String, size_bytes: u64) -> (r: Option<Self>)
        ensures
            r is Some <==> is_lower_hex(hash@),
            r matches Some(d) ==> d.spec_hash() == hash && d.spec_size_bytes() == size_bytes,
    {
        let chars = chars_of(hash.as_str());
        let mut i: usize = 0;
        while i < chars.len()
            invariant
                chars@ == hash@,
                i <= chars@.len(),
                forall|j: int| 0 <= j < i ==> ('0' <= #[trigger] chars@[j] && chars@[j] <= '9') || ('a'
                    <= chars@[j] && chars@[j] <= 'f'),
            decreases chars.len() - i,
        {
            let c = chars[i];
            if !(('0' <= c && c <= '9') || ('a' <= c && c <= 'f')) {
                assert(!(('0' <= hash@[i as int] && hash@[i as int] <= '9') || ('a' <= hash@[i as int]
                    && hash@[i as int] <= 'f')));
                return None;
            }
            i = i + 1;
        }
        Some(Digest { hash, size_bytes })
    }

    /// The hash, in lowercase hexadecimal.
    pub fn hash(&self) -> (r: &String)
        ensures
            *r == self.spec_hash(),
            is_lower_hex(r@),
    {
        proof {
            use_type_invariant(self);
        }
        &self.hash
    }

    /// The size of the blob, in bytes.
    pub fn size_bytes(&self) -> (r: u64)
        ensures
            r == self.spec_size_bytes(),
    {
        self.size_bytes
    }
}

/// A path that does not begin with a forward slash, as the paths of files
/// in the protocol are relative.
pub open spec fn is_relative_path(p: Seq<char>) -> bool {
    p.len() == 0 || p[0] != '/'
}

/// A file path is refused exactly when it begins with a forward slash: a
/// path that starts with any other character (a dot, a letter) is relative.
pub proof fn lemma_relative_path(p: Seq<char>)
    ensures
        is_relative_path(p) <==> !(p.len() > 0 && p[0] == '/'),
        p.len() > 0 && p[0] == '.' ==> is_relative_path(p),
{
}

/// A file of the workspace or of the CAS.
#[derive(Debug, PartialEq, Eq)]
pub struct File {
    /// The full path of the file relative to the working directory, including the
    /// filename. The path separator is a forward slash `/`. Since this is a
    /// relative path, it MUST NOT begin with a leading forward slash.
    path: String,
    /// The digest of the file's content.
    digest: Digest,
    /// The contents of the file if inlining is enabled for the message.
    /// The session-state-ful part of the protocol decides if it wants to
    /// populate this or not (speculates the client is likely to have the
    /// contents in its local cache.
    contents: Vec<u8>,
}

impl File {
    #[verifier::type_invariant]
    spec fn wf(self) -> bool {
        is_relative_path(self.path@)
    }

    pub closed spec fn spec_path(self) -> String {
        self.path
    }

    pub closed spec fn spec_digest(self) -> Digest {
        self.digest
    }

    pub closed spec fn spec_contents(self) -> Seq<u8> {
        self.contents@
    }

    /// The file with these fields, or `None` when the path begins with a
    /// forward slash.
    pub fn new(path: String, digest: Digest, contents: Vec<u8>) -> (r: Option<Self>)
        ensures
            r is Some <==> is_relative_path(path@),
            r is Some <==> (path@.len() == 0 || path@[0] != '/'),
            r matches Some(f) ==> f.spec_path() == path && f.spec_digest() == digest
                && f.spec_contents() == contents@,
    {
        let n = path.as_str().unicode_len();
        if n > 0 && path.as_str().get_char(0) == '/' {
            return None;
        }
        Some(File { path, digest, contents })
    }

    /// The path, relative to the working directory.
    pub fn path(&self) -> (r: &String)
        ensures
            *r == self.spec_path(),
            is_relative_path(r@),
    {
        proof {
            use_type_invariant(self);
        }
        &self.path
    }

    /// The digest of the file's content.
    pub fn digest(&self) -> (r: &Digest)
        ensures
            *r == self.spec_digest(),
    {
        &self.digest
    }

    /// The contents, when they are inlined.
    pub fn contents(&self) -> (r: &Vec<u8>)
        ensures
            r@ == self.spec_contents(),
    {
        &self.contents
    }
}

/// Why a message could not be decoded.
#[derive(Debug, Clone, Copy, PartialEq, Eq, Structural)]
pub enum DecodeError {
    Deserialize,
}

impl DecodeError {
    /// The text that describes the error.
    pub fn message(&self) -> (s: String)
        ensures
            s@ == "deserialize fail"@,
    {
        String::from_str("deserialize fail")
    }
}

/// Architecture
#[derive(Debug, Clone, Copy, PartialEq, Eq, Structural)]
pub enum Arch {
    X86_64,
    Aarch64,
}

/// Operating System
#[derive(Debug, Clone, Copy, PartialEq, Eq, Structural)]
pub enum Os {
    Windows,
    Linux,
    Mac,
}

/// Application Binary Interface
#[derive(Debug, Clone, Copy, PartialEq, Eq, Structural)]
pub enum Abi {
    Gnu,
    Musl,
    Msvc,
}

/// Platform triple, used to specify the cross compilation target.
#[derive(Debug, Clone, Copy, PartialEq, Eq, Structural)]
pub struct PlatformTriple {
    pub arch: Arch,
    pub os: Os,
    pub abi: Abi,
}

/// The cargo target name of a platform triple, or `None` for the
/// combinations that have no cargo target.
pub open spec fn spec_target_string(t: PlatformTriple) -> Option<Seq<char>> {
    match (t.arch, t.os, t.abi) {
        (Arch::X86_64, Os::Linux, Abi::Gnu) => Some("x86_64-unknown-linux-gnu"@),
        (Arch::X86_64, Os::Linux, Abi::Musl) => Some("x86_64-unknown-linux-musl"@),
        (Arch::Aarch64, Os::Linux, Abi::Gnu) => Some("aarch64-unknown-linux-gnu"@),
        (Arch::Aarch64, Os::Linux, Abi::Musl) => Some("aarch64-unknown-linux-musl"@),
        (Arch::X86_64, Os::Windows, Abi::Msvc) => Some("x86_64-pc-windows-msvc"@),
        (Arch::X86_64, Os::Windows, Abi::Gnu) => Some("x86_64-pc-windows-gnu"@),
        (Arch::Aarch64, Os::Windows, Abi::Msvc) => Some("aarch64-pc-windows-msvc"@),
        (Arch::X86_64, Os::Mac, _) => Some("x86_64-apple-darwin"@),
        (Arch::Aarch64, Os::Mac, _) => Some("aarch64-apple-darwin"@),
        _ => None,
    }
}

impl PlatformTriple {
    /// Whether cargo has a target for this triple.
    pub open spec fn is_supported(self) -> bool {
        spec_target_string(self) is Some
    }

    /// The target name that cargo's `--target` flag takes for this triple.
    pub fn as_cargo_target_string(&self) -> (s: String)
        requires
            self.is_supported(),
        ensures
            s@ == spec_target_string(*self)->0,
    {
        let lit = match (self.arch, self.os, self.abi) {
            (Arch::X86_64, Os::Linux, Abi::Gnu) => "x86_64-unknown-linux-gnu",
            (Arch::X86_64, Os::Linux, Abi::Musl) => "x86_64-unknown-linux-musl",
            (Arch::Aarch64, Os::Linux, Abi::Gnu) => "aarch64-unknown-linux-gnu",
            (Arch::Aarch64, Os::Linux, Abi::Musl) => "aarch64-unknown-linux-musl",
            (Arch::X86_64, Os::Windows, Abi::Msvc) => "x86_64-pc-windows-msvc",
            (Arch::X86_64, Os::Windows, Abi::Gnu) => "x86_64-pc-windows-gnu",
            (Arch::Aarch64, Os::Windows, Abi::Msvc) => "aarch64-pc-windows-msvc",
            (Arch::X86_64, Os::Mac, _) => "x86_64-apple-darwin",
            (Arch::Aarch64, Os::Mac, _) => "aarch64-apple-darwin",
            _ => unreached(),
        };
        String::from_str(lit)
    }
}

} // verus!
