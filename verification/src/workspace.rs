//! The rargo workspace: its configuration in the workspace manifest, and the
//! context of a call.
use vstd::prelude::*;
use vstd::string::*;
use crate::client::CliResult;
use crate::crep::EnvironmentVariable;
use crate::errors::CliError;
use crate::paths::{path_parent, path_strip_prefix, spec_parent, spec_strip_prefix};

verus! {

/// The actual configuration values stored in
/// [workspace.metadata.rargo]
#[allow(non_camel_case_types)]
#[derive(Debug, Clone, PartialEq, Eq)]
pub struct rargoConfig {
    pub host: String,
    pub team: String,
    pub scope: String,
}

/// The workspace manifest (`Cargo.toml` at the workspace root), as far as
/// rargo reads it.
#[derive(Debug, Clone, PartialEq, Eq)]
pub struct Manifest {
    pub workspace: Option<WorkspaceSection>,
}

/// The `[workspace]` table.
#[derive(Debug, Clone, PartialEq, Eq)]
pub struct WorkspaceSection {
    pub metadata: Option<MetadataSection>,
}

/// The `[workspace.metadata]` table; it may hold other tools' tables and no
/// rargo table.
#[derive(Debug, Clone, PartialEq, Eq)]
pub struct MetadataSection {
    pub rargo: Option<rargoConfig>,
}

/// The `[workspace.metadata.rargo]` table of a manifest, if it has one.
pub open spec fn manifest_config(m: Manifest) -> Option<rargoConfig> {
    match m.workspace {
        Some(w) => match w.metadata {
            Some(md) => md.rargo,
            None => None,
        },
        None => None,
    }
}

/// Context for an rargo call. This stores all the information the CLI
/// or the broker will need which is missing from the args passed directly
/// to the CLI. See crep::CargoCommand
#[allow(non_camel_case_types)]
#[derive(Debug)]
pub struct rargoContext {
    /// Where rargo was called from, relative to the workspace root.
    pub subdir: String,
    pub rargo_config: rargoConfig,
    pub environment_variables: Vec<EnvironmentVariable>,
}

/// The result of `relative_subdir` once the prefix has been stripped (or not).
pub open spec fn subdir_outcome(stripped: Option<Seq<char>>, called_from: Seq<char>, r: CliResult<String>) -> bool {
    match stripped {
        Some(sub) => r matches Ok(s) && s@ == sub,
        None => r matches Err(CliError::InvalidPath(p)) && p@ == called_from,
    }
}

/// Turns the result of stripping the root off `called_from` into the
/// subdirectory, or the error that names `called_from`.
pub fn subdir_from(stripped: Option<String>, called_from: &str) -> (r: CliResult<String>)
    ensures
        subdir_outcome(
            match stripped {
                Some(s) => Some(s@),
                None => None,
            },
            called_from@,
            r,
        ),
{
    match stripped {
        Some(s) => Ok(s),
        None => Err(CliError::InvalidPath(String::from_str(called_from))),
    }
}

/// Get called_from path relative to the provided root.
/// for example, "c/d" from ("a/b", "a/b/c/d")
pub fn relative_subdir(project_root: &str, called_from: &str) -> (r: CliResult<String>)
    ensures
        subdir_outcome(spec_strip_prefix(called_from@, project_root@), called_from@, r),
        called_from@ == project_root@ ==> (r matches Ok(s) && s@.len() == 0),
{
    let stripped = path_strip_prefix(called_from, project_root);
    subdir_from(stripped, called_from)
}

/// The result of `from_paths`, given the directory holding the manifest.
pub open spec fn from_paths_outcome(
    root_dir: Seq<char>,
    called_from: Seq<char>,
    manifest: CliResult<Manifest>,
    r: CliResult<rargoContext>,
) -> bool {
    match spec_strip_prefix(called_from, root_dir) {
        None => r matches Err(CliError::InvalidPath(p)) && p@ == called_from,
        Some(sub) => match manifest {
            Err(e) => r == Err::<rargoContext, CliError>(e),
            Ok(m) => match manifest_config(m) {
                None => r == Err::<rargoContext, CliError>(CliError::NoMetaData),
                Some(cfg) => r matches Ok(ctx) && ctx.subdir@ == sub && ctx.rargo_config == cfg
                    && ctx.environment_variables@.len() == 0,
            },
        },
    }
}

impl rargoContext {
    /// The context of a call from `called_from` in the workspace whose manifest
    /// is at `cargo_toml_path`. `manifest` is that manifest as read and parsed
    /// (or why it could not be: `NoToml`, `InvalidToml`). The subdirectory is
    /// checked first, then the manifest, then its `[workspace.metadata.rargo]`
    /// table.
    pub fn from_paths(cargo_toml_path: &str, called_from: &str, manifest: CliResult<Manifest>) -> (r:
        CliResult<Self>)
        requires
            spec_parent(cargo_toml_path@) is Some,
        ensures
            from_paths_outcome(spec_parent(cargo_toml_path@)->0, called_from@, manifest, r),
            called_from@ == spec_parent(cargo_toml_path@)->0 ==> (r matches Ok(ctx)
                ==> ctx.subdir@.len() == 0),
    {
        let root_dir = match path_parent(cargo_toml_path) {
            Some(p) => p,
            None => unreached(),
        };
        let subdir = relative_subdir(root_dir.as_str(), called_from)?;
        let cargo_toml = manifest?;
        let rargo_config = match cargo_toml.workspace {
            Some(w) => match w.metadata {
                Some(m) => match m.rargo {
                    Some(c) => c,
                    None => return Err(CliError::NoMetaData),
                },
                None => return Err(CliError::NoMetaData),
            },
            None => return Err(CliError::NoMetaData),
        };
        Ok(rargoContext { rargo_config, subdir, environment_variables: Vec::new() })
    }

    /// `from_paths`, or `None` when `cargo_toml_path` has no parent
    /// directory (it ends in a root, or is empty).
    pub fn try_from_paths(cargo_toml_path: &str, called_from: &str, manifest: CliResult<Manifest>) -> (r:
        Option<CliResult<Self>>)
        ensures
            match r {
                None => spec_parent(cargo_toml_path@) is None,
                Some(res) => spec_parent(cargo_toml_path@) is Some && from_paths_outcome(
                    spec_parent(cargo_toml_path@)->0,
                    called_from@,
                    manifest,
                    res,
                ),
            },
    {
        match path_parent(cargo_toml_path) {
            None => None,
            Some(_) => Some(Self::from_paths(cargo_toml_path, called_from, manifest)),
        }
    }
}

/// The bytes that `u8::is_ascii_whitespace` accepts: space, tab, line feed,
/// form feed and carriage return.
pub open spec fn is_ascii_whitespace(b: u8) -> bool {
    b == 0x20 || b == 0x09 || b == 0x0a || b == 0x0c || b == 0x0d
}

/// Whether `u8::is_ascii_whitespace` accepts the byte.
pub fn byte_is_ascii_whitespace(b: u8) -> (r: bool)
    ensures
        r == is_ascii_whitespace(b),
{
    b == 0x20 || b == 0x09 || b == 0x0a || b == 0x0c || b == 0x0d
}

/// The bytes without their trailing ASCII whitespace.
pub open spec fn trim_end_ascii_whitespace(s: Seq<u8>) -> Seq<u8>
    decreases s.len(),
{
    if s.len() > 0 && is_ascii_whitespace(s.last()) {
        trim_end_ascii_whitespace(s.drop_last())
    } else {
        s
    }
}

/// The manifest path taken from cargo's output is that output up to its
/// trailing whitespace: it is a prefix of the output, does not end in
/// whitespace, and only whitespace follows it.
pub proof fn lemma_trimmed_path_shape(s: Seq<u8>)
    ensures
        trim_end_ascii_whitespace(s).len() <= s.len(),
        trim_end_ascii_whitespace(s) == s.take(trim_end_ascii_whitespace(s).len() as int),
        trim_end_ascii_whitespace(s).len() == 0 || !is_ascii_whitespace(
            trim_end_ascii_whitespace(s).last(),
        ),
        forall|i: int|
            trim_end_ascii_whitespace(s).len() <= i < s.len() ==> is_ascii_whitespace(#[trigger] s[i]),
    decreases s.len(),
{
    if s.len() > 0 && is_ascii_whitespace(s.last()) {
        let d = s.drop_last();
        lemma_trimmed_path_shape(d);
        let n = trim_end_ascii_whitespace(s).len();
        assert(d.take(n as int) =~= s.take(n as int));
        assert forall|i: int| n <= i < s.len() implies is_ascii_whitespace(#[trigger] s[i]) by {
            if i < s.len() - 1 {
                assert(s[i] == d[i]);
            }
        }
    } else {
        assert(s.take(s.len() as int) =~= s);
    }
}

/// The workspace manifest path from the output of
/// `cargo locate-project --workspace --message-format=plain`: nothing when
/// cargo failed (it found no `Cargo.toml`), else its standard output without
/// the trailing whitespace.
pub fn workspace_toml_path(success: bool, stdout: Vec<u8>) -> (r: Option<Vec<u8>>)
    ensures
        match r {
            None => !success,
            Some(p) => success && p@ == trim_end_ascii_whitespace(stdout@),
        },
{
    if !success {
        return None;
    }
    let mut bytes = stdout;
    while bytes.len() > 0 && byte_is_ascii_whitespace(bytes[bytes.len() - 1])
        invariant
            trim_end_ascii_whitespace(bytes@) == trim_end_ascii_whitespace(stdout@),
        decreases bytes.len(),
    {
        let ghost before = bytes@;
        bytes.pop();
        assert(bytes@ =~= before.drop_last());
    }
    Some(bytes)
}

} // verus!
