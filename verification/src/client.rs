//! What the client sends the broker.
use vstd::prelude::*;
use crate::crep::{CargoCommand, EnvironmentVariable, PlatformTriple, names_sorted};
use crate::errors::CliError;
use crate::paths::spec_strip_prefix;
use crate::workspace::{Manifest, from_paths_outcome, rargoContext};

verus! {

broadcast use vstd::seq_lib::group_to_multiset_ensures;

/// The result of a client operation.
pub type CliResult<T> = Result<T, CliError>;

/// A copy of the environment variables.
fn copy_environment_variables(v: &Vec<EnvironmentVariable>) -> (r: Vec<EnvironmentVariable>)
    ensures
        r@ == v@,
{
    let mut r: Vec<EnvironmentVariable> = Vec::new();
    let mut i: usize = 0;
    while i < v.len()
        invariant
            i <= v@.len(),
            r@ == v@.take(i as int),
        decreases v.len() - i,
    {
        let e = &v[i];
        r.push(EnvironmentVariable { name: e.name.clone(), value: e.value.clone() });
        i = i + 1;
        assert(r@ =~= v@.take(i as int));
    }
    assert(v@.take(i as int) =~= v@);
    r
}

/// `cmd` is the cargo command for a call with `cargo_args` in `ctx`, on
/// `host_platform`.
pub open spec fn is_command_for(
    cmd: CargoCommand,
    ctx: rargoContext,
    cargo_args: Seq<String>,
    host_platform: PlatformTriple,
) -> bool {
    &&& cmd.spec_args() == cargo_args
    &&& cmd.spec_host_platform() == host_platform
    &&& cmd.spec_working_directory()@ == ctx.subdir@
    &&& names_sorted(cmd.spec_environment_variables())
    &&& cmd.spec_environment_variables().to_multiset() == ctx.environment_variables@.to_multiset()
    &&& names_sorted(ctx.environment_variables@) ==> cmd.spec_environment_variables()
        == ctx.environment_variables@
}

/// A command requested in a context made from the workspace paths runs where
/// rargo was called from, relative to the workspace root, and carries no
/// environment variables (the context has none).
pub proof fn lemma_request_runs_where_called(
    root_dir: Seq<char>,
    called_from: Seq<char>,
    manifest: CliResult<Manifest>,
    ctx: CliResult<rargoContext>,
    cargo_args: Seq<String>,
    host_platform: PlatformTriple,
    cmd: CargoCommand,
)
    requires
        from_paths_outcome(root_dir, called_from, manifest, ctx),
        ctx is Ok,
        is_command_for(cmd, ctx->Ok_0, cargo_args, host_platform),
    ensures
        spec_strip_prefix(called_from, root_dir) == Some(cmd.spec_working_directory()@),
        cmd.spec_environment_variables().len() == 0,
        cmd.spec_args() == cargo_args,
{
    vstd::seq_lib::to_multiset_len(cmd.spec_environment_variables());
    vstd::seq_lib::to_multiset_len(ctx->Ok_0.environment_variables@);
}

/// The cargo command that a command request carries for a call of rargo
/// with `cargo_args` in the context `ctx`: the arguments as given, the host
/// platform, the context's environment variables in the protocol's order,
/// and the context's subdirectory as the working directory.
pub fn command_request(ctx: &rargoContext, cargo_args: Vec<String>, host_platform: PlatformTriple) -> (cmd:
    CargoCommand)
    ensures
        is_command_for(cmd, *ctx, cargo_args@, host_platform),
{
    let env = copy_environment_variables(&ctx.environment_variables);
    CargoCommand::new(cargo_args, host_platform, env, ctx.subdir.clone())
}

} // verus!
