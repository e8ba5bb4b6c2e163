//! The decisions of the rargo command line: which commands rargo handles
//! itself, which go to the broker, and what happens after a remote build.
use vstd::prelude::*;
use vstd::string::*;
use crate::client::CliResult;
use crate::errors::CliError;
use crate::order::{chars_of, str_eq};

verus! {

/// A binary built by the broker.
#[derive(Debug, Clone, PartialEq, Eq)]
pub struct Bin {
    pub name: String,
    pub contents: Vec<u8>,
}

/// The commands that rargo handles itself.
#[derive(Debug, Clone, Copy, PartialEq, Eq, Structural)]
pub enum Command {
    /// Initialize abrasive for this project
    Setup,
    /// Authenticate with the build server
    Auth,
    /// Print abrasive and cargo versions
    Version,
    /// Get help for abrasive and cargo
    Help,
    /// print a fortune-cookie-like-thing from the broker.
    Splash,
}

/// What one attempt at a remote build came to.
#[derive(Debug)]
pub enum BuildOutcome {
    /// The build ran, with this exit code and the binary to run, if any.
    Done(u8, Option<Bin>),
    /// The broker had no free build slot.
    SlotsBusy,
}

/// The first arguments that rargo handles itself rather than forward: the
/// names and aliases of its commands (`Command`).
pub open spec fn is_abrasive_command_name(a: Seq<char>) -> bool {
    a == "setup"@ || a == "auth"@ || a == "--version"@ || a == "-V"@ || a == "--help"@ || a
        == "-h"@ || a == "splash"@ || a == "-s"@
}

/// The cargo commands that the broker runs.
pub open spec fn is_broker_command_name(a: Seq<char>) -> bool {
    a == "build"@ || a == "run"@ || a == "test"@ || a == "bench"@ || a == "check"@ || a
        == "clippy"@ || a == "doc"@ || a == "nop"@ || a == "clean"@ || a == "install"@
}

/// The ten cargo commands that the broker runs.
pub open spec fn broker_whitelist() -> Set<Seq<char>> {
    set!["build"@, "run"@, "test"@, "bench"@, "check"@, "clippy"@, "doc"@, "nop"@, "clean"@, "install"@]
}

/// The names and aliases of rargo's own commands.
pub open spec fn abrasive_command_names() -> Set<Seq<char>> {
    set!["setup"@, "auth"@, "--version"@, "-V"@, "--help"@, "-h"@, "splash"@, "-s"@]
}

/// The broker runs exactly the whitelisted cargo commands, and rargo keeps
/// exactly its own command names and aliases.
pub proof fn lemma_command_lists(a: Seq<char>)
    ensures
        is_broker_command_name(a) <==> broker_whitelist().contains(a),
        is_abrasive_command_name(a) <==> abrasive_command_names().contains(a),
{
}

/// No cargo command that the broker runs is one of rargo's own commands: a
/// whitelisted cargo command called inside an rargo workspace goes to the
/// broker.
pub proof fn lemma_broker_commands_are_not_abrasive(a: Seq<char>)
    ensures
        is_broker_command_name(a) ==> !is_abrasive_command_name(a),
        is_broker_command_name(a) ==> spec_route(Some(a), true) == Route::Broker,
{
    reveal_strlit("build");
    reveal_strlit("run");
    reveal_strlit("test");
    reveal_strlit("bench");
    reveal_strlit("check");
    reveal_strlit("clippy");
    reveal_strlit("doc");
    reveal_strlit("nop");
    reveal_strlit("clean");
    reveal_strlit("install");
    reveal_strlit("setup");
    reveal_strlit("auth");
    reveal_strlit("--version");
    reveal_strlit("-V");
    reveal_strlit("--help");
    reveal_strlit("-h");
    reveal_strlit("splash");
    reveal_strlit("-s");
    if is_broker_command_name(a) {
        assert(a.len() > 0);
        assert(a[0] == 'b' || a[0] == 'r' || a[0] == 't' || a[0] == 'c' || a[0] == 'd' || a[0] == 'n'
            || a[0] == 'i');
        assert(!is_abrasive_command_name(a));
    }
}

/// Whether the first argument (after the program's name) is one that rargo
/// handles itself. With no argument at all, rargo handles the call itself.
pub fn is_abrasive_command(first_arg: Option<&str>) -> (r: bool)
    ensures
        r == match first_arg {
            None => true,
            Some(a) => is_abrasive_command_name(a@),
        },
        r == match first_arg {
            None => true,
            Some(a) => set!["setup"@, "auth"@, "--version"@, "-V"@, "--help"@, "-h"@, "splash"@, "-s"@].contains(a@),
        },
{
    match first_arg {
        None => true,
        Some(a) => str_eq(a, "setup") || str_eq(a, "auth") || str_eq(a, "--version") || str_eq(
            a,
            "-V",
        ) || str_eq(a, "--help") || str_eq(a, "-h") || str_eq(a, "splash") || str_eq(a, "-s"),
    }
}

/// Whether the cargo command (the first of the cargo arguments) is one that
/// the broker runs.
pub fn is_on_broker_whitelist(args: &[String]) -> (r: bool)
    ensures
        r == (args@.len() > 0 && is_broker_command_name(args@[0]@)),
        r == (args@.len() > 0 && broker_whitelist().contains(args@[0]@)),
{
    if args.len() == 0 {
        return false;
    }
    let a = args[0].as_str();
    str_eq(a, "build") || str_eq(a, "run") || str_eq(a, "test") || str_eq(a, "bench") || str_eq(
        a,
        "check",
    ) || str_eq(a, "clippy") || str_eq(a, "doc") || str_eq(a, "nop") || str_eq(a, "clean")
        || str_eq(a, "install")
}

/// The position of the first `--` among the arguments, if any.
pub open spec fn first_dash(args: Seq<String>) -> Option<int>
    decreases args.len(),
{
    if args.len() == 0 {
        None
    } else if args[0]@ == "--"@ {
        Some(0)
    } else {
        match first_dash(args.drop_first()) {
            Some(i) => Some(i + 1),
            None => None,
        }
    }
}

/// The arguments after the first `--`; none when there is no `--`.
pub open spec fn spec_post_dash(args: Seq<String>) -> Seq<String> {
    match first_dash(args) {
        Some(i) => args.skip(i + 1),
        None => Seq::empty(),
    }
}

proof fn lemma_first_dash(args: Seq<String>, i: int)
    requires
        0 <= i <= args.len(),
        forall|j: int| 0 <= j < i ==> (#[trigger] args[j])@ != "--"@,
    ensures
        i < args.len() && args[i]@ == "--"@ ==> first_dash(args) == Some(i),
        i == args.len() ==> first_dash(args) is None,
    decreases i,
{
    if i > 0 {
        let rest = args.drop_first();
        assert forall|j: int| 0 <= j < i - 1 implies (#[trigger] rest[j])@ != "--"@ by {
            assert(rest[j] == args[j + 1]);
        }
        lemma_first_dash(rest, i - 1);
    }
}

/// The arguments after the first `--` are a suffix of the arguments,
/// preceded by a `--` with no `--` before it; with no `--` there are none.
pub proof fn lemma_post_dash_shape(args: Seq<String>)
    ensures
        (forall|j: int| 0 <= j < args.len() ==> (#[trigger] args[j])@ != "--"@) ==> spec_post_dash(
            args,
        ).len() == 0,
        (exists|j: int| 0 <= j < args.len() && (#[trigger] args[j])@ == "--"@) ==> exists|k: int|
            #![trigger args[k]]
            0 <= k < args.len() && args[k]@ == "--"@ && (forall|j: int|
                0 <= j < k ==> (#[trigger] args[j])@ != "--"@) && spec_post_dash(args) == args.skip(
                k + 1,
            ),
{
    lemma_first_dash_is_first(args);
    if let Some(k) = first_dash(args) {
        assert(args[k]@ == "--"@);
    }
}

proof fn lemma_first_dash_is_first(args: Seq<String>)
    ensures
        match first_dash(args) {
            Some(k) => 0 <= k < args.len() && args[k]@ == "--"@ && forall|j: int|
                0 <= j < k ==> (#[trigger] args[j])@ != "--"@,
            None => forall|j: int| 0 <= j < args.len() ==> (#[trigger] args[j])@ != "--"@,
        },
    decreases args.len(),
{
    if args.len() > 0 && args[0]@ != "--"@ {
        let rest = args.drop_first();
        lemma_first_dash_is_first(rest);
        assert forall|j: int| 0 < j < args.len() implies args[j] == rest[j - 1] by {}
    }
}

/// A token that login accepts starts with the characters `rargo_`, has no
/// white space at either end, and is the entered text with the white space
/// around it removed; text that is only white space is `EmptyToken`.
pub proof fn lemma_login_token_shape(entered: Seq<char>)
    ensures
        spec_login(entered) matches Ok(t) ==> {
            &&& t.len() >= 6
            &&& t.take(6) == seq!['r', 'a', 'r', 'g', 'o', '_']
            &&& !is_white_space(t[0]) && !is_white_space(t.last())
            &&& exists|i: int| 0 <= i <= entered.len() - t.len() && #[trigger] entered.subrange(i, i + t.len()) == t
        },
        (forall|i: int| 0 <= i < entered.len() ==> is_white_space(#[trigger] entered[i])) ==> spec_login(entered)
            == Err::<Seq<char>, CliError>(CliError::EmptyToken),
{
    reveal_strlit("rargo_");
    lemma_trim_end_shape(entered);
    let e = trim_end(entered);
    lemma_trim_start_shape(e);
    let t = trim(entered);
    if t.len() > 0 {
        assert(t.last() == e.last());
        let i = e.len() - t.len();
        assert(entered.subrange(i, i + t.len()) =~= t);
    }
    if forall|i: int| 0 <= i < entered.len() ==> is_white_space(#[trigger] entered[i]) {
        lemma_all_white_trims_empty(entered);
    }
}

proof fn lemma_all_white_trims_empty(s: Seq<char>)
    requires
        forall|i: int| 0 <= i < s.len() ==> is_white_space(#[trigger] s[i]),
    ensures
        trim_end(s).len() == 0,
        trim(s).len() == 0,
    decreases s.len(),
{
    if s.len() > 0 {
        assert(is_white_space(s[s.len() - 1]));
        let d = s.drop_last();
        assert forall|i: int| 0 <= i < d.len() implies is_white_space(#[trigger] d[i]) by {
            assert(d[i] == s[i]);
        }
        lemma_all_white_trims_empty(d);
    }
}

/// The arguments for the binary that `cargo run` builds: those after the
/// first `--`.
pub fn extract_post_dash(cargo_args: &[String]) -> (r: Vec<String>)
    ensures
        r@ == spec_post_dash(cargo_args@),
{
    let mut i: usize = 0;
    while i < cargo_args.len()
        invariant
            i <= cargo_args@.len(),
            forall|j: int| 0 <= j < i ==> (#[trigger] cargo_args@[j])@ != "--"@,
        decreases cargo_args.len() - i,
    {
        if str_eq(cargo_args[i].as_str(), "--") {
            proof {
                lemma_first_dash(cargo_args@, i as int);
            }
            let mut out: Vec<String> = Vec::new();
            let mut k: usize = i + 1;
            while k < cargo_args.len()
                invariant
                    i < k <= cargo_args@.len(),
                    out@ == cargo_args@.subrange(i + 1, k as int),
                decreases cargo_args.len() - k,
            {
                out.push(cargo_args[k].clone());
                k = k + 1;
                assert(out@ =~= cargo_args@.subrange(i + 1, k as int));
            }
            assert(cargo_args@.skip(i + 1) =~= cargo_args@.subrange(
                i + 1,
                cargo_args@.len() as int,
            ));
            return out;
        }
        i = i + 1;
    }
    proof {
        lemma_first_dash(cargo_args@, i as int);
    }
    Vec::new()
}

/// Whether the cargo command is `run`.
pub fn is_run(cargo_args: &[String]) -> (r: bool)
    ensures
        r == (cargo_args@.len() > 0 && cargo_args@[0]@ == "run"@),
{
    cargo_args.len() > 0 && str_eq(cargo_args[0].as_str(), "run")
}

/// The command rargo runs itself; with none given, it prints its help.
pub fn dispatch_abrasive_command(command: Option<Command>) -> (c: Command)
    ensures
        c == match command {
            None => Command::Help,
            Some(c) => c,
        },
{
    match command {
        None => Command::Help,
        Some(c) => c,
    }
}

/// Where a call of rargo goes.
#[derive(Debug, Clone, Copy, PartialEq, Eq, Structural)]
pub enum Route {
    /// rargo handles the command itself.
    Abrasive,
    /// The arguments go to the local cargo unchanged.
    LocalCargo,
    /// The cargo command goes to the broker.
    Broker,
}

/// Whether a call with this first argument (`None`: no argument) is one that
/// rargo handles itself.
pub open spec fn spec_is_abrasive_command(first_arg: Option<Seq<char>>) -> bool {
    match first_arg {
        None => true,
        Some(a) => is_abrasive_command_name(a),
    }
}

/// The route of a call: rargo's own commands stay with rargo; outside an
/// rargo workspace everything else passes straight through to cargo; inside
/// one it goes to the broker.
pub open spec fn spec_route(first_arg: Option<Seq<char>>, in_workspace: bool) -> Route {
    if spec_is_abrasive_command(first_arg) {
        Route::Abrasive
    } else if !in_workspace {
        Route::LocalCargo
    } else {
        Route::Broker
    }
}

/// The first argument, as characters.
pub open spec fn arg_view(first_arg: Option<&str>) -> Option<Seq<char>> {
    match first_arg {
        None => None,
        Some(a) => Some(a@),
    }
}

/// The route of a call, from its first argument (after the program's name),
/// whether it was made inside an rargo workspace, and whether a subcommand of
/// rargo was parsed from the arguments. Outside a workspace, any command
/// that rargo does not handle itself passes straight through to cargo.
///
/// A subcommand of rargo whose name is not among the ones rargo handles
/// itself, called inside a workspace, has no route.
pub fn route_command(first_arg: Option<&str>, in_workspace: bool, has_subcommand: bool) -> (r: Route)
    requires
        !(!spec_is_abrasive_command(arg_view(first_arg)) && in_workspace && has_subcommand),
    ensures
        r == spec_route(arg_view(first_arg), in_workspace),
{
    if is_abrasive_command(first_arg) {
        Route::Abrasive
    } else if !in_workspace {
        Route::LocalCargo
    } else {
        Route::Broker
    }
}

/// What becomes of a cargo command inside an rargo workspace.
#[derive(Debug, Clone, PartialEq, Eq)]
pub enum BrokerPlan {
    /// The command is not one the broker runs: the local cargo runs it.
    Local,
    /// The broker builds; `run` says whether the built binary is then run
    /// here, with the arguments `post_dash`.
    Remote { post_dash: Vec<String>, run: bool },
}

/// Only the commands on the broker's whitelist go to the broker; the others
/// run on the local cargo.
pub fn broker_plan(cargo_args: &[String]) -> (r: BrokerPlan)
    ensures
        match r {
            BrokerPlan::Local => !(cargo_args@.len() > 0 && is_broker_command_name(cargo_args@[0]@)),
            BrokerPlan::Remote { post_dash, run } => {
                &&& cargo_args@.len() > 0 && is_broker_command_name(cargo_args@[0]@)
                &&& post_dash@ == spec_post_dash(cargo_args@)
                &&& run == (cargo_args@[0]@ == "run"@)
            },
        },
{
    if !is_on_broker_whitelist(cargo_args) {
        return BrokerPlan::Local;
    }
    let post_dash = extract_post_dash(cargo_args);
    let run = is_run(cargo_args);
    BrokerPlan::Remote { post_dash, run }
}

/// What the client does once the broker has built.
#[derive(Debug, Clone, PartialEq, Eq)]
pub enum BuildAction {
    /// Exit with this status.
    Exit(u8),
    /// Run this binary here.
    RunBin(Bin),
}

/// A failed build exits with its code; a successful `run` runs the binary
/// the broker sent; anything else exits with the build's (zero) code.
pub fn after_build(run: bool, code: u8, bin: Option<Bin>) -> (r: BuildAction)
    ensures
        r == if code != 0 {
            BuildAction::Exit(code)
        } else {
            match bin {
                Some(b) if run => BuildAction::RunBin(b),
                _ => BuildAction::Exit(code),
            }
        },
{
    if code != 0 {
        return BuildAction::Exit(code);
    }
    match (run, bin) {
        (true, Some(b)) => BuildAction::RunBin(b),
        _ => BuildAction::Exit(code),
    }
}

/// How long the client waits before it asks the broker again, in seconds.
pub const RETRY_DELAY_SECS: u64 = 2;

/// The next step of waiting for a remote build.
#[derive(Debug)]
pub enum PollStep {
    /// The build is done: its exit code and the binary to run, if any.
    Finished(u8, Option<Bin>),
    /// No slot was free: wait `RETRY_DELAY_SECS` and try again.
    Retry,
}

/// A finished attempt ends the wait; a busy broker is asked again.
pub fn poll_step(outcome: BuildOutcome) -> (r: PollStep)
    ensures
        match outcome {
            BuildOutcome::Done(code, bin) => r == PollStep::Finished(code, bin),
            BuildOutcome::SlotsBusy => r == PollStep::Retry,
        },
{
    match outcome {
        BuildOutcome::Done(code, bin) => PollStep::Finished(code, bin),
        BuildOutcome::SlotsBusy => PollStep::Retry,
    }
}

/// The name of the temporary file a built binary is written to.
pub fn temp_executable_name(name: &str) -> (r: String)
    ensures
        r@ == "abrasive-run-"@ + name@,
{
    let mut s = String::from_str("abrasive-run-");
    s.append(name);
    s
}

/// The exit status rargo passes on for a process that exited with `code`
/// (its low eight bits), or 1 when the process reported none.
pub fn exit_code_byte(code: Option<i32>) -> (r: u8)
    ensures
        r == match code {
            Some(c) => c as u8,
            None => 1u8,
        },
{
    match code {
        Some(c) => c as u8,
        None => 1,
    }
}

/// The characters that `char::is_whitespace` accepts: those with the Unicode
/// `White_Space` property.
pub open spec fn is_white_space(c: char) -> bool {
    ('\u{9}' <= c && c <= '\u{d}') || c == ' ' || c == '\u{85}' || c == '\u{a0}' || c
        == '\u{1680}' || ('\u{2000}' <= c && c <= '\u{200a}') || c == '\u{2028}' || c
        == '\u{2029}' || c == '\u{202f}' || c == '\u{205f}' || c == '\u{3000}'
}

/// Whether the character has the Unicode `White_Space` property.
pub fn char_is_white_space(c: char) -> (r: bool)
    ensures
        r == is_white_space(c),
{
    ('\u{9}' <= c && c <= '\u{d}') || c == ' ' || c == '\u{85}' || c == '\u{a0}' || c
        == '\u{1680}' || ('\u{2000}' <= c && c <= '\u{200a}') || c == '\u{2028}' || c
        == '\u{2029}' || c == '\u{202f}' || c == '\u{205f}' || c == '\u{3000}'
}

/// The characters without leading and trailing white space (as `str::trim`).
pub open spec fn trim(s: Seq<char>) -> Seq<char> {
    trim_start(trim_end(s))
}

/// The characters without leading white space.
pub open spec fn trim_start(s: Seq<char>) -> Seq<char>
    decreases s.len(),
{
    if s.len() > 0 && is_white_space(s[0]) {
        trim_start(s.drop_first())
    } else {
        s
    }
}

/// The characters without trailing white space.
pub open spec fn trim_end(s: Seq<char>) -> Seq<char>
    decreases s.len(),
{
    if s.len() > 0 && is_white_space(s.last()) {
        trim_end(s.drop_last())
    } else {
        s
    }
}

/// The prefix that every token has.
pub open spec fn token_prefix() -> Seq<char> {
    "rargo_"@
}

/// What logging in with the entered text gives: the token (the text without
/// surrounding white space), provided it is not empty and starts with
/// `rargo_`.
pub open spec fn spec_login(entered: Seq<char>) -> CliResult<Seq<char>> {
    let t = trim(entered);
    if t.len() == 0 {
        Err(CliError::EmptyToken)
    } else if !(t.len() >= token_prefix().len() && t.take(token_prefix().len() as int)
        == token_prefix()) {
        Err(CliError::InvalidToken)
    } else {
        Ok(t)
    }
}

proof fn lemma_trim_end_shape(s: Seq<char>)
    ensures
        trim_end(s).len() <= s.len(),
        trim_end(s) == s.take(trim_end(s).len() as int),
        trim_end(s).len() == 0 || !is_white_space(trim_end(s).last()),
    decreases s.len(),
{
    if s.len() > 0 && is_white_space(s.last()) {
        lemma_trim_end_shape(s.drop_last());
        assert(s.drop_last().take(trim_end(s).len() as int) =~= s.take(trim_end(s).len() as int));
    } else {
        assert(s.take(s.len() as int) =~= s);
    }
}

proof fn lemma_trim_start_shape(s: Seq<char>)
    ensures
        trim_start(s).len() <= s.len(),
        trim_start(s) == s.skip(s.len() - trim_start(s).len()),
        trim_start(s).len() == 0 || !is_white_space(trim_start(s)[0]),
    decreases s.len(),
{
    if s.len() > 0 && is_white_space(s[0]) {
        lemma_trim_start_shape(s.drop_first());
        assert(s.drop_first().skip(s.len() - 1 - trim_start(s).len()) =~= s.skip(
            s.len() - trim_start(s).len(),
        ));
    } else {
        assert(s.skip(0) =~= s);
    }
}

/// The trimmed characters neither start nor end with white space, and
/// trimming them again changes nothing.
proof fn lemma_trim_idempotent(s: Seq<char>)
    ensures
        trim(trim(s)) == trim(s),
{
    let e = trim_end(s);
    let t = trim(s);
    lemma_trim_end_shape(s);
    lemma_trim_start_shape(e);
    if t.len() > 0 {
        assert(t.last() == e.last());
    }
    assert(trim_end(t) == t);
    lemma_trim_start_shape(t);
    assert(trim_start(t) == t);
}

/// A token that login accepted is accepted again, unchanged, when it is
/// entered as it is: logging in with the saved token gives the same token.
pub proof fn lemma_login_token_stable(entered: Seq<char>)
    requires
        spec_login(entered) is Ok,
    ensures
        spec_login(spec_login(entered)->Ok_0) == spec_login(entered),
{
    lemma_trim_idempotent(entered);
}

/// The token that the text entered at login stands for: the text without
/// surrounding white space, refused when it is empty (`EmptyToken`) or
/// does not start with `rargo_` (`InvalidToken`).
pub fn login(entered: &str) -> (r: CliResult<String>)
    ensures
        match spec_login(entered@) {
            Ok(t) => r matches Ok(s) && s@ == t,
            Err(e) => r == Err::<String, CliError>(e),
        },
{
    let chars = chars_of(entered);
    let n = chars.len();
    let mut end: usize = n;
    assert(chars@.take(n as int) =~= chars@);
    while end > 0 && char_is_white_space(chars[end - 1])
        invariant
            end <= n,
            n == chars@.len(),
            chars@ == entered@,
            trim_end(chars@.take(end as int)) == trim_end(entered@),
        decreases end,
    {
        assert(chars@.take(end as int).drop_last() =~= chars@.take(end - 1));
        end = end - 1;
    }
    let mut start: usize = 0;
    assert(chars@.subrange(0, end as int) =~= chars@.take(end as int));
    while start < end && char_is_white_space(chars[start])
        invariant
            start <= end <= n,
            n == chars@.len(),
            chars@ == entered@,
            trim_start(chars@.subrange(start as int, end as int)) == trim(entered@),
        decreases end - start,
    {
        assert(chars@.subrange(start as int, end as int).drop_first() =~= chars@.subrange(
            start + 1,
            end as int,
        ));
        start = start + 1;
    }
    assert(trim(entered@) == chars@.subrange(start as int, end as int));
    if start == end {
        return Err(CliError::EmptyToken);
    }
    let token = entered.substring_char(start, end);
    proof {
        reveal_strlit("rargo_");
    }
    if end - start < 6 {
        return Err(CliError::InvalidToken);
    }
    let head = entered.substring_char(start, start + 6);
    proof {
        assert(head@ =~= trim(entered@).take(6));
    }
    if !str_eq(head, "rargo_") {
        return Err(CliError::InvalidToken);
    }
    Ok(String::from_str(token))
}

} // verus!
