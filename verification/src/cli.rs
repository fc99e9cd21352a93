//! Command-line parsing of the `secure-tunnel-cli` tool: which command runs,
//! and the options of its `smoke` and `conformance` commands.

use vstd::prelude::*;

use crate::harness::{
    ConformanceScenario, SmokeScenario, conformance_scenario_named, smoke_scenario_named,
};
use crate::constants::PROTOCOL_ID_V1;
use crate::descriptor::ServiceDescriptor;
use crate::text::{concat_str, str_eq};

verus! {

/// A command-line failure.
#[derive(Debug, Clone, Copy, PartialEq, Eq)]
pub enum CliError {
    /// The command line is malformed.
    Usage(&'static str),
    /// The command line names a scenario the harness does not know.
    UnknownScenario(&'static str),
}

/// How a command-line error reads.
pub open spec fn cli_error_message(e: CliError) -> Seq<char> {
    match e {
        CliError::Usage(m) => m@,
        CliError::UnknownScenario(m) => "harness failed: "@ + m@,
    }
}

/// The usage lines the tool prints, one per line.
pub open spec fn usage_spec() -> Seq<char> {
    "usage:\n"@ + "  secure-tunnel-cli\n"@
        + "  secure-tunnel-cli smoke [--scenario all|quic-success|wss-fallback] [--format json]\n"@
        + "  secure-tunnel-cli conformance [--scenario all|<name>] [--format json]"@
}

/// The usage lines the tool prints for `-h` or `--help`.
pub fn usage_text() -> (s: String)
    ensures
        s@ == usage_spec(),
{
    let a = concat_str("usage:\n", "  secure-tunnel-cli\n");
    let b = concat_str(
        a.as_str(),
        "  secure-tunnel-cli smoke [--scenario all|quic-success|wss-fallback] [--format json]\n",
    );
    concat_str(b.as_str(), "  secure-tunnel-cli conformance [--scenario all|<name>] [--format json]")
}

/// The metadata lines the tool prints when run without arguments: its
/// name, the protocol identifier, the preferred carrier and the service of
/// `descriptor`.
pub open spec fn metadata_spec(service_id: Seq<char>, environment_id: Seq<char>) -> Seq<char> {
    "secure-tunnel-cli\nprotocol_id: "@ + PROTOCOL_ID_V1@ + "\npreferred_carrier: quic\nservice: "@
        + service_id + "."@ + environment_id
}

/// The metadata lines for `descriptor`.
pub fn metadata_text(descriptor: &ServiceDescriptor) -> (s: String)
    ensures
        s@ == metadata_spec(descriptor.service_id@, descriptor.environment_id@),
{
    let a = concat_str("secure-tunnel-cli\nprotocol_id: ", PROTOCOL_ID_V1);
    let b = concat_str(a.as_str(), "\npreferred_carrier: quic\nservice: ");
    let c = concat_str(b.as_str(), descriptor.service_id.as_str());
    let d = concat_str(c.as_str(), ".");
    concat_str(d.as_str(), descriptor.environment_id.as_str())
}

impl CliError {
    /// How this error reads.
    pub fn message(&self) -> (s: String)
        ensures
            s@ == cli_error_message(*self),
    {
        match self {
            CliError::Usage(m) => (*m).to_owned(),
            CliError::UnknownScenario(m) => concat_str("harness failed: ", m),
        }
    }

    /// A usage error with `message`.
    pub fn usage(message: &'static str) -> (e: Self)
        ensures
            e == CliError::Usage(message),
    {
        CliError::Usage(message)
    }

    /// The process exit code for the error: 2 for usage errors, 1 otherwise.
    pub fn exit_code(&self) -> (code: i32)
        ensures
            code == if *self is Usage {
                2i32
            } else {
                1i32
            },
    {
        match self {
            CliError::Usage(_) => 2,
            CliError::UnknownScenario(_) => 1,
        }
    }
}

/// What the command line asks for.
#[derive(Debug, Clone, Copy, PartialEq, Eq)]
pub enum CliCommand {
    /// No arguments: print the tool's metadata.
    Metadata,
    /// `smoke`, with the arguments after it.
    Smoke,
    /// `conformance`, with the arguments after it.
    Conformance,
    /// `-h` or `--help`: print usage.
    Help,
}

/// The command a command line names, from its first argument.
pub open spec fn command_spec(args: Seq<Seq<char>>) -> Result<CliCommand, CliError> {
    if args.len() == 0 {
        Ok(CliCommand::Metadata)
    } else if args[0] == "smoke"@ {
        Ok(CliCommand::Smoke)
    } else if args[0] == "conformance"@ {
        Ok(CliCommand::Conformance)
    } else if args[0] == "-h"@ || args[0] == "--help"@ {
        Ok(CliCommand::Help)
    } else {
        Err(CliError::Usage("unknown command"))
    }
}

/// Reads the command a command line names; the command's own options follow
/// it.
pub fn cli_command(args: &[String]) -> (r: Result<CliCommand, CliError>)
    ensures
        r == command_spec(args.deep_view()),
{
    if args.len() == 0 {
        return Ok(CliCommand::Metadata);
    }
    let first = args[0].as_str();
    assert(args.deep_view()[0] == args@[0]@);
    if str_eq(first, "smoke") {
        Ok(CliCommand::Smoke)
    } else if str_eq(first, "conformance") {
        Ok(CliCommand::Conformance)
    } else if str_eq(first, "-h") || str_eq(first, "--help") {
        Ok(CliCommand::Help)
    } else {
        Err(CliError::Usage("unknown command"))
    }
}

/// How scanning command options ends.
pub enum OptionScan {
    /// Help was asked for.
    Help,
    /// The options are malformed.
    Malformed(&'static str),
    /// The options name this scenario and format.
    Done(Seq<char>, Seq<char>),
}

/// Scans options from position `i`: `-h`/`--help`, `--scenario VALUE` and
/// `--format VALUE`, later values replacing earlier ones; anything else is
/// the `unknown` error.
pub open spec fn scan_options(
    args: Seq<Seq<char>>,
    i: int,
    scenario: Seq<char>,
    format: Seq<char>,
    unknown: &'static str,
) -> OptionScan
    decreases args.len() - i,
{
    if i < 0 || i >= args.len() {
        OptionScan::Done(scenario, format)
    } else if args[i] == "-h"@ || args[i] == "--help"@ {
        OptionScan::Help
    } else if args[i] == "--scenario"@ {
        if i + 1 >= args.len() {
            OptionScan::Malformed("--scenario requires a value")
        } else {
            scan_options(args, i + 2, args[i + 1], format, unknown)
        }
    } else if args[i] == "--format"@ {
        if i + 1 >= args.len() {
            OptionScan::Malformed("--format requires a value")
        } else {
            scan_options(args, i + 2, scenario, args[i + 1], unknown)
        }
    } else {
        OptionScan::Malformed(unknown)
    }
}

/// Options of the `smoke` command: the scenarios to run.
#[derive(Debug, Clone, PartialEq, Eq)]
pub struct SmokeOptions {
    /// Scenarios to run, in order.
    pub scenarios: Vec<SmokeScenario>,
}

/// Options of the `conformance` command: one scenario, or all of them.
#[derive(Debug, Clone, Copy, PartialEq, Eq)]
pub struct ConformanceOptions {
    /// The scenario to run, or `None` for the whole suite.
    pub scenario: Option<ConformanceScenario>,
}

/// Scans command options; `Ok(None)` asks for help.
fn scan_command_options(args: &[String], unknown: &'static str) -> (r: Result<
    Option<(String, String)>,
    CliError,
>)
    ensures
        match scan_options(args.deep_view(), 0, "all"@, "json"@, unknown) {
            OptionScan::Help => r == Ok::<Option<(String, String)>, CliError>(None),
            OptionScan::Malformed(m) => r == Err::<Option<(String, String)>, CliError>(
                CliError::Usage(m),
            ),
            OptionScan::Done(s, f) => r matches Ok(Some(pair)) && pair.0@ == s && pair.1@ == f,
        },
{
    let ghost views = args.deep_view();
    let mut scenario = "all".to_owned();
    let mut format = "json".to_owned();
    let mut index: usize = 0;
    while index < args.len()
        invariant
            index <= args@.len(),
            views == args.deep_view(),
            views.len() == args@.len(),
            scan_options(views, 0, "all"@, "json"@, unknown) == scan_options(
                views,
                index as int,
                scenario@,
                format@,
                unknown,
            ),
        decreases args@.len() - index,
    {
        let arg = args[index].as_str();
        assert(views[index as int] == arg@);
        if str_eq(arg, "-h") || str_eq(arg, "--help") {
            return Ok(None);
        } else if str_eq(arg, "--scenario") {
            if index + 1 >= args.len() {
                return Err(CliError::Usage("--scenario requires a value"));
            }
            assert(views[index + 1] == args@[index + 1]@);
            scenario = args[index + 1].clone();
            index = index + 2;
        } else if str_eq(arg, "--format") {
            if index + 1 >= args.len() {
                return Err(CliError::Usage("--format requires a value"));
            }
            assert(views[index + 1] == args@[index + 1]@);
            format = args[index + 1].clone();
            index = index + 2;
        } else {
            return Err(CliError::Usage(unknown));
        }
    }
    Ok(Some((scenario, format)))
}

/// What parsing `smoke` options gives: `None` for help, else the scenarios.
pub open spec fn smoke_options_spec(args: Seq<Seq<char>>) -> Result<
    Option<Seq<SmokeScenario>>,
    CliError,
> {
    match scan_options(args, 0, "all"@, "json"@, "unknown smoke option") {
        OptionScan::Help => Ok(None),
        OptionScan::Malformed(m) => Err(CliError::Usage(m)),
        OptionScan::Done(scenario, format) => if format != "json"@ {
            Err(CliError::Usage("only --format json is supported"))
        } else if scenario == "all"@ {
            Ok(Some(seq![SmokeScenario::QuicSuccess, SmokeScenario::WssFallback]))
        } else {
            match smoke_scenario_named(scenario) {
                Some(s) => Ok(Some(seq![s])),
                None => Err(CliError::UnknownScenario("unknown smoke scenario")),
            }
        },
    }
}

/// What parsing `conformance` options gives: `None` for help, else the one
/// scenario named, or no scenario for `all`.
pub open spec fn conformance_options_spec(args: Seq<Seq<char>>) -> Result<
    Option<Option<ConformanceScenario>>,
    CliError,
> {
    match scan_options(args, 0, "all"@, "json"@, "unknown conformance option") {
        OptionScan::Help => Ok(None),
        OptionScan::Malformed(m) => Err(CliError::Usage(m)),
        OptionScan::Done(scenario, format) => if format != "json"@ {
            Err(CliError::Usage("only --format json is supported"))
        } else if scenario == "all"@ {
            Ok(Some(None))
        } else {
            match conformance_scenario_named(scenario) {
                Some(s) => Ok(Some(Some(s))),
                None => Err(CliError::UnknownScenario("unknown conformance scenario")),
            }
        },
    }
}

impl SmokeOptions {
    /// Parses `smoke` options. `Ok(None)` means help was asked for.
    ///
    /// Fails on an option it does not know, on an option without its value,
    /// on a format other than `json`, and on an unknown scenario.
    pub fn parse(args: &[String]) -> (r: Result<Option<Self>, CliError>)
        ensures
            match smoke_options_spec(args.deep_view()) {
                Ok(None) => r == Ok::<Option<Self>, CliError>(None),
                Ok(Some(s)) => r matches Ok(Some(o)) && o.scenarios@ == s,
                Err(e) => r == Err::<Option<Self>, CliError>(e),
            },
    {
        let (scenario, format) = match scan_command_options(args, "unknown smoke option") {
            Ok(Some(pair)) => pair,
            Ok(None) => {
                return Ok(None);
            },
            Err(e) => {
                return Err(e);
            },
        };
        if !str_eq(format.as_str(), "json") {
            return Err(CliError::Usage("only --format json is supported"));
        }
        let mut scenarios: Vec<SmokeScenario> = Vec::new();
        if str_eq(scenario.as_str(), "all") {
            scenarios.push(SmokeScenario::QuicSuccess);
            scenarios.push(SmokeScenario::WssFallback);
            assert(scenarios@ =~= seq![SmokeScenario::QuicSuccess, SmokeScenario::WssFallback]);
            return Ok(Some(SmokeOptions { scenarios }));
        }
        match SmokeScenario::from_name(scenario.as_str()) {
            Some(s) => {
                scenarios.push(s);
                assert(scenarios@ =~= seq![s]);
                Ok(Some(SmokeOptions { scenarios }))
            },
            None => Err(CliError::UnknownScenario("unknown smoke scenario")),
        }
    }
}

impl ConformanceOptions {
    /// Parses `conformance` options. `Ok(None)` means help was asked for.
    ///
    /// Fails on an option it does not know, on an option without its value,
    /// on a format other than `json`, and on an unknown scenario.
    pub fn parse(args: &[String]) -> (r: Result<Option<Self>, CliError>)
        ensures
            match conformance_options_spec(args.deep_view()) {
                Ok(None) => r == Ok::<Option<Self>, CliError>(None),
                Ok(Some(s)) => r == Ok::<Option<Self>, CliError>(
                    Some(ConformanceOptions { scenario: s }),
                ),
                Err(e) => r == Err::<Option<Self>, CliError>(e),
            },
    {
        let (scenario, format) = match scan_command_options(args, "unknown conformance option") {
            Ok(Some(pair)) => pair,
            Ok(None) => {
                return Ok(None);
            },
            Err(e) => {
                return Err(e);
            },
        };
        if !str_eq(format.as_str(), "json") {
            return Err(CliError::Usage("only --format json is supported"));
        }
        if str_eq(scenario.as_str(), "all") {
            return Ok(Some(ConformanceOptions { scenario: None }));
        }
        match ConformanceScenario::from_name(scenario.as_str()) {
            Some(s) => Ok(Some(ConformanceOptions { scenario: Some(s) })),
            None => Err(CliError::UnknownScenario("unknown conformance scenario")),
        }
    }
}

/// Running `smoke` with no options, or with `--scenario all`, runs every
/// smoke scenario, none of them twice, the `QUIC` success first.
pub proof fn lemma_smoke_all_runs_every_scenario(args: Seq<Seq<char>>)
    requires
        args == Seq::<Seq<char>>::empty() || args == seq!["--scenario"@, "all"@],
    ensures
        smoke_options_spec(args) matches Ok(Some(ss)) && (forall|s: SmokeScenario|
            #[trigger] ss.contains(s)) && (forall|i: int, j: int|
            0 <= i < j < ss.len() ==> ss[i] != ss[j]) && ss[0] == SmokeScenario::QuicSuccess,
{
    reveal_strlit("--scenario");
    reveal_strlit("-h");
    reveal_strlit("--help");
    reveal_strlit("all");
    reveal_strlit("json");
    if args.len() > 0 {
        assert(args.len() == 2 && args[0] == "--scenario"@ && args[1] == "all"@);
        assert("--scenario"@.len() == 10 && "-h"@.len() == 2 && "--help"@.len() == 6);
        assert(args[0] != "-h"@);
        assert(args[0] != "--help"@);
        assert(scan_options(args, 2, args[1], "json"@, "unknown smoke option") == OptionScan::Done(
            "all"@,
            "json"@,
        ));
    }
    let ss = seq![SmokeScenario::QuicSuccess, SmokeScenario::WssFallback];
    assert(smoke_options_spec(args) == Ok::<Option<Seq<SmokeScenario>>, CliError>(Some(ss)));
    assert forall|s: SmokeScenario| #[trigger] ss.contains(s) by {
        match s {
            SmokeScenario::QuicSuccess => assert(ss[0] == s),
            SmokeScenario::WssFallback => assert(ss[1] == s),
        }
    }
}

/// A smoke selection never names a scenario twice and is never empty; a
/// selection of one scenario is the scenario its name spells.
pub proof fn lemma_smoke_selection_shape(args: Seq<Seq<char>>)
    ensures
        smoke_options_spec(args) matches Ok(Some(ss)) ==> ss.len() >= 1 && (forall|i: int, j: int|
            0 <= i < j < ss.len() ==> ss[i] != ss[j]),
        match smoke_options_spec(args) {
            Ok(Some(ss)) => ss.len() == 1 ==> (scan_options(
                args,
                0,
                "all"@,
                "json"@,
                "unknown smoke option",
            ) matches OptionScan::Done(name, _) && smoke_scenario_named(name) == Some(ss[0])),
            _ => true,
        },
{
}

} // verus!
