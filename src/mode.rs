use vstd::prelude::*;

use crate::dispatch::InvocationRequest;
use crate::resolver::opt_view;

verus! {

/// Path recorded for a script read from standard input.
pub const STDIN_SCRIPT_PATH: &'static str = "-";

/// Directory, below the working directory, that receives the examples when
/// no target is named.
pub const DEFAULT_EXAMPLES_SUBDIR: &'static str = "/examples/";

/// The command line, once parsed.
pub struct CliArgs {
    pub debug: bool,
    pub script_path: Option<String>,
    pub script_args: Vec<String>,
    pub bin_path: Option<String>,
    pub examples_requested: bool,
    pub examples_path: Option<String>,
}

/// What has to be read before a plan can be chosen.
#[derive(PartialEq, Eq, Debug)]
pub enum InputSource {
    /// The whole contents of this script file.
    ScriptFile(String),
    /// All of standard input, up to its end.
    StandardInput,
    /// Nothing.
    NoInput,
}

/// What this run of the launcher does.
pub enum ExecutionPlan {
    /// Dispatch the script read from the named file.
    RunScript(InvocationRequest),
    /// Run the script read from standard input on the embedded runtime.
    RunFromStandardInput(InvocationRequest),
    /// Start the interactive loop, with diagnostics when the flag is set.
    StartRepl(bool),
    /// Write the bundled examples into this directory, or into the default
    /// one when none is named.
    GenerateExamples(Option<String>),
}

/// Which input the command line calls for: a script path comes first, then
/// the examples request; otherwise standard input is drained, and the
/// interactive loop starts only when it turns out empty.
pub fn input_source(cli: &CliArgs) -> (r: InputSource)
    ensures
        cli.script_path is Some ==> r == InputSource::ScriptFile(cli.script_path->0),
        cli.script_path is None && cli.examples_requested ==> r == InputSource::NoInput,
        cli.script_path is None && !cli.examples_requested ==> r == InputSource::StandardInput,
{
    match &cli.script_path {
        Some(p) => InputSource::ScriptFile(p.clone()),
        None => if cli.examples_requested {
            InputSource::NoInput
        } else {
            InputSource::StandardInput
        },
    }
}

/// Chooses the plan from the command line and the text read from the input
/// that `input_source` named (empty when it named none).
pub fn select_mode(cli: CliArgs, input: String) -> (r: ExecutionPlan)
    ensures
        cli.script_path is Some ==> r is RunScript
            && r->RunScript_0.script_source@ == input@
            && r->RunScript_0.script_path@ == cli.script_path->0@
            && r->RunScript_0.extra_args.deep_view() == cli.script_args.deep_view()
            && r->RunScript_0.debug == cli.debug,
        cli.script_path is None && cli.examples_requested ==> r is GenerateExamples
            && opt_view(r->GenerateExamples_0) == opt_view(cli.examples_path),
        cli.script_path is None && !cli.examples_requested && input@.len() > 0 ==> r is RunFromStandardInput
            && r->RunFromStandardInput_0.script_source@ == input@
            && r->RunFromStandardInput_0.script_path@ == STDIN_SCRIPT_PATH@
            && r->RunFromStandardInput_0.extra_args.deep_view() == seq![Seq::<char>::empty()]
            && !r->RunFromStandardInput_0.debug,
        cli.script_path is None && !cli.examples_requested && input@.len() == 0 ==> r == ExecutionPlan::StartRepl(cli.debug),
{
    let CliArgs { debug, script_path, script_args, bin_path: _, examples_requested, examples_path } = cli;
    match script_path {
        Some(path) => ExecutionPlan::RunScript(
            InvocationRequest { script_source: input, script_path: path, extra_args: script_args, debug },
        ),
        None => if examples_requested {
            ExecutionPlan::GenerateExamples(examples_path)
        } else if input.as_str().is_empty() {
            ExecutionPlan::StartRepl(debug)
        } else {
            let mut extra_args: Vec<String> = Vec::new();
            extra_args.push(String::new());
            proof {
                assert(extra_args.deep_view() =~= seq![Seq::<char>::empty()]);
            }
            ExecutionPlan::RunFromStandardInput(
                InvocationRequest {
                    script_source: input,
                    script_path: String::from_str(STDIN_SCRIPT_PATH),
                    extra_args,
                    debug: false,
                },
            )
        },
    }
}

/// The directory that receives the examples when none is named: the
/// `examples` directory below `cwd`.
pub fn default_examples_dir(cwd: &str) -> (r: String)
    ensures
        r@ == cwd@ + DEFAULT_EXAMPLES_SUBDIR@,
{
    let mut r = String::from_str(cwd);
    r.append(DEFAULT_EXAMPLES_SUBDIR);
    r
}

} // verus!
