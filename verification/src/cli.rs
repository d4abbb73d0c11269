//! What the agent command does with its arguments once they are parsed:
//! which plan they amount to, or why they amount to none.

use vstd::prelude::*;
use vstd::string::*;
use crate::duration::{parse_duration, parsed_duration, TimeSpan};
use crate::jwt::audience_view;
use crate::text::same_text;

verus! {

/// The socket that the agent's API listens on unless another is named.
pub const DEFAULT_SOCKET_PATH: &'static str = "/tmp/spire-agent/public/api.sock";

/// The timeout of a call unless another is given.
pub const DEFAULT_TIMEOUT: &'static str = "5s";

/// The output format unless another is asked for.
pub const DEFAULT_OUTPUT: &'static str = "pretty";

/// The options that all `api` commands share, as they were typed.
pub struct ApiOptions {
    pub output: String,
    pub socket_path: String,
    pub timeout: String,
    /// The older name of `output`; it wins where both are given.
    pub format: Option<String>,
}

/// What is to be fetched, with the options of the fetch.
pub enum FetchCommand {
    X509 { silent: bool, write: Option<String> },
    Jwt { audience: Vec<String>, spiffe_id: Option<String> },
}

/// A parsed command line.
pub enum Command {
    /// `api fetch`, with or without a word for what to fetch.
    Fetch { options: ApiOptions, command: Option<FetchCommand> },
    /// `api watch`.
    Watch,
    /// `healthcheck`.
    Healthcheck { shallow: bool, socket_path: String, verbose: bool },
    /// No command at all.
    Help,
}

/// What the agent is to do.
pub enum Plan {
    FetchX509 { socket_path: String, timeout: TimeSpan, silent: bool, write: Option<String> },
    FetchJwt {
        socket_path: String,
        timeout: TimeSpan,
        audience: Vec<String>,
        spiffe_id: Option<String>,
        output: String,
    },
    Healthcheck { socket_path: String, shallow: bool, verbose: bool },
    /// Print the long help and an empty line.
    PrintHelp,
    /// Nothing at all.
    Nothing,
}

/// Why a command line amounts to no plan.
#[derive(Clone, Copy, Debug, PartialEq, Eq, Structural)]
pub enum CliError {
    /// The timeout is no duration.
    InvalidTimeout,
    /// An X.509 fetch was asked for in another format than `pretty`.
    UnsupportedOutput,
    /// A JWT fetch was asked for without an audience.
    MissingAudience,
}

impl CliError {
    /// The line with which the command ends, before it exits with status 1.
    pub fn message(&self) -> (text: String)
        ensures
            text@ == match *self {
                CliError::InvalidTimeout => "Error parsing timeout: invalid duration"@,
                CliError::UnsupportedOutput => "Error: only pretty output is supported for api fetch x509"@,
                CliError::MissingAudience => "audience must be specified"@,
            },
    {
        match self {
            CliError::InvalidTimeout => String::from_str("Error parsing timeout: invalid duration"),
            CliError::UnsupportedOutput => String::from_str(
                "Error: only pretty output is supported for api fetch x509",
            ),
            CliError::MissingAudience => String::from_str("audience must be specified"),
        }
    }
}

/// The view of a text that may be absent.
pub open spec fn optional_view(text: Option<String>) -> Option<Seq<char>> {
    match text {
        Some(t) => Some(t@),
        None => None,
    }
}

/// What a `Plan` holds.
pub enum PlanView {
    FetchX509 { socket_path: Seq<char>, nanos: nat, silent: bool, write: Option<Seq<char>> },
    FetchJwt {
        socket_path: Seq<char>,
        nanos: nat,
        audience: Seq<Seq<char>>,
        spiffe_id: Option<Seq<char>>,
        output: Seq<char>,
    },
    Healthcheck { socket_path: Seq<char>, shallow: bool, verbose: bool },
    PrintHelp,
    Nothing,
}

impl View for Plan {
    type V = PlanView;

    open spec fn view(&self) -> PlanView {
        match *self {
            Plan::FetchX509 { socket_path, timeout, silent, write } => PlanView::FetchX509 {
                socket_path: socket_path@,
                nanos: timeout.total_nanos(),
                silent,
                write: optional_view(write),
            },
            Plan::FetchJwt {
                socket_path,
                timeout,
                audience,
                spiffe_id,
                output,
            } => PlanView::FetchJwt {
                socket_path: socket_path@,
                nanos: timeout.total_nanos(),
                audience: audience_view(audience@),
                spiffe_id: optional_view(spiffe_id),
                output: output@,
            },
            Plan::Healthcheck { socket_path, shallow, verbose } => PlanView::Healthcheck {
                socket_path: socket_path@,
                shallow,
                verbose,
            },
            Plan::PrintHelp => PlanView::PrintHelp,
            Plan::Nothing => PlanView::Nothing,
        }
    }
}

/// The output format in force: `format` where it is given, else `output`.
pub open spec fn effective_output(output: Seq<char>, format: Option<Seq<char>>) -> Seq<char> {
    match format {
        Some(f) => f,
        None => output,
    }
}

/// The plan of a fetch.
///
/// The timeout is read first. Without a word for what to fetch, an X.509
/// SVID is fetched, aloud and without a file. An X.509 fetch knows only
/// the `pretty` format; a JWT fetch needs an audience.
pub open spec fn fetch_plan(
    output: Seq<char>,
    socket_path: Seq<char>,
    timeout: Seq<char>,
    format: Option<Seq<char>>,
    command: Option<FetchCommand>,
) -> Result<PlanView, CliError> {
    match parsed_duration(timeout) {
        None => Err(CliError::InvalidTimeout),
        Some(nanos) => match command {
            None => if effective_output(output, format) != "pretty"@ {
                Err(CliError::UnsupportedOutput)
            } else {
                Ok(PlanView::FetchX509 { socket_path, nanos, silent: false, write: None })
            },
            Some(FetchCommand::X509 { silent, write }) => if effective_output(output, format)
                != "pretty"@ {
                Err(CliError::UnsupportedOutput)
            } else {
                Ok(PlanView::FetchX509 { socket_path, nanos, silent, write: optional_view(write) })
            },
            Some(FetchCommand::Jwt { audience, spiffe_id }) => if audience@.len() == 0 {
                Err(CliError::MissingAudience)
            } else {
                Ok(
                    PlanView::FetchJwt {
                        socket_path,
                        nanos,
                        audience: audience_view(audience@),
                        spiffe_id: optional_view(spiffe_id),
                        output: effective_output(output, format),
                    },
                )
            },
        },
    }
}

/// The plan that a command line amounts to.
pub open spec fn plan_of(command: Command) -> Result<PlanView, CliError> {
    match command {
        Command::Fetch { options, command } => fetch_plan(
            options.output@,
            options.socket_path@,
            options.timeout@,
            optional_view(options.format),
            command,
        ),
        Command::Watch => Ok(PlanView::Nothing),
        Command::Healthcheck { shallow, socket_path, verbose } => Ok(
            PlanView::Healthcheck { socket_path: socket_path@, shallow, verbose },
        ),
        Command::Help => Ok(PlanView::PrintHelp),
    }
}

/// The view of a planning.
pub open spec fn plan_result_view(result: Result<Plan, CliError>) -> Result<PlanView, CliError> {
    match result {
        Ok(plan) => Ok(plan@),
        Err(e) => Err(e),
    }
}

/// Turns a parsed command line into a plan.
pub fn plan(command: Command) -> (planned: Result<Plan, CliError>)
    ensures
        plan_result_view(planned) == plan_of(command),
{
    match command {
        Command::Fetch { options, command } => {
            let ApiOptions { output, socket_path, timeout, format } = options;
            let timeout = match parse_duration(timeout.as_str()) {
                Ok(span) => span,
                Err(_) => {
                    return Err(CliError::InvalidTimeout);
                },
            };
            let output = match format {
                Some(format) => format,
                None => output,
            };
            match command {
                Some(FetchCommand::Jwt { audience, spiffe_id }) => {
                    if audience.len() == 0 {
                        return Err(CliError::MissingAudience);
                    }
                    Ok(Plan::FetchJwt { socket_path, timeout, audience, spiffe_id, output })
                },
                Some(FetchCommand::X509 { silent, write }) => {
                    if !same_text(output.as_str(), "pretty") {
                        return Err(CliError::UnsupportedOutput);
                    }
                    Ok(Plan::FetchX509 { socket_path, timeout, silent, write })
                },
                None => {
                    if !same_text(output.as_str(), "pretty") {
                        return Err(CliError::UnsupportedOutput);
                    }
                    Ok(Plan::FetchX509 { socket_path, timeout, silent: false, write: None })
                },
            }
        },
        Command::Watch => Ok(Plan::Nothing),
        Command::Healthcheck { shallow, socket_path, verbose } => Ok(
            Plan::Healthcheck { socket_path, shallow, verbose },
        ),
        Command::Help => Ok(Plan::PrintHelp),
    }
}

/// A fetch that names nothing to fetch is an X.509 fetch that is neither
/// silent nor written to a file.
pub proof fn lemma_fetch_defaults_to_x509(options: ApiOptions)
    ensures
        plan_of(Command::Fetch { options, command: None }) == plan_of(
            Command::Fetch {
                options,
                command: Some(FetchCommand::X509 { silent: false, write: None }),
            },
        ),
{
}

/// A JWT fetch without audience is never planned.
pub proof fn lemma_jwt_needs_audience(
    options: ApiOptions,
    audience: Vec<String>,
    spiffe_id: Option<String>,
)
    requires
        audience@.len() == 0,
    ensures
        !(plan_of(
            Command::Fetch { options, command: Some(FetchCommand::Jwt { audience, spiffe_id }) },
        ) is Ok),
{
}

} // verus!
