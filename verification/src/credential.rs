//! Which API key to use, and where it comes from.
//!
//! A key given explicitly is used as it is. Without one the key is looked up
//! with the secrets tool `mull`: this module says which command to run, and
//! reads the key out of what the command gave. Either way the key that comes
//! out is not empty: an empty one is an error, and a key given explicitly is
//! never followed by a lookup, not even an empty one.

use vstd::prelude::*;
use vstd::string::StringExecFns;
use vstd::utf8::{decode_utf8, valid_utf8};
use crate::text::{from_utf8_lossy, lossy_text, trim, trimmed};

verus! {

/// The name of the secrets tool.
pub const MULL_PROGRAM: &'static str = "mull";

/// The name under which the secrets tool keeps the API key.
pub const MULL_SECRET_NAME: &'static str = "google-ai-studio";

/// A command line: a program and its arguments.
#[derive(Clone, Debug, PartialEq, Eq)]
pub struct SecretCommand {
    pub program: String,
    pub args: Vec<String>,
}

/// What running the lookup command gave.
#[derive(Clone, Debug, PartialEq, Eq)]
pub enum LookupOutcome {
    /// The command could not be started.
    NotStarted {
        /// What the system said of the failure.
        reason: String,
    },
    /// The command ran to its end.
    Finished {
        /// Whether it ended with exit status 0.
        success: bool,
        /// What it wrote to standard output.
        stdout: Vec<u8>,
        /// What it wrote to standard error.
        stderr: Vec<u8>,
    },
}

/// Why no key was found.
#[derive(Clone, Debug, PartialEq, Eq)]
pub enum CredentialError {
    /// The lookup command could not be started; the text is the reason.
    NotStarted(String),
    /// The lookup command failed; the text is what it wrote to standard
    /// error.
    Failed(String),
    /// The key is empty: the one given explicitly, or the output of the
    /// lookup command once the white space around it is taken away.
    EmptyKey,
}

/// The next step in finding the key.
#[derive(Clone, Debug, PartialEq, Eq)]
pub enum KeyStep {
    /// The key is known.
    Resolved(String),
    /// The key has to be looked up by running the command.
    Lookup(SecretCommand),
}

/// A command line as a mathematical value.
pub struct SecretCommandView {
    pub program: Seq<char>,
    pub args: Seq<Seq<char>>,
}

/// The outcome of a lookup as a mathematical value.
pub enum LookupOutcomeView {
    NotStarted { reason: Seq<char> },
    Finished { success: bool, stdout: Seq<u8>, stderr: Seq<u8> },
}

/// A credential error as a mathematical value.
pub enum CredentialErrorView {
    NotStarted(Seq<char>),
    Failed(Seq<char>),
    EmptyKey,
}

/// A step as a mathematical value.
pub enum KeyStepView {
    Resolved(Seq<char>),
    Lookup(SecretCommandView),
}

impl View for SecretCommand {
    type V = SecretCommandView;

    open spec fn view(&self) -> SecretCommandView {
        SecretCommandView { program: self.program@, args: self.args@.map_values(|a: String| a@) }
    }
}

impl View for LookupOutcome {
    type V = LookupOutcomeView;

    open spec fn view(&self) -> LookupOutcomeView {
        match *self {
            LookupOutcome::NotStarted { reason } => LookupOutcomeView::NotStarted { reason: reason@ },
            LookupOutcome::Finished { success, stdout, stderr } => LookupOutcomeView::Finished {
                success,
                stdout: stdout@,
                stderr: stderr@,
            },
        }
    }
}

impl View for CredentialError {
    type V = CredentialErrorView;

    open spec fn view(&self) -> CredentialErrorView {
        match *self {
            CredentialError::NotStarted(reason) => CredentialErrorView::NotStarted(reason@),
            CredentialError::Failed(stderr) => CredentialErrorView::Failed(stderr@),
            CredentialError::EmptyKey => CredentialErrorView::EmptyKey,
        }
    }
}

impl View for KeyStep {
    type V = KeyStepView;

    open spec fn view(&self) -> KeyStepView {
        match *self {
            KeyStep::Resolved(key) => KeyStepView::Resolved(key@),
            KeyStep::Lookup(command) => KeyStepView::Lookup(command@),
        }
    }
}

/// The command that looks the key up: `mull secrets get google-ai-studio`.
pub open spec fn lookup_command() -> SecretCommandView {
    SecretCommandView { program: MULL_PROGRAM@, args: seq!["secrets"@, "get"@, MULL_SECRET_NAME@] }
}

/// The step that follows from the key given explicitly, if any.
///
/// A key that is not empty is the key. An empty one is an error, with no
/// lookup. Without a key the lookup command is to be run.
pub open spec fn first_step(cli_api_key: Option<Seq<char>>) -> Result<
    KeyStepView,
    CredentialErrorView,
> {
    match cli_api_key {
        Some(key) => if key.len() > 0 {
            Ok(KeyStepView::Resolved(key))
        } else {
            Err(CredentialErrorView::EmptyKey)
        },
        None => Ok(KeyStepView::Lookup(lookup_command())),
    }
}

/// The key that the output of a finished lookup holds, or why it holds
/// none.
///
/// A command that ended with status 0 gives its standard output without the
/// white space around it, and an error where nothing is left of it. One
/// that ended otherwise gives an error with what it wrote to standard error.
pub open spec fn output_result(success: bool, stdout: Seq<char>, stderr: Seq<char>) -> Result<
    Seq<char>,
    CredentialErrorView,
> {
    if !success {
        Err(CredentialErrorView::Failed(stderr))
    } else if trimmed(stdout).len() > 0 {
        Ok(trimmed(stdout))
    } else {
        Err(CredentialErrorView::EmptyKey)
    }
}

/// The key that the outcome of a lookup holds, or why it holds none.
///
/// A command that ran to its end gives what its output holds, the bytes of
/// each stream read as text. One that did not start gives an error with the
/// reason.
pub open spec fn lookup_result(outcome: LookupOutcomeView) -> Result<Seq<char>, CredentialErrorView> {
    match outcome {
        LookupOutcomeView::NotStarted { reason } => Err(CredentialErrorView::NotStarted(reason)),
        LookupOutcomeView::Finished { success, stdout, stderr } => output_result(
            success,
            lossy_text(stdout),
            lossy_text(stderr),
        ),
    }
}

/// The text that reports a credential error.
pub open spec fn message_text(error: CredentialErrorView) -> Seq<char> {
    match error {
        CredentialErrorView::NotStarted(reason) => "Failed to run mull: "@ + reason,
        CredentialErrorView::Failed(stderr) => "mull secrets failed: "@ + stderr,
        CredentialErrorView::EmptyKey => "API key is empty"@,
    }
}

/// The key that the two steps end with: what the first step settles, or
/// else what the lookup gives.
pub open spec fn resolution(cli_api_key: Option<Seq<char>>, outcome: LookupOutcomeView) -> Result<
    Seq<char>,
    CredentialErrorView,
> {
    match first_step(cli_api_key) {
        Ok(KeyStepView::Resolved(key)) => Ok(key),
        Ok(KeyStepView::Lookup(_)) => lookup_result(outcome),
        Err(error) => Err(error),
    }
}

/// A key given explicitly wins over the lookup: no lookup follows it, and
/// what comes out does not depend on what a lookup would give. Where the
/// key is not empty it is the key, as it is.
pub proof fn lemma_explicit_key_wins(
    key: Seq<char>,
    outcome: LookupOutcomeView,
    other: LookupOutcomeView,
)
    ensures
        !(first_step(Some(key)) matches Ok(KeyStepView::Lookup(_))),
        resolution(Some(key), outcome) == resolution(Some(key), other),
        key.len() > 0 ==> resolution(Some(key), outcome) == Ok::<Seq<char>, CredentialErrorView>(
            key,
        ),
        key.len() == 0 ==> resolution(Some(key), outcome) == Err::<Seq<char>, CredentialErrorView>(
            CredentialErrorView::EmptyKey,
        ),
{
}

/// The key that comes out is never empty.
pub proof fn lemma_key_not_empty(cli_api_key: Option<Seq<char>>, outcome: LookupOutcomeView)
    ensures
        resolution(cli_api_key, outcome) matches Ok(key) ==> key.len() > 0,
{
}

/// Without an explicit key, the key is owed exactly where the lookup
/// command ended with status 0 and its output, trimmed, is not empty.
pub proof fn lemma_lookup_succeeds_iff(outcome: LookupOutcomeView)
    ensures
        resolution(None, outcome) is Ok <==> (outcome matches LookupOutcomeView::Finished {
            success,
            stdout,
            ..
        } && success && trimmed(lossy_text(stdout)).len() > 0),
{
}

/// Without an explicit key, a lookup that failed ends in an error whose
/// report holds what the command wrote to standard error, as text.
pub proof fn lemma_failure_reports_stderr(stdout: Seq<u8>, stderr: Seq<u8>)
    ensures
        resolution(None, LookupOutcomeView::Finished { success: false, stdout, stderr })
            matches Err(error) && message_text(error) == "mull secrets failed: "@ + lossy_text(
            stderr,
        ),
{
}

/// Without an explicit key, a lookup that did not start ends in an error
/// whose report holds the reason.
pub proof fn lemma_not_started_reports_reason(reason: Seq<char>)
    ensures
        resolution(None, LookupOutcomeView::NotStarted { reason }) matches Err(error)
            && message_text(error) == "Failed to run mull: "@ + reason,
{
}

impl CredentialError {
    /// Returns the text that reports the error.
    pub fn message(&self) -> (text: String)
        ensures
            text@ == message_text(self@),
    {
        match self {
            CredentialError::NotStarted(reason) => {
                let mut text = "Failed to run mull: ".to_string();
                text.append(reason.as_str());
                text
            },
            CredentialError::Failed(stderr) => {
                let mut text = "mull secrets failed: ".to_string();
                text.append(stderr.as_str());
                text
            },
            CredentialError::EmptyKey => "API key is empty".to_string(),
        }
    }
}

/// Returns the command that looks the key up.
pub fn secret_command() -> (command: SecretCommand)
    ensures
        command@ == lookup_command(),
{
    let mut args: Vec<String> = Vec::new();
    args.push("secrets".to_string());
    args.push("get".to_string());
    args.push(MULL_SECRET_NAME.to_string());
    let command = SecretCommand { program: MULL_PROGRAM.to_string(), args };
    proof {
        assert(command@.args =~= lookup_command().args);
    }
    command
}

/// The text of a key that may be there.
pub open spec fn key_text(cli_api_key: Option<String>) -> Option<Seq<char>> {
    match cli_api_key {
        Some(key) => Some(key@),
        None => None,
    }
}

/// Returns the first step of finding the key. A key given explicitly is the
/// key, unchanged, where it is not empty, and an error where it is empty;
/// no lookup follows it. Without a key the key has to be looked up.
pub fn resolve_api_key(cli_api_key: Option<String>) -> (step: Result<KeyStep, CredentialError>)
    ensures
        match step {
            Ok(s) => first_step(key_text(cli_api_key)) == Ok::<KeyStepView, CredentialErrorView>(s@),
            Err(e) => first_step(key_text(cli_api_key)) == Err::<KeyStepView, CredentialErrorView>(
                e@,
            ),
        },
        step matches Ok(KeyStep::Resolved(key)) ==> key@.len() > 0,
        step matches Ok(KeyStep::Lookup(_)) <==> cli_api_key is None,
{
    match cli_api_key {
        Some(key) => if key.as_str().is_empty() {
            Err(CredentialError::EmptyKey)
        } else {
            Ok(KeyStep::Resolved(key))
        },
        None => Ok(KeyStep::Lookup(secret_command())),
    }
}

/// Returns the key that the output of a finished lookup holds, or the error
/// that reports why it holds none. The key is owed exactly where the command
/// succeeded and its output, trimmed, is not empty.
pub fn key_from_output(
    success: bool,
    stdout: &str,
    stderr: &str,
) -> (key: Result<String, CredentialError>)
    ensures
        match key {
            Ok(k) => output_result(success, stdout@, stderr@) == Ok::<Seq<char>, CredentialErrorView>(
                k@,
            ),
            Err(e) => output_result(success, stdout@, stderr@) == Err::<
                Seq<char>,
                CredentialErrorView,
            >(e@),
        },
        key is Ok <==> success && trimmed(stdout@).len() > 0,
        key matches Ok(k) ==> k@.len() > 0,
{
    if !success {
        return Err(CredentialError::Failed(stderr.to_string()));
    }
    let inner = trim(stdout);
    if inner.is_empty() {
        Err(CredentialError::EmptyKey)
    } else {
        Ok(inner.to_string())
    }
}

/// Returns the key that the lookup command gave, or the error that reports
/// why it gave none. The bytes of each stream are read as text; where they
/// are valid UTF-8, that text is the one they encode.
pub fn api_key_from_mull(outcome: &LookupOutcome) -> (key: Result<String, CredentialError>)
    ensures
        match key {
            Ok(k) => lookup_result(outcome@) == Ok::<Seq<char>, CredentialErrorView>(k@),
            Err(e) => lookup_result(outcome@) == Err::<Seq<char>, CredentialErrorView>(e@),
        },
        key matches Ok(k) ==> k@.len() > 0,
        outcome@ matches LookupOutcomeView::Finished { stdout, stderr, .. } ==> {
            &&& valid_utf8(stdout) ==> lossy_text(stdout) == decode_utf8(stdout)
            &&& valid_utf8(stderr) ==> lossy_text(stderr) == decode_utf8(stderr)
        },
{
    match outcome {
        LookupOutcome::NotStarted { reason } => Err(CredentialError::NotStarted(reason.clone())),
        LookupOutcome::Finished { success, stdout, stderr } => {
            let stdout = from_utf8_lossy(stdout.as_slice());
            let stderr = from_utf8_lossy(stderr.as_slice());
            key_from_output(*success, stdout.as_str(), stderr.as_str())
        },
    }
}

} // verus!
