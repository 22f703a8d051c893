//! The CLI's own configuration (the SEC EDGAR contact email), where it is
//! kept, and the rule that decides which email a command uses.
use vstd::prelude::*;

use crate::text::{string_of, trim, trim_seq};
use std::path::PathBuf;

verus! {

#[verifier::external_type_specification]
#[verifier::external_body]
pub struct ExPathBuf(PathBuf);

/// Calls `dirs::config_dir`. The directory depends on the platform and the
/// environment of the process, so nothing is stated of it.
#[verifier::external_body]
pub(crate) fn config_dir() -> (dir: Option<PathBuf>) {
    dirs::config_dir()
}

/// Errors of the CLI that its verified parts produce.
#[derive(Debug)]
pub enum CliError {
    /// An argument that the command cannot use.
    InvalidArgument(String),
    /// Any other failure, with its message.
    Other(String),
}

pub enum CliErrorView {
    InvalidArgument(Seq<char>),
    Other(Seq<char>),
}

impl View for CliError {
    type V = CliErrorView;

    open spec fn view(&self) -> CliErrorView {
        match self {
            CliError::InvalidArgument(m) => CliErrorView::InvalidArgument(m@),
            CliError::Other(m) => CliErrorView::Other(m@),
        }
    }
}

impl CliError {
    /// The message the CLI prints for this error.
    pub fn message(&self) -> (s: String)
        ensures
            s@ == error_message(self@),
    {
        match self {
            CliError::InvalidArgument(m) => {
                let mut s = string_of("Invalid argument: ");
                crate::text::push_str(&mut s, m.as_str());
                s
            },
            CliError::Other(m) => m.clone(),
        }
    }
}

pub open spec fn error_message(e: CliErrorView) -> Seq<char> {
    match e {
        CliErrorView::InvalidArgument(m) => "Invalid argument: "@ + m,
        CliErrorView::Other(m) => m,
    }
}

/// The CLI's saved settings.
pub struct CliConfig {
    pub edgar_email: Option<String>,
}

pub open spec fn opt_str(o: Option<String>) -> Option<Seq<char>> {
    match o {
        Some(s) => Some(s@),
        None => None,
    }
}

impl View for CliConfig {
    type V = Option<Seq<char>>;

    open spec fn view(&self) -> Option<Seq<char>> {
        opt_str(self.edgar_email)
    }
}

impl Default for CliConfig {
    fn default() -> (c: Self)
        ensures
            c@ == None::<Seq<char>>,
    {
        CliConfig { edgar_email: None }
    }
}

/// Where the configuration file lives: `<config dir>/fq/config.json`, held as the
/// configuration directory with the subdirectory and file name beneath it.
/// The caller joins the parts, creates the subdirectory, and reads or writes
/// the file.
pub struct ConfigStorage {
    base: PathBuf,
}

impl ConfigStorage {
    /// Locates the configuration file under the user's configuration directory.
    /// Fails when the platform has no configuration directory.
    pub fn new() -> (r: Result<Self, CliError>)
        ensures
            r matches Err(e) ==> e@ == CliErrorView::Other("Failed to get config directory"@),
    {
        Self::from_config_dir(config_dir())
    }

    /// Locates the configuration file under a configuration directory, as found
    /// on the platform. Fails exactly when there is none.
    pub fn from_config_dir(base: Option<PathBuf>) -> (r: Result<Self, CliError>)
        ensures
            r is Ok <==> base is Some,
            r matches Ok(st) ==> st.stored_base() == base->0,
            r matches Err(e) ==> e@ == CliErrorView::Other("Failed to get config directory"@),
    {
        match base {
            Some(base) => Ok(ConfigStorage { base }),
            None => Err(CliError::Other(string_of("Failed to get config directory"))),
        }
    }

    /// The configuration directory the storage was located under.
    pub closed spec fn stored_base(&self) -> PathBuf {
        self.base
    }

    /// The configuration directory the storage was located under.
    pub fn base(&self) -> (b: &PathBuf)
        ensures
            *b == self.stored_base(),
    {
        &self.base
    }

    /// The subdirectory of the configuration directory that holds the file.
    pub fn subdir(&self) -> (d: &'static str)
        ensures
            d@ == "fq"@,
    {
        "fq"
    }

    /// The name of the configuration file.
    pub fn file_name(&self) -> (f: &'static str)
        ensures
            f@ == "config.json"@,
    {
        "config.json"
    }
}

/// What resolving the EDGAR email leads to.
#[derive(Debug)]
pub enum EmailResolution {
    /// The email to use; `save` says whether the configuration changed and
    /// must be written back.
    Resolved { email: String, save: bool },
    /// No email was given or saved: the user must be asked for one, and the
    /// answer handed to [`accept_prompted_email`].
    Prompt,
    /// The email given on the command line is blank.
    Failed(CliError),
}

pub enum EmailResolutionView {
    Resolved { email: Seq<char>, save: bool },
    Prompt,
    Failed(CliErrorView),
}

impl View for EmailResolution {
    type V = EmailResolutionView;

    open spec fn view(&self) -> EmailResolutionView {
        match self {
            EmailResolution::Resolved { email, save } => EmailResolutionView::Resolved {
                email: email@,
                save: *save,
            },
            EmailResolution::Prompt => EmailResolutionView::Prompt,
            EmailResolution::Failed(e) => EmailResolutionView::Failed(e@),
        }
    }
}

/// The outcome of resolving the EDGAR email from the email given on the
/// command line and the saved one, with the saved email afterwards.
pub open spec fn email_outcome(cli: Option<Seq<char>>, saved: Option<Seq<char>>) -> (
    EmailResolutionView,
    Option<Seq<char>>,
) {
    match cli {
        Some(e) => if trim_seq(e).len() == 0 {
            (
                EmailResolutionView::Failed(
                    CliErrorView::InvalidArgument("EDGAR email cannot be empty"@),
                ),
                saved,
            )
        } else {
            (EmailResolutionView::Resolved { email: trim_seq(e), save: true }, Some(trim_seq(e)))
        },
        None => match saved {
            Some(s) => (EmailResolutionView::Resolved { email: s, save: false }, saved),
            None => (EmailResolutionView::Prompt, saved),
        },
    }
}

/// Decides which EDGAR email a command uses: the one given on the command
/// line (trimmed, and then saved), else the saved one, else the user is asked.
pub fn resolve_edgar_email(cli_email: Option<String>, config: &mut CliConfig) -> (r:
    EmailResolution)
    ensures
        (r@, final(config)@) == email_outcome(opt_str(cli_email), old(config)@),
{
    match cli_email {
        Some(e) => {
            let email = trim(e.as_str());
            if email.as_str().is_empty() {
                return EmailResolution::Failed(
                    CliError::InvalidArgument(string_of("EDGAR email cannot be empty")),
                );
            }
            config.edgar_email = Some(email.clone());
            EmailResolution::Resolved { email, save: true }
        },
        None => match &config.edgar_email {
            Some(saved) => EmailResolution::Resolved { email: saved.clone(), save: false },
            None => EmailResolution::Prompt,
        },
    }
}

/// Takes the email typed at the prompt: trimmed, it must not be empty, and
/// it becomes the saved email.
pub fn accept_prompted_email(input: String, config: &mut CliConfig) -> (r: Result<
    String,
    CliError,
>)
    ensures
        trim_seq(input@).len() == 0 ==> (r matches Err(err) && err@
            == CliErrorView::InvalidArgument("EDGAR email required to access SEC filings"@)
            && final(config)@ == old(config)@),
        trim_seq(input@).len() > 0 ==> (r matches Ok(email) && email@ == trim_seq(input@)
            && final(config)@ == Some(trim_seq(input@))),
{
    let email = trim(input.as_str());
    if email.as_str().is_empty() {
        return Err(
            CliError::InvalidArgument(string_of("EDGAR email required to access SEC filings")),
        );
    }
    config.edgar_email = Some(email.clone());
    Ok(email)
}

/// Once an email has been given on the command line, a later command that
/// gives none uses that same email, without asking and without saving again.
pub proof fn law_given_email_is_reused(given: Seq<char>, saved: Option<Seq<char>>)
    requires
        trim_seq(given).len() > 0,
    ensures
        ({
            let (first, after) = email_outcome(Some(given), saved);
            let (second, after_second) = email_outcome(None, after);
            &&& first == EmailResolutionView::Resolved { email: trim_seq(given), save: true }
            &&& second == EmailResolutionView::Resolved { email: trim_seq(given), save: false }
            &&& after_second == after
        }),
{
}

/// An email accepted at the prompt is reused by the next command that gives none.
pub proof fn law_prompted_email_is_reused(typed: Seq<char>)
    requires
        trim_seq(typed).len() > 0,
    ensures
        email_outcome(None, Some(trim_seq(typed))).0 == (EmailResolutionView::Resolved {
            email: trim_seq(typed),
            save: false,
        }),
{
}

} // verus!
