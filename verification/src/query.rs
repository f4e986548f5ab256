//! The query flow: from the user's words to a command on the clipboard.
//!
//! The flow decides; its driver acts. Each step takes what the driver's
//! last action came to, and says what to tell the user and what to do
//! next. The steps are types of their own, each used up by its one method,
//! so a driver can only take them in order: load the settings, send the
//! one request, ask for confirmation unless that was waived, copy.

use crate::ai::{
    empty_input_refusal, translation_outcome, translation_request, AIService, ApiReply,
    TranslationRequest,
};
use crate::config::{Config, ConfigView};
use crate::error::{ErrorView, SuperTerminalError};
use crate::text::is_blank;
use vstd::prelude::*;
use vstd::string::*;

verus! {

/// Something to tell the user.
#[derive(Debug)]
pub enum Message {
    /// The shell that was detected. Only said in verbose mode.
    DetectedShell(String),
    /// The query that is being worked on. Only said in verbose mode.
    ProcessingQuery(String),
    /// The translation is about to start.
    Translating,
    /// The command that the translation gave.
    GeneratedCommand(String),
    /// The command is on the clipboard.
    CopiedToClipboard(String),
    /// Writing to the clipboard failed: a warning with the reason, and the
    /// command for the user to copy by hand.
    CopyFailed { reason: String, command: String },
    /// The clipboard could not be reached: a warning with the reason, and
    /// the command for the user to copy by hand.
    ClipboardUnavailable { reason: String, command: String },
    /// The user declined; nothing was copied.
    NotCopied,
}

/// What came of writing to the clipboard.
#[derive(Debug)]
pub enum ClipboardOutcome {
    /// The text is on the clipboard.
    Written,
    /// The clipboard was reached, but writing failed. Holds the reason.
    WriteFailed(String),
    /// The clipboard could not be reached. Holds the reason.
    Unavailable(String),
}

/// One step of the flow: what to tell the user now, in this order, and what
/// comes next.
#[derive(Debug)]
pub struct Step<N> {
    pub messages: Vec<Message>,
    pub next: N,
}

/// The flow at its start: the settings are yet to be loaded.
#[derive(Debug)]
pub struct QueryFlow {
    query: String,
    auto_yes: bool,
}

/// The flow while its one request is under way.
#[derive(Debug)]
pub struct PendingReply {
    service: AIService,
    auto_yes: bool,
}

/// The flow while the user is asked whether to copy the command.
#[derive(Debug)]
pub struct PendingConfirmation {
    command: String,
}

/// The flow while the command is written to the clipboard.
#[derive(Debug)]
pub struct PendingCopy {
    command: String,
}

/// What follows the loading of the settings.
#[derive(Debug)]
pub enum AfterConfig {
    /// Send this request, the only one of the flow, and come back with what
    /// came of it.
    Send(TranslationRequest, PendingReply),
    /// The flow is over.
    Finish(Result<(), SuperTerminalError>),
}

/// What follows the reply.
#[derive(Debug)]
pub enum AfterReply {
    /// Ask the user whether to copy the command; the answer proposed is yes.
    Confirm(PendingConfirmation),
    /// Write the command to the clipboard without asking.
    Copy(PendingCopy),
    /// The flow is over.
    Finish(Result<(), SuperTerminalError>),
}

/// What follows the user's answer.
#[derive(Debug)]
pub enum AfterConfirmation {
    /// Write the command to the clipboard.
    Copy(PendingCopy),
    /// The flow is over.
    Finish(Result<(), SuperTerminalError>),
}

impl QueryFlow {
    /// The user's words.
    pub closed spec fn query(&self) -> Seq<char> {
        self.query@
    }

    /// Whether the command is copied without asking.
    pub closed spec fn auto_yes(&self) -> bool {
        self.auto_yes
    }

    /// Takes what loading the settings came to.
    ///
    /// A failure ends the flow with that failure and without a word. With
    /// settings the translation is announced; then a query that is empty or
    /// white space throughout ends the flow with `InvalidInput`, and any
    /// other query calls for its one request.
    pub fn config_loaded(self, loaded: Result<Config, SuperTerminalError>) -> (step: Step<
        AfterConfig,
    >)
        ensures
            (match loaded {
                Err(failure) => {
                    &&& step.messages@.len() == 0
                    &&& step.next == AfterConfig::Finish(Err(failure))
                },
                Ok(config) => {
                    &&& step.messages@.len() == 1
                    &&& step.messages@[0] is Translating
                    &&& is_blank(self.query()) ==> {
                        &&& step.next matches AfterConfig::Finish(Err(error))
                        &&& error@ == ErrorView::InvalidInput(empty_input_refusal())
                    }
                    &&& !is_blank(self.query()) ==> {
                        &&& step.next matches AfterConfig::Send(request, pending)
                        &&& request@ == translation_request(config@, self.query())
                        &&& pending.settings() == config@
                        &&& pending.auto_yes() == self.auto_yes()
                    }
                },
            }),
    {
        match loaded {
            Err(failure) => Step { messages: Vec::new(), next: AfterConfig::Finish(Err(failure)) },
            Ok(config) => {
                let mut messages: Vec<Message> = Vec::new();
                messages.push(Message::Translating);
                match AIService::new(config) {
                    Err(failure) => Step { messages, next: AfterConfig::Finish(Err(failure)) },
                    Ok(service) => {
                        match service.prepare_request(self.query.as_str()) {
                            Err(failure) => Step {
                                messages,
                                next: AfterConfig::Finish(Err(failure)),
                            },
                            Ok(request) => Step {
                                messages,
                                next: AfterConfig::Send(
                                    request,
                                    PendingReply { service, auto_yes: self.auto_yes },
                                ),
                            },
                        }
                    },
                }
            },
        }
    }
}

impl PendingReply {
    /// The settings that the request was made with.
    pub closed spec fn settings(&self) -> ConfigView {
        self.service@
    }

    /// Whether the command is copied without asking.
    pub closed spec fn auto_yes(&self) -> bool {
        self.auto_yes
    }

    /// The settings that the request was made with; the driver finds the
    /// API key here.
    pub fn config(&self) -> (config: &Config)
        ensures
            config@ == self.settings(),
    {
        self.service.config()
    }

    /// Takes what came of the request.
    ///
    /// A failure ends the flow with that failure and without a word; no
    /// request follows. A command is shown; it is then copied at once where
    /// asking was waived, and after asking otherwise.
    pub fn replied(self, reply: ApiReply) -> (step: Step<AfterReply>)
        ensures
            (match translation_outcome(reply@) {
                Err(failure) => {
                    &&& step.messages@.len() == 0
                    &&& step.next matches AfterReply::Finish(Err(error))
                    &&& error@ == failure
                },
                Ok(command) => {
                    &&& step.messages@.len() == 1
                    &&& step.messages@[0] matches Message::GeneratedCommand(shown)
                    &&& shown@ == command
                    &&& self.auto_yes() ==> {
                        &&& step.next matches AfterReply::Copy(pending)
                        &&& pending.command() == command
                    }
                    &&& !self.auto_yes() ==> {
                        &&& step.next matches AfterReply::Confirm(pending)
                        &&& pending.command() == command
                    }
                },
            }),
    {
        match self.service.interpret_reply(reply) {
            Err(failure) => Step { messages: Vec::new(), next: AfterReply::Finish(Err(failure)) },
            Ok(command) => {
                let mut messages: Vec<Message> = Vec::new();
                messages.push(Message::GeneratedCommand(command.clone()));
                if self.auto_yes {
                    Step { messages, next: AfterReply::Copy(PendingCopy { command }) }
                } else {
                    Step { messages, next: AfterReply::Confirm(PendingConfirmation { command }) }
                }
            },
        }
    }
}

impl PendingConfirmation {
    /// The command that the user is asked about.
    pub closed spec fn command(&self) -> Seq<char> {
        self.command@
    }

    /// Takes the user's answer; `None` where the prompt was aborted.
    ///
    /// Yes leads on to the clipboard. No ends the flow in success, with
    /// the word that nothing was copied. An aborted prompt ends it with
    /// `UserCancelled`.
    pub fn confirmed(self, answer: Option<bool>) -> (step: Step<AfterConfirmation>)
        ensures
            (match answer {
                Some(true) => {
                    &&& step.messages@.len() == 0
                    &&& step.next matches AfterConfirmation::Copy(pending)
                    &&& pending.command() == self.command()
                },
                Some(false) => {
                    &&& step.messages@.len() == 1
                    &&& step.messages@[0] is NotCopied
                    &&& step.next matches AfterConfirmation::Finish(Ok(_))
                },
                None => {
                    &&& step.messages@.len() == 0
                    &&& step.next matches AfterConfirmation::Finish(Err(error))
                    &&& error@ == ErrorView::UserCancelled
                },
            }),
    {
        match answer {
            Some(true) => Step {
                messages: Vec::new(),
                next: AfterConfirmation::Copy(PendingCopy { command: self.command }),
            },
            Some(false) => {
                let mut messages: Vec<Message> = Vec::new();
                messages.push(Message::NotCopied);
                Step { messages, next: AfterConfirmation::Finish(Ok(())) }
            },
            None => Step {
                messages: Vec::new(),
                next: AfterConfirmation::Finish(Err(SuperTerminalError::UserCancelled)),
            },
        }
    }
}

impl PendingCopy {
    /// The command that goes to the clipboard.
    pub closed spec fn command(&self) -> Seq<char> {
        self.command@
    }

    /// The text to write to the clipboard.
    pub fn text(&self) -> (text: &str)
        ensures
            text@ == self.command(),
    {
        self.command.as_str()
    }

    /// Takes what came of writing to the clipboard, and ends the flow in
    /// success either way: a clipboard that fails costs the user a warning,
    /// not the command.
    pub fn copied(self, outcome: ClipboardOutcome) -> (step: Step<Result<(), SuperTerminalError>>)
        ensures
            step.next is Ok,
            step.messages@.len() == 1,
            (match outcome {
                ClipboardOutcome::Written => {
                    &&& step.messages@[0] matches Message::CopiedToClipboard(command)
                    &&& command@ == self.command()
                },
                ClipboardOutcome::WriteFailed(why) => {
                    &&& step.messages@[0] matches Message::CopyFailed { reason, command }
                    &&& reason == why
                    &&& command@ == self.command()
                },
                ClipboardOutcome::Unavailable(why) => {
                    &&& step.messages@[0] matches Message::ClipboardUnavailable { reason, command }
                    &&& reason == why
                    &&& command@ == self.command()
                },
            }),
    {
        let mut messages: Vec<Message> = Vec::new();
        match outcome {
            ClipboardOutcome::Written => {
                messages.push(Message::CopiedToClipboard(self.command));
            },
            ClipboardOutcome::WriteFailed(reason) => {
                messages.push(Message::CopyFailed { reason, command: self.command });
            },
            ClipboardOutcome::Unavailable(reason) => {
                messages.push(Message::ClipboardUnavailable { reason, command: self.command });
            },
        }
        Step { messages, next: Ok(()) }
    }
}

/// Starts the flow for one query. `shell` is the user's shell as it was
/// detected; it is told to the user in verbose mode and used for nothing
/// else.
///
/// In verbose mode the step names the shell and the query. In either mode
/// the settings are to be loaded next.
pub fn handle_query(query: String, auto_yes: bool, verbose: bool, shell: String) -> (step: Step<
    QueryFlow,
>)
    ensures
        step.next.query() == query@,
        step.next.auto_yes() == auto_yes,
        !verbose ==> step.messages@.len() == 0,
        verbose ==> ({
            &&& step.messages@.len() == 2
            &&& step.messages@[0] matches Message::DetectedShell(name)
            &&& name == shell
            &&& step.messages@[1] matches Message::ProcessingQuery(words)
            &&& words@ == query@
        }),
{
    let mut messages: Vec<Message> = Vec::new();
    if verbose {
        messages.push(Message::DetectedShell(shell));
        messages.push(Message::ProcessingQuery(query.clone()));
    }
    Step { messages, next: QueryFlow { query, auto_yes } }
}

} // verus!
