//! The command-line surface: what an invocation asks for, and what the
//! `config` subcommand does with the stored settings.

use crate::config::{optional_text_view, update_refused, temperature_refusal, Config, Temperature};
use crate::error::{ErrorView, SuperTerminalError};
use vstd::prelude::*;

verus! {

/// The arguments of one invocation.
#[derive(Debug)]
pub struct Cli {
    /// What the user wants done, in their own words.
    pub query: Option<String>,
    /// Copy the command without asking first.
    pub yes: bool,
    /// Say more about what is going on.
    pub verbose: bool,
    /// The subcommand, if one was given.
    pub command: Option<Commands>,
}

/// The subcommands.
#[derive(Debug)]
pub enum Commands {
    /// Shows or changes the stored settings.
    Config {
        /// New model name.
        model: Option<String>,
        /// New token limit.
        max_tokens: Option<u32>,
        /// New temperature; accepted from 0.0 to 2.0.
        temperature: Option<Temperature>,
        /// Show the settings and change nothing.
        show: bool,
    },
}

/// What an invocation asks for.
#[derive(Debug)]
pub enum Route {
    /// Run a subcommand.
    Command(Commands),
    /// Translate a query.
    Query { query: String, auto_yes: bool, verbose: bool },
    /// Neither: print the help text and leave with success.
    Help,
}

/// The settings as they are shown to the user. The API key itself is never
/// shown, only whether there is one.
#[derive(Debug)]
pub struct ConfigSummary {
    pub model: String,
    pub max_tokens: u32,
    pub temperature: Temperature,
    pub api_key_set: bool,
}

/// What the `config` subcommand came to.
#[derive(Debug)]
pub enum CommandOutcome {
    /// The settings are to be shown. Nothing was changed.
    Shown(ConfigSummary),
    /// The settings were changed, and are to be stored as they stand here.
    Updated(Config),
    /// No change was asked for. Nothing is to be stored.
    Unchanged,
}

impl Cli {
    /// What this invocation asks for. A subcommand goes before a query.
    pub fn route(self) -> (route: Route)
        ensures
            (match (self.command, self.query) {
                (Some(command), _) => route == Route::Command(command),
                (None, Some(query)) => route == (Route::Query {
                    query,
                    auto_yes: self.yes,
                    verbose: self.verbose,
                }),
                (None, None) => route == Route::Help,
            }),
    {
        match self.command {
            Some(command) => Route::Command(command),
            None => {
                match self.query {
                    Some(query) => Route::Query {
                        query,
                        auto_yes: self.yes,
                        verbose: self.verbose,
                    },
                    None => Route::Help,
                }
            },
        }
    }
}

/// Carries out the `config` subcommand on the settings of this run.
///
/// With `show` the settings are summed up and nothing is changed, whatever
/// else the command names. Otherwise the update is checked as a whole and
/// then applied as a whole: a temperature outside 0.0 to 2.0 fails with
/// `InvalidInput` and leaves nothing to store.
pub fn handle_command(command: Commands, config: Config) -> (result: Result<
    CommandOutcome,
    SuperTerminalError,
>)
    ensures
        command->show ==> ({
            &&& result matches Ok(CommandOutcome::Shown(summary))
            &&& summary.model@ == config.model@
            &&& summary.max_tokens == config.max_tokens
            &&& summary.temperature == config.temperature
            &&& summary.api_key_set == (config.api_key@.len() > 0)
        }),
        !command->show && update_refused(command->temperature) ==> ({
            &&& result matches Err(error)
            &&& error@ == ErrorView::InvalidInput(temperature_refusal())
        }),
        !command->show && !update_refused(command->temperature) && (command->model is Some
            || command->max_tokens is Some || command->temperature is Some) ==> ({
            &&& result matches Ok(CommandOutcome::Updated(changed))
            &&& changed@ == config@.updated(
                optional_text_view(command->model),
                command->max_tokens,
                command->temperature,
            )
        }),
        !command->show && command->model is None && command->max_tokens is None
            && command->temperature is None ==> result matches Ok(CommandOutcome::Unchanged),
{
    let Commands::Config { model, max_tokens, temperature, show } = command;
    let mut config = config;
    if show {
        let api_key_set = !config.api_key.as_str().is_empty();
        return Ok(
            CommandOutcome::Shown(
                ConfigSummary {
                    model: config.model,
                    max_tokens: config.max_tokens,
                    temperature: config.temperature,
                    api_key_set,
                },
            ),
        );
    }
    match config.update(model, max_tokens, temperature) {
        Err(error) => Err(error),
        Ok(true) => Ok(CommandOutcome::Updated(config)),
        Ok(false) => Ok(CommandOutcome::Unchanged),
    }
}

} // verus!
