//! The stored settings: API key, model, token limit and sampling temperature.

use crate::error::{ErrorView, SuperTerminalError};
use vstd::prelude::*;
use vstd::string::*;

verus! {

/// A sampling temperature, held as the bit pattern of an IEEE 754
/// single-precision number, so that it is stored and handed on without any
/// rounding.
#[derive(Debug, Clone, Copy, PartialEq, Eq, Structural)]
pub struct Temperature {
    pub bits: u32,
}

/// The bit pattern of 0.0.
pub const ZERO_BITS: u32 = 0x0000_0000;

/// The bit pattern of -0.0, which compares equal to 0.0.
pub const NEGATIVE_ZERO_BITS: u32 = 0x8000_0000;

/// The bit pattern of 2.0, the highest temperature accepted.
pub const TWO_BITS: u32 = 0x4000_0000;

/// The bit pattern of 0.3 rounded to single precision, the temperature of a
/// fresh configuration.
pub const DEFAULT_TEMPERATURE_BITS: u32 = 0x3E99_999A;

/// The token limit of a fresh configuration.
pub const DEFAULT_MAX_TOKENS: u32 = 150;

impl Temperature {
    /// Whether the number lies in the closed interval from 0.0 to 2.0.
    ///
    /// With the sign bit clear, numbers are ordered as their bit patterns
    /// are, so the patterns from that of 0.0 to that of 2.0 are exactly the
    /// numbers in the interval. With the sign bit set only -0.0 is in it.
    /// Every NaN has a pattern above that of 2.0 and is out of range.
    pub open spec fn spec_in_range(&self) -> bool {
        self.bits <= TWO_BITS || self.bits == NEGATIVE_ZERO_BITS
    }

    /// The temperature with the given bit pattern.
    pub fn from_bits(bits: u32) -> (temperature: Temperature)
        ensures
            temperature.bits == bits,
    {
        Temperature { bits }
    }

    /// The bit pattern of this temperature.
    pub fn to_bits(&self) -> (bits: u32)
        ensures
            bits == self.bits,
    {
        self.bits
    }

    /// Tells whether the number lies in the closed interval from 0.0 to 2.0.
    #[verifier::when_used_as_spec(spec_in_range)]
    pub fn in_range(&self) -> (b: bool)
        ensures
            b == self.spec_in_range(),
    {
        self.bits <= TWO_BITS || self.bits == NEGATIVE_ZERO_BITS
    }
}

/// The settings of the tool.
#[derive(Debug)]
pub struct Config {
    /// Key for the language-model API.
    pub api_key: String,
    /// Name of the model to ask.
    pub model: String,
    /// Upper bound on the length of an answer, in tokens.
    pub max_tokens: u32,
    /// Sampling temperature. Updates keep it between 0.0 and 2.0; a stored
    /// value is taken as it is.
    pub temperature: Temperature,
}

/// A `Config` with its texts as sequences of characters.
pub struct ConfigView {
    pub api_key: Seq<char>,
    pub model: Seq<char>,
    pub max_tokens: u32,
    pub temperature: Temperature,
}

impl View for Config {
    type V = ConfigView;

    open spec fn view(&self) -> ConfigView {
        ConfigView {
            api_key: self.api_key@,
            model: self.model@,
            max_tokens: self.max_tokens,
            temperature: self.temperature,
        }
    }
}

impl ConfigView {
    /// The settings of a first run with the given API key.
    pub open spec fn defaults(api_key: Seq<char>) -> ConfigView {
        ConfigView {
            api_key,
            model: "gpt-4"@,
            max_tokens: DEFAULT_MAX_TOKENS,
            temperature: Temperature { bits: DEFAULT_TEMPERATURE_BITS },
        }
    }

    /// These settings after an update that found no fault: each field that
    /// the update names takes the new value, the others and the API key stay.
    pub open spec fn updated(
        self,
        model: Option<Seq<char>>,
        max_tokens: Option<u32>,
        temperature: Option<Temperature>,
    ) -> ConfigView {
        ConfigView {
            api_key: self.api_key,
            model: match model {
                Some(m) => m,
                None => self.model,
            },
            max_tokens: match max_tokens {
                Some(n) => n,
                None => self.max_tokens,
            },
            temperature: match temperature {
                Some(t) => t,
                None => self.temperature,
            },
        }
    }
}

/// What stands for a text that may be absent.
pub open spec fn optional_text_view(text: Option<String>) -> Option<Seq<char>> {
    match text {
        Some(t) => Some(t@),
        None => None,
    }
}

/// Whether an update is refused: it names a temperature outside 0.0 to 2.0.
pub open spec fn update_refused(temperature: Option<Temperature>) -> bool {
    temperature matches Some(t) && !t.spec_in_range()
}

/// The message of a refused temperature.
pub open spec fn temperature_refusal() -> Seq<char> {
    "Temperature must be between 0.0 and 2.0"@
}

/// A configuration together with where it came from.
#[derive(Debug)]
pub struct LoadedConfig {
    pub config: Config,
    /// True where no stored configuration could be used and `config` holds
    /// the defaults of a first run. The caller then stores it, and goes on
    /// with it even if storing fails.
    pub first_run: bool,
}

/// The place of the configuration file below the user's configuration
/// directory.
#[derive(Debug)]
pub struct ConfigPath<P> {
    /// The user's configuration directory, as the caller gave it.
    pub base: P,
    /// The directory of this tool below `base`.
    pub directory: String,
    /// The file's name in `directory`.
    pub file_name: String,
}

impl Config {
    /// The settings of a first run: the API key found in the environment,
    /// with the default model, token limit and temperature. Without a key
    /// there is no configuration.
    pub fn new(api_key: Option<String>) -> (result: Result<Config, SuperTerminalError>)
        ensures
            (match api_key {
                Some(key) => result matches Ok(config) && config@ == ConfigView::defaults(key@),
                None => result matches Err(error) && error@ == ErrorView::MissingApiKey,
            }),
    {
        match api_key {
            Some(key) => Ok(
                Config {
                    api_key: key,
                    model: String::from_str("gpt-4"),
                    max_tokens: DEFAULT_MAX_TOKENS,
                    temperature: Temperature::from_bits(DEFAULT_TEMPERATURE_BITS),
                },
            ),
            None => Err(SuperTerminalError::MissingApiKey),
        }
    }

    /// Settles on the configuration of this run. `loaded` is what reading
    /// the configuration file gave, `api_key` what the environment holds.
    ///
    /// A stored configuration is taken as it is. Where there is none, for
    /// whatever reason, the defaults are made from the API key and marked
    /// as a first run; without a key that fails with `MissingApiKey`.
    pub fn load_or_default(
        loaded: Result<Config, SuperTerminalError>,
        api_key: Option<String>,
    ) -> (result: Result<LoadedConfig, SuperTerminalError>)
        ensures
            (match (loaded, api_key) {
                (Ok(stored), _) => result matches Ok(found) && found.config == stored
                    && !found.first_run,
                (Err(_), Some(key)) => result matches Ok(found) && found.config@
                    == ConfigView::defaults(key@) && found.first_run,
                (Err(_), None) => result matches Err(error) && error@ == ErrorView::MissingApiKey,
            }),
    {
        match loaded {
            Ok(stored) => Ok(LoadedConfig { config: stored, first_run: false }),
            Err(_) => {
                match Config::new(api_key) {
                    Ok(config) => Ok(LoadedConfig { config, first_run: true }),
                    Err(error) => Err(error),
                }
            },
        }
    }

    /// Where the configuration file lies, given the user's configuration
    /// directory. The directory is handed through untouched, so any kind of
    /// path will do. Without one there is no place for the file.
    pub fn config_path<P>(config_dir: Option<P>) -> (result: Result<
        ConfigPath<P>,
        SuperTerminalError,
    >)
        ensures
            (match config_dir {
                Some(dir) => result matches Ok(path) && path.base == dir && path.directory@
                    == "superterminal"@ && path.file_name@ == "config.json"@,
                None => result matches Err(error) && error@ == ErrorView::ConfigError(
                    "Could not find config directory"@,
                ),
            }),
    {
        match config_dir {
            Some(dir) => Ok(
                ConfigPath {
                    base: dir,
                    directory: String::from_str("superterminal"),
                    file_name: String::from_str("config.json"),
                },
            ),
            None => Err(
                SuperTerminalError::ConfigError(String::from_str("Could not find config directory")),
            ),
        }
    }

    /// Applies an update of any of model, token limit and temperature.
    ///
    /// The temperature is checked before anything is changed: one outside
    /// 0.0 to 2.0 is refused with `InvalidInput` and the settings stay as
    /// they were, whatever else the update names. Otherwise every named
    /// field takes its new value, and the result tells whether any was
    /// named.
    pub fn update(
        &mut self,
        model: Option<String>,
        max_tokens: Option<u32>,
        temperature: Option<Temperature>,
    ) -> (result: Result<bool, SuperTerminalError>)
        ensures
            update_refused(temperature) ==> ({
                &&& *final(self) == *old(self)
                &&& result matches Err(error)
                &&& error@ == ErrorView::InvalidInput(temperature_refusal())
            }),
            !update_refused(temperature) ==> ({
                &&& final(self)@ == old(self)@.updated(
                    optional_text_view(model),
                    max_tokens,
                    temperature,
                )
                &&& result matches Ok(changed)
                &&& changed == (model is Some || max_tokens is Some || temperature is Some)
            }),
    {
        if let Some(t) = temperature {
            if !t.in_range() {
                return Err(
                    SuperTerminalError::InvalidInput(
                        String::from_str("Temperature must be between 0.0 and 2.0"),
                    ),
                );
            }
        }
        let mut changed = false;
        if let Some(m) = model {
            self.model = m;
            changed = true;
        }
        if let Some(n) = max_tokens {
            self.max_tokens = n;
            changed = true;
        }
        if let Some(t) = temperature {
            self.temperature = t;
            changed = true;
        }
        Ok(changed)
    }
}

impl Clone for Config {
    /// A copy with the same settings.
    fn clone(&self) -> (copy: Config)
        ensures
            copy@ == self@,
    {
        Config {
            api_key: self.api_key.clone(),
            model: self.model.clone(),
            max_tokens: self.max_tokens,
            temperature: self.temperature,
        }
    }
}

impl Default for Config {
    /// The default model, token limit and temperature, with an empty API
    /// key.
    fn default() -> (config: Config)
        ensures
            config@ == ConfigView::defaults(Seq::empty()),
    {
        Config {
            api_key: String::new(),
            model: String::from_str("gpt-4"),
            max_tokens: DEFAULT_MAX_TOKENS,
            temperature: Temperature::from_bits(DEFAULT_TEMPERATURE_BITS),
        }
    }
}

} // verus!
