//! The static configuration of a conversation and the completion request
//! that is assembled from it anew for every call of the backend.

use vstd::prelude::*;
use crate::catalog::{clone_definitions, definition_views, ToolDefinition, ToolDefinitionView};
use crate::message::{clone_messages, message_views, Message, MessageView};

verus! {

/// The highest sampling temperature that is accepted, in thousandths.
pub const MAX_TEMPERATURE_MILLI: u32 = 2000;

/// Why a configuration was refused.
#[derive(Debug, PartialEq, Eq, Structural, Clone, Copy)]
pub enum ConfigError {
    /// The temperature lies above the accepted domain.
    TemperatureOutOfRange,
    /// The limit on output tokens is zero.
    ZeroMaxTokens,
}

/// What stays the same over a whole conversation: the model, the preamble
/// and the sampling parameters. The temperature is kept in thousandths.
#[derive(Debug, PartialEq, Eq)]
pub struct Settings {
    pub model: String,
    pub preamble: String,
    pub temperature_milli: u32,
    pub max_tokens: u64,
}

/// The mathematical value of a [`Settings`].
pub struct SettingsView {
    pub model: Seq<char>,
    pub preamble: Seq<char>,
    pub temperature_milli: u32,
    pub max_tokens: u64,
}

impl View for Settings {
    type V = SettingsView;

    open spec fn view(&self) -> SettingsView {
        SettingsView {
            model: self.model@,
            preamble: self.preamble@,
            temperature_milli: self.temperature_milli,
            max_tokens: self.max_tokens,
        }
    }
}

/// Whether the numeric parameters are acceptable: a temperature between 0
/// and 2 and a positive limit on output tokens.
pub open spec fn valid_parameters(temperature_milli: u32, max_tokens: u64) -> bool {
    temperature_milli <= MAX_TEMPERATURE_MILLI && max_tokens > 0
}

impl Settings {
    /// Whether these settings hold acceptable numeric parameters.
    pub open spec fn well_formed(&self) -> bool {
        valid_parameters(self.temperature_milli, self.max_tokens)
    }

    /// Checks the numeric parameters once, when the conversation is set up.
    /// A temperature above 2 is refused first, then a token limit of zero.
    pub fn new(model: String, preamble: String, temperature_milli: u32, max_tokens: u64) -> (res:
        Result<Settings, ConfigError>)
        ensures
            match res {
                Ok(s) => valid_parameters(temperature_milli, max_tokens) && s.well_formed() && s@
                    == (SettingsView {
                    model: model@,
                    preamble: preamble@,
                    temperature_milli,
                    max_tokens,
                }),
                Err(ConfigError::TemperatureOutOfRange) => temperature_milli
                    > MAX_TEMPERATURE_MILLI,
                Err(ConfigError::ZeroMaxTokens) => temperature_milli <= MAX_TEMPERATURE_MILLI
                    && max_tokens == 0,
            },
    {
        if temperature_milli > MAX_TEMPERATURE_MILLI {
            Err(ConfigError::TemperatureOutOfRange)
        } else if max_tokens == 0 {
            Err(ConfigError::ZeroMaxTokens)
        } else {
            Ok(Settings { model, preamble, temperature_milli, max_tokens })
        }
    }
}

/// Everything the completion backend is sent for one call.
#[derive(Debug, PartialEq, Eq)]
pub struct CompletionRequest {
    pub model: String,
    pub preamble: String,
    pub history: Vec<Message>,
    pub new_message: Message,
    pub temperature_milli: u32,
    pub max_tokens: u64,
    pub tools: Vec<ToolDefinition>,
}

/// The mathematical value of a [`CompletionRequest`].
pub struct CompletionRequestView {
    pub model: Seq<char>,
    pub preamble: Seq<char>,
    pub history: Seq<MessageView>,
    pub new_message: MessageView,
    pub temperature_milli: u32,
    pub max_tokens: u64,
    pub tools: Seq<ToolDefinitionView>,
}

impl View for CompletionRequest {
    type V = CompletionRequestView;

    open spec fn view(&self) -> CompletionRequestView {
        CompletionRequestView {
            model: self.model@,
            preamble: self.preamble@,
            history: message_views(self.history@),
            new_message: self.new_message@,
            temperature_milli: self.temperature_milli,
            max_tokens: self.max_tokens,
            tools: definition_views(self.tools@),
        }
    }
}

/// The request that is due for the given configuration, transcript, pending
/// message and catalog: a snapshot of all four, nothing added or left out.
pub open spec fn request_for(
    settings: SettingsView,
    transcript: Seq<MessageView>,
    pending: MessageView,
    tools: Seq<ToolDefinitionView>,
) -> CompletionRequestView {
    CompletionRequestView {
        model: settings.model,
        preamble: settings.preamble,
        history: transcript,
        new_message: pending,
        temperature_milli: settings.temperature_milli,
        max_tokens: settings.max_tokens,
        tools,
    }
}

/// Assembles a completion request. The transcript, the pending message and
/// the catalog are copied; none of them is changed.
pub fn build_request(
    settings: &Settings,
    transcript: &Vec<Message>,
    pending: &Message,
    tools: &Vec<ToolDefinition>,
) -> (req: CompletionRequest)
    ensures
        req@ == request_for(
            settings@,
            message_views(transcript@),
            pending@,
            definition_views(tools@),
        ),
{
    CompletionRequest {
        model: settings.model.clone(),
        preamble: settings.preamble.clone(),
        history: clone_messages(transcript),
        new_message: pending.clone(),
        temperature_milli: settings.temperature_milli,
        max_tokens: settings.max_tokens,
        tools: clone_definitions(tools),
    }
}

} // verus!
