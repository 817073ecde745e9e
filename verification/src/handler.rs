//! The handler: what the bot is configured with, the command it registers
//! and how it takes up an invocation.

use crate::error::{FlowError, FlowErrorView};
use crate::flow::{started, Action, Flow, Phase};
use crate::invocation::{song_query, Command, Invocation};
use crate::text::{error_message, searching_message};
use vstd::prelude::*;
use vstd::string::StringExecFns;

verus! {

/// The bot's configuration, read once when the process starts.
pub struct Handler {
    guild_id: u64,
    fanclub_role: u64,
    youtube_dl_path: String,
}

/// Mathematical model of a [`Handler`].
pub struct HandlerView {
    /// The guild in which the command is registered.
    pub guild_id: u64,
    /// A role of the guild; no decision of the flow depends on it.
    pub fanclub_role: u64,
    /// Path of the search tool's executable.
    pub youtube_dl_path: Seq<char>,
}

/// The kind of value that an option of a command takes.
#[derive(Clone, Copy, Debug, PartialEq, Eq, Structural)]
pub enum OptionKind {
    Text,
    Integer,
    Boolean,
}

/// One option of a command as it is registered.
#[derive(Clone, Debug, PartialEq, Eq)]
pub struct OptionSpec {
    pub name: String,
    pub description: String,
    pub kind: OptionKind,
    pub required: bool,
}

/// A command as it is registered with a guild.
#[derive(Clone, Debug, PartialEq, Eq)]
pub struct CommandRegistration {
    pub guild_id: u64,
    pub name: String,
    pub description: String,
    pub argument: OptionSpec,
}

/// Mathematical model of an [`OptionSpec`].
pub struct OptionSpecView {
    pub name: Seq<char>,
    pub description: Seq<char>,
    pub kind: OptionKind,
    pub required: bool,
}

/// Mathematical model of a [`CommandRegistration`].
pub struct CommandRegistrationView {
    pub guild_id: u64,
    pub name: Seq<char>,
    pub description: Seq<char>,
    pub argument: OptionSpecView,
}

impl View for OptionSpec {
    type V = OptionSpecView;

    open spec fn view(&self) -> OptionSpecView {
        OptionSpecView {
            name: self.name@,
            description: self.description@,
            kind: self.kind,
            required: self.required,
        }
    }
}

impl View for CommandRegistration {
    type V = CommandRegistrationView;

    open spec fn view(&self) -> CommandRegistrationView {
        CommandRegistrationView {
            guild_id: self.guild_id,
            name: self.name@,
            description: self.description@,
            argument: self.argument@,
        }
    }
}

/// The registration of `play` with a guild: one required text option, the
/// song query.
pub open spec fn play_registration(guild_id: u64) -> CommandRegistrationView {
    CommandRegistrationView {
        guild_id,
        name: Command::play_name(),
        description: "Toca-disco"@,
        argument: OptionSpecView {
            name: "a_braba"@,
            description: "Ativa o toca-disco"@,
            kind: OptionKind::Text,
            required: true,
        },
    }
}

impl View for Handler {
    type V = HandlerView;

    closed spec fn view(&self) -> HandlerView {
        HandlerView {
            guild_id: self.guild_id,
            fanclub_role: self.fanclub_role,
            youtube_dl_path: self.youtube_dl_path@,
        }
    }
}

impl Handler {
    /// A handler for the given guild, role and search tool.
    pub fn new(guild_id: u64, fanclub_role: u64, youtube_dl_path: String) -> (handler: Handler)
        ensures
            handler@ == (HandlerView {
                guild_id,
                fanclub_role,
                youtube_dl_path: youtube_dl_path@,
            }),
    {
        Handler { guild_id, fanclub_role, youtube_dl_path }
    }

    /// The guild in which the command is registered.
    pub fn guild_id(&self) -> (id: u64)
        ensures
            id == self@.guild_id,
    {
        self.guild_id
    }

    /// The configured role.
    pub fn fanclub_role(&self) -> (id: u64)
        ensures
            id == self@.fanclub_role,
    {
        self.fanclub_role
    }

    /// Path of the search tool's executable.
    pub fn youtube_dl_path(&self) -> (path: &str)
        ensures
            path@ == self@.youtube_dl_path,
    {
        self.youtube_dl_path.as_str()
    }

    /// A flow for `invocation` in the given phase, with the given query.
    fn flow(&self, invocation: &Invocation, phase: Phase, query: String) -> (flow: Flow)
        ensures
            flow == (Flow {
                phase,
                interaction: invocation.interaction,
                guild_id: invocation.guild_id,
                user_id: invocation.user_id,
                program: self.youtube_dl_path,
                query,
            }),
    {
        Flow {
            phase,
            interaction: invocation.interaction,
            guild_id: invocation.guild_id,
            user_id: invocation.user_id,
            program: self.youtube_dl_path.clone(),
            query,
        }
    }

    /// Takes up an invocation of `play`: extracts the song query and starts
    /// the flow with the provisional first response. Fails, before anything
    /// is sent, exactly when the argument is missing or is no text.
    pub fn cmd_play(&self, invocation: &Invocation) -> (outcome: Result<(Flow, Action), FlowError>)
        ensures
            match song_query(invocation@.options) {
                Ok(_) => outcome matches Ok((flow, action)) && (flow@, action@) == started(
                    self@,
                    invocation@,
                ),
                Err(e) => outcome matches Err(error) && error@ == FlowErrorView::Argument(e),
            },
    {
        match invocation.song_query() {
            Ok(query) => {
                let flow = self.flow(invocation, Phase::ArgumentsParsed, query);
                let action = Action::Respond {
                    interaction: invocation.interaction,
                    content: searching_message(),
                };
                Ok((flow, action))
            },
            Err(e) => Err(FlowError::Argument(e)),
        }
    }

    /// Routes an invocation to its command and starts its flow. A failure
    /// on the way ends the flow at once and is reported as the first
    /// response; it reaches neither the caller nor any other invocation.
    pub fn handle_fallible(&self, invocation: &Invocation) -> (begun: (Flow, Action))
        ensures
            (begun.0@, begun.1@) == started(self@, invocation@),
    {
        let outcome = match invocation.command {
            Command::Play => self.cmd_play(invocation),
        };
        match outcome {
            Ok(begun) => begun,
            Err(error) => {
                let text = error.message();
                let action = Action::Respond {
                    interaction: invocation.interaction,
                    content: error_message(text.as_str()),
                };
                let flow = self.flow(invocation, Phase::ErrorReported(error), String::new());
                (flow, action)
            },
        }
    }

    /// The command to register once the connection to the chat service
    /// stands. Registering it again changes nothing.
    pub fn registration(&self) -> (registration: CommandRegistration)
        ensures
            registration@ == play_registration(self@.guild_id),
    {
        CommandRegistration {
            guild_id: self.guild_id,
            name: String::from_str("play"),
            description: String::from_str("Toca-disco"),
            argument: OptionSpec {
                name: String::from_str("a_braba"),
                description: String::from_str("Ativa o toca-disco"),
                kind: OptionKind::Text,
                required: true,
            },
        }
    }
}

} // verus!
