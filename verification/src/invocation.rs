//! One use of a slash command, as the chat service delivers it.

use crate::error::ArgumentError;
use vstd::prelude::*;
use vstd::string::StringExecFns;

verus! {

/// The commands that the bot registers. Routing is closed: a name that is
/// not listed here belongs to no command.
#[derive(Clone, Copy, Debug, PartialEq, Eq, Structural)]
pub enum Command {
    Play,
}

/// The value that the chat service resolved for one option of a command.
#[derive(Clone, Debug, PartialEq, Eq)]
pub enum OptionValue {
    Text(String),
    Integer(i64),
    Boolean(bool),
    /// A user, channel, role or any other kind of value.
    Other,
}

/// One option of a command; `resolved` is empty where the service sent no
/// value for it.
#[derive(Clone, Debug, PartialEq, Eq)]
pub struct CommandOption {
    pub resolved: Option<OptionValue>,
}

/// One use of a command: which interaction it is, where and by whom it was
/// issued, and its options in the order in which they were given.
#[derive(Clone, Debug, PartialEq, Eq)]
pub struct Invocation {
    /// Identifies the interaction; every reply is addressed to it.
    pub interaction: u64,
    pub guild_id: u64,
    pub user_id: u64,
    pub command: Command,
    pub options: Vec<CommandOption>,
}

impl Command {
    /// The name under which `play` is registered.
    pub open spec fn play_name() -> Seq<char> {
        "play"@
    }

    /// The command that is registered under `name`, if there is one.
    pub open spec fn named(name: Seq<char>) -> Option<Command> {
        if name == Self::play_name() {
            Some(Command::Play)
        } else {
            None
        }
    }

    /// Routes a command name: `Some` for a registered command, `None` for
    /// every other name.
    pub fn from_name(name: &str) -> (command: Option<Command>)
        ensures
            command == Self::named(name@),
    {
        if String::from_str(name) == String::from_str("play") {
            Some(Command::Play)
        } else {
            None
        }
    }
}

/// Mathematical model of an [`OptionValue`].
pub enum OptionValueView {
    Text(Seq<char>),
    Integer(i64),
    Boolean(bool),
    Other,
}

/// Mathematical model of an [`Invocation`]; each option is modelled by the
/// value that was resolved for it.
pub struct InvocationView {
    pub interaction: u64,
    pub guild_id: u64,
    pub user_id: u64,
    pub command: Command,
    pub options: Seq<Option<OptionValueView>>,
}

impl View for OptionValue {
    type V = OptionValueView;

    open spec fn view(&self) -> OptionValueView {
        match self {
            OptionValue::Text(text) => OptionValueView::Text(text@),
            OptionValue::Integer(n) => OptionValueView::Integer(*n),
            OptionValue::Boolean(b) => OptionValueView::Boolean(*b),
            OptionValue::Other => OptionValueView::Other,
        }
    }
}

impl View for CommandOption {
    type V = Option<OptionValueView>;

    open spec fn view(&self) -> Option<OptionValueView> {
        match self.resolved {
            Some(value) => Some(value@),
            None => None,
        }
    }
}

/// The models of the options of a command, in order.
pub open spec fn options_view(options: Seq<CommandOption>) -> Seq<Option<OptionValueView>> {
    options.map_values(|option: CommandOption| option@)
}

impl View for Invocation {
    type V = InvocationView;

    open spec fn view(&self) -> InvocationView {
        InvocationView {
            interaction: self.interaction,
            guild_id: self.guild_id,
            user_id: self.user_id,
            command: self.command,
            options: options_view(self.options@),
        }
    }
}

/// The song query among the options of a command: the text of the first
/// option. Without a first option the argument is missing; a first option
/// that holds no text is invalid.
pub open spec fn song_query(options: Seq<Option<OptionValueView>>) -> Result<
    Seq<char>,
    ArgumentError,
> {
    if options.len() == 0 {
        Err(ArgumentError::Missing)
    } else {
        match options[0] {
            Some(OptionValueView::Text(text)) => Ok(text),
            _ => Err(ArgumentError::Invalid),
        }
    }
}

/// The model of an extracted argument.
pub open spec fn query_view(outcome: Result<String, ArgumentError>) -> Result<
    Seq<char>,
    ArgumentError,
> {
    match outcome {
        Ok(text) => Ok(text@),
        Err(e) => Err(e),
    }
}

impl Invocation {
    /// Extracts the required argument, the song query.
    pub fn song_query(&self) -> (outcome: Result<String, ArgumentError>)
        ensures
            query_view(outcome) == song_query(self@.options),
    {
        if self.options.len() == 0 {
            return Err(ArgumentError::Missing);
        }
        assert(self@.options[0] == self.options@[0]@);
        match &self.options[0].resolved {
            Some(OptionValue::Text(text)) => Ok(text.clone()),
            _ => Err(ArgumentError::Invalid),
        }
    }
}

} // verus!
