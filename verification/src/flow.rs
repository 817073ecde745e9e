//! The lifecycle of one invocation of `play`, as a state machine.
//!
//! A flow never performs anything itself. It hands out an [`Action`], the
//! program around the library performs it and feeds the outcome back as an
//! [`Event`], and the flow answers with the next action:
//!
//! ```text
//! ArgumentsParsed --first response delivered--> InitialResponseSent
//! InitialResponseSent --user found in a voice channel--> Joining
//! InitialResponseSent --user in no voice channel--> Responded
//! Joining --> Searching --item selected--> Responded
//! ```
//!
//! An invocation that was received and not yet taken up is the
//! [`Invocation`](crate::invocation::Invocation) itself; taking it up parses
//! its argument and gives the flow. Whether the user's channel was found is
//! a [`Resolution`], which `Joining`, `Searching` and `Responded` carry on.
//!
//! Every failure leads to `ErrorReported`. `Responded` and `ErrorReported`
//! are final: a finished flow answers no event, and nothing is tried twice.
//! An invocation whose argument is missing or invalid starts in
//! `ErrorReported`.

use crate::error::{FlowError, FlowErrorView, ResolutionError, ResolutionErrorView};
use crate::handler::HandlerView;
use crate::invocation::{song_query, InvocationView};
use crate::search::{
    select_item, selected, youtube_request, MediaItemView, SearchOutput, SearchOutputView,
    SearchRequest, SearchRequestView,
};
use crate::text::{
    apology_message, apology_text, error_message, error_text, playing_message, playing_text,
    searching_text,
};
use crate::voice::{
    channels_view, find_voice_channel, resolution, Channel, ChannelView, Resolution,
};
use vstd::prelude::*;

verus! {

/// Where a flow stands.
#[derive(Clone, Debug, PartialEq, Eq)]
pub enum Phase {
    /// The query is known and the first response is on its way.
    ArgumentsParsed,
    /// The first response was delivered; the guild's channels are being listed.
    InitialResponseSent,
    /// The user's voice channel is known and is being joined.
    Joining { channel_id: u64 },
    /// The media index is being searched.
    Searching { channel_id: u64 },
    /// The flow ended with its one edit of the response: the selected title
    /// where a channel was found, the apology where none was.
    Responded { channel: Resolution },
    /// The flow ended with the report of a failure.
    ErrorReported(FlowError),
}

/// One invocation on its way. Each flow owns its query and the interaction
/// that its replies go to; flows share nothing.
#[derive(Clone, Debug, PartialEq, Eq)]
pub struct Flow {
    pub phase: Phase,
    /// The interaction that every reply of this flow is addressed to.
    pub interaction: u64,
    /// The guild in which the command was issued: its channels are
    /// listed, and voice is joined in it.
    pub guild_id: u64,
    /// The user who issued the command.
    pub user_id: u64,
    /// Path of the search tool's executable.
    pub program: String,
    /// The song query; empty where the argument was rejected.
    pub query: String,
}

/// What the program around the library is asked to do next.
#[derive(Clone, Debug, PartialEq, Eq)]
pub enum Action {
    /// Send the first response to the interaction.
    Respond { interaction: u64, content: String },
    /// Replace the content of the first response.
    EditResponse { interaction: u64, content: String },
    /// List the guild's channels, each voice channel with its members.
    FetchChannels { guild_id: u64 },
    /// Join a voice channel of the guild whose channels were listed.
    JoinVoice { guild_id: u64, channel_id: u64 },
    /// Run the media search.
    Search(SearchRequest),
}

/// The outcome of an action, each failure with the text that came with it.
#[derive(Debug, PartialEq, Eq)]
pub enum Event {
    /// Outcome of `Respond`.
    ResponseFinished(Result<(), String>),
    /// Outcome of `FetchChannels`, in the order of the listing.
    ChannelsFetched(Result<Vec<Channel>, String>),
    /// Outcome of `JoinVoice`.
    JoinFinished(Result<(), String>),
    /// Outcome of `Search`.
    SearchFinished(Result<SearchOutput, ResolutionError>),
}

/// Mathematical model of a [`Phase`].
pub enum PhaseView {
    ArgumentsParsed,
    InitialResponseSent,
    Joining { channel_id: u64 },
    Searching { channel_id: u64 },
    Responded { channel: Resolution },
    ErrorReported(FlowErrorView),
}

/// Mathematical model of a [`Flow`].
pub struct FlowView {
    pub phase: PhaseView,
    pub interaction: u64,
    pub guild_id: u64,
    pub user_id: u64,
    pub program: Seq<char>,
    pub query: Seq<char>,
}

/// Mathematical model of an [`Action`].
pub enum ActionView {
    Respond { interaction: u64, content: Seq<char> },
    EditResponse { interaction: u64, content: Seq<char> },
    FetchChannels { guild_id: u64 },
    JoinVoice { guild_id: u64, channel_id: u64 },
    Search(SearchRequestView),
}

/// Mathematical model of an [`Event`].
pub enum EventView {
    ResponseFinished(Result<(), Seq<char>>),
    ChannelsFetched(Result<Seq<ChannelView>, Seq<char>>),
    JoinFinished(Result<(), Seq<char>>),
    SearchFinished(Result<SearchOutputView, ResolutionErrorView>),
}

impl View for Phase {
    type V = PhaseView;

    open spec fn view(&self) -> PhaseView {
        match self {
            Phase::ArgumentsParsed => PhaseView::ArgumentsParsed,
            Phase::InitialResponseSent => PhaseView::InitialResponseSent,
            Phase::Joining { channel_id } => PhaseView::Joining { channel_id: *channel_id },
            Phase::Searching { channel_id } => PhaseView::Searching { channel_id: *channel_id },
            Phase::Responded { channel } => PhaseView::Responded { channel: *channel },
            Phase::ErrorReported(e) => PhaseView::ErrorReported(e@),
        }
    }
}

impl View for Flow {
    type V = FlowView;

    open spec fn view(&self) -> FlowView {
        FlowView {
            phase: self.phase@,
            interaction: self.interaction,
            guild_id: self.guild_id,
            user_id: self.user_id,
            program: self.program@,
            query: self.query@,
        }
    }
}

impl View for Action {
    type V = ActionView;

    open spec fn view(&self) -> ActionView {
        match self {
            Action::Respond { interaction, content } => ActionView::Respond {
                interaction: *interaction,
                content: content@,
            },
            Action::EditResponse { interaction, content } => ActionView::EditResponse {
                interaction: *interaction,
                content: content@,
            },
            Action::FetchChannels { guild_id } => ActionView::FetchChannels {
                guild_id: *guild_id,
            },
            Action::JoinVoice { guild_id, channel_id } => ActionView::JoinVoice {
                guild_id: *guild_id,
                channel_id: *channel_id,
            },
            Action::Search(request) => ActionView::Search(request@),
        }
    }
}

/// The model of an outcome that carries nothing but a failure's text.
pub open spec fn unit_outcome_view(outcome: Result<(), String>) -> Result<(), Seq<char>> {
    match outcome {
        Ok(_) => Ok(()),
        Err(text) => Err(text@),
    }
}

impl View for Event {
    type V = EventView;

    open spec fn view(&self) -> EventView {
        match self {
            Event::ResponseFinished(outcome) => EventView::ResponseFinished(
                unit_outcome_view(*outcome),
            ),
            Event::ChannelsFetched(Ok(channels)) => EventView::ChannelsFetched(
                Ok(channels_view(channels@)),
            ),
            Event::ChannelsFetched(Err(text)) => EventView::ChannelsFetched(Err(text@)),
            Event::JoinFinished(outcome) => EventView::JoinFinished(unit_outcome_view(*outcome)),
            Event::SearchFinished(Ok(output)) => EventView::SearchFinished(Ok(output@)),
            Event::SearchFinished(Err(e)) => EventView::SearchFinished(Err(e@)),
        }
    }
}

/// The model of an optional action.
pub open spec fn next_view(action: Option<Action>) -> Option<ActionView> {
    match action {
        Some(a) => Some(a@),
        None => None,
    }
}

impl PhaseView {
    /// The flow has ended: it answers no further event.
    pub open spec fn finished(self) -> bool {
        self is Responded || self is ErrorReported
    }
}

/// The item that a finished search gives: the selection from its answer, or
/// the failure that the search ended with.
pub open spec fn resolved(
    outcome: Result<SearchOutputView, ResolutionErrorView>,
) -> Result<MediaItemView, ResolutionErrorView> {
    match outcome {
        Ok(output) => selected(output),
        Err(e) => Err(e),
    }
}

/// The flow `flow` in another phase.
pub open spec fn moved(flow: FlowView, phase: PhaseView) -> FlowView {
    FlowView { phase, ..flow }
}

/// The end of a flow by a failure, and the action that reports it. The
/// report replaces the first response where that was delivered (`edit`),
/// and is sent as the first response where it was not.
pub open spec fn failed(flow: FlowView, error: FlowErrorView, edit: bool) -> (
    FlowView,
    Option<ActionView>,
) {
    let content = error_text(error.message_text());
    (
        moved(flow, PhaseView::ErrorReported(error)),
        Some(
            if edit {
                ActionView::EditResponse { interaction: flow.interaction, content }
            } else {
                ActionView::Respond { interaction: flow.interaction, content }
            },
        ),
    )
}

/// How an invocation starts. With a song query the flow sends the
/// provisional first response; without one it ends at once and reports the
/// argument error as its first response.
pub open spec fn started(handler: HandlerView, invocation: InvocationView) -> (
    FlowView,
    ActionView,
) {
    let flow = FlowView {
        phase: PhaseView::ArgumentsParsed,
        interaction: invocation.interaction,
        guild_id: invocation.guild_id,
        user_id: invocation.user_id,
        program: handler.youtube_dl_path,
        query: Seq::empty(),
    };
    match song_query(invocation.options) {
        Ok(query) => (
            FlowView { query, ..flow },
            ActionView::Respond { interaction: flow.interaction, content: searching_text() },
        ),
        Err(e) => (
            moved(flow, PhaseView::ErrorReported(FlowErrorView::Argument(e))),
            ActionView::Respond {
                interaction: flow.interaction,
                content: error_text(e.message_text()),
            },
        ),
    }
}

/// One transition: the flow after `event` and the action that it asks for.
/// An event that the flow is not waiting for changes nothing and asks for
/// nothing. Whether joining succeeded makes no difference to the flow.
pub open spec fn step(flow: FlowView, event: EventView) -> (FlowView, Option<ActionView>) {
    match (flow.phase, event) {
        (PhaseView::ArgumentsParsed, EventView::ResponseFinished(Ok(_))) => (
            moved(flow, PhaseView::InitialResponseSent),
            Some(ActionView::FetchChannels { guild_id: flow.guild_id }),
        ),
        (PhaseView::ArgumentsParsed, EventView::ResponseFinished(Err(text))) => failed(
            flow,
            FlowErrorView::Response(text),
            false,
        ),
        (PhaseView::InitialResponseSent, EventView::ChannelsFetched(Ok(channels))) => {
            match resolution(channels, flow.user_id) {
                Resolution::Found { channel_id } => (
                    moved(flow, PhaseView::Joining { channel_id }),
                    Some(ActionView::JoinVoice { guild_id: flow.guild_id, channel_id }),
                ),
                Resolution::NotFound => (
                    moved(flow, PhaseView::Responded { channel: Resolution::NotFound }),
                    Some(
                        ActionView::EditResponse {
                            interaction: flow.interaction,
                            content: apology_text(),
                        },
                    ),
                ),
            }
        },
        (PhaseView::InitialResponseSent, EventView::ChannelsFetched(Err(text))) => failed(
            flow,
            FlowErrorView::ChannelLookup(text),
            true,
        ),
        (PhaseView::Joining { channel_id }, EventView::JoinFinished(_)) => (
            moved(flow, PhaseView::Searching { channel_id }),
            Some(ActionView::Search(youtube_request(flow.query, flow.program))),
        ),
        (PhaseView::Searching { channel_id }, EventView::SearchFinished(outcome)) => {
            match resolved(outcome) {
                Ok(item) => (
                    moved(
                        flow,
                        PhaseView::Responded { channel: Resolution::Found { channel_id } },
                    ),
                    Some(
                        ActionView::EditResponse {
                            interaction: flow.interaction,
                            content: playing_text(item.title),
                        },
                    ),
                ),
                Err(e) => failed(flow, FlowErrorView::Resolution(e), true),
            }
        },
        _ => (flow, None),
    }
}

impl Flow {
    /// Whether the flow has ended. A finished flow answers no event.
    pub fn is_finished(&self) -> (done: bool)
        ensures
            done == self@.phase.finished(),
    {
        match self.phase {
            Phase::Responded { .. } => true,
            Phase::ErrorReported(_) => true,
            _ => false,
        }
    }

    /// Ends the flow by `error` and gives the action that reports it.
    fn fail(&mut self, error: FlowError, edit: bool) -> (action: Option<Action>)
        ensures
            (final(self)@, next_view(action)) == failed(old(self)@, error@, edit),
    {
        let text = error.message();
        let content = error_message(text.as_str());
        self.phase = Phase::ErrorReported(error);
        if edit {
            Some(Action::EditResponse { interaction: self.interaction, content })
        } else {
            Some(Action::Respond { interaction: self.interaction, content })
        }
    }

    /// Takes the outcome of the action that the flow asked for last and
    /// gives the next action, or `None` where nothing is left to do or the
    /// event is not the one that the flow is waiting for.
    pub fn step(&mut self, event: Event) -> (action: Option<Action>)
        ensures
            (final(self)@, next_view(action)) == step(old(self)@, event@),
    {
        match event {
            Event::ResponseFinished(outcome) => {
                match self.phase {
                    Phase::ArgumentsParsed => {},
                    _ => {
                        return None;
                    },
                }
                match outcome {
                    Ok(_) => {
                        self.phase = Phase::InitialResponseSent;
                        Some(Action::FetchChannels { guild_id: self.guild_id })
                    },
                    Err(text) => self.fail(FlowError::Response(text), false),
                }
            },
            Event::ChannelsFetched(outcome) => {
                match self.phase {
                    Phase::InitialResponseSent => {},
                    _ => {
                        return None;
                    },
                }
                match outcome {
                    Ok(channels) => {
                        match find_voice_channel(&channels, self.user_id) {
                            Resolution::Found { channel_id } => {
                                self.phase = Phase::Joining { channel_id };
                                Some(Action::JoinVoice { guild_id: self.guild_id, channel_id })
                            },
                            Resolution::NotFound => {
                                self.phase = Phase::Responded { channel: Resolution::NotFound };
                                Some(
                                    Action::EditResponse {
                                        interaction: self.interaction,
                                        content: apology_message(),
                                    },
                                )
                            },
                        }
                    },
                    Err(text) => self.fail(FlowError::ChannelLookup(text), true),
                }
            },
            Event::JoinFinished(_) => {
                let channel_id = match self.phase {
                    Phase::Joining { channel_id } => channel_id,
                    _ => {
                        return None;
                    },
                };
                self.phase = Phase::Searching { channel_id };
                Some(
                    Action::Search(
                        SearchRequest::youtube(self.query.as_str(), self.program.as_str()),
                    ),
                )
            },
            Event::SearchFinished(outcome) => {
                let channel_id = match self.phase {
                    Phase::Searching { channel_id } => channel_id,
                    _ => {
                        return None;
                    },
                };
                let selection = match outcome {
                    Ok(output) => select_item(output),
                    Err(e) => Err(e),
                };
                match selection {
                    Ok(item) => {
                        self.phase = Phase::Responded {
                            channel: Resolution::Found { channel_id },
                        };
                        Some(
                            Action::EditResponse {
                                interaction: self.interaction,
                                content: playing_message(item.title.as_str()),
                            },
                        )
                    },
                    Err(e) => self.fail(FlowError::Resolution(e), true),
                }
            },
        }
    }
}

} // verus!
