//! What holds of a whole invocation, from its start to its end.
//!
//! A [`World`] fixes how each action of a flow turns out. Together with the
//! handler and the invocation it determines the [`Lifecycle`]: the actions
//! that the flow asks for, in order, and the flow as it ends. The proof
//! functions of this module state what every lifecycle looks like.

use crate::error::{FlowErrorView, ResolutionErrorView};
use crate::flow::{resolved, started, step, ActionView, EventView, FlowView, PhaseView};
use crate::handler::HandlerView;
use crate::invocation::{song_query, InvocationView};
use crate::search::{youtube_request, MediaItemView, SearchOutputView};
use crate::text::{apology_text, error_text, playing_text, searching_text};
use crate::voice::{lemma_resolution, resolution, ChannelView, Resolution};
use vstd::prelude::*;

verus! {

/// How the actions of one flow turn out: whether the first response is
/// delivered, what the listing of the channels gives, whether joining
/// works and what the search answers.
pub struct World {
    pub response: Result<(), Seq<char>>,
    pub channels: Result<Seq<ChannelView>, Seq<char>>,
    pub join: Result<(), Seq<char>>,
    pub search: Result<SearchOutputView, ResolutionErrorView>,
}

/// One invocation from start to end.
pub struct Lifecycle {
    /// The actions that the flow asked for, in order.
    pub actions: Seq<ActionView>,
    /// The flow after its last action.
    pub end: FlowView,
}

/// The event that follows an action. The edit of the response is the last
/// thing a flow asks for: its outcome is fed to no one.
pub open spec fn reaction(world: World, action: ActionView) -> Option<EventView> {
    match action {
        ActionView::Respond { .. } => Some(EventView::ResponseFinished(world.response)),
        ActionView::EditResponse { .. } => None,
        ActionView::FetchChannels { .. } => Some(EventView::ChannelsFetched(world.channels)),
        ActionView::JoinVoice { .. } => Some(EventView::JoinFinished(world.join)),
        ActionView::Search(_) => Some(EventView::SearchFinished(world.search)),
    }
}

/// Number of actions that a flow in `phase` can still ask for.
pub open spec fn remaining(phase: PhaseView) -> nat {
    match phase {
        PhaseView::ArgumentsParsed => 4,
        PhaseView::InitialResponseSent => 3,
        PhaseView::Joining { .. } => 2,
        PhaseView::Searching { .. } => 1,
        PhaseView::Responded { .. } => 0,
        PhaseView::ErrorReported(_) => 0,
    }
}

/// The rest of a lifecycle: `action` is performed, its outcome is fed to
/// `flow`, and so on until the flow asks for nothing more.
pub open spec fn continued(flow: FlowView, action: ActionView, world: World) -> Lifecycle
    decreases remaining(flow.phase),
{
    match reaction(world, action) {
        None => Lifecycle { actions: seq![action], end: flow },
        Some(event) => {
            let (next, asked) = step(flow, event);
            match asked {
                Some(following) if remaining(next.phase) < remaining(flow.phase) => {
                    let rest = continued(next, following, world);
                    Lifecycle { actions: seq![action] + rest.actions, end: rest.end }
                },
                _ => Lifecycle { actions: seq![action], end: next },
            }
        },
    }
}

/// The lifecycle of `invocation` under `handler` in `world`.
pub open spec fn lifecycle(handler: HandlerView, invocation: InvocationView, world: World) -> Lifecycle {
    let (flow, action) = started(handler, invocation);
    continued(flow, action, world)
}

/// No action of the sequence joins a voice channel or starts a search.
pub open spec fn without_join_or_search(actions: Seq<ActionView>) -> bool {
    forall|i: int|
        0 <= i < actions.len() ==> !((#[trigger] actions[i]) is JoinVoice) && !(actions[i] is Search)
}

/// Every step that asks for an action brings the flow nearer to its end, so
/// that `continued` follows a flow all the way.
pub proof fn lemma_step_advances(flow: FlowView, event: EventView)
    ensures
        step(flow, event).1 is Some ==> remaining(step(flow, event).0.phase) < remaining(
            flow.phase,
        ),
        step(flow, event).1 is None ==> step(flow, event).0 == flow,
        flow.phase.finished() ==> step(flow, event) == (flow, None::<ActionView>),
{
}

/// Every lifecycle ends, after five actions at most, in a finished flow:
/// nothing that an action can turn out as leaves a flow waiting.
pub proof fn lemma_lifecycle_ends(handler: HandlerView, invocation: InvocationView, world: World)
    ensures
        lifecycle(handler, invocation, world).end.phase.finished(),
        1 <= lifecycle(handler, invocation, world).actions.len() <= 5,
{
    reveal_with_fuel(continued, 6);
}

/// An invocation without its text argument ends with the argument error.
/// Its one action is the first response that reports the error: no channel
/// is listed or joined and no search is started, whatever the world is.
pub proof fn lemma_rejected_argument(
    handler: HandlerView,
    invocation: InvocationView,
    world: World,
)
    requires
        song_query(invocation.options) is Err,
    ensures
        ({
            let error = song_query(invocation.options)->Err_0;
            let life = lifecycle(handler, invocation, world);
            &&& life.end.phase == PhaseView::ErrorReported(FlowErrorView::Argument(error))
            &&& life.actions == seq![
                ActionView::Respond {
                    interaction: invocation.interaction,
                    content: error_text(error.message_text()),
                },
            ]
            &&& without_join_or_search(life.actions)
        }),
{
    reveal_with_fuel(continued, 2);
}

/// Where the user is in no voice channel of the guild, the flow sends the
/// first response, lists the channels and ends with the apology as its one
/// edit. It joins nothing and searches nothing.
pub proof fn lemma_user_in_no_voice_channel(
    handler: HandlerView,
    invocation: InvocationView,
    world: World,
)
    requires
        song_query(invocation.options) is Ok,
        world.response is Ok,
        world.channels is Ok,
        forall|i: int|
            0 <= i < world.channels->Ok_0.len() ==> !(#[trigger] world.channels->Ok_0[i]).holds(
                invocation.user_id,
            ),
    ensures
        ({
            let life = lifecycle(handler, invocation, world);
            &&& life.end.phase == PhaseView::Responded { channel: Resolution::NotFound }
            &&& life.actions == seq![
                ActionView::Respond {
                    interaction: invocation.interaction,
                    content: searching_text(),
                },
                ActionView::FetchChannels { guild_id: invocation.guild_id },
                ActionView::EditResponse {
                    interaction: invocation.interaction,
                    content: apology_text(),
                },
            ]
            &&& without_join_or_search(life.actions)
        }),
{
    reveal_with_fuel(continued, 4);
    lemma_resolution(world.channels->Ok_0, invocation.user_id);
}

/// A flow that ends with the selected title went through every stage once:
/// it sent exactly one first response and made exactly one edit, in that
/// order, and the edit is `Playing: ` followed by the title of the item
/// that the search gave. In between it listed the channels of the
/// invocation's guild, joined in that guild the first voice channel that
/// holds the user, and searched for the query.
pub proof fn lemma_successful_flow(
    handler: HandlerView,
    invocation: InvocationView,
    world: World,
)
    requires
        lifecycle(handler, invocation, world).end.phase matches PhaseView::Responded {
            channel: Resolution::Found { .. },
        },
    ensures
        song_query(invocation.options) is Ok,
        world.response is Ok,
        world.channels is Ok,
        resolution(world.channels->Ok_0, invocation.user_id) is Found,
        resolved(world.search) is Ok,
        ({
            let life = lifecycle(handler, invocation, world);
            let query = song_query(invocation.options)->Ok_0;
            let channel = resolution(world.channels->Ok_0, invocation.user_id);
            let item = resolved(world.search)->Ok_0;
            &&& life.end.phase == PhaseView::Responded { channel }
            &&& life.actions == seq![
                ActionView::Respond {
                    interaction: invocation.interaction,
                    content: searching_text(),
                },
                ActionView::FetchChannels { guild_id: invocation.guild_id },
                ActionView::JoinVoice {
                    guild_id: invocation.guild_id,
                    channel_id: channel->channel_id,
                },
                ActionView::Search(youtube_request(query, handler.youtube_dl_path)),
                ActionView::EditResponse {
                    interaction: invocation.interaction,
                    content: playing_text(item.title),
                },
            ]
            &&& forall|i: int|
                0 <= i < life.actions.len() ==> ((#[trigger] life.actions[i]) is Respond <==> i
                    == 0)
            &&& forall|i: int|
                0 <= i < life.actions.len() ==> ((#[trigger] life.actions[i]) is EditResponse
                    <==> i == 4)
        }),
{
    reveal_with_fuel(continued, 6);
}

/// Each invocation has at most one reply: every lifecycle begins with a
/// first response, edits the response at most once, and does so only as
/// its last action. A second first response is only ever tried where the
/// first one was not delivered.
pub proof fn lemma_one_reply(handler: HandlerView, invocation: InvocationView, world: World)
    ensures
        ({
            let life = lifecycle(handler, invocation, world);
            &&& life.actions[0] is Respond
            &&& forall|i: int|
                0 <= i < life.actions.len() && (#[trigger] life.actions[i]) is EditResponse ==> i
                    == life.actions.len() - 1
            &&& forall|i: int|
                0 < i < life.actions.len() && (#[trigger] life.actions[i]) is Respond ==> i == 1
                    && world.response is Err
            &&& world.response is Ok && song_query(invocation.options) is Ok
                ==> life.actions.last() is EditResponse
        }),
{
    reveal_with_fuel(continued, 6);
}

/// A search that runs out of time ends the flow: the failure is reported
/// to the user in place of the provisional response.
pub proof fn lemma_timeout_is_reported(
    handler: HandlerView,
    invocation: InvocationView,
    world: World,
)
    requires
        song_query(invocation.options) is Ok,
        world.response is Ok,
        world.channels is Ok,
        resolution(world.channels->Ok_0, invocation.user_id) is Found,
        world.search == Err::<SearchOutputView, _>(ResolutionErrorView::TimedOut),
    ensures
        ({
            let life = lifecycle(handler, invocation, world);
            &&& life.end.phase == PhaseView::ErrorReported(
                FlowErrorView::Resolution(ResolutionErrorView::TimedOut),
            )
            &&& life.actions.len() == 5
            &&& life.actions.last() == ActionView::EditResponse {
                interaction: invocation.interaction,
                content: error_text(ResolutionErrorView::TimedOut.message_text()),
            }
        }),
{
    reveal_with_fuel(continued, 6);
}

/// A flow that searches plays the first entry of a playlist. A playlist
/// that has no entries, or came without its list, ends the flow with the
/// report of that failure.
pub proof fn lemma_playlist_selection(flow: FlowView, entries: Option<Seq<MediaItemView>>)
    requires
        flow.phase is Searching,
    ensures
        ({
            let event = EventView::SearchFinished(Ok(SearchOutputView::Playlist(entries)));
            let (next, asked) = step(flow, event);
            if entries is Some && entries->Some_0.len() > 0 {
                &&& next.phase == PhaseView::Responded {
                    channel: Resolution::Found { channel_id: flow.phase->Searching_channel_id },
                }
                &&& asked == Some(
                    ActionView::EditResponse {
                        interaction: flow.interaction,
                        content: playing_text(entries->Some_0[0].title),
                    },
                )
            } else {
                &&& next.phase == PhaseView::ErrorReported(
                    FlowErrorView::Resolution(ResolutionErrorView::EmptyPlaylist),
                )
                &&& asked == Some(
                    ActionView::EditResponse {
                        interaction: flow.interaction,
                        content: error_text(ResolutionErrorView::EmptyPlaylist.message_text()),
                    },
                )
            }
        }),
{
}

/// Whether joining worked makes no difference to what the flow does next.
pub proof fn lemma_join_outcome_is_ignored(
    flow: FlowView,
    first: Result<(), Seq<char>>,
    second: Result<(), Seq<char>>,
)
    ensures
        step(flow, EventView::JoinFinished(first)) == step(flow, EventView::JoinFinished(second)),
{
}

/// A lifecycle is made of its own invocation alone: every reply goes to
/// the invocation's interaction, the channels are listed and voice is
/// joined in its guild, and the search is for its query. Nothing in it
/// stems from another invocation, so two invocations of one user run side
/// by side without touching each other.
pub proof fn lemma_lifecycle_is_its_own(
    handler: HandlerView,
    invocation: InvocationView,
    world: World,
)
    ensures
        ({
            let life = lifecycle(handler, invocation, world);
            forall|i: int|
                0 <= i < life.actions.len() ==> match #[trigger] life.actions[i] {
                    ActionView::Respond { interaction, .. } => interaction
                        == invocation.interaction,
                    ActionView::EditResponse { interaction, .. } => interaction
                        == invocation.interaction,
                    ActionView::FetchChannels { guild_id } => guild_id == invocation.guild_id,
                    ActionView::JoinVoice { guild_id, .. } => guild_id == invocation.guild_id,
                    ActionView::Search(request) => song_query(invocation.options) is Ok
                        && request == youtube_request(
                        song_query(invocation.options)->Ok_0,
                        handler.youtube_dl_path,
                    ),
                }
        }),
{
    reveal_with_fuel(continued, 6);
}

} // verus!
