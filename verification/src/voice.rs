//! Finding the voice channel that the invoking user sits in.
//!
//! The guild's channels arrive as a snapshot taken at the moment of the
//! invocation, in the order in which the chat service listed them. Nothing is
//! kept between invocations.

use vstd::prelude::*;

verus! {

/// What a channel is used for. Only voice channels can be joined.
#[derive(Clone, Copy, Debug, PartialEq, Eq, Structural)]
pub enum ChannelKind {
    Text,
    Voice,
    Category,
    Other,
}

/// One channel of the guild with the users that are connected to it.
#[derive(Clone, Debug, PartialEq, Eq)]
pub struct Channel {
    pub id: u64,
    pub kind: ChannelKind,
    pub members: Vec<u64>,
}

/// Outcome of looking for the user's voice channel.
#[derive(Clone, Copy, Debug, PartialEq, Eq, Structural)]
pub enum Resolution {
    Found { channel_id: u64 },
    NotFound,
}

/// Mathematical model of a [`Channel`].
pub struct ChannelView {
    pub id: u64,
    pub kind: ChannelKind,
    pub members: Seq<u64>,
}

impl View for Channel {
    type V = ChannelView;

    open spec fn view(&self) -> ChannelView {
        ChannelView { id: self.id, kind: self.kind, members: self.members@ }
    }
}

/// The models of the channels of a listing, in order.
pub open spec fn channels_view(channels: Seq<Channel>) -> Seq<ChannelView> {
    channels.map_values(|channel: Channel| channel@)
}

impl ChannelView {
    /// The channel is a voice channel and `user` is one of its members.
    pub open spec fn holds(self, user: u64) -> bool {
        self.kind == ChannelKind::Voice && self.members.contains(user)
    }
}

impl Channel {
    /// Whether the channel is a voice channel with `user` among its members.
    pub fn has_member(&self, user: u64) -> (found: bool)
        ensures
            found == self@.holds(user),
    {
        match self.kind {
            ChannelKind::Voice => {},
            _ => {
                return false;
            },
        }
        let mut i: usize = 0;
        while i < self.members.len()
            invariant
                self.kind == ChannelKind::Voice,
                i <= self.members.len(),
                forall|j: int| 0 <= j < i ==> self.members@[j] != user,
            decreases self.members.len() - i,
        {
            if self.members[i] == user {
                assert(self.members@[i as int] == user);
                return true;
            }
            i += 1;
        }
        false
    }
}

/// Index of the first channel at or after `start` that holds `user`.
pub open spec fn first_holding_from(channels: Seq<ChannelView>, user: u64, start: int) -> Option<int>
    decreases channels.len() - start,
{
    if start < 0 || start >= channels.len() {
        None
    } else if channels[start].holds(user) {
        Some(start)
    } else {
        first_holding_from(channels, user, start + 1)
    }
}

/// Index of the first channel, in listing order, that holds `user`.
pub open spec fn first_holding(channels: Seq<ChannelView>, user: u64) -> Option<int> {
    first_holding_from(channels, user, 0)
}

/// The channel that the flow joins for `user`: the first one, in listing
/// order, that holds the user.
pub open spec fn resolution(channels: Seq<ChannelView>, user: u64) -> Resolution {
    match first_holding(channels, user) {
        Some(i) => Resolution::Found { channel_id: channels[i].id },
        None => Resolution::NotFound,
    }
}

/// `first_holding_from` returns the least index from `start` on whose channel
/// holds the user, and `None` exactly when there is no such index.
pub proof fn lemma_first_holding_from(channels: Seq<ChannelView>, user: u64, start: int)
    requires
        0 <= start,
    ensures
        match first_holding_from(channels, user, start) {
            Some(i) => start <= i < channels.len() && channels[i].holds(user) && forall|j: int|
                start <= j < i ==> !(#[trigger] channels[j]).holds(user),
            None => forall|j: int|
                start <= j < channels.len() ==> !(#[trigger] channels[j]).holds(user),
        },
    decreases channels.len() - start,
{
    if start < channels.len() && !channels[start].holds(user) {
        lemma_first_holding_from(channels, user, start + 1);
    }
}

/// The resolution names the first channel, in listing order, that holds the
/// user; it is `NotFound` exactly when no channel holds the user.
pub proof fn lemma_resolution(channels: Seq<ChannelView>, user: u64)
    ensures
        match resolution(channels, user) {
            Resolution::Found { channel_id } => exists|i: int|
                0 <= i < channels.len() && channels[i].id == channel_id
                    && (#[trigger] channels[i]).holds(user) && forall|j: int|
                    0 <= j < i ==> !(#[trigger] channels[j]).holds(user),
            Resolution::NotFound => forall|j: int|
                0 <= j < channels.len() ==> !(#[trigger] channels[j]).holds(user),
        },
{
    lemma_first_holding_from(channels, user, 0);
}

/// Looks for the voice channel that `user` is connected to. Of several such
/// channels the one listed first wins.
pub fn find_voice_channel(channels: &Vec<Channel>, user: u64) -> (found: Resolution)
    ensures
        found == resolution(channels_view(channels@), user),
{
    let ghost listed = channels_view(channels@);
    let mut i: usize = 0;
    while i < channels.len()
        invariant
            i <= channels.len(),
            listed == channels_view(channels@),
            first_holding(listed, user) == first_holding_from(listed, user, i as int),
        decreases channels.len() - i,
    {
        assert(listed[i as int] == channels@[i as int]@);
        if channels[i].has_member(user) {
            return Resolution::Found { channel_id: channels[i].id };
        }
        i += 1;
    }
    Resolution::NotFound
}

} // verus!
