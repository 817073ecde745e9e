use nickbot::error::{ArgumentError, FlowError, ResolutionError};
use nickbot::flow::{Action, Event, Flow, Phase};
use nickbot::handler::Handler;
use nickbot::invocation::{Command, CommandOption, Invocation, OptionValue};
use nickbot::search::{MediaItem, SearchOutput, SearchRequest};
use nickbot::voice::{Channel, ChannelKind, Resolution};

const GUILD: u64 = 7;
const USER: u64 = 42;
const GENERAL_VOICE: u64 = 301;

fn handler() -> Handler {
    Handler::new(GUILD, 9, String::from("/usr/bin/youtube-dl"))
}

fn play(interaction: u64, query: &str) -> Invocation {
    Invocation {
        interaction,
        guild_id: GUILD,
        user_id: USER,
        command: Command::Play,
        options: vec![CommandOption {
            resolved: Some(OptionValue::Text(String::from(query))),
        }],
    }
}

fn item(id: &str, title: &str) -> MediaItem {
    MediaItem {
        id: String::from(id),
        title: String::from(title),
    }
}

fn guild_with_user_in_voice() -> Vec<Channel> {
    vec![
        Channel {
            id: 300,
            kind: ChannelKind::Text,
            members: vec![USER, 5],
        },
        Channel {
            id: GENERAL_VOICE,
            kind: ChannelKind::Voice,
            members: vec![5, USER],
        },
    ]
}

fn guild_without_user() -> Vec<Channel> {
    vec![
        Channel {
            id: 300,
            kind: ChannelKind::Text,
            members: vec![USER],
        },
        Channel {
            id: GENERAL_VOICE,
            kind: ChannelKind::Voice,
            members: vec![5, 6],
        },
    ]
}

fn respond(interaction: u64, content: &str) -> Action {
    Action::Respond {
        interaction,
        content: String::from(content),
    }
}

fn edit(interaction: u64, content: &str) -> Action {
    Action::EditResponse {
        interaction,
        content: String::from(content),
    }
}

/// Drives a flow up to the point where the search has been asked for.
fn flow_at_search(interaction: u64, query: &str) -> Flow {
    let (mut flow, _) = handler().handle_fallible(&play(interaction, query));
    flow.step(Event::ResponseFinished(Ok(())));
    flow.step(Event::ChannelsFetched(Ok(guild_with_user_in_voice())));
    flow.step(Event::JoinFinished(Ok(())));
    assert_eq!(
        flow.phase,
        Phase::Searching {
            channel_id: GENERAL_VOICE
        }
    );
    flow
}

#[test]
fn single_video_is_played_in_the_users_channel() {
    let (mut flow, first) = handler().handle_fallible(&play(1, "lofi hip hop"));
    assert_eq!(first, respond(1, "searching..."));
    assert_eq!(flow.phase, Phase::ArgumentsParsed);
    assert!(!flow.is_finished());

    let second = flow.step(Event::ResponseFinished(Ok(())));
    assert_eq!(second, Some(Action::FetchChannels { guild_id: GUILD }));
    assert_eq!(flow.phase, Phase::InitialResponseSent);

    let third = flow.step(Event::ChannelsFetched(Ok(guild_with_user_in_voice())));
    assert_eq!(
        third,
        Some(Action::JoinVoice {
            guild_id: GUILD,
            channel_id: GENERAL_VOICE
        })
    );
    assert_eq!(
        flow.phase,
        Phase::Joining {
            channel_id: GENERAL_VOICE
        }
    );

    let fourth = flow.step(Event::JoinFinished(Ok(())));
    assert_eq!(
        fourth,
        Some(Action::Search(SearchRequest {
            term: String::from("ytsearch1:lofi hip hop"),
            program: String::from("/usr/bin/youtube-dl"),
            timeout_secs: 15,
        }))
    );

    let fifth = flow.step(Event::SearchFinished(Ok(SearchOutput::SingleVideo(item(
        "abc",
        "lofi hip hop radio",
    )))));
    assert_eq!(fifth, Some(edit(1, "Playing: lofi hip hop radio")));
    assert_eq!(
        flow.phase,
        Phase::Responded {
            channel: Resolution::Found {
                channel_id: GENERAL_VOICE
            }
        }
    );
    assert!(flow.is_finished());
}

#[test]
fn user_in_no_voice_channel_gets_the_apology() {
    let (mut flow, first) = handler().handle_fallible(&play(2, "x"));
    assert_eq!(first, respond(2, "searching..."));
    assert_eq!(
        flow.step(Event::ResponseFinished(Ok(()))),
        Some(Action::FetchChannels { guild_id: GUILD })
    );
    let last = flow.step(Event::ChannelsFetched(Ok(guild_without_user())));
    assert_eq!(last, Some(edit(2, "Você não está em um canal de voz")));
    assert_eq!(
        flow.phase,
        Phase::Responded {
            channel: Resolution::NotFound
        }
    );
    assert!(flow.is_finished());
    assert_eq!(flow.step(Event::JoinFinished(Ok(()))), None);
    assert_eq!(
        flow.step(Event::SearchFinished(Ok(SearchOutput::SingleVideo(item("a", "b"))))),
        None
    );
}

#[test]
fn guild_without_channels_gets_the_apology() {
    let (mut flow, _) = handler().handle_fallible(&play(2, "x"));
    flow.step(Event::ResponseFinished(Ok(())));
    let last = flow.step(Event::ChannelsFetched(Ok(Vec::new())));
    assert_eq!(last, Some(edit(2, "Você não está em um canal de voz")));
}

#[test]
fn missing_argument_is_reported_and_nothing_else_happens() {
    let mut invocation = play(3, "unused");
    invocation.options = Vec::new();
    let (mut flow, first) = handler().handle_fallible(&invocation);
    assert_eq!(first, respond(3, "Error: Command requires argument #1"));
    assert_eq!(
        flow.phase,
        Phase::ErrorReported(FlowError::Argument(ArgumentError::Missing))
    );
    assert!(flow.is_finished());
    assert_eq!(flow.step(Event::ResponseFinished(Ok(()))), None);
    assert_eq!(
        flow.step(Event::ChannelsFetched(Ok(guild_with_user_in_voice()))),
        None
    );
    assert_eq!(flow.step(Event::JoinFinished(Ok(()))), None);
    assert_eq!(
        flow.phase,
        Phase::ErrorReported(FlowError::Argument(ArgumentError::Missing))
    );
}

#[test]
fn argument_of_another_type_is_invalid() {
    let mut invocation = play(3, "unused");
    invocation.options = vec![CommandOption {
        resolved: Some(OptionValue::Integer(5)),
    }];
    let (flow, first) = handler().handle_fallible(&invocation);
    assert_eq!(first, respond(3, "Error: Invalid argument #1"));
    assert_eq!(
        flow.phase,
        Phase::ErrorReported(FlowError::Argument(ArgumentError::Invalid))
    );
}

#[test]
fn unresolved_argument_is_invalid() {
    let mut invocation = play(3, "unused");
    invocation.options = vec![CommandOption { resolved: None }];
    assert_eq!(invocation.song_query(), Err(ArgumentError::Invalid));
    let outcome = handler().cmd_play(&invocation);
    assert_eq!(
        outcome,
        Err(FlowError::Argument(ArgumentError::Invalid))
    );
}

#[test]
fn only_the_first_option_is_the_query() {
    let mut invocation = play(3, "first");
    invocation.options.push(CommandOption {
        resolved: Some(OptionValue::Text(String::from("second"))),
    });
    assert_eq!(invocation.song_query(), Ok(String::from("first")));
    invocation.options = vec![
        CommandOption {
            resolved: Some(OptionValue::Boolean(true)),
        },
        CommandOption {
            resolved: Some(OptionValue::Text(String::from("second"))),
        },
    ];
    assert_eq!(invocation.song_query(), Err(ArgumentError::Invalid));
}

#[test]
fn cmd_play_starts_the_flow_with_the_query() {
    let (flow, action) = handler().cmd_play(&play(8, "song")).unwrap();
    assert_eq!(action, respond(8, "searching..."));
    assert_eq!(
        flow,
        Flow {
            phase: Phase::ArgumentsParsed,
            interaction: 8,
            guild_id: GUILD,
            user_id: USER,
            program: String::from("/usr/bin/youtube-dl"),
            query: String::from("song"),
        }
    );
}

#[test]
fn rejected_first_response_ends_the_flow() {
    let (mut flow, _) = handler().handle_fallible(&play(4, "x"));
    let next = flow.step(Event::ResponseFinished(Err(String::from(
        "Interaction has already been acknowledged.",
    ))));
    assert_eq!(
        next,
        Some(respond(
            4,
            "Error: Interaction has already been acknowledged."
        ))
    );
    assert_eq!(
        flow.phase,
        Phase::ErrorReported(FlowError::Response(String::from(
            "Interaction has already been acknowledged."
        )))
    );
    assert_eq!(flow.step(Event::ResponseFinished(Ok(()))), None);
}

#[test]
fn failed_channel_listing_is_reported_by_an_edit() {
    let (mut flow, _) = handler().handle_fallible(&play(4, "x"));
    flow.step(Event::ResponseFinished(Ok(())));
    let next = flow.step(Event::ChannelsFetched(Err(String::from("Missing Access"))));
    assert_eq!(next, Some(edit(4, "Error: Missing Access")));
    assert_eq!(
        flow.phase,
        Phase::ErrorReported(FlowError::ChannelLookup(String::from("Missing Access")))
    );
}

#[test]
fn failed_join_does_not_stop_the_search() {
    let (mut flow, _) = handler().handle_fallible(&play(5, "song"));
    flow.step(Event::ResponseFinished(Ok(())));
    flow.step(Event::ChannelsFetched(Ok(guild_with_user_in_voice())));
    let next = flow.step(Event::JoinFinished(Err(String::from("no voice gateway"))));
    assert_eq!(
        next,
        Some(Action::Search(SearchRequest {
            term: String::from("ytsearch1:song"),
            program: String::from("/usr/bin/youtube-dl"),
            timeout_secs: 15,
        }))
    );
    assert_eq!(
        flow.phase,
        Phase::Searching {
            channel_id: GENERAL_VOICE
        }
    );
}

#[test]
fn playlist_plays_its_first_entry() {
    let mut flow = flow_at_search(6, "mix");
    let entries = vec![item("1", "first song"), item("2", "second song")];
    let last = flow.step(Event::SearchFinished(Ok(SearchOutput::Playlist(Some(
        entries,
    )))));
    assert_eq!(last, Some(edit(6, "Playing: first song")));
    assert!(flow.is_finished());
}

#[test]
fn empty_playlist_is_a_resolution_error() {
    let mut flow = flow_at_search(6, "mix");
    let last = flow.step(Event::SearchFinished(Ok(SearchOutput::Playlist(Some(
        Vec::new(),
    )))));
    assert_eq!(last, Some(edit(6, "Error: playlist has no entries")));
    assert_eq!(
        flow.phase,
        Phase::ErrorReported(FlowError::Resolution(ResolutionError::EmptyPlaylist))
    );
}

#[test]
fn playlist_without_entry_list_is_a_resolution_error() {
    let mut flow = flow_at_search(6, "mix");
    let last = flow.step(Event::SearchFinished(Ok(SearchOutput::Playlist(None))));
    assert_eq!(last, Some(edit(6, "Error: playlist has no entries")));
    assert_eq!(
        flow.phase,
        Phase::ErrorReported(FlowError::Resolution(ResolutionError::EmptyPlaylist))
    );
}

#[test]
fn search_timeout_is_reported() {
    let mut flow = flow_at_search(6, "slow");
    let last = flow.step(Event::SearchFinished(Err(ResolutionError::TimedOut)));
    assert_eq!(last, Some(edit(6, "Error: search timed out")));
    assert_eq!(
        flow.phase,
        Phase::ErrorReported(FlowError::Resolution(ResolutionError::TimedOut))
    );
    assert!(flow.is_finished());
}

#[test]
fn search_failure_is_reported_with_its_text() {
    let mut flow = flow_at_search(6, "gone");
    let last = flow.step(Event::SearchFinished(Err(ResolutionError::SearchFailed(
        String::from("non-zero exit code: 1, stderr: ERROR: not found"),
    ))));
    assert_eq!(
        last,
        Some(edit(
            6,
            "Error: non-zero exit code: 1, stderr: ERROR: not found"
        ))
    );
    assert_eq!(
        flow.phase,
        Phase::ErrorReported(FlowError::Resolution(ResolutionError::SearchFailed(
            String::from("non-zero exit code: 1, stderr: ERROR: not found")
        )))
    );
}

#[test]
fn event_that_is_not_awaited_changes_nothing() {
    let (mut flow, _) = handler().handle_fallible(&play(7, "x"));
    let before = flow.clone();
    assert_eq!(
        flow.step(Event::ChannelsFetched(Ok(guild_with_user_in_voice()))),
        None
    );
    assert_eq!(flow.step(Event::JoinFinished(Ok(()))), None);
    assert_eq!(
        flow.step(Event::SearchFinished(Err(ResolutionError::TimedOut))),
        None
    );
    assert_eq!(flow, before);

    flow.step(Event::ResponseFinished(Ok(())));
    let waiting = flow.clone();
    assert_eq!(flow.step(Event::ResponseFinished(Ok(()))), None);
    assert_eq!(flow, waiting);
}

#[test]
fn two_invocations_of_one_user_do_not_mix() {
    let handler = handler();
    let (mut first, first_reply) = handler.handle_fallible(&play(10, "first song"));
    let (mut second, second_reply) = handler.handle_fallible(&play(11, "second song"));
    assert_eq!(first_reply, respond(10, "searching..."));
    assert_eq!(second_reply, respond(11, "searching..."));

    first.step(Event::ResponseFinished(Ok(())));
    second.step(Event::ResponseFinished(Ok(())));
    second.step(Event::ChannelsFetched(Ok(guild_with_user_in_voice())));
    first.step(Event::ChannelsFetched(Ok(guild_with_user_in_voice())));
    let first_search = first.step(Event::JoinFinished(Ok(())));
    let second_search = second.step(Event::JoinFinished(Ok(())));
    assert_eq!(
        first_search,
        Some(Action::Search(SearchRequest {
            term: String::from("ytsearch1:first song"),
            program: String::from("/usr/bin/youtube-dl"),
            timeout_secs: 15,
        }))
    );
    assert_eq!(
        second_search,
        Some(Action::Search(SearchRequest {
            term: String::from("ytsearch1:second song"),
            program: String::from("/usr/bin/youtube-dl"),
            timeout_secs: 15,
        }))
    );

    let second_last =
        second.step(Event::SearchFinished(Ok(SearchOutput::SingleVideo(item("b", "B")))));
    let first_last =
        first.step(Event::SearchFinished(Ok(SearchOutput::SingleVideo(item("a", "A")))));
    assert_eq!(first_last, Some(edit(10, "Playing: A")));
    assert_eq!(second_last, Some(edit(11, "Playing: B")));
    assert_eq!(handler.guild_id(), GUILD);
    assert_eq!(handler.youtube_dl_path(), "/usr/bin/youtube-dl");
}

#[test]
fn voice_is_joined_in_the_guild_of_the_invocation() {
    let handler = Handler::new(77, 9, String::from("yt"));
    let mut invocation = play(12, "x");
    invocation.guild_id = 78;
    let (mut flow, _) = handler.handle_fallible(&invocation);
    assert_eq!(
        flow.step(Event::ResponseFinished(Ok(()))),
        Some(Action::FetchChannels { guild_id: 78 })
    );
    assert_eq!(
        flow.step(Event::ChannelsFetched(Ok(guild_with_user_in_voice()))),
        Some(Action::JoinVoice {
            guild_id: 78,
            channel_id: GENERAL_VOICE
        })
    );
    assert_eq!(handler.guild_id(), 77);
    assert_eq!(handler.registration().guild_id, 77);
}
