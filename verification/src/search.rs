//! The media search: how the query is put to the search tool and which item
//! of its answer is played.

use crate::error::{ResolutionError, ResolutionErrorView};
use vstd::prelude::*;
use vstd::string::StringExecFns;

verus! {

/// Seconds that a search may take.
pub const SEARCH_TIMEOUT_SECS: u64 = 15;

/// One search result: what identifies it and what it is called.
#[derive(Clone, Debug, PartialEq, Eq)]
pub struct MediaItem {
    pub id: String,
    pub title: String,
}

/// What the search tool answered: one item, or a playlist that may have come
/// without its list of entries.
#[derive(Clone, Debug, PartialEq, Eq)]
pub enum SearchOutput {
    SingleVideo(MediaItem),
    Playlist(Option<Vec<MediaItem>>),
}

/// Mathematical model of a [`MediaItem`].
pub struct MediaItemView {
    pub id: Seq<char>,
    pub title: Seq<char>,
}

/// Mathematical model of a [`SearchOutput`].
pub enum SearchOutputView {
    SingleVideo(MediaItemView),
    Playlist(Option<Seq<MediaItemView>>),
}

impl View for MediaItem {
    type V = MediaItemView;

    open spec fn view(&self) -> MediaItemView {
        MediaItemView { id: self.id@, title: self.title@ }
    }
}

/// The models of the items of a list, in order.
pub open spec fn items_view(items: Seq<MediaItem>) -> Seq<MediaItemView> {
    items.map_values(|item: MediaItem| item@)
}

impl View for SearchOutput {
    type V = SearchOutputView;

    open spec fn view(&self) -> SearchOutputView {
        match self {
            SearchOutput::SingleVideo(item) => SearchOutputView::SingleVideo(item@),
            SearchOutput::Playlist(Some(entries)) => SearchOutputView::Playlist(
                Some(items_view(entries@)),
            ),
            SearchOutput::Playlist(None) => SearchOutputView::Playlist(None),
        }
    }
}

/// The item that is played for a search answer: the single item itself, or
/// the first entry of a playlist. A playlist without entries gives nothing
/// to play.
pub open spec fn selected(output: SearchOutputView) -> Result<MediaItemView, ResolutionErrorView> {
    match output {
        SearchOutputView::SingleVideo(item) => Ok(item),
        SearchOutputView::Playlist(Some(entries)) => if entries.len() > 0 {
            Ok(entries[0])
        } else {
            Err(ResolutionErrorView::EmptyPlaylist)
        },
        SearchOutputView::Playlist(None) => Err(ResolutionErrorView::EmptyPlaylist),
    }
}

/// The model of a selection's outcome.
pub open spec fn selection_view(
    outcome: Result<MediaItem, ResolutionError>,
) -> Result<MediaItemView, ResolutionErrorView> {
    match outcome {
        Ok(item) => Ok(item@),
        Err(e) => Err(e@),
    }
}

/// Picks the item to play from a search answer.
pub fn select_item(output: SearchOutput) -> (outcome: Result<MediaItem, ResolutionError>)
    ensures
        selection_view(outcome) == selected(output@),
{
    match output {
        SearchOutput::SingleVideo(item) => Ok(item),
        SearchOutput::Playlist(Some(entries)) => {
            let mut entries = entries;
            if entries.len() > 0 {
                let ghost listed = entries@;
                let first = entries.remove(0);
                assert(first@ == items_view(listed)[0]);
                Ok(first)
            } else {
                Err(ResolutionError::EmptyPlaylist)
            }
        },
        SearchOutput::Playlist(None) => Err(ResolutionError::EmptyPlaylist),
    }
}

/// The term that the search tool is started with for a query.
pub open spec fn search_term_text(query: Seq<char>) -> Seq<char> {
    "ytsearch1:"@ + query
}

/// Calls `youtube_dl::SearchOptions::youtube` and formats the options with
/// their `Display` impl, as `youtube_dl::YoutubeDl::search_for` does. The
/// options are a search on YouTube for one result, and `Display` writes the
/// search type `ytsearch`, the count, a colon and the query as it is.
#[verifier::external_body]
fn youtube_search_term(query: &str) -> (term: String)
    ensures
        term@ == search_term_text(query@),
{
    youtube_dl::SearchOptions::youtube(query).to_string()
}

/// What the program around the library needs to run one search.
#[derive(Clone, Debug, PartialEq, Eq)]
pub struct SearchRequest {
    /// The term that the search tool is started with.
    pub term: String,
    /// Path of the search tool's executable.
    pub program: String,
    /// Seconds that the search may take: the tool gives up on a connection
    /// after them, and a run that lasts longer has timed out.
    pub timeout_secs: u64,
}

/// Mathematical model of a [`SearchRequest`].
pub struct SearchRequestView {
    pub term: Seq<char>,
    pub program: Seq<char>,
    pub timeout_secs: u64,
}

impl View for SearchRequest {
    type V = SearchRequestView;

    open spec fn view(&self) -> SearchRequestView {
        SearchRequestView {
            term: self.term@,
            program: self.program@,
            timeout_secs: self.timeout_secs,
        }
    }
}

/// The request for the one best match of `query` on YouTube, run by the tool
/// at `program` with the fixed time limit.
pub open spec fn youtube_request(query: Seq<char>, program: Seq<char>) -> SearchRequestView {
    SearchRequestView {
        term: search_term_text(query),
        program,
        timeout_secs: SEARCH_TIMEOUT_SECS,
    }
}

impl SearchRequest {
    /// The request for the one best match of `query` on YouTube.
    pub fn youtube(query: &str, program: &str) -> (request: SearchRequest)
        ensures
            request@ == youtube_request(query@, program@),
    {
        SearchRequest {
            term: youtube_search_term(query),
            program: String::from_str(program),
            timeout_secs: SEARCH_TIMEOUT_SECS,
        }
    }
}

} // verus!
