//! The texts that the bot sends to the chat.

use vstd::prelude::*;
use vstd::string::StringExecFns;

verus! {

/// Content of the provisional first response.
pub open spec fn searching_text() -> Seq<char> {
    "searching..."@
}

/// Content of the reply to a user who is in no voice channel of the guild.
pub open spec fn apology_text() -> Seq<char> {
    "Você não está em um canal de voz"@
}

/// Content of the reply that names the selected item.
pub open spec fn playing_text(title: Seq<char>) -> Seq<char> {
    "Playing: "@ + title
}

/// Content of the reply that reports a failure.
pub open spec fn error_text(message: Seq<char>) -> Seq<char> {
    "Error: "@ + message
}

/// The provisional first response.
pub fn searching_message() -> (content: String)
    ensures
        content@ == searching_text(),
{
    String::from_str("searching...")
}

/// The reply to a user who is in no voice channel of the guild.
pub fn apology_message() -> (content: String)
    ensures
        content@ == apology_text(),
{
    String::from_str("Você não está em um canal de voz")
}

/// The reply that names the selected item: `Playing: ` and the title.
pub fn playing_message(title: &str) -> (content: String)
    ensures
        content@ == playing_text(title@),
{
    String::from_str("Playing: ").concat(title)
}

/// The reply that reports a failure: `Error: ` and the failure's message.
pub fn error_message(message: &str) -> (content: String)
    ensures
        content@ == error_text(message@),
{
    String::from_str("Error: ").concat(message)
}

} // verus!
