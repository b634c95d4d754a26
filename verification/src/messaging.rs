//! Decision rules of the message-facing commands: how channel history is
//! paged through in chunks, when a purge deletes a message and when it
//! stops, and which localization key each situation is answered with. The
//! sends, edits and fetches themselves happen outside this crate.

use vstd::prelude::*;

verus! {

/// Pages backwards through a channel's history, a chunk at a time, anchored
/// before the last message of the previous chunk.
#[derive(Debug, Clone, PartialEq, Eq, Structural)]
pub struct ChunkedMessageGenerator {
    pub chunk_size: u8,
    pub channel: u64,
}

/// What one paging step asks for and what follows from the answer.
#[derive(Debug, Clone, Copy, PartialEq, Eq, Structural)]
pub enum PageStep {
    /// The channel returned nothing: the history is exhausted.
    Stop,
    /// Keep paging, anchored before this message.
    Continue(u64),
}

impl ChunkedMessageGenerator {
    pub fn new(chunk_size: u8, channel: u64) -> (r: Self)
        ensures
            r == (ChunkedMessageGenerator { chunk_size, channel }),
    {
        ChunkedMessageGenerator { chunk_size, channel }
    }

    /// Decide what to do with one fetched chunk of message identities: stop
    /// on an empty chunk, otherwise anchor the next fetch before the chunk's
    /// last message.
    pub fn advance(&self, batch: &Vec<u64>) -> (r: PageStep)
        ensures
            batch@.len() == 0 ==> r == PageStep::Stop,
            batch@.len() > 0 ==> r == PageStep::Continue(batch@[batch@.len() - 1]),
    {
        if batch.len() == 0 {
            PageStep::Stop
        } else {
            PageStep::Continue(batch[batch.len() - 1])
        }
    }
}

/// What one purge step decides about one message.
#[derive(Debug, Clone, Copy, PartialEq, Eq, Structural)]
pub struct PurgeStep {
    /// Whether this message is deleted: it was written by the target.
    pub delete: bool,
    /// How many messages are deleted once this step is done.
    pub counter: u32,
    /// Whether the purge is finished: the limit, if one was given, has been
    /// reached.
    pub stop: bool,
}

/// Decide whether one message of the channel is purged and whether the purge
/// then stops.
pub fn purge_step(counter: u32, limit: Option<u32>, author_id: u64, target_id: u64) -> (r:
    PurgeStep)
    requires
        counter < u32::MAX,
    ensures
        r.delete == (author_id == target_id),
        r.counter == if author_id == target_id {
            counter + 1
        } else {
            counter as int
        },
        r.stop == (r.delete && (match limit {
            Some(l) => r.counter >= l,
            None => false,
        })),
{
    let delete = author_id == target_id;
    let counter = if delete {
        counter + 1
    } else {
        counter
    };
    let stop = delete && (match limit {
        Some(l) => counter >= l,
        None => false,
    });
    PurgeStep { delete, counter, stop }
}

/// A failure surfaced by the command dispatch, reduced to what the error
/// handler decides on.
pub enum DispatchFailure {
    /// A command returned an error, described by this text.
    CommandError(String),
    /// A command panicked, with this payload if one was carried.
    CommandPanic(Option<String>),
    /// Anything else the dispatch reports: logged, never answered.
    Other,
}

/// Which localized answer, if any, a dispatch failure gets: the key to
/// render and the text filling its marker. Failures of other kinds are only
/// logged.
pub fn error_response(failure: &DispatchFailure) -> (r: Option<(String, String)>)
    ensures
        match failure {
            DispatchFailure::CommandError(text) => r matches Some(p) && p.0@
                == "error.command.result.response"@ && p.1@ == text@,
            DispatchFailure::CommandPanic(payload) => r matches Some(p) && p.0@
                == "error.command.panic.response"@ && p.1@ == (match payload {
                Some(t) => t@,
                None => "No payload"@,
            }),
            DispatchFailure::Other => r is None,
        },
{
    match failure {
        DispatchFailure::CommandError(text) => Some(
            ("error.command.result.response".to_owned(), text.clone()),
        ),
        DispatchFailure::CommandPanic(payload) => {
            let text = match payload {
                Some(t) => t.clone(),
                None => "No payload".to_owned(),
            };
            Some(("error.command.panic.response".to_owned(), text))
        },
        DispatchFailure::Other => None,
    }
}

/// Which localization key answers the question of where the bot is: one key
/// inside a guild, another in a direct message.
pub fn location_response_key(in_guild: bool) -> (r: &'static str)
    ensures
        in_guild ==> r@ == "command.whereareyou.response.server"@,
        !in_guild ==> r@ == "command.whereareyou.response.dm"@,
{
    if in_guild {
        "command.whereareyou.response.server"
    } else {
        "command.whereareyou.response.dm"
    }
}

} // verus!
