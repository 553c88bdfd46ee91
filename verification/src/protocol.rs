//! Whole `poll` calls as rounds, and what holds from one round to the next.
//!
//! A round is one `poll` call seen from the session: the recovery that
//! precedes the request, the transport's answer, and, if a watch was
//! opened, the items that its stream delivered before it ended. The
//! theorems here are stated over [`State`], the value that every contract
//! of [`crate::session::Informer`] speaks of.

use crate::event::{
    announces_expiry, item_token, last_token, lemma_last_token_at, lemma_last_token_none,
    lemma_last_token_reported, silent, ErrorResponse, Meta, WatchEvent, GONE,
};
use crate::session::{sentinel, State, BACKOFF_SECS};
use vstd::prelude::*;

verus! {

/// How one `poll` call went.
pub enum Round<K, E> {
    /// The transport could not open the watch.
    Failed,
    /// A watch was opened, and its stream delivered these items.
    Streamed(Seq<Result<WatchEvent<K>, E>>),
}

/// The session after one round.
pub open spec fn after_round<K: Meta, E>(s: State, round: Round<K, E>) -> State {
    match round {
        Round::Failed => s.recover().opened(false),
        Round::Streamed(items) => s.recover().opened(true).observe_all(items),
    }
}

/// The session after a run of rounds.
pub open spec fn after_rounds<K: Meta, E>(s: State, rounds: Seq<Round<K, E>>) -> State
    decreases rounds.len(),
{
    if rounds.len() == 0 {
        s
    } else {
        after_round(after_rounds(s, rounds.drop_last()), rounds.last())
    }
}

/// Draining a stream in which every item is a change event that reports a
/// token leaves the session at the token of the last event. Nothing is
/// asked of how the tokens compare with each other.
pub proof fn lemma_drain_ends_at_last_token<K: Meta, E>(
    s: State,
    items: Seq<Result<WatchEvent<K>, E>>,
)
    requires
        items.len() > 0,
        forall|i: int| 0 <= i < items.len() ==> item_token(#[trigger] items[i]) is Some,
    ensures
        Some(s.observe_all(items).version) == item_token(items.last()),
        Some(after_round(s, Round::Streamed(items)).version) == item_token(items.last()),
{
    assert(items.last() == items[items.len() - 1]);
}

/// After a run of items the token is the one reported by the item after
/// which no item reported any.
pub proof fn lemma_token_is_last_reported<K: Meta, E>(
    s: State,
    items: Seq<Result<WatchEvent<K>, E>>,
    i: int,
)
    requires
        0 <= i < items.len(),
        item_token(items[i]) is Some,
        silent(items.skip(i + 1)),
    ensures
        Some(s.observe_all(items).version) == item_token(items[i]),
{
    lemma_last_token_at(items, i);
}

/// An item that failed in transport, a server error other than expired
/// history, and a change event without a token each leave the session as
/// it is.
pub proof fn lemma_inert_items<K: Meta, E>(s: State, failure: E, error: ErrorResponse, entity: K)
    ensures
        s.observe(Err::<WatchEvent<K>, E>(failure)) == s,
        error.code != GONE ==> s.observe(Ok::<WatchEvent<K>, E>(WatchEvent::Error(error))) == s,
        entity.spec_resource_ver() is None ==> {
            &&& s.observe(Ok::<WatchEvent<K>, E>(WatchEvent::Added(entity))) == s
            &&& s.observe(Ok::<WatchEvent<K>, E>(WatchEvent::Modified(entity))) == s
            &&& s.observe(Ok::<WatchEvent<K>, E>(WatchEvent::Deleted(entity))) == s
        },
{
}

/// A run in which no item reports a token and none announces expired
/// history leaves the session as it is.
pub proof fn lemma_inert_stream<K: Meta, E>(s: State, items: Seq<Result<WatchEvent<K>, E>>)
    requires
        silent(items),
        !announces_expiry(items),
    ensures
        s.observe_all(items) == s,
{
    lemma_last_token_none(items);
}

/// A frame with the status code of expired history raises the resync flag
/// and leaves the token alone; only the next `poll` resets it.
pub proof fn lemma_expiry_is_deferred<K: Meta, E>(s: State, error: ErrorResponse)
    requires
        error.code == GONE,
    ensures
        s.observe(Ok::<WatchEvent<K>, E>(WatchEvent::Error(error))).version == s.version,
        s.observe(Ok::<WatchEvent<K>, E>(WatchEvent::Error(error))).needs_resync,
        s.observe(Ok::<WatchEvent<K>, E>(WatchEvent::Error(error))).needs_retry == s.needs_retry,
{
}

/// Once a stream has announced expired history, the next request starts
/// from the sentinel, whatever the token was before and whatever else the
/// stream delivered; and the next `poll` pauses first.
pub proof fn lemma_expiry_resets<K: Meta, E>(s: State, items: Seq<Result<WatchEvent<K>, E>>)
    requires
        announces_expiry(items),
    ensures
        s.observe_all(items).flagged(),
        s.observe_all(items).request_token() == sentinel(),
        after_round(s, Round::Streamed(items)).flagged(),
        after_round(s, Round::Streamed(items)).request_token() == sentinel(),
{
}

/// A stream that announced no expiry leaves the next request at the token
/// where the stream ended, and the next `poll` owes no pause for it.
pub proof fn lemma_quiet_round_resumes<K: Meta, E>(s: State, items: Seq<Result<WatchEvent<K>, E>>)
    requires
        !announces_expiry(items),
    ensures
        !after_round(s, Round::Streamed(items)).flagged(),
        after_round(s, Round::Streamed(items)).request_token() == after_round(
            s,
            Round::Streamed(items),
        ).version,
{
}

/// A watch that could not be opened does not move the token: the `poll`
/// that follows pauses, and then asks with the very token that the failed
/// call asked with.
pub proof fn lemma_retry_keeps_token<K: Meta, E>(s: State)
    ensures
        s.opened(false).version == s.version,
        after_round(s, Round::<K, E>::Failed).flagged(),
        after_round(s, Round::<K, E>::Failed).version == s.request_token(),
        after_round(s, Round::<K, E>::Failed).request_token() == s.request_token(),
{
}

/// A `poll` pauses once if a flag is set, whichever it is, and not at all
/// otherwise: the recovery that ends the pause clears both flags together,
/// so that nothing is left to ask for a second pause, and a recovery
/// without a flag changes nothing.
pub proof fn lemma_single_backoff(s: State)
    ensures
        s.needs_resync || s.needs_retry ==> s.pause() == Some(BACKOFF_SECS),
        !s.needs_resync && !s.needs_retry ==> s.pause() is None,
        !s.recover().needs_resync,
        !s.recover().needs_retry,
        s.recover().pause() is None,
        s.recover().recover() == s.recover(),
        s.pause() is None ==> s.recover() == s,
{
}

/// After a `poll` call at most one of the two flags is set: a failed open
/// raises the retry flag alone, and a stream can raise only the resync
/// flag.
pub proof fn lemma_one_flag_after_round<K: Meta, E>(s: State, round: Round<K, E>)
    ensures
        !(after_round(s, round).needs_resync && after_round(s, round).needs_retry),
        round is Failed ==> after_round(s, round).needs_retry,
        round is Streamed ==> !after_round(s, round).needs_retry,
{
}

/// In every state that a session reaches by `poll` calls from a state with
/// at most one flag set, at most one flag is set.
pub proof fn lemma_one_flag_always<K: Meta, E>(s: State, rounds: Seq<Round<K, E>>)
    requires
        !(s.needs_resync && s.needs_retry),
    ensures
        !(after_rounds(s, rounds).needs_resync && after_rounds(s, rounds).needs_retry),
    decreases rounds.len(),
{
    if rounds.len() > 0 {
        lemma_one_flag_after_round(after_rounds(s, rounds.drop_last()), rounds.last());
    }
}

/// The token moves only for a reason: after a round it is the token from
/// before, or the sentinel if the session was waiting for a resync, or a
/// token that an item of the round's stream reported.
pub proof fn lemma_round_token_provenance<K: Meta, E>(s: State, round: Round<K, E>)
    ensures
        ({
            let end = after_round(s, round).version;
            ||| end == s.version
            ||| s.needs_resync && end == sentinel()
            ||| round matches Round::Streamed(items) && exists|i: int|
                0 <= i < items.len() && item_token(#[trigger] items[i]) == Some(end)
        }),
{
    match round {
        Round::Failed => {},
        Round::Streamed(items) => {
            if last_token(items) is Some {
                lemma_last_token_reported(items);
            }
        },
    }
}

} // verus!
