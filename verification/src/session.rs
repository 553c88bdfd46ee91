//! The watch session: a resume token, two recovery flags, and the
//! transitions that a `poll` call and the items of its stream make on them.

use crate::event::{
    announces_expiry, item_expired, item_token, last_token, lemma_run_concat, lemma_run_push, Meta,
    WatchEvent,
};
use std::marker::PhantomData;
use vstd::prelude::*;

verus! {

/// Seconds to pause before a watch is opened again after a stream went out
/// of history or a connection could not be made.
pub const BACKOFF_SECS: u64 = 10;

/// The token that asks the server to start from its current snapshot
/// instead of a point in its history: the single character `0`.
pub open spec fn sentinel() -> Seq<char> {
    seq!['0']
}

/// What a session is, as a value.
pub struct State {
    /// The resume token.
    pub version: Seq<char>,
    /// The stream reported expired history: the next `poll` starts over
    /// from the sentinel.
    pub needs_resync: bool,
    /// The last watch could not be opened: the next `poll` tries again from
    /// the same token.
    pub needs_retry: bool,
}

impl State {
    /// The state of a session that has just been made.
    pub open spec fn fresh() -> State {
        State { version: sentinel(), needs_resync: false, needs_retry: false }
    }

    /// Whether the next `poll` owes a pause before it opens a watch.
    pub open spec fn flagged(self) -> bool {
        self.needs_resync || self.needs_retry
    }

    /// The pause that the next `poll` owes before it opens a watch: one of
    /// [`BACKOFF_SECS`] seconds if a flag is set, and none otherwise.
    pub open spec fn pause(self) -> Option<u64> {
        if self.flagged() {
            Some(BACKOFF_SECS)
        } else {
            None
        }
    }

    /// The session with its token replaced.
    pub open spec fn with_token(self, token: Seq<char>) -> State {
        State { version: token, ..self }
    }

    /// The session with its token back at the sentinel.
    pub open spec fn reset(self) -> State {
        self.with_token(sentinel())
    }

    /// The session after the recovery that precedes a request: the token is
    /// reset if the history had expired, and both flags are cleared.
    pub open spec fn recover(self) -> State {
        State {
            version: if self.needs_resync {
                sentinel()
            } else {
                self.version
            },
            needs_resync: false,
            needs_retry: false,
        }
    }

    /// The token that the next request will carry.
    pub open spec fn request_token(self) -> Seq<char> {
        self.recover().version
    }

    /// The session after the transport answered a request to open a watch.
    /// A failure asks for a retry and touches nothing else.
    pub open spec fn opened(self, ok: bool) -> State {
        State { needs_retry: self.needs_retry || !ok, ..self }
    }

    /// The session after one stream item. A change event that reports a
    /// token moves the session to it, a frame that announces expired
    /// history asks for a resync, and every other item leaves the session
    /// as it is.
    pub open spec fn observe<K: Meta, E>(self, item: Result<WatchEvent<K>, E>) -> State {
        State {
            version: match item_token(item) {
                Some(t) => t,
                None => self.version,
            },
            needs_resync: self.needs_resync || item_expired(item),
            needs_retry: self.needs_retry,
        }
    }

    /// The session after a run of stream items: at the last token that the
    /// run reported, waiting for a resync if it was before or the run
    /// announced expired history, and with the retry flag as it was.
    pub open spec fn observe_all<K: Meta, E>(self, items: Seq<Result<WatchEvent<K>, E>>) -> State {
        State {
            version: match last_token(items) {
                Some(t) => t,
                None => self.version,
            },
            needs_resync: self.needs_resync || announces_expiry(items),
            needs_retry: self.needs_retry,
        }
    }
}

/// An empty run leaves a session as it is.
pub proof fn lemma_observe_all_empty<K: Meta, E>(s: State)
    ensures
        s.observe_all(Seq::<Result<WatchEvent<K>, E>>::empty()) == s,
{
}

/// A run of items does to a session what its items do one after the other.
pub proof fn lemma_observe_all_push<K: Meta, E>(
    s: State,
    items: Seq<Result<WatchEvent<K>, E>>,
    item: Result<WatchEvent<K>, E>,
)
    ensures
        s.observe_all(items.push(item)) == s.observe_all(items).observe(item),
{
    lemma_run_push(items, item);
}

/// Observing one run after another is observing their concatenation: it
/// does not matter in how many batches a stream is drained.
pub proof fn lemma_observe_all_concat<K: Meta, E>(
    s: State,
    first: Seq<Result<WatchEvent<K>, E>>,
    second: Seq<Result<WatchEvent<K>, E>>,
)
    ensures
        s.observe_all(first + second) == s.observe_all(first).observe_all(second),
{
    lemma_run_concat(first, second);
}

/// What a `poll` call has to do next.
#[derive(Clone, Debug, PartialEq, Eq)]
pub enum PollStep {
    /// Pause for `secs` seconds, then call [`Informer::recover`].
    Backoff { secs: u64 },
    /// Open a watch that resumes from `token`.
    Open { token: String },
}

/// A watch session over entities of type `K`.
#[derive(Debug)]
pub struct Informer<K: Meta> {
    version: String,
    needs_resync: bool,
    needs_retry: bool,
    phantom: PhantomData<K>,
}

impl<K: Meta> View for Informer<K> {
    type V = State;

    closed spec fn view(&self) -> State {
        State {
            version: self.version@,
            needs_resync: self.needs_resync,
            needs_retry: self.needs_retry,
        }
    }
}

/// The sentinel token as a string.
fn sentinel_token() -> (token: String)
    ensures
        token@ == sentinel(),
{
    let token = "0".to_string();
    proof {
        reveal_strlit("0");
        assert(token@ =~= sentinel());
    }
    token
}

impl<K: Meta> Informer<K> {
    /// Makes a session that starts from the server's current snapshot.
    pub fn new() -> (informer: Self)
        ensures
            informer@ == State::fresh(),
    {
        Informer {
            version: sentinel_token(),
            needs_resync: false,
            needs_retry: false,
            phantom: PhantomData,
        }
    }

    /// Makes the session resume from `v`, a token kept from an earlier
    /// session. The flags stay as they are.
    pub fn init_from(self, v: String) -> (informer: Self)
        ensures
            informer@ == self@.with_token(v@),
    {
        Informer {
            version: v,
            needs_resync: self.needs_resync,
            needs_retry: self.needs_retry,
            phantom: PhantomData,
        }
    }

    /// Begins a `poll` call: says whether a pause is owed before a watch is
    /// opened, and from which token to open it if none is.
    ///
    /// A pause of [`BACKOFF_SECS`] seconds is owed exactly when one of the
    /// two flags is set. The flags stay set until [`Informer::recover`] is
    /// called after the pause.
    pub fn poll(&self) -> (step: PollStep)
        ensures
            match step {
                PollStep::Backoff { secs } => self@.pause() == Some(secs),
                PollStep::Open { token } => self@.pause() is None && token@ == self@.version,
            },
    {
        if self.needs_resync || self.needs_retry {
            PollStep::Backoff { secs: BACKOFF_SECS }
        } else {
            PollStep::Open { token: self.version.clone() }
        }
    }

    /// Ends the pause of a `poll` call: resets the token if the history had
    /// expired, clears both flags, and returns the token from which the
    /// watch is to be opened.
    pub fn recover(&mut self) -> (token: String)
        ensures
            final(self)@ == old(self)@.recover(),
            token@ == old(self)@.request_token(),
    {
        if self.needs_resync {
            self.reset();
        }
        self.needs_resync = false;
        self.needs_retry = false;
        self.version.clone()
    }

    /// Takes the transport's answer to a request to open a watch and hands
    /// it on unchanged. A failure sets the retry flag, so that the next
    /// `poll` pauses and asks again from the same token; the token and the
    /// resync flag are not touched either way.
    pub fn opened<S, E>(&mut self, outcome: Result<S, E>) -> (out: Result<S, E>)
        ensures
            out == outcome,
            final(self)@ == old(self)@.opened(outcome is Ok),
    {
        if outcome.is_err() {
            self.needs_retry = true;
        }
        outcome
    }

    /// Looks at one stream item and updates the session from it.
    pub fn observe<E>(&mut self, item: &Result<WatchEvent<K>, E>)
        ensures
            final(self)@ == old(self)@.observe(*item),
    {
        match item {
            Ok(ev) => {
                if let Some(token) = ev.token() {
                    self.version = token;
                }
                if ev.is_expired() {
                    self.needs_resync = true;
                }
            },
            Err(_) => {},
        }
    }

    /// Passes one stream item through the session: the session is updated
    /// from it and the item comes back as it went in.
    pub fn intercept<E>(&mut self, item: Result<WatchEvent<K>, E>) -> (out: Result<
        WatchEvent<K>,
        E,
    >)
        ensures
            out == item,
            final(self)@ == old(self)@.observe(item),
    {
        self.observe(&item);
        item
    }

    /// Passes a run of stream items through the session, in order. Every
    /// item comes back, in its place and as it went in.
    pub fn intercept_all<E>(&mut self, items: Vec<Result<WatchEvent<K>, E>>) -> (out: Vec<
        Result<WatchEvent<K>, E>,
    >)
        ensures
            out@ == items@,
            final(self)@ == old(self)@.observe_all(items@),
    {
        let n: usize = items.len();
        let mut i: usize = 0;
        proof {
            lemma_observe_all_empty::<K, E>(self@);
            assert(items@.take(0) =~= Seq::<Result<WatchEvent<K>, E>>::empty());
        }
        while i < n
            invariant
                n == items.len(),
                i <= n,
                self@ == old(self)@.observe_all(items@.take(i as int)),
            decreases n - i,
        {
            proof {
                assert(items@.take(i + 1) =~= items@.take(i as int).push(items@[i as int]));
                lemma_observe_all_push(old(self)@, items@.take(i as int), items@[i as int]);
            }
            self.observe(&items[i]);
            i = i + 1;
        }
        proof {
            assert(items@.take(n as int) =~= items@);
        }
        items
    }

    /// Sets the token back to the sentinel, so that the next watch starts
    /// from the server's current snapshot. Entities that were seen before
    /// will be announced again as added.
    pub fn reset(&mut self)
        ensures
            final(self)@ == old(self)@.reset(),
    {
        self.version = sentinel_token();
    }

    /// The current resume token.
    pub fn version(&self) -> (token: String)
        ensures
            token@ == self@.version,
    {
        self.version.clone()
    }
}

} // verus!
