//! Change events, and the two things a session reads in a stream item: the
//! version token it reports and whether it announces expired history.

use vstd::prelude::*;

verus! {

/// Status code with which a server says that the history behind a resume
/// token has been compacted away.
pub const GONE: u16 = 410;

/// A failure that the server reports inside the stream.
#[derive(Clone, Debug, PartialEq, Eq)]
pub struct ErrorResponse {
    /// The outcome in a word, as the server puts it.
    pub status: String,
    /// What went wrong, for a human reader.
    pub message: String,
    /// What went wrong, for a program.
    pub reason: String,
    /// The numeric status code. The session reads nothing else.
    pub code: u16,
}

/// An entity that can report its own version token.
///
/// An implementation says in `spec_resource_ver` which token an entity
/// carries, and its `resource_ver` returns that token and no other.
pub trait Meta {
    /// The token the entity carries, if it carries one.
    spec fn spec_resource_ver(&self) -> Option<Seq<char>>;

    /// Reads the token out of the entity.
    fn resource_ver(&self) -> (v: Option<String>)
        ensures
            token_view(v) == self.spec_resource_ver(),
    ;
}

/// The characters of an optional token.
pub open spec fn token_view(v: Option<String>) -> Option<Seq<char>> {
    match v {
        Some(s) => Some(s@),
        None => None,
    }
}

/// An object together with the version token it was delivered at. This is
/// the plainest entity there is: any value can be watched once its token
/// has been put beside it.
#[derive(Clone, Debug, PartialEq, Eq)]
pub struct Versioned<T> {
    /// The token, if the server sent one.
    pub resource_version: Option<String>,
    /// The object itself, which the session never looks into.
    pub object: T,
}

impl<T> Meta for Versioned<T> {
    open spec fn spec_resource_ver(&self) -> Option<Seq<char>> {
        token_view(self.resource_version)
    }

    fn resource_ver(&self) -> (v: Option<String>) {
        match &self.resource_version {
            Some(s) => Some(s.clone()),
            None => None,
        }
    }
}

/// One frame of a watch stream.
#[derive(Clone, Debug, PartialEq, Eq)]
pub enum WatchEvent<K> {
    /// An entity came into being, or was there when the watch began.
    Added(K),
    /// An entity changed.
    Modified(K),
    /// An entity went away.
    Deleted(K),
    /// The server reports a failure; the stream goes on until it closes.
    Error(ErrorResponse),
}

impl<K: Meta> WatchEvent<K> {
    /// The token that a change event reports. An error frame reports none.
    pub open spec fn reported(self) -> Option<Seq<char>> {
        match self {
            WatchEvent::Added(o) => o.spec_resource_ver(),
            WatchEvent::Modified(o) => o.spec_resource_ver(),
            WatchEvent::Deleted(o) => o.spec_resource_ver(),
            WatchEvent::Error(_) => None,
        }
    }

    /// Whether the frame says that the history behind the token has expired.
    pub open spec fn expired(self) -> bool {
        self matches WatchEvent::Error(e) && e.code == GONE
    }

    /// Reads the token of a change event.
    pub fn token(&self) -> (v: Option<String>)
        ensures
            token_view(v) == self.reported(),
    {
        match self {
            WatchEvent::Added(o) => o.resource_ver(),
            WatchEvent::Modified(o) => o.resource_ver(),
            WatchEvent::Deleted(o) => o.resource_ver(),
            WatchEvent::Error(_) => None,
        }
    }

    /// Tells whether the frame announces expired history.
    pub fn is_expired(&self) -> (b: bool)
        ensures
            b == self.expired(),
    {
        match self {
            WatchEvent::Error(e) => e.code == GONE,
            _ => false,
        }
    }
}

/// The token that a stream item reports: that of its change event, and none
/// for an item that failed in transport.
pub open spec fn item_token<K: Meta, E>(item: Result<WatchEvent<K>, E>) -> Option<Seq<char>> {
    match item {
        Ok(ev) => ev.reported(),
        Err(_) => None,
    }
}

/// Whether a stream item announces expired history.
pub open spec fn item_expired<K: Meta, E>(item: Result<WatchEvent<K>, E>) -> bool {
    item matches Ok(ev) && ev.expired()
}

/// The token reported by the last item of a run that reports one, and none
/// if no item of the run does.
pub open spec fn last_token<K: Meta, E>(items: Seq<Result<WatchEvent<K>, E>>) -> Option<Seq<char>>
    decreases items.len(),
{
    if items.len() == 0 {
        None
    } else if item_token(items.last()) is Some {
        item_token(items.last())
    } else {
        last_token(items.drop_last())
    }
}

/// Whether no item of a run reports a token.
pub open spec fn silent<K: Meta, E>(items: Seq<Result<WatchEvent<K>, E>>) -> bool {
    forall|i: int| 0 <= i < items.len() ==> item_token(#[trigger] items[i]) is None
}

/// Whether some item of a run announces expired history.
pub open spec fn announces_expiry<K: Meta, E>(items: Seq<Result<WatchEvent<K>, E>>) -> bool {
    exists|i: int| 0 <= i < items.len() && item_expired(#[trigger] items[i])
}

/// A run reports no token at its end exactly if none of its items reports
/// one.
pub proof fn lemma_last_token_none<K: Meta, E>(items: Seq<Result<WatchEvent<K>, E>>)
    ensures
        last_token(items) is None <==> silent(items),
    decreases items.len(),
{
    if items.len() > 0 {
        let front = items.drop_last();
        lemma_last_token_none(front);
        assert(items.last() == items[items.len() - 1]);
        if silent(items) {
            assert forall|i: int| 0 <= i < front.len() implies item_token(
                #[trigger] front[i],
            ) is None by {
                assert(front[i] == items[i]);
            }
        }
        if item_token(items.last()) is None && silent(front) {
            assert forall|i: int| 0 <= i < items.len() implies item_token(
                #[trigger] items[i],
            ) is None by {
                if i < front.len() {
                    assert(items[i] == front[i]);
                }
            }
        }
    }
}

/// The token that a run reports at its end is the token of the item after
/// which no item reports one.
pub proof fn lemma_last_token_at<K: Meta, E>(items: Seq<Result<WatchEvent<K>, E>>, i: int)
    requires
        0 <= i < items.len(),
        item_token(items[i]) is Some,
        silent(items.skip(i + 1)),
    ensures
        last_token(items) == item_token(items[i]),
    decreases items.len(),
{
    if i < items.len() - 1 {
        let front = items.drop_last();
        let rest = items.skip(i + 1);
        assert(items.last() == rest[rest.len() - 1]);
        assert forall|j: int| 0 <= j < front.skip(i + 1).len() implies item_token(
            #[trigger] front.skip(i + 1)[j],
        ) is None by {
            assert(front.skip(i + 1)[j] == rest[j]);
        }
        lemma_last_token_at(front, i);
    }
}

/// A run never invents a token: the one it reports at its end was reported
/// by one of its items.
pub proof fn lemma_last_token_reported<K: Meta, E>(items: Seq<Result<WatchEvent<K>, E>>)
    requires
        last_token(items) is Some,
    ensures
        exists|i: int| 0 <= i < items.len() && item_token(#[trigger] items[i]) == last_token(items),
    decreases items.len(),
{
    if item_token(items.last()) is Some {
        assert(item_token(items[items.len() - 1]) == last_token(items));
    } else {
        let front = items.drop_last();
        lemma_last_token_reported(front);
        let i = choose|i: int|
            0 <= i < front.len() && item_token(#[trigger] front[i]) == last_token(front);
        assert(item_token(items[i]) == last_token(items));
    }
}

/// What a run reports with one more item at its end.
pub proof fn lemma_run_push<K: Meta, E>(
    items: Seq<Result<WatchEvent<K>, E>>,
    item: Result<WatchEvent<K>, E>,
)
    ensures
        last_token(items.push(item)) == if item_token(item) is Some {
            item_token(item)
        } else {
            last_token(items)
        },
        announces_expiry(items.push(item)) == (announces_expiry(items) || item_expired(item)),
{
    let run = items.push(item);
    assert(run.drop_last() =~= items);
    assert(run.last() == item);
    if announces_expiry(items) {
        let i = choose|i: int| 0 <= i < items.len() && item_expired(#[trigger] items[i]);
        assert(item_expired(run[i]));
    }
    if item_expired(item) {
        assert(item_expired(run[items.len() as int]));
    }
    if announces_expiry(run) {
        let i = choose|i: int| 0 <= i < run.len() && item_expired(#[trigger] run[i]);
        if i < items.len() {
            assert(item_expired(items[i]));
        }
    }
}

/// What two runs report, one after the other.
pub proof fn lemma_run_concat<K: Meta, E>(
    first: Seq<Result<WatchEvent<K>, E>>,
    second: Seq<Result<WatchEvent<K>, E>>,
)
    ensures
        last_token(first + second) == if last_token(second) is Some {
            last_token(second)
        } else {
            last_token(first)
        },
        announces_expiry(first + second) == (announces_expiry(first) || announces_expiry(second)),
    decreases second.len(),
{
    if second.len() == 0 {
        assert(first + second =~= first);
    } else {
        let front = second.drop_last();
        assert(first + second =~= (first + front).push(second.last()));
        assert(second =~= front.push(second.last()));
        lemma_run_concat(first, front);
        lemma_run_push(first + front, second.last());
        lemma_run_push(front, second.last());
    }
}

} // verus!
