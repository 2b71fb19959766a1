//! What the store's commands mean, and what a client of the gateway sees when
//! the store keeps to that meaning.
use vstd::prelude::*;
use crate::command::{write_command, CommandView, EntryView};
use crate::gateway::{get_reply, reports_absent, set_status, FailureView};
use crate::status::Status;

verus! {

/// A value held by the store, with the second at which it expires, if any.
pub struct StoredValue {
    pub value: Seq<char>,
    pub expires_at: Option<int>,
}

/// The store's contents, key by key.
pub struct StoreModel {
    pub entries: Map<Seq<char>, StoredValue>,
}

/// A time to live that a set request may carry: none, or a positive number
/// of seconds.
pub open spec fn valid_ttl(ttl: Option<u64>) -> bool {
    match ttl {
        Some(seconds) => seconds > 0,
        None => true,
    }
}

/// Whether the store executes `cmd`: it refuses an expiration of zero seconds.
pub open spec fn accepts(cmd: CommandView) -> bool {
    match cmd {
        CommandView::WriteExpiring { seconds, .. } => seconds > 0,
        _ => true,
    }
}

impl StoreModel {
    /// The value that a read of `key` finds at second `now`: none once it
    /// has expired.
    pub open spec fn read(self, key: Seq<char>, now: int) -> Option<Seq<char>> {
        if self.entries.contains_key(key) && match self.entries[key].expires_at {
            Some(t) => now < t,
            None => true,
        } {
            Some(self.entries[key].value)
        } else {
            None
        }
    }

    /// The store after it executes `cmd` at second `now`; a refused command
    /// changes nothing.
    pub open spec fn apply(self, cmd: CommandView, now: int) -> StoreModel {
        match cmd {
            CommandView::Write { key, value } => StoreModel {
                entries: self.entries.insert(key, StoredValue { value, expires_at: None }),
            },
            CommandView::WriteExpiring { key, value, seconds } => if seconds > 0 {
                StoreModel {
                    entries: self.entries.insert(
                        key,
                        StoredValue { value, expires_at: Some(now + seconds) },
                    ),
                }
            } else {
                self
            },
            CommandView::Read { .. } => self,
        }
    }
}

/// A set request with no time to live succeeds, and a get of its key at any
/// later second returns its value.
pub proof fn lemma_set_then_get(store: StoreModel, e: EntryView, now: int, later: int)
    requires
        e.ttl is None,
        now <= later,
    ensures
        accepts(write_command(e)),
        set_status(Ok(())) == Status::Success,
        get_reply(Ok(store.apply(write_command(e), now).read(e.key, later))) == Ok::<
            Seq<char>,
            Status,
        >(e.value),
{
}

/// A set request with a positive time to live succeeds; a get of its key
/// returns its value until that many seconds have passed, and not-found from
/// then on.
pub proof fn lemma_set_with_expiry_then_get(store: StoreModel, e: EntryView, now: int, later: int)
    requires
        e.ttl matches Some(seconds) && seconds > 0,
        now <= later,
    ensures
        accepts(write_command(e)),
        set_status(Ok(())) == Status::Success,
        later < now + e.ttl->0 ==> get_reply(
            Ok(store.apply(write_command(e), now).read(e.key, later)),
        ) == Ok::<Seq<char>, Status>(e.value),
        later >= now + e.ttl->0 ==> get_reply(
            Ok(store.apply(write_command(e), now).read(e.key, later)),
        ) == Err::<Seq<char>, Status>(Status::NotFound),
{
}

/// A get of a key that the store never held returns not-found, not an error.
pub proof fn lemma_get_absent(store: StoreModel, key: Seq<char>, now: int)
    requires
        !store.entries.contains_key(key),
    ensures
        get_reply(Ok(store.read(key, now))) == Err::<Seq<char>, Status>(Status::NotFound),
{
}

/// When no connection to the store can be had, set and get both report an
/// internal error.
pub proof fn lemma_unreachable_store(f: FailureView)
    requires
        f is Connection,
    ensures
        set_status(Err(f)) == Status::InternalError,
        get_reply(Err(f)) == Err::<Seq<char>, Status>(Status::InternalError),
{
}

/// Any store failure that does not report an absent key, a command that
/// could not reach the store among them, makes set and get both report an
/// internal error.
pub proof fn lemma_store_failure_is_internal(f: FailureView)
    requires
        !reports_absent(f),
    ensures
        set_status(Err(f)) == Status::InternalError,
        get_reply(Err(f)) == Err::<Seq<char>, Status>(Status::InternalError),
{
}

/// Two set requests on one key, then a get at the second one's time: the
/// get returns the second value.
pub proof fn lemma_overwrite(store: StoreModel, first: EntryView, second: EntryView, t1: int, t2: int)
    requires
        first.key == second.key,
        valid_ttl(first.ttl),
        valid_ttl(second.ttl),
        t1 <= t2,
    ensures
        get_reply(
            Ok(store.apply(write_command(first), t1).apply(write_command(second), t2).read(second.key, t2)),
        ) == Ok::<Seq<char>, Status>(second.value),
{
}

} // verus!
