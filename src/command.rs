use vstd::prelude::*;

verus! {

/// A request to store `value` under `key`, for `ttl` seconds when one is given.
#[derive(Clone, Debug)]
pub struct CacheEntry {
    pub key: String,
    pub value: String,
    pub ttl: Option<u64>,
}

/// What a set request holds, as text and a number of seconds.
pub struct EntryView {
    pub key: Seq<char>,
    pub value: Seq<char>,
    pub ttl: Option<u64>,
}

impl View for CacheEntry {
    type V = EntryView;

    open spec fn view(&self) -> EntryView {
        EntryView { key: self.key@, value: self.value@, ttl: self.ttl }
    }
}

impl CacheEntry {
    /// An entry for `key` and `value` with the given time to live.
    pub fn new(key: String, value: String, ttl: Option<u64>) -> (r: CacheEntry)
        ensures
            r.key@ == key@,
            r.value@ == value@,
            r.ttl == ttl,
    {
        CacheEntry { key, value, ttl }
    }
}

/// One command sent to the store.
#[derive(Clone, Debug)]
pub enum StoreCommand {
    /// Store `value` under `key` with no expiration.
    Write { key: String, value: String },
    /// Store `value` under `key`; the store drops it after `seconds`.
    WriteExpiring { key: String, value: String, seconds: u64 },
    /// Read the value stored under `key`.
    Read { key: String },
}

/// A store command, over text.
pub enum CommandView {
    Write { key: Seq<char>, value: Seq<char> },
    WriteExpiring { key: Seq<char>, value: Seq<char>, seconds: u64 },
    Read { key: Seq<char> },
}

impl View for StoreCommand {
    type V = CommandView;

    open spec fn view(&self) -> CommandView {
        match self {
            StoreCommand::Write { key, value } => CommandView::Write { key: key@, value: value@ },
            StoreCommand::WriteExpiring { key, value, seconds } => CommandView::WriteExpiring {
                key: key@,
                value: value@,
                seconds: *seconds,
            },
            StoreCommand::Read { key } => CommandView::Read { key: key@ },
        }
    }
}

/// The command that a set request issues: with an expiration exactly when
/// the entry has a time to live.
pub open spec fn write_command(e: EntryView) -> CommandView {
    match e.ttl {
        Some(seconds) => CommandView::WriteExpiring { key: e.key, value: e.value, seconds },
        None => CommandView::Write { key: e.key, value: e.value },
    }
}

/// The store command for a set request.
pub fn set_command(entry: CacheEntry) -> (r: StoreCommand)
    ensures
        r@ == write_command(entry@),
{
    match entry.ttl {
        Some(seconds) => StoreCommand::WriteExpiring { key: entry.key, value: entry.value, seconds },
        None => StoreCommand::Write { key: entry.key, value: entry.value },
    }
}

/// The store command for a get request on `key`.
pub fn get_command(key: String) -> (r: StoreCommand)
    ensures
        r@ == (CommandView::Read { key: key@ }),
{
    StoreCommand::Read { key }
}

} // verus!
