use vstd::prelude::*;
use crate::status::Status;

verus! {

/// Why a store operation did not complete.
#[derive(Clone, Debug)]
pub enum StoreFailure {
    /// No connection to the store could be had.
    Connection { description: String },
    /// The store refused or could not execute the command.
    Command { description: String },
}

/// The store client's error, redis::RedisError, carried opaque: only its
/// text, through its Display impl, is read.
#[verifier::external_type_specification]
#[verifier::external_body]
pub struct ExRedisError(redis::RedisError);

impl StoreFailure {
    /// A failure to connect, described by the store client's error text.
    pub fn connection(e: &redis::RedisError) -> (r: StoreFailure)
        ensures
            r matches StoreFailure::Connection { description }
                && vstd::string::to_string_from_display_ensures::<redis::RedisError>(e, description),
    {
        StoreFailure::Connection { description: e.to_string() }
    }

    /// A failed command, described by the store client's error text.
    pub fn command(e: &redis::RedisError) -> (r: StoreFailure)
        ensures
            r matches StoreFailure::Command { description }
                && vstd::string::to_string_from_display_ensures::<redis::RedisError>(e, description),
    {
        StoreFailure::Command { description: e.to_string() }
    }
}

/// A store failure, over text.
pub enum FailureView {
    Connection { description: Seq<char> },
    Command { description: Seq<char> },
}

impl View for StoreFailure {
    type V = FailureView;

    open spec fn view(&self) -> FailureView {
        match self {
            StoreFailure::Connection { description } => FailureView::Connection {
                description: description@,
            },
            StoreFailure::Command { description } => FailureView::Command {
                description: description@,
            },
        }
    }
}

/// The text by which a store describes a read of an absent key.
pub open spec fn not_found_signature() -> Seq<char> {
    seq!['n', 'o', ' ', 's', 'u', 'c', 'h', ' ', 'k', 'e', 'y']
}

/// Whether `pat` occurs in `s` as a contiguous run.
pub open spec fn contains_text(s: Seq<char>, pat: Seq<char>) -> bool {
    exists|i: int| 0 <= i && i + pat.len() <= s.len() && #[trigger] s.subrange(i, i + pat.len()) == pat
}

/// Whether a failure reports that the key read is absent: only a command
/// failure whose description holds the signature does.
pub open spec fn reports_absent(f: FailureView) -> bool {
    match f {
        FailureView::Connection { .. } => false,
        FailureView::Command { description } => contains_text(description, not_found_signature()),
    }
}

/// What the store did with a write command, over text.
pub open spec fn write_outcome(o: Result<(), StoreFailure>) -> Result<(), FailureView> {
    match o {
        Ok(()) => Ok(()),
        Err(f) => Err(f@),
    }
}

/// What the store answered to a read command, over text.
pub open spec fn read_outcome(o: Result<Option<String>, StoreFailure>) -> Result<Option<Seq<char>>, FailureView> {
    match o {
        Ok(Some(v)) => Ok(Some(v@)),
        Ok(None) => Ok(None),
        Err(f) => Err(f@),
    }
}

/// The reply to a get request, over text.
pub open spec fn reply_view(r: Result<String, Status>) -> Result<Seq<char>, Status> {
    match r {
        Ok(v) => Ok(v@),
        Err(s) => Err(s),
    }
}

/// The status of a set request, from what the store did with its command.
pub open spec fn set_status(outcome: Result<(), FailureView>) -> Status {
    match outcome {
        Ok(()) => Status::Success,
        Err(_) => Status::InternalError,
    }
}

/// The reply to a get request, from what the store answered: the value, or
/// the status of the failure.
pub open spec fn get_reply(outcome: Result<Option<Seq<char>>, FailureView>) -> Result<Seq<char>, Status> {
    match outcome {
        Ok(Some(v)) => Ok(v),
        Ok(None) => Err(Status::NotFound),
        Err(f) => if reports_absent(f) {
            Err(Status::NotFound)
        } else {
            Err(Status::InternalError)
        },
    }
}

/// The health check: it succeeds whatever the state of the store.
pub fn health_check() -> (r: Status)
    ensures
        r == Status::Success,
{
    Status::Success
}

/// The text of `s`, one character at a time.
fn chars_of(s: &str) -> (r: Vec<char>)
    ensures
        r@ == s@,
{
    let n = s.unicode_len();
    let mut r: Vec<char> = Vec::new();
    let mut i: usize = 0;
    while i < n
        invariant
            n == s@.len(),
            i <= n,
            r@ == s@.subrange(0, i as int),
        decreases n - i,
    {
        r.push(s.get_char(i));
        i = i + 1;
    }
    assert(r@ =~= s@);
    r
}

/// Whether `pat` occurs at position `at` of `s`.
fn occurs_at(s: &Vec<char>, pat: &Vec<char>, at: usize) -> (r: bool)
    requires
        at + pat@.len() <= s@.len(),
    ensures
        r == (s@.subrange(at as int, at + pat@.len()) == pat@),
{
    let n = s.len();
    let mut j: usize = 0;
    while j < pat.len()
        invariant
            n == s@.len(),
            at + pat@.len() <= s@.len(),
            j <= pat@.len(),
            forall|k: int| 0 <= k < j ==> s@[at + k] == pat@[k],
        decreases pat@.len() - j,
    {
        if s[at + j] != pat[j] {
            assert(s@.subrange(at as int, at + pat@.len())[j as int] != pat@[j as int]);
            return false;
        }
        j = j + 1;
    }
    assert(s@.subrange(at as int, at + pat@.len()) =~= pat@);
    true
}

/// Whether `pat` occurs anywhere in `s`.
fn contains_chars(s: &Vec<char>, pat: &Vec<char>) -> (r: bool)
    ensures
        r == contains_text(s@, pat@),
{
    if pat.len() > s.len() {
        return false;
    }
    let last = s.len() - pat.len();
    let mut i: usize = 0;
    while i <= last
        invariant
            last + pat@.len() == s@.len(),
            forall|k: int| 0 <= k < i ==> #[trigger] s@.subrange(k, k + pat@.len()) != pat@,
        ensures
            forall|k: int| 0 <= k <= last ==> #[trigger] s@.subrange(k, k + pat@.len()) != pat@,
        decreases last + 1 - i,
    {
        if occurs_at(s, pat, i) {
            return true;
        }
        if i == last {
            break;
        }
        i = i + 1;
    }
    false
}

/// Whether a store's description of a failure says that the key is absent.
pub fn is_not_found_description(description: &str) -> (r: bool)
    ensures
        r == contains_text(description@, not_found_signature()),
{
    let pat = "no such key";
    proof {
        reveal_strlit("no such key");
    }
    assert(pat@ =~= not_found_signature());
    contains_chars(&chars_of(description), &chars_of(pat))
}

/// The status of a set request, from what the store did with its command:
/// success exactly when the store acknowledged it.
pub fn set_response(outcome: &Result<(), StoreFailure>) -> (r: Status)
    ensures
        r == set_status(write_outcome(*outcome)),
{
    match outcome {
        Ok(()) => Status::Success,
        Err(_) => Status::InternalError,
    }
}

/// The reply to a get request, from what the store answered: the stored
/// value; not-found when the key is absent, or when a command failure says
/// so; an internal error for any other failure.
pub fn get_response(outcome: Result<Option<String>, StoreFailure>) -> (r: Result<String, Status>)
    ensures
        reply_view(r) == get_reply(read_outcome(outcome)),
{
    match outcome {
        Ok(Some(v)) => Ok(v),
        Ok(None) => Err(Status::NotFound),
        Err(StoreFailure::Connection { .. }) => Err(Status::InternalError),
        Err(StoreFailure::Command { description }) => {
            if is_not_found_description(description.as_str()) {
                Err(Status::NotFound)
            } else {
                Err(Status::InternalError)
            }
        },
    }
}

} // verus!
