use cache_service::{
    get_command, get_response, health_check, is_not_found_description, set_command,
    set_response, CacheEntry, Status, StoreCommand, StoreFailure,
};
use redis::{ErrorKind, RedisError};
use std::collections::HashMap;

/// An in-memory stand-in for the store, with a clock in seconds.
struct MemoryStore {
    entries: HashMap<String, (String, Option<u64>)>,
    now: u64,
    up: bool,
}

impl MemoryStore {
    fn new() -> MemoryStore {
        MemoryStore { entries: HashMap::new(), now: 0, up: true }
    }

    fn execute(&mut self, cmd: StoreCommand) -> Result<Option<String>, StoreFailure> {
        if !self.up {
            let e = RedisError::from((ErrorKind::IoError, "connection refused"));
            return Err(StoreFailure::connection(&e));
        }
        match cmd {
            StoreCommand::Write { key, value } => {
                self.entries.insert(key, (value, None));
                Ok(None)
            }
            StoreCommand::WriteExpiring { key, value, seconds } => {
                if seconds == 0 {
                    let e = RedisError::from((ErrorKind::ResponseError, "invalid expire time"));
                    return Err(StoreFailure::command(&e));
                }
                self.entries.insert(key, (value, Some(self.now + seconds)));
                Ok(None)
            }
            StoreCommand::Read { key } => match self.entries.get(&key) {
                Some((v, None)) => Ok(Some(v.clone())),
                Some((v, Some(t))) if self.now < *t => Ok(Some(v.clone())),
                _ => Ok(None),
            },
        }
    }

    fn set(&mut self, key: &str, value: &str, ttl: Option<u64>) -> u16 {
        let entry = CacheEntry::new(key.to_string(), value.to_string(), ttl);
        let outcome = self.execute(set_command(entry)).map(|_| ());
        set_response(&outcome).code()
    }

    fn get(&mut self, key: &str) -> Result<String, u16> {
        let outcome = self.execute(get_command(key.to_string()));
        get_response(outcome).map_err(|s| s.code())
    }
}

fn command_failure(detail: &str) -> StoreFailure {
    StoreFailure::Command { description: detail.to_string() }
}

#[test]
fn health_check_is_success() {
    assert_eq!(health_check(), Status::Success);
    assert_eq!(health_check().code(), 200);
    let mut store = MemoryStore::new();
    store.up = false;
    assert_eq!(health_check().code(), 200);
}

#[test]
fn status_codes() {
    assert_eq!(Status::Success.code(), 200);
    assert_eq!(Status::NotFound.code(), 404);
    assert_eq!(Status::InternalError.code(), 500);
    assert!(Status::Success.is_success());
    assert!(!Status::NotFound.is_success());
    assert!(!Status::InternalError.is_success());
}

#[test]
fn plain_set_issues_write() {
    let entry = CacheEntry::new("a".to_string(), "1".to_string(), None);
    match set_command(entry) {
        StoreCommand::Write { key, value } => {
            assert_eq!(key, "a");
            assert_eq!(value, "1");
        }
        other => panic!("unexpected command {:?}", other),
    }
}

#[test]
fn set_with_ttl_issues_expiring_write() {
    let entry = CacheEntry::new("k".to_string(), "v".to_string(), Some(30));
    match set_command(entry) {
        StoreCommand::WriteExpiring { key, value, seconds } => {
            assert_eq!(key, "k");
            assert_eq!(value, "v");
            assert_eq!(seconds, 30);
        }
        other => panic!("unexpected command {:?}", other),
    }
}

#[test]
fn get_issues_read() {
    match get_command("missing".to_string()) {
        StoreCommand::Read { key } => assert_eq!(key, "missing"),
        other => panic!("unexpected command {:?}", other),
    }
}

#[test]
fn set_response_maps_outcomes() {
    assert_eq!(set_response(&Ok(())), Status::Success);
    let conn = StoreFailure::Connection { description: "refused".to_string() };
    assert_eq!(set_response(&Err(conn)), Status::InternalError);
    assert_eq!(set_response(&Err(command_failure("wrong type"))), Status::InternalError);
    assert_eq!(set_response(&Err(command_failure("no such key"))), Status::InternalError);
}

#[test]
fn get_response_returns_value() {
    assert_eq!(get_response(Ok(Some("1".to_string()))), Ok("1".to_string()));
    assert_eq!(get_response(Ok(Some(String::new()))), Ok(String::new()));
}

#[test]
fn get_response_absent_key_is_not_found() {
    assert_eq!(get_response(Ok(None)), Err(Status::NotFound));
}

#[test]
fn get_response_not_found_description() {
    let f = command_failure("ERR no such key");
    assert_eq!(get_response(Err(f)), Err(Status::NotFound));
}

#[test]
fn get_response_other_command_failure_is_internal() {
    let f = command_failure("Response was of incompatible type");
    assert_eq!(get_response(Err(f)), Err(Status::InternalError));
}

#[test]
fn get_response_connection_failure_is_internal() {
    let f = StoreFailure::Connection { description: "no such key".to_string() };
    assert_eq!(get_response(Err(f)), Err(Status::InternalError));
}

#[test]
fn not_found_description_positions() {
    assert!(is_not_found_description("no such key"));
    assert!(is_not_found_description("no such key here"));
    assert!(is_not_found_description("error: no such key"));
    assert!(is_not_found_description("err: no such key, sorry"));
    assert!(!is_not_found_description(""));
    assert!(!is_not_found_description("no such ke"));
    assert!(!is_not_found_description("No such key"));
    assert!(!is_not_found_description("no  such key"));
    assert!(is_not_found_description("é no such key ü"));
}

#[test]
fn failures_from_client_errors() {
    let e = RedisError::from((ErrorKind::IoError, "connection refused"));
    match StoreFailure::connection(&e) {
        StoreFailure::Connection { description } => {
            assert!(description.contains("connection refused"))
        }
        other => panic!("unexpected failure {:?}", other),
    }
    let e = RedisError::from((ErrorKind::ResponseError, "no such key"));
    let f = StoreFailure::command(&e);
    match &f {
        StoreFailure::Command { description } => assert!(description.contains("no such key")),
        other => panic!("unexpected failure {:?}", other),
    }
    assert_eq!(get_response(Err(f)), Err(Status::NotFound));
}

#[test]
fn set_then_get_returns_value() {
    let mut store = MemoryStore::new();
    assert_eq!(store.set("key", "value", None), 200);
    store.now = 1_000_000;
    assert_eq!(store.get("key"), Ok("value".to_string()));
}

#[test]
fn set_with_expiry_then_get() {
    let mut store = MemoryStore::new();
    store.now = 10;
    assert_eq!(store.set("t", "x", Some(5)), 200);
    assert_eq!(store.get("t"), Ok("x".to_string()));
    store.now = 14;
    assert_eq!(store.get("t"), Ok("x".to_string()));
    store.now = 15;
    assert_eq!(store.get("t"), Err(404));
}

#[test]
fn zero_ttl_is_refused_by_store() {
    let mut store = MemoryStore::new();
    assert_eq!(store.set("z", "x", Some(0)), 500);
    assert_eq!(store.get("z"), Err(404));
}

#[test]
fn get_never_set_is_not_found() {
    let mut store = MemoryStore::new();
    assert_eq!(store.get("never"), Err(404));
}

#[test]
fn unreachable_store_is_internal_error() {
    let mut store = MemoryStore::new();
    store.up = false;
    assert_eq!(store.set("a", "1", None), 500);
    assert_eq!(store.set("a", "1", Some(10)), 500);
    assert_eq!(store.get("a"), Err(500));
}

#[test]
fn overwrite_returns_second_value() {
    let mut store = MemoryStore::new();
    assert_eq!(store.set("k", "first", None), 200);
    assert_eq!(store.set("k", "second", None), 200);
    assert_eq!(store.get("k"), Ok("second".to_string()));
    assert_eq!(store.set("k", "third", Some(60)), 200);
    assert_eq!(store.get("k"), Ok("third".to_string()));
}

#[test]
fn cache_scenario() {
    let mut store = MemoryStore::new();
    assert_eq!(store.set("a", "1", None), 200);
    assert_eq!(store.get("a"), Ok("1".to_string()));
    assert_eq!(store.get("missing"), Err(404));
    store.up = false;
    assert_eq!(store.get("a"), Err(500));
}

#[test]
fn command_io_failure_is_internal_error() {
    let e = RedisError::from((ErrorKind::IoError, "broken pipe"));
    let f = StoreFailure::command(&e);
    assert_eq!(set_response(&Err(f.clone())), Status::InternalError);
    assert_eq!(get_response(Err(f)), Err(Status::InternalError));
}
