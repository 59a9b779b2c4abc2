use command_lambda::decimal::decimal;
use command_lambda::handler::{
    object_key, success_message, Config, ConfigError, FailureResponse, Handler, InvocationContext,
    Request, StoreFailure, FAILURE_MESSAGE,
};

const GENERIC_FAILURE: &str = "The lambda encountered an error and your message was not saved";

fn handler(bucket: &str) -> Handler {
    Handler::new(Config::from_setting(Some(bucket.to_string())).unwrap())
}

fn request(command: &str) -> Request {
    Request { command: command.to_string() }
}

fn context(id: &str) -> InvocationContext {
    InvocationContext { request_id: id.to_string() }
}

#[test]
fn healthy_store_confirms_command() {
    let h = handler("my-bucket");
    let (inv, put) = h.start_at(request("do something"), context("ctx-id"), 1_700_000_000);
    assert_eq!(put.bucket, "my-bucket");
    assert_eq!(put.key, "1700000000.txt");
    assert_eq!(put.body, b"do something".to_vec());
    assert_eq!(put.content_type, "text/plain");
    let resp = inv.finish(Ok(())).unwrap();
    assert_eq!(resp.req_id, "ctx-id");
    assert_eq!(resp.msg, "Command do something executed.");
}

#[test]
fn failing_store_gives_generic_message() {
    let h = handler("my-bucket");
    let (inv, _put) = h.start_at(request("do something"), context("ctx-id"), 1_700_000_000);
    let failure = StoreFailure { detail: "NoSuchBucket: the bucket does not exist".to_string() };
    let err = inv.finish(Err(failure)).unwrap_err();
    assert_eq!(err.body, GENERIC_FAILURE);
    assert_eq!(FAILURE_MESSAGE, GENERIC_FAILURE);
}

#[test]
fn success_message_contains_command() {
    let h = handler("b");
    let (inv, _put) = h.start_at(request("launch rockets"), context("req-7"), 12);
    let resp = inv.finish(Ok(())).unwrap();
    assert_eq!(resp.req_id, "req-7");
    assert!(resp.msg.contains("launch rockets"));
}

#[test]
fn failure_body_hides_store_detail() {
    let h = handler("b");
    let detail = "AccessDenied (status 403), request id ABC123";
    let (inv, _put) = h.start_at(request("x"), context("r"), 0);
    let err = inv.finish(Err(StoreFailure { detail: detail.to_string() })).unwrap_err();
    assert!(!err.body.contains(detail));
    assert!(!err.body.contains("ABC123"));
}

#[test]
fn failure_body_same_for_any_detail() {
    let h = handler("b");
    let (a, _) = h.start_at(request("x"), context("r"), 0);
    let (b, _) = h.start_at(request("x"), context("r"), 0);
    let ea = a.finish(Err(StoreFailure { detail: "one".to_string() })).unwrap_err();
    let eb = b.finish(Err(StoreFailure { detail: "two".to_string() })).unwrap_err();
    assert_eq!(ea.body, eb.body);
}

#[test]
fn exactly_one_answer() {
    let h = handler("b");
    let (a, _) = h.start_at(request("x"), context("r"), 0);
    let (b, _) = h.start_at(request("x"), context("r"), 0);
    assert!(a.finish(Ok(())).is_ok());
    assert!(b.finish(Err(StoreFailure { detail: String::new() })).is_err());
}

#[test]
fn missing_bucket_setting_is_rejected() {
    let r = Config::from_setting(None);
    assert!(matches!(r, Err(ConfigError::MissingBucketName)));
}

#[test]
fn present_bucket_setting_is_kept() {
    let c = Config::from_setting(Some("bucket-a".to_string())).unwrap();
    assert_eq!(c.bucket_name, "bucket-a");
    let empty = Config::from_setting(Some(String::new())).unwrap();
    assert_eq!(empty.bucket_name, "");
}

#[test]
fn empty_command() {
    let h = handler("b");
    let (inv, put) = h.start_at(request(""), context("id"), 5);
    assert!(put.body.is_empty());
    assert_eq!(inv.finish(Ok(())).unwrap().msg, "Command  executed.");
    assert_eq!(success_message(""), "Command  executed.");
}

#[test]
fn non_ascii_command_is_stored_as_utf8() {
    let h = handler("b");
    let (inv, put) = h.start_at(request("héllo ✓"), context("id"), 5);
    assert_eq!(put.body, "héllo ✓".as_bytes().to_vec());
    assert_eq!(inv.finish(Ok(())).unwrap().msg, "Command héllo ✓ executed.");
}

#[test]
fn invocation_remembers_key() {
    let h = handler("b");
    let (inv, put) = h.start_at(request("c"), context("id"), 99);
    assert_eq!(inv.key, put.key);
    assert_eq!(inv.key, "99.txt");
    assert_eq!(inv.command, "c");
    assert_eq!(inv.request_id, "id");
}

#[test]
fn object_keys() {
    assert_eq!(object_key(0), "0.txt");
    assert_eq!(object_key(7), "7.txt");
    assert_eq!(object_key(10), "10.txt");
    assert_eq!(object_key(-5), "-5.txt");
    assert_eq!(object_key(1_700_000_000), "1700000000.txt");
}

#[test]
fn decimal_matches_display() {
    for n in [0i64, 1, 9, 10, 99, 100, 101, -1, -10, 1234567890, i64::MAX, i64::MIN] {
        assert_eq!(decimal(n), format!("{}", n));
    }
}

#[test]
fn start_uses_the_clock() {
    let h = handler("b");
    let (inv, put) = h.start(request("now"), context("id"));
    assert!(put.key.ends_with(".txt"));
    let seconds: i64 = put.key.trim_end_matches(".txt").parse().unwrap();
    assert!(seconds > 1_600_000_000);
    assert_eq!(inv.key, put.key);
    assert_eq!(put.body, b"now".to_vec());
}

#[test]
fn failure_to_string_is_body() {
    let f = FailureResponse::generic();
    assert_eq!(f.to_string(), GENERIC_FAILURE);
    let g = FailureResponse { body: "other".to_string() };
    assert_eq!(g.to_string(), "other");
}
