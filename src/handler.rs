//! The request/response adapter: what one invocation writes and answers.
use vstd::prelude::*;
use vstd::utf8::encode_utf8;

use crate::clock::unix_now;
use crate::decimal::{decimal, decimal_of};

verus! {

/// What the caller gets when the write failed. It carries no detail of the failure.
pub const FAILURE_MESSAGE: &'static str = "The lambda encountered an error and your message was not saved";

/// The media type of every object written.
pub const CONTENT_TYPE: &'static str = "text/plain";

/// The suffix of every object key.
pub const KEY_SUFFIX: &'static str = ".txt";

/// The text before the command in a confirmation.
pub const MESSAGE_PREFIX: &'static str = "Command ";

/// The text after the command in a confirmation.
pub const MESSAGE_SUFFIX: &'static str = " executed.";

/// The inbound payload.
#[derive(Debug)]
pub struct Request {
    pub command: String,
}

/// What the host tells about the invocation being served.
#[derive(Debug)]
pub struct InvocationContext {
    pub request_id: String,
}

/// The answer when the command was stored.
#[derive(Debug)]
pub struct SuccessResponse {
    pub req_id: String,
    pub msg: String,
}

/// The answer when the command could not be stored.
#[derive(Debug)]
pub struct FailureResponse {
    pub body: String,
}

/// The result of one invocation.
pub type Response = Result<SuccessResponse, FailureResponse>;

/// Why the write failed, as the store reported it. It is for the log only.
#[derive(Debug)]
pub struct StoreFailure {
    pub detail: String,
}

/// The settings that a handler is built from.
#[derive(Debug)]
pub struct Config {
    pub bucket_name: String,
}

/// A setting that a handler cannot do without is absent.
#[derive(Debug, Clone, Copy, PartialEq, Eq, Structural)]
pub enum ConfigError {
    MissingBucketName,
}

/// The one write that an invocation asks the store for.
#[derive(Debug)]
pub struct PutObject {
    pub bucket: String,
    pub key: String,
    pub body: Vec<u8>,
    pub content_type: String,
}

/// An invocation whose write is under way: what its answer is made from.
#[derive(Debug)]
pub struct Invocation {
    pub request_id: String,
    pub command: String,
    pub key: String,
}

/// Handles invocations against one configuration.
#[derive(Debug)]
pub struct Handler {
    pub config: Config,
}

/// The key of the object written at `timestamp` (seconds since the epoch).
pub open spec fn object_key_of(timestamp: int) -> Seq<char> {
    decimal_of(timestamp) + KEY_SUFFIX@
}

/// The confirmation sent back for `command`.
pub open spec fn success_message_of(command: Seq<char>) -> Seq<char> {
    MESSAGE_PREFIX@ + command + MESSAGE_SUFFIX@
}

/// The answer to an invocation, given the request identifier, the command and
/// the outcome of the write (with the store's detail on failure).
pub open spec fn response_of(
    request_id: Seq<char>,
    command: Seq<char>,
    outcome: Result<(), Seq<char>>,
) -> Result<(Seq<char>, Seq<char>), Seq<char>> {
    match outcome {
        Ok(_) => Ok((request_id, success_message_of(command))),
        Err(_) => Err(FAILURE_MESSAGE@),
    }
}

/// The outcome of a write, seen as plain text.
pub open spec fn outcome_view(outcome: Result<(), StoreFailure>) -> Result<(), Seq<char>> {
    match outcome {
        Ok(_) => Ok(()),
        Err(f) => Err(f.detail@),
    }
}

/// A response, seen as plain text: request identifier and message, or the body.
pub open spec fn response_view(r: Response) -> Result<(Seq<char>, Seq<char>), Seq<char>> {
    match r {
        Ok(s) => Ok((s.req_id@, s.msg@)),
        Err(f) => Err(f.body@),
    }
}

impl PutObject {
    /// This is the write of `command` into `bucket`, keyed by `timestamp`.
    pub open spec fn is_write_of(&self, bucket: Seq<char>, command: Seq<char>, timestamp: int) -> bool {
        &&& self.bucket@ == bucket
        &&& self.key@ == object_key_of(timestamp)
        &&& self.body@ == encode_utf8(command)
        &&& self.content_type@ == CONTENT_TYPE@
    }
}

impl Invocation {
    /// This invocation serves `request_id` and `command`, writing under `key`.
    pub open spec fn serves(&self, request_id: Seq<char>, command: Seq<char>, key: Seq<char>) -> bool {
        &&& self.request_id@ == request_id
        &&& self.command@ == command
        &&& self.key@ == key
    }

    /// The answer once the store has reported `outcome`: the request
    /// identifier and a confirmation if the write succeeded, the fixed
    /// failure message if it did not.
    pub fn finish(self, outcome: Result<(), StoreFailure>) -> (r: Response)
        ensures
            response_view(r) == response_of(self.request_id@, self.command@, outcome_view(outcome)),
            r is Ok <==> outcome is Ok,
    {
        match outcome {
            Ok(()) => Ok(SuccessResponse { req_id: self.request_id, msg: success_message(self.command.as_str()) }),
            Err(_) => Err(FailureResponse::generic()),
        }
    }
}

impl FailureResponse {
    /// The failure answer, with the fixed message.
    pub fn generic() -> (r: FailureResponse)
        ensures
            r.body@ == FAILURE_MESSAGE@,
    {
        FailureResponse { body: String::from_str(FAILURE_MESSAGE) }
    }

    /// The text shown for this failure: its body.
    pub fn to_string(&self) -> (r: String)
        ensures
            r@ == self.body@,
    {
        self.body.clone()
    }
}

impl Config {
    /// The configuration from the bucket setting, which must be present.
    /// Without it there is no configuration, hence no handler and no write.
    pub fn from_setting(setting: Option<String>) -> (r: Result<Config, ConfigError>)
        ensures
            match setting {
                Some(b) => r is Ok && r->Ok_0.bucket_name@ == b@,
                None => r matches Err(ConfigError::MissingBucketName),
            },
            r is Err <==> setting is None,
    {
        match setting {
            Some(bucket_name) => Ok(Config { bucket_name }),
            None => Err(ConfigError::MissingBucketName),
        }
    }
}

impl Handler {
    /// A handler that writes into the configured bucket.
    pub fn new(config: Config) -> (r: Handler)
        ensures
            r.config.bucket_name@ == config.bucket_name@,
    {
        Handler { config }
    }

    /// Begins an invocation at `timestamp`: the write to ask the store for,
    /// and what the answer will be made from.
    pub fn start_at(&self, request: Request, ctx: InvocationContext, timestamp: i64) -> (r: (Invocation, PutObject))
        ensures
            r.1.is_write_of(self.config.bucket_name@, request.command@, timestamp as int),
            r.0.serves(ctx.request_id@, request.command@, r.1.key@),
    {
        let key = object_key(timestamp);
        let put = PutObject {
            bucket: self.config.bucket_name.clone(),
            key: key.clone(),
            body: request.command.as_str().as_bytes_vec(),
            content_type: String::from_str(CONTENT_TYPE),
        };
        (Invocation { request_id: ctx.request_id, command: request.command, key }, put)
    }

    /// Begins an invocation now, keyed by the clock's reading in seconds.
    pub fn start(&self, request: Request, ctx: InvocationContext) -> (r: (Invocation, PutObject))
        ensures
            exists|timestamp: i64| r.1.is_write_of(self.config.bucket_name@, request.command@, timestamp as int),
            r.0.serves(ctx.request_id@, request.command@, r.1.key@),
    {
        let now = unix_now();
        self.start_at(request, ctx, now)
    }
}

/// The key of the object written at `timestamp`: its decimal text and `.txt`.
pub fn object_key(timestamp: i64) -> (r: String)
    ensures
        r@ == object_key_of(timestamp as int),
{
    let mut r = decimal(timestamp);
    r.append(KEY_SUFFIX);
    r
}

/// The confirmation for `command`: `Command <command> executed.`
pub fn success_message(command: &str) -> (r: String)
    ensures
        r@ == success_message_of(command@),
{
    let mut r = String::from_str(MESSAGE_PREFIX);
    r.append(command);
    r.append(MESSAGE_SUFFIX);
    r
}

} // verus!
