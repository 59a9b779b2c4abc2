//! Request handling for a function that stores each incoming command as an
//! object in a bucket and answers with a confirmation.
//!
//! The library holds every decision of an invocation: whether the bucket
//! setting is present, which object is written and with what content, and
//! which response the caller gets for each outcome of the write. The host
//! performs the write and hands the outcome back.
mod clock;
pub mod decimal;
pub mod handler;
pub mod laws;
