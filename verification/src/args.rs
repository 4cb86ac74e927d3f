//! What the server is told on the command line.
use byte_unit::{Byte, ParseError};
use std::path::PathBuf;
use vstd::prelude::*;

use crate::duration::Duration;
use crate::handles::SharedLimiter;
use crate::server::ThrottledServer;
use crate::stats::Response;

verus! {

/// The port, unless another is asked for.
pub const DEFAULT_PORT: u16 = 8001;

/// The latency in milliseconds, unless another is asked for.
pub const DEFAULT_LATENCY_MILLIS: u64 = 100;

/// The bandwidth in bytes per second, unless another is asked for.
pub const DEFAULT_BANDWIDTH: u64 = 1_000_000;

/// What the server is told on the command line.
#[derive(Debug)]
pub struct Args {
    /// The port to listen on.
    pub port: u16,
    /// The latency of each request, in milliseconds.
    pub latency: u64,
    /// The bandwidth that all requests share, in bytes per second.
    pub bandwidth: u64,
    /// The directory of the files to serve.
    pub web_root: PathBuf,
}

impl Args {
    /// The server that is asked for, with a limiter that is made for its
    /// bandwidth, or `None` where it would have no bandwidth.
    pub fn into_server(self, limiter: SharedLimiter) -> (server: Option<ThrottledServer>)
        ensures
            match server {
                Some(server) => {
                    &&& self.bandwidth > 0
                    &&& server@.port == self.port
                    &&& server@.latency@ == self.latency * 1_000_000
                    &&& server@.bytes_per_second == self.bandwidth
                    &&& server@.limiter == limiter
                    &&& crate::handles::first_records(*server@.stats) == Seq::<Response>::empty()
                    &&& server@.web_root == self.web_root
                },
                None => self.bandwidth == 0,
            },
    {
        if self.bandwidth == 0 {
            return None;
        }
        let latency: Duration = Duration::from_millis(self.latency);
        Some(ThrottledServer::new(self.port, latency, self.bandwidth, self.web_root, limiter))
    }
}

/// `byte_unit::ParseError`: why a text is no number of bytes. Nothing here
/// looks inside one.
#[verifier::external_type_specification]
#[verifier::external_body]
pub struct ExParseError(ParseError);

/// Why a text is no bandwidth.
#[derive(Debug)]
pub struct BandwidthError {
    /// What is wrong with the number of bytes.
    pub cause: ParseError,
}

/// The number of bytes that a text such as `1.1Mb` or `512kb` stands for, or why
/// it stands for none.
pub uninterp spec fn byte_count(text: Seq<char>) -> Result<u64, ParseError>;

/// `<byte_unit::Byte as FromStr>::from_str` reads a number of bytes or bits with
/// a unit, and `Byte::as_u64` gives it in bytes. What comes out depends on the
/// text alone; the grammar of the text and the value of each unit are left
/// unsaid.
#[verifier::external_body]
fn parse_bytes(text: &str) -> (bytes: Result<u64, ParseError>)
    ensures
        bytes == byte_count(text@),
{
    text.parse::<Byte>().map(|bytes| bytes.as_u64())
}

/// A bandwidth in bytes per second, from what was read as a number of bytes.
pub fn bandwidth_of(bytes: Result<u64, ParseError>) -> (bandwidth: Result<u64, BandwidthError>)
    ensures
        match bytes {
            Ok(n) => bandwidth == Ok::<u64, BandwidthError>(n),
            Err(cause) => bandwidth == Err::<u64, BandwidthError>(BandwidthError { cause }),
        },
{
    match bytes {
        Ok(n) => Ok(n),
        Err(cause) => Err(BandwidthError { cause }),
    }
}

/// Reads a bandwidth, in bytes per second.
pub fn parse_bandwidth(text: &str) -> (bandwidth: Result<u64, BandwidthError>)
    ensures
        match byte_count(text@) {
            Ok(n) => bandwidth == Ok::<u64, BandwidthError>(n),
            Err(cause) => bandwidth == Err::<u64, BandwidthError>(BandwidthError { cause }),
        },
{
    bandwidth_of(parse_bytes(text))
}

} // verus!
