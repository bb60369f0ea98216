//! HTTP-like status codes used as application error codes.
use crate::common::error_code::ApplicationErrorCode;
use vstd::prelude::*;

verus! {

/// A simple enum which uses HTTP status codes.
#[derive(Debug, PartialEq, Eq, Structural, Clone, Copy)]
pub enum StatusCode {
    OK,
    InternalServerError,
    ServiceUnavailable,
}

impl StatusCode {
    /// The HTTP number of the status: 200, 500 or 503.
    pub open spec fn spec_code(self) -> u32 {
        match self {
            StatusCode::OK => 200,
            StatusCode::InternalServerError => 500,
            StatusCode::ServiceUnavailable => 503,
        }
    }

    /// The HTTP number of the status.
    pub fn code(self) -> (r: u32)
        ensures
            r == self.spec_code(),
    {
        match self {
            StatusCode::OK => 200,
            StatusCode::InternalServerError => 500,
            StatusCode::ServiceUnavailable => 503,
        }
    }

    /// The status as a QUIC application error code of the same number. Every
    /// status number fits in the 62 bits of an error code, so this never fails.
    pub fn application_error(self) -> (r: ApplicationErrorCode)
        ensures
            r.spec_code() == self.spec_code() as u64,
    {
        let n: u64 = match self {
            StatusCode::OK => 200u64,
            StatusCode::InternalServerError => 500u64,
            StatusCode::ServiceUnavailable => 503u64,
        };
        match ApplicationErrorCode::new(n) {
            Some(c) => c,
            None => ApplicationErrorCode::unknown(),
        }
    }
}

impl From<StatusCode> for u32 {
    fn from(val: StatusCode) -> (r: u32) {
        val.code()
    }
}

impl vstd::std_specs::convert::FromSpecImpl<StatusCode> for u32 {
    open spec fn obeys_from_spec() -> bool {
        true
    }

    open spec fn from_spec(v: StatusCode) -> u32 {
        v.spec_code()
    }
}

} // verus!
