//! QUIC application error codes: 62-bit unsigned values exchanged between peers
//! when a connection or stream is closed.
use crate::common::text::{append_decimal, decimal};
use vstd::prelude::*;
use vstd::string::StringExecFns;

verus! {

/// The largest value a QUIC variable-length integer, and so an application
/// error code, can hold: 2^62 - 1.
pub const MAX_ERROR_CODE: u64 = 4_611_686_018_427_387_903u64;

/// An application error code. Its value never exceeds [`MAX_ERROR_CODE`].
#[derive(Debug, PartialEq, Eq, Structural, Clone, Copy)]
pub struct ApplicationErrorCode {
    code: u64,
}

impl ApplicationErrorCode {
    #[verifier::type_invariant]
    spec fn in_range(self) -> bool {
        self.code <= MAX_ERROR_CODE
    }

    /// The numeric value of the code.
    pub closed spec fn spec_code(self) -> u64 {
        self.code
    }

    /// The displayed form: `QUIC application error code: <value>`.
    pub open spec fn spec_text(self) -> Seq<char> {
        "QUIC application error code: "@ + decimal(self.spec_code() as nat)
    }

    /// Creates an error code from an unsigned integer; `None` when the value does
    /// not fit in 62 bits.
    pub fn new(value: u64) -> (r: Option<Self>)
        ensures
            r is Some <==> value <= MAX_ERROR_CODE,
            r matches Some(c) ==> c.spec_code() == value,
    {
        if value <= MAX_ERROR_CODE {
            Some(ApplicationErrorCode { code: value })
        } else {
            None
        }
    }

    /// The code to use when the application cannot provide a more meaningful one: 0.
    pub fn unknown() -> (r: Self)
        ensures
            r.spec_code() == 0,
    {
        ApplicationErrorCode { code: 0 }
    }

    /// The numeric value of the code, at most [`MAX_ERROR_CODE`].
    pub fn code(&self) -> (r: u64)
        ensures
            r == self.spec_code(),
            r <= MAX_ERROR_CODE,
    {
        proof {
            use_type_invariant(self);
        }
        self.code
    }

    /// The displayed form of the code.
    pub fn display_string(&self) -> (s: String)
        ensures
            s@ == self.spec_text(),
    {
        let mut s = String::from_str("QUIC application error code: ");
        append_decimal(&mut s, self.code);
        s
    }
}

} // verus!
