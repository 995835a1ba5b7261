//! The errors one envelope's handling can produce, and the textual form in
//! which they are returned to the requesting session. No error here is
//! broadcast, and none is fatal to the broker.

use vstd::prelude::*;
use vstd::string::StringExecFns;
use crate::ops::{op_name, op_name_of, UserOperation};

verus! {

/// Everything that can go wrong while handling a single envelope.
#[derive(Debug)]
pub enum DispatchError {
    /// The envelope is not valid structured data, lacks a usable `op`
    /// field, or its payload lacks a field the dispatcher itself needs.
    MalformedEnvelope,
    /// The `op` field names no known operation.
    UnknownOperation,
    /// A rate-limit check rejected the request; carries the configured
    /// parameters for the user-facing message.
    RateLimited { rate: u32, per: u32 },
    /// The business layer failed; carries the operation name as context.
    BusinessLayerFailure { op: UserOperation, cause: String },
    /// Resolving a derived broadcast scope failed.
    BroadcastScopeResolutionFailure { cause: String },
}

pub open spec fn spec_dec_digit(d: int) -> char {
    if d == 0 { '0' }
    else if d == 1 { '1' }
    else if d == 2 { '2' }
    else if d == 3 { '3' }
    else if d == 4 { '4' }
    else if d == 5 { '5' }
    else if d == 6 { '6' }
    else if d == 7 { '7' }
    else if d == 8 { '8' }
    else { '9' }
}

/// The decimal digits of `n`, most significant first.
pub open spec fn spec_dec(n: int) -> Seq<char>
    decreases n,
{
    if n < 10 {
        seq![spec_dec_digit(n)]
    } else {
        spec_dec(n / 10) + seq![spec_dec_digit(n % 10)]
    }
}

fn dec_digit_str(d: u32) -> (r: &'static str)
    requires
        d < 10,
    ensures
        r@ == seq![spec_dec_digit(d as int)],
{
    proof {
        reveal_strlit("0");
        reveal_strlit("1");
        reveal_strlit("2");
        reveal_strlit("3");
        reveal_strlit("4");
        reveal_strlit("5");
        reveal_strlit("6");
        reveal_strlit("7");
        reveal_strlit("8");
        reveal_strlit("9");
    }
    let r = match d {
        0u32 => "0",
        1u32 => "1",
        2u32 => "2",
        3u32 => "3",
        4u32 => "4",
        5u32 => "5",
        6u32 => "6",
        7u32 => "7",
        8u32 => "8",
        _ => "9",
    };
    proof {
        assert(r@ =~= seq![spec_dec_digit(d as int)]);
    }
    r
}

/// Render `n` in decimal.
pub fn u32_dec(n: u32) -> (r: String)
    ensures
        r@ == spec_dec(n as int),
    decreases n,
{
    if n < 10 {
        dec_digit_str(n).to_owned()
    } else {
        let q = u32_dec(n / 10);
        let r = q.concat(dec_digit_str(n % 10));
        proof {
            assert(r@ =~= spec_dec(n as int));
        }
        r
    }
}

/// The message text of an error, as returned to the requesting session.
pub open spec fn spec_error_message(e: DispatchError) -> Seq<char> {
    match e {
        DispatchError::MalformedEnvelope => "Malformed message envelope"@,
        DispatchError::UnknownOperation => "Unknown op type"@,
        DispatchError::RateLimited { rate, per } =>
            "Too many requests. "@ + spec_dec(rate as int) + " per "@ + spec_dec(per as int)
                + " seconds"@,
        DispatchError::BusinessLayerFailure { op, cause } => op_name_of(op) + ": "@ + cause@,
        DispatchError::BroadcastScopeResolutionFailure { cause } => cause@,
    }
}

/// Render an error as the textual response sent back to the requester.
pub fn error_message(e: &DispatchError) -> (r: String)
    ensures
        r@ == spec_error_message(*e),
{
    match e {
        DispatchError::MalformedEnvelope => "Malformed message envelope".to_owned(),
        DispatchError::UnknownOperation => "Unknown op type".to_owned(),
        DispatchError::RateLimited { rate, per } => {
            let r = "Too many requests. ".to_owned()
                .concat(u32_dec(*rate).as_str())
                .concat(" per ")
                .concat(u32_dec(*per).as_str())
                .concat(" seconds");
            proof {
                assert(r@ =~= spec_error_message(*e));
            }
            r
        },
        DispatchError::BusinessLayerFailure { op, cause } => {
            let r = op_name(*op).to_owned().concat(": ").concat(cause.as_str());
            proof {
                assert(r@ =~= spec_error_message(*e));
            }
            r
        },
        DispatchError::BroadcastScopeResolutionFailure { cause } => cause.as_str().to_owned(),
    }
}

} // verus!
