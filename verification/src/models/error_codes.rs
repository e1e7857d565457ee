//! The numeric codes of the errors that a response can carry.

use vstd::prelude::*;

verus! {

pub const PARSE_ERROR: i32 = -32700;

pub const INVALID_REQUEST: i32 = -32600;

pub const METHOD_NOT_FOUND: i32 = -32601;

pub const INVALID_PARAMS: i32 = -32602;

pub const INTERNAL_ERROR: i32 = -32603;

pub const NOT_AUTHENTICATED: i32 = -1001;

pub const RATE_LIMITED: i32 = -1002;

pub const NETWORK_ERROR: i32 = -1003;

pub const API_ERROR: i32 = -1004;

pub const ENCRYPTION_ERROR: i32 = -1005;

/// The codes of errors in the protocol itself.
pub open spec fn is_protocol_code(code: int) -> bool {
    -32700 <= code <= -32600
}

/// The codes of errors of the application.
pub open spec fn is_application_code(code: int) -> bool {
    -1005 <= code <= -1001
}

/// Each named code lies in its range, and the two ranges share no code.
pub proof fn lemma_code_ranges()
    ensures
        is_protocol_code(PARSE_ERROR as int),
        is_protocol_code(INVALID_REQUEST as int),
        is_protocol_code(METHOD_NOT_FOUND as int),
        is_protocol_code(INVALID_PARAMS as int),
        is_protocol_code(INTERNAL_ERROR as int),
        is_application_code(NOT_AUTHENTICATED as int),
        is_application_code(RATE_LIMITED as int),
        is_application_code(NETWORK_ERROR as int),
        is_application_code(API_ERROR as int),
        is_application_code(ENCRYPTION_ERROR as int),
        forall|code: int| !(is_protocol_code(code) && is_application_code(code)),
{
}

} // verus!
