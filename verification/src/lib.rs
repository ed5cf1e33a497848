//! Safe client layer over a native system-service manager: bus messaging,
//! journal access, daemon readiness and login introspection.
//!
//! The heart of the crate is the bus module: strongly typed message
//! construction and decoding, grammar-checked names, and the connection
//! state machine that correlates calls with replies.  The native transport
//! itself (sockets, the journal files, the service manager) is a separate
//! engine; this crate holds the protocol logic and its proofs.

use vstd::prelude::*;

pub mod bus;
pub mod daemon;
pub mod id128;
pub mod journal;
pub mod login;
pub mod text;
pub mod unit;

verus! {

/// Operation not permitted: the engine's answer to writing a sealed message.
pub const EPERM: i32 = 1;

/// No such process: releasing a name the connection does not own.
pub const ESRCH: i32 = 3;

/// No such device or address: reading a value of one wire type where
/// another is stored.
pub const ENXIO: i32 = 6;

/// No data available: asking for a datum the bus has not assigned yet.
pub const ENODATA: i32 = 61;

/// Invalid argument.
pub const EINVAL: i32 = 22;

/// Address not available: probing an entry while not positioned at one.
pub const EADDRNOTAVAIL: i32 = 99;

/// The transport is not connected.
pub const ENOTCONN: i32 = 107;

/// A blocking round trip ran out of time.
pub const ETIMEDOUT: i32 = 110;

/// Error carried by every operation that mirrors a native engine call:
/// a positive errno-style status code.
#[derive(Clone, Copy, Debug, PartialEq, Eq, Structural)]
pub struct Errno {
    pub code: i32,
}

impl Errno {
    /// The errno-style code, always positive for an error built by `ffi_result`.
    pub fn code(&self) -> (r: i32)
        ensures
            r == self.code,
    {
        self.code
    }
}

/// Convert an engine return value into a result: negative statuses are
/// errors carrying the negated status as an errno-style code.
pub fn ffi_result(ret: i32) -> (r: Result<i32, Errno>)
    requires
        ret > i32::MIN,
    ensures
        ret >= 0 ==> r == Ok::<i32, Errno>(ret),
        ret < 0 ==> r is Err && r->Err_0.code == -ret,
{
    if ret < 0 {
        Err(Errno { code: -ret })
    } else {
        Ok(ret)
    }
}

} // verus!
