//! Introspection on seats, sessions and users.
//!
//! The queries themselves are single engine calls from a PID or session
//! identifier to a string or number, with no state machine around them;
//! they live with the transport. This module holds the shared argument
//! types.

use vstd::prelude::*;

verus! {

/// The two unit namespaces a process can be looked up in.
#[derive(Debug, Copy, Clone, PartialEq, Eq, Structural)]
pub enum UnitType {
    /// User slice, service or scope unit.
    UserUnit,
    /// System slice, service or scope unit.
    SystemUnit,
}

impl UnitType {
    /// Whether the lookup goes to the user service manager.
    pub fn is_user(&self) -> (r: bool)
        ensures
            r == (self == UnitType::UserUnit),
    {
        match self {
            UnitType::UserUnit => true,
            UnitType::SystemUnit => false,
        }
    }
}

} // verus!
