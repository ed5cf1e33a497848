//! Grammar-checked wrappers for the names that travel in bus messages:
//! object paths, interface names, bus (peer) names and member names.
//!
//! Each wrapper holds a NUL-terminated byte string that satisfies its
//! grammar; the validating constructor is the only proof obligation, and
//! every value of the type carries the grammar as a type invariant.

use vstd::prelude::*;
use vstd::slice::slice_index_get;
use vstd::slice::slice_to_vec;

verus! {

/// A byte a name element may contain: ASCII letters, digits and underscore.
pub open spec fn is_word_byte(c: u8) -> bool {
    (('A' as u8) <= c && c <= ('Z' as u8)) || (('a' as u8) <= c && c <= ('z' as u8)) || (('0' as u8) <= c && c <= ('9' as u8)) || c == ('_' as u8)
}

/// An ASCII decimal digit.
pub open spec fn is_digit_byte(c: u8) -> bool {
    ('0' as u8) <= c && c <= ('9' as u8)
}

/// Position `j` of an object path passes the scan: not the terminator,
/// and either a word byte or a separator that does not follow a separator.
pub open spec fn path_scan_ok(s: Seq<u8>, j: int) -> bool {
    &&& s[j] != 0
    &&& (is_word_byte(s[j]) || (s[j] == ('/' as u8) && s[j - 1] != ('/' as u8)))
}

/// The scan of an object path may accept at position `n`: `n` is the first
/// NUL, everything before it passes, and a path longer than the root path
/// does not end in a separator.
pub open spec fn path_accept_at(s: Seq<u8>, n: int) -> bool {
    &&& 1 <= n < s.len()
    &&& s[n] == 0
    &&& forall|j: int| 1 <= j < n ==> path_scan_ok(s, j)
    &&& !(s[n - 1] == ('/' as u8) && s.len() != 2)
}

/// The object path grammar: begins with `/`, word bytes and single
/// separators up to the first NUL, no trailing separator except in the
/// root path `/`.
pub open spec fn is_valid_object_path(s: Seq<u8>) -> bool {
    &&& s.len() >= 1
    &&& s[0] == ('/' as u8)
    &&& exists|n: int| path_accept_at(s, n)
}

/// The accept position of a valid object path: its first NUL byte.
pub open spec fn path_nul(s: Seq<u8>) -> int {
    choose|n: int| path_accept_at(s, n)
}

/// Every byte string accepted as an object path starts with `/`, has no
/// two `/` in sequence before its terminator, and ends in `/` just before
/// the terminator only when it is exactly the root path `/` followed by
/// its NUL.
pub proof fn lemma_object_path_shape(s: Seq<u8>)
    requires
        is_valid_object_path(s),
    ensures
        s[0] == ('/' as u8),
        1 <= path_nul(s) < s.len(),
        s[path_nul(s)] == 0,
        forall|j: int|
            0 < j < path_nul(s) ==> !(#[trigger] s[j] == ('/' as u8) && s[j - 1] == ('/' as u8)),
        s[path_nul(s) - 1] == ('/' as u8) ==> path_nul(s) == 1 && s.len() == 2,
{
    let n = choose|n: int| path_accept_at(s, n);
    assert(path_accept_at(s, n));
    assert forall|j: int|
        0 < j < path_nul(s) implies !(#[trigger] s[j] == ('/' as u8) && s[j - 1] == ('/' as u8)) by {
        assert(path_scan_ok(s, j));
    }
}

/// A wrapper which promises it always holds a valid bus object path.
///
/// The grammar, checked by `from_bytes`:
/// - the path begins with ASCII `/` and consists of elements separated by
///   slash bytes;
/// - each element contains only the ASCII bytes `[A-Z][a-z][0-9]_`;
/// - no element is empty (no two `/` in sequence);
/// - a trailing `/` is only allowed in the root path;
/// - the path is NUL-terminated, and is accepted at its first NUL byte.
#[derive(Debug)]
pub struct ObjectPath {
    bytes: Vec<u8>,
}

impl View for ObjectPath {
    type V = Seq<u8>;

    closed spec fn view(&self) -> Seq<u8> {
        self.bytes@
    }
}

impl ObjectPath {
    /// The grammar is an invariant of the type: every constructed value
    /// satisfies it.
    #[verifier::type_invariant]
    pub closed spec fn wf(self) -> bool {
        is_valid_object_path(self.bytes@)
    }

    /// Create an owned path from a byte string. Performs all checking
    /// needed to ensure the grammar holds; accepts exactly the valid paths.
    pub fn from_bytes(b: &[u8]) -> (r: Result<ObjectPath, &'static str>)
        ensures
            r is Ok <==> is_valid_object_path(b@),
            r matches Ok(p) ==> p@ == b@,
    {
        if b.len() == 0 {
            return Err("Path must have at least 1 character ('/')");
        }
        if *slice_index_get(b, 0) != ('/' as u8) {
            return Err("Path must begin with '/'");
        }
        let mut i: usize = 1;
        while i < b.len()
            invariant
                1 <= i <= b@.len(),
                b@.len() >= 1,
                b@[0] == ('/' as u8),
                forall|j: int| 1 <= j < i ==> path_scan_ok(b@, j),
            decreases b@.len() - i,
        {
            let prev = *slice_index_get(b, i - 1);
            let c = *slice_index_get(b, i);
            if c == 0 {
                if prev == ('/' as u8) && b.len() != 2 {
                    proof {
                        assert forall|n: int| !path_accept_at(b@, n) by {
                            if 1 <= n < i {
                                assert(path_scan_ok(b@, n));
                            } else if n > i {
                                if path_accept_at(b@, n) {
                                    assert(path_scan_ok(b@, i as int));
                                }
                            }
                        }
                    }
                    return Err("Path must not end in '/' unless it is the root path");
                }
                proof {
                    assert(path_accept_at(b@, i as int));
                }
                return Ok(ObjectPath { bytes: slice_to_vec(b) });
            }
            let word = (c >= ('A' as u8) && c <= ('Z' as u8)) || (c >= ('a' as u8) && c <= ('z' as u8))
                || (c >= ('0' as u8) && c <= ('9' as u8)) || c == ('_' as u8);
            if !(word || (c == ('/' as u8) && prev != ('/' as u8))) {
                proof {
                    assert forall|n: int| !path_accept_at(b@, n) by {
                        if 1 <= n < i {
                            assert(path_scan_ok(b@, n));
                        } else if n > i {
                            if path_accept_at(b@, n) {
                                assert(path_scan_ok(b@, i as int));
                            }
                        }
                    }
                }
                return Err("Invalid character in path, only '[A-Z][a-z][0-9]_/' allowed");
            }
            proof {
                assert(path_scan_ok(b@, i as int));
            }
            i = i + 1;
        }
        proof {
            assert forall|n: int| !path_accept_at(b@, n) by {
                if 1 <= n < b@.len() {
                    assert(path_scan_ok(b@, n));
                }
            }
        }
        Err("Path must be terminated in a '\\0' byte (for use by sd-bus)")
    }

    /// Create a path from bytes already known to satisfy the grammar, for
    /// example a string handed back by the engine. The proof obligation is
    /// the caller's; no scan is performed.
    pub fn from_bytes_unchecked(b: &[u8]) -> (r: ObjectPath)
        requires
            is_valid_object_path(b@),
        ensures
            r@ == b@,
    {
        ObjectPath { bytes: slice_to_vec(b) }
    }

    /// The underlying NUL-terminated byte string.
    pub fn as_bytes(&self) -> (r: &[u8])
        ensures
            r@ == self@,
    {
        self.bytes.as_slice()
    }

    /// Length of the byte string, terminator and any trailing bytes included.
    pub fn len(&self) -> (r: usize)
        ensures
            r == self@.len(),
    {
        self.bytes.len()
    }
}

impl Clone for ObjectPath {
    /// Cloning keeps the byte string, and with it the grammar.
    fn clone(&self) -> (r: Self)
        ensures
            r@ == self@,
    {
        proof {
            use_type_invariant(self);
        }
        ObjectPath { bytes: slice_to_vec(self.bytes.as_slice()) }
    }
}

/// A byte that may open a name: a letter or underscore, never a digit.
pub open spec fn is_name_start_byte(c: u8) -> bool {
    is_word_byte(c) && !is_digit_byte(c)
}

/// Position `j` of an interface name passes the scan: not the terminator;
/// a dot, letter, digit or underscore; a dot never follows a dot; a digit
/// never follows a dot (elements may not start with a digit).
pub open spec fn iface_scan_ok(s: Seq<u8>, j: int) -> bool {
    &&& s[j] != 0
    &&& (s[j] == ('.' as u8) || is_word_byte(s[j]))
    &&& (s[j] == ('.' as u8) ==> s[j - 1] != ('.' as u8))
    &&& (is_digit_byte(s[j]) ==> s[j - 1] != ('.' as u8))
}

/// The scan of an interface name may accept at position `n`: `n` is the
/// first NUL, everything before it passes, the name does not end in a dot,
/// and at least one dot occurred (so the name has at least two elements).
pub open spec fn iface_accept_at(s: Seq<u8>, n: int) -> bool {
    &&& 1 <= n < s.len()
    &&& s[n] == 0
    &&& forall|j: int| 1 <= j < n ==> iface_scan_ok(s, j)
    &&& s[n - 1] != ('.' as u8)
    &&& exists|j: int| 1 <= j < n && #[trigger] s[j] == ('.' as u8)
}

/// The interface name grammar: dot-separated elements of letters, digits
/// and underscore, no element empty or digit-led, at least two elements,
/// NUL-terminated.
pub open spec fn is_valid_interface_name(s: Seq<u8>) -> bool {
    &&& s.len() >= 1
    &&& is_name_start_byte(s[0])
    &&& exists|n: int| iface_accept_at(s, n)
}

/// A wrapper which promises it always holds a validated bus interface name.
///
/// The grammar, checked by `from_bytes`:
/// - one or more elements separated by a period `.`, each non-empty;
/// - elements contain only the ASCII bytes `[A-Z][a-z][0-9]_` and do not
///   begin with a digit;
/// - at least one period (so at least two elements);
/// - the name neither begins nor ends with a period;
/// - the name is NUL-terminated, and is accepted at its first NUL byte.
#[derive(Debug)]
pub struct InterfaceName {
    bytes: Vec<u8>,
}

impl View for InterfaceName {
    type V = Seq<u8>;

    closed spec fn view(&self) -> Seq<u8> {
        self.bytes@
    }
}

impl InterfaceName {
    /// The grammar is an invariant of the type.
    #[verifier::type_invariant]
    pub closed spec fn wf(self) -> bool {
        is_valid_interface_name(self.bytes@)
    }

    /// Create an owned interface name from a byte string; accepts exactly
    /// the byte strings that satisfy the grammar.
    pub fn from_bytes(b: &[u8]) -> (r: Result<InterfaceName, &'static str>)
        ensures
            r is Ok <==> is_valid_interface_name(b@),
            r matches Ok(p) ==> p@ == b@,
    {
        if b.len() == 0 {
            return Err("Name must have more than 0 characters");
        }
        let first = *slice_index_get(b, 0);
        if first == ('.' as u8) {
            return Err("Name must not begin with '.'");
        }
        let start_ok = (first >= ('A' as u8) && first <= ('Z' as u8))
            || (first >= ('a' as u8) && first <= ('z' as u8)) || first == ('_' as u8);
        if !start_ok {
            return Err("Name must only begin with '[A-Z][a-z]_'");
        }
        let mut periods: usize = 0;
        let mut i: usize = 1;
        while i < b.len()
            invariant
                1 <= i <= b@.len(),
                b@.len() >= 1,
                is_name_start_byte(b@[0]),
                forall|j: int| 1 <= j < i ==> iface_scan_ok(b@, j),
                periods > 0 <==> exists|j: int| 1 <= j < i && #[trigger] b@[j] == ('.' as u8),
                periods <= i,
            decreases b@.len() - i,
        {
            let prev = *slice_index_get(b, i - 1);
            let c = *slice_index_get(b, i);
            if c == ('.' as u8) {
                if prev == ('.' as u8) {
                    proof {
                        assert forall|n: int| !iface_accept_at(b@, n) by {
                            if 1 <= n < i {
                                assert(iface_scan_ok(b@, n));
                            } else if n >= i {
                                if iface_accept_at(b@, n) {
                                    assert(iface_scan_ok(b@, i as int));
                                }
                            }
                        }
                    }
                    return Err("Name must not have 2 '.' next to each other");
                }
                periods = periods + 1;
                proof {
                    assert(b@[i as int] == ('.' as u8));
                }
            } else if (c >= ('A' as u8) && c <= ('Z' as u8)) || (c >= ('a' as u8) && c <= ('z' as u8))
                || c == ('_' as u8) {
                // a word byte that is not a digit
            } else if c >= ('0' as u8) && c <= ('9' as u8) {
                if prev == ('.' as u8) {
                    proof {
                        assert forall|n: int| !iface_accept_at(b@, n) by {
                            if 1 <= n < i {
                                assert(iface_scan_ok(b@, n));
                            } else if n >= i {
                                if iface_accept_at(b@, n) {
                                    assert(iface_scan_ok(b@, i as int));
                                }
                            }
                        }
                    }
                    return Err("Name element must not start with '[0-9]'");
                }
            } else if c == 0 {
                if prev == ('.' as u8) {
                    proof {
                        assert forall|n: int| !iface_accept_at(b@, n) by {
                            if 1 <= n < i {
                                assert(iface_scan_ok(b@, n));
                            } else if n > i {
                                if iface_accept_at(b@, n) {
                                    assert(iface_scan_ok(b@, i as int));
                                }
                            }
                        }
                    }
                    return Err("Name must not end in '.'");
                }
                if periods == 0 {
                    proof {
                        assert forall|n: int| !iface_accept_at(b@, n) by {
                            if 1 <= n < i {
                                assert(iface_scan_ok(b@, n));
                            } else if n > i {
                                if iface_accept_at(b@, n) {
                                    assert(iface_scan_ok(b@, i as int));
                                }
                            }
                        }
                    }
                    return Err("Name must have at least 2 elements");
                }
                proof {
                    assert(iface_accept_at(b@, i as int));
                }
                return Ok(InterfaceName { bytes: slice_to_vec(b) });
            } else {
                proof {
                    assert forall|n: int| !iface_accept_at(b@, n) by {
                        if 1 <= n < i {
                            assert(iface_scan_ok(b@, n));
                        } else if n >= i {
                            if iface_accept_at(b@, n) {
                                assert(iface_scan_ok(b@, i as int));
                            }
                        }
                    }
                }
                return Err("Invalid character in interface name, only '[A-Z][a-z][0-9]_\\.' allowed");
            }
            proof {
                assert(iface_scan_ok(b@, i as int));
            }
            i = i + 1;
        }
        proof {
            assert forall|n: int| !iface_accept_at(b@, n) by {
                if 1 <= n < b@.len() {
                    assert(iface_scan_ok(b@, n));
                }
            }
        }
        Err("Name must be terminated in a '\\0' byte (for use by sd-bus)")
    }

    /// Create an interface name from bytes already known to satisfy the
    /// grammar; the proof obligation is the caller's.
    pub fn from_bytes_unchecked(b: &[u8]) -> (r: InterfaceName)
        requires
            is_valid_interface_name(b@),
        ensures
            r@ == b@,
    {
        InterfaceName { bytes: slice_to_vec(b) }
    }

    /// The underlying NUL-terminated byte string.
    pub fn as_bytes(&self) -> (r: &[u8])
        ensures
            r@ == self@,
    {
        self.bytes.as_slice()
    }

    /// Length of the byte string, terminator and any trailing bytes included.
    pub fn len(&self) -> (r: usize)
        ensures
            r == self@.len(),
    {
        self.bytes.len()
    }
}

impl Clone for InterfaceName {
    /// Cloning keeps the byte string, and with it the grammar.
    fn clone(&self) -> (r: Self)
        ensures
            r@ == self@,
    {
        proof {
            use_type_invariant(self);
        }
        InterfaceName { bytes: slice_to_vec(self.bytes.as_slice()) }
    }
}

/// Position `j` of a bus name passes the scan: not the terminator; a dot,
/// letter, digit, underscore or dash; a dot never follows a dot or the
/// unique-name colon; a digit never follows a dot unless the whole name is
/// a unique name (opened by `:`).
pub open spec fn bus_scan_ok(s: Seq<u8>, j: int) -> bool {
    &&& s[j] != 0
    &&& (s[j] == ('.' as u8) || is_word_byte(s[j]) || s[j] == ('-' as u8))
    &&& (s[j] == ('.' as u8) ==> s[j - 1] != ('.' as u8) && s[j - 1] != (':' as u8))
    &&& (is_digit_byte(s[j]) ==> !(s[j - 1] == ('.' as u8) && s[0] != (':' as u8)))
}

/// The scan of a bus name may accept at position `n`: `n` is the first
/// NUL, everything before it passes, the name does not end in a dot, and
/// at least one dot occurred.
pub open spec fn bus_accept_at(s: Seq<u8>, n: int) -> bool {
    &&& 1 <= n < s.len()
    &&& s[n] == 0
    &&& forall|j: int| 1 <= j < n ==> bus_scan_ok(s, j)
    &&& s[n - 1] != ('.' as u8)
    &&& exists|j: int| 1 <= j < n && #[trigger] s[j] == ('.' as u8)
}

/// The bus name grammar: like an interface name but elements may also
/// contain `-`, a unique name begins with `:` and may have digit-led
/// elements, and the whole byte string is at most 256 bytes long.
pub open spec fn is_valid_bus_name(s: Seq<u8>) -> bool {
    &&& 1 <= s.len() <= 256
    &&& (is_name_start_byte(s[0]) || s[0] == (':' as u8) || s[0] == ('-' as u8))
    &&& exists|n: int| bus_accept_at(s, n)
}

/// A wrapper which promises it always holds a validated bus (peer) name.
///
/// The grammar, checked by `from_bytes`:
/// - unique names start with `:`, well-known names do not;
/// - one or more elements separated by a period `.`, each non-empty;
/// - elements contain only the ASCII bytes `[A-Z][a-z][0-9]_-`;
/// - elements of a well-known name do not begin with a digit; a unique
///   name's elements may;
/// - at least one period (so at least two elements), no leading or
///   trailing period;
/// - at most 256 bytes in all, NUL-terminated, accepted at the first NUL.
#[derive(Debug)]
pub struct BusName {
    bytes: Vec<u8>,
}

impl View for BusName {
    type V = Seq<u8>;

    closed spec fn view(&self) -> Seq<u8> {
        self.bytes@
    }
}

impl BusName {
    /// The grammar is an invariant of the type.
    #[verifier::type_invariant]
    pub closed spec fn wf(self) -> bool {
        is_valid_bus_name(self.bytes@)
    }

    /// Create an owned bus name from a byte string; accepts exactly the
    /// byte strings that satisfy the grammar.
    pub fn from_bytes(b: &[u8]) -> (r: Result<BusName, &'static str>)
        ensures
            r is Ok <==> is_valid_bus_name(b@),
            r matches Ok(p) ==> p@ == b@,
    {
        if b.len() == 0 {
            return Err("Name must have more than 0 characters");
        }
        if b.len() > 256 {
            return Err("Must be shorter than 255 characters");
        }
        let first = *slice_index_get(b, 0);
        if first == ('.' as u8) {
            return Err("Name must not begin with '.'");
        }
        let start_ok = (first >= ('A' as u8) && first <= ('Z' as u8))
            || (first >= ('a' as u8) && first <= ('z' as u8)) || first == ('_' as u8)
            || first == ('-' as u8) || first == (':' as u8);
        if !start_ok {
            return Err("Name must only begin with '[A-Z][a-z]_'");
        }
        let mut periods: usize = 0;
        let mut i: usize = 1;
        while i < b.len()
            invariant
                1 <= i <= b@.len(),
                b@.len() >= 1,
                is_name_start_byte(b@[0]) || b@[0] == (':' as u8) || b@[0] == ('-' as u8),
                b@.len() <= 256,
                first == b@[0],
                forall|j: int| 1 <= j < i ==> bus_scan_ok(b@, j),
                periods > 0 <==> exists|j: int| 1 <= j < i && #[trigger] b@[j] == ('.' as u8),
                periods <= i,
            decreases b@.len() - i,
        {
            let prev = *slice_index_get(b, i - 1);
            let c = *slice_index_get(b, i);
            if c == ('.' as u8) {
                if prev == ('.' as u8) || prev == (':' as u8) {
                    proof {
                        assert forall|n: int| !bus_accept_at(b@, n) by {
                            if 1 <= n < i {
                                assert(bus_scan_ok(b@, n));
                            } else if n >= i {
                                if bus_accept_at(b@, n) {
                                    assert(bus_scan_ok(b@, i as int));
                                }
                            }
                        }
                    }
                    return Err("Elements may not be empty");
                }
                periods = periods + 1;
                proof {
                    assert(b@[i as int] == ('.' as u8));
                }
            } else if (c >= ('A' as u8) && c <= ('Z' as u8)) || (c >= ('a' as u8) && c <= ('z' as u8))
                || c == ('_' as u8) || c == ('-' as u8) {
                // a word or dash byte that is not a digit
            } else if c >= ('0' as u8) && c <= ('9' as u8) {
                if prev == ('.' as u8) && first != (':' as u8) {
                    proof {
                        assert forall|n: int| !bus_accept_at(b@, n) by {
                            if 1 <= n < i {
                                assert(bus_scan_ok(b@, n));
                            } else if n >= i {
                                if bus_accept_at(b@, n) {
                                    assert(bus_scan_ok(b@, i as int));
                                }
                            }
                        }
                    }
                    return Err("Name element must not start with '[0-9]'");
                }
            } else if c == 0 {
                if prev == ('.' as u8) {
                    proof {
                        assert forall|n: int| !bus_accept_at(b@, n) by {
                            if 1 <= n < i {
                                assert(bus_scan_ok(b@, n));
                            } else if n > i {
                                if bus_accept_at(b@, n) {
                                    assert(bus_scan_ok(b@, i as int));
                                }
                            }
                        }
                    }
                    return Err("Name must not end in '.'");
                }
                if periods == 0 {
                    proof {
                        assert forall|n: int| !bus_accept_at(b@, n) by {
                            if 1 <= n < i {
                                assert(bus_scan_ok(b@, n));
                            } else if n > i {
                                if bus_accept_at(b@, n) {
                                    assert(bus_scan_ok(b@, i as int));
                                }
                            }
                        }
                    }
                    return Err("Name must have at least 2 elements");
                }
                proof {
                    assert(bus_accept_at(b@, i as int));
                }
                return Ok(BusName { bytes: slice_to_vec(b) });
            } else {
                proof {
                    assert forall|n: int| !bus_accept_at(b@, n) by {
                        if 1 <= n < i {
                            assert(bus_scan_ok(b@, n));
                        } else if n >= i {
                            if bus_accept_at(b@, n) {
                                assert(bus_scan_ok(b@, i as int));
                            }
                        }
                    }
                }
                return Err("Invalid character in bus name, only '[A-Z][a-z][0-9]_\\.' allowed");
            }
            proof {
                assert(bus_scan_ok(b@, i as int));
            }
            i = i + 1;
        }
        proof {
            assert forall|n: int| !bus_accept_at(b@, n) by {
                if 1 <= n < b@.len() {
                    assert(bus_scan_ok(b@, n));
                }
            }
        }
        Err("Name must be terminated in a '\\0' byte (for use by sd-bus)")
    }

    /// Create a bus name from bytes already known to satisfy the grammar;
    /// the proof obligation is the caller's.
    pub fn from_bytes_unchecked(b: &[u8]) -> (r: BusName)
        requires
            is_valid_bus_name(b@),
        ensures
            r@ == b@,
    {
        BusName { bytes: slice_to_vec(b) }
    }

    /// The underlying NUL-terminated byte string.
    pub fn as_bytes(&self) -> (r: &[u8])
        ensures
            r@ == self@,
    {
        self.bytes.as_slice()
    }

    /// Length of the byte string, terminator and any trailing bytes included.
    pub fn len(&self) -> (r: usize)
        ensures
            r == self@.len(),
    {
        self.bytes.len()
    }
}

impl Clone for BusName {
    /// Cloning keeps the byte string, and with it the grammar.
    fn clone(&self) -> (r: Self)
        ensures
            r@ == self@,
    {
        proof {
            use_type_invariant(self);
        }
        BusName { bytes: slice_to_vec(self.bytes.as_slice()) }
    }
}

/// The scan of a member name may accept at position `n`: `n` is the first
/// NUL and every byte before it is a word byte.
pub open spec fn member_accept_at(s: Seq<u8>, n: int) -> bool {
    &&& 0 <= n < s.len()
    &&& s[n] == 0
    &&& forall|j: int| 0 <= j < n ==> is_word_byte(#[trigger] s[j])
}

/// The member name grammar: at least one byte before the terminator, only
/// letters, digits and underscore, no leading digit, at most 256 bytes.
pub open spec fn is_valid_member_name(s: Seq<u8>) -> bool {
    &&& 2 <= s.len() <= 256
    &&& is_name_start_byte(s[0])
    &&& exists|n: int| member_accept_at(s, n)
}

/// A wrapper which promises it always holds a validated member name.
///
/// The grammar, checked by `from_bytes`:
/// - only the ASCII bytes `[A-Z][a-z][0-9]_`, no periods;
/// - does not begin with a digit;
/// - at least one byte long and at most 256 bytes in all;
/// - NUL-terminated, accepted at the first NUL byte.
#[derive(Debug)]
pub struct MemberName {
    bytes: Vec<u8>,
}

impl View for MemberName {
    type V = Seq<u8>;

    closed spec fn view(&self) -> Seq<u8> {
        self.bytes@
    }
}

impl MemberName {
    /// The grammar is an invariant of the type.
    #[verifier::type_invariant]
    pub closed spec fn wf(self) -> bool {
        is_valid_member_name(self.bytes@)
    }

    /// Create an owned member name from a byte string; accepts exactly the
    /// byte strings that satisfy the grammar.
    pub fn from_bytes(b: &[u8]) -> (r: Result<MemberName, &'static str>)
        ensures
            r is Ok <==> is_valid_member_name(b@),
            r matches Ok(p) ==> p@ == b@,
    {
        if b.len() < 2 {
            return Err("Name must have more than 0 characters");
        }
        if b.len() > 256 {
            return Err("Must be shorter than 255 characters");
        }
        let first = *slice_index_get(b, 0);
        let start_ok = (first >= ('A' as u8) && first <= ('Z' as u8))
            || (first >= ('a' as u8) && first <= ('z' as u8)) || first == ('_' as u8);
        if !start_ok {
            return Err("Must begin with '[A-Z][a-z]_'");
        }
        let mut i: usize = 0;
        while i < b.len()
            invariant
                0 <= i <= b@.len(),
                2 <= b@.len() <= 256,
                is_name_start_byte(b@[0]),
                forall|j: int| 0 <= j < i ==> is_word_byte(#[trigger] b@[j]),
            decreases b@.len() - i,
        {
            let c = *slice_index_get(b, i);
            if c == 0 {
                proof {
                    assert(member_accept_at(b@, i as int));
                }
                return Ok(MemberName { bytes: slice_to_vec(b) });
            }
            let word = (c >= ('A' as u8) && c <= ('Z' as u8)) || (c >= ('a' as u8) && c <= ('z' as u8))
                || (c >= ('0' as u8) && c <= ('9' as u8)) || c == ('_' as u8);
            if !word {
                proof {
                    assert forall|n: int| !member_accept_at(b@, n) by {
                        if member_accept_at(b@, n) && n > i {
                            assert(is_word_byte(b@[i as int]));
                        }
                    }
                }
                return Err("Invalid character in member name, only '[A-Z][a-z][0-9]_' allowed");
            }
            i = i + 1;
        }
        proof {
            assert forall|n: int| !member_accept_at(b@, n) by {
                if 0 <= n < b@.len() {
                    assert(is_word_byte(b@[n]));
                }
            }
        }
        Err("Name must be terminated in a '\\0' byte (for use by sd-bus)")
    }

    /// Create a member name from bytes already known to satisfy the
    /// grammar; the proof obligation is the caller's.
    pub fn from_bytes_unchecked(b: &[u8]) -> (r: MemberName)
        requires
            is_valid_member_name(b@),
        ensures
            r@ == b@,
    {
        MemberName { bytes: slice_to_vec(b) }
    }

    /// The underlying NUL-terminated byte string.
    pub fn as_bytes(&self) -> (r: &[u8])
        ensures
            r@ == self@,
    {
        self.bytes.as_slice()
    }

    /// Length of the byte string, terminator and any trailing bytes included.
    pub fn len(&self) -> (r: usize)
        ensures
            r == self@.len(),
    {
        self.bytes.len()
    }
}

impl Clone for MemberName {
    /// Cloning keeps the byte string, and with it the grammar.
    fn clone(&self) -> (r: Self)
        ensures
            r@ == self@,
    {
        proof {
            use_type_invariant(self);
        }
        MemberName { bytes: slice_to_vec(self.bytes.as_slice()) }
    }
}

} // verus!
