//! Conversion between typed values and the wire values a message carries.
//!
//! Every basic wire value is identified by a single-byte type code. A
//! Rust value is appended through [`ToSdBusMessage`] and read back through
//! [`FromSdBusMessage`]; both traits state exactly which wire value the
//! Rust value stands for, so a round trip is provably the identity.

use vstd::prelude::*;
use vstd::slice::slice_index_get;

use crate::Errno;
use crate::ENXIO;
use super::names::ObjectPath;
use super::message::Message;

verus! {

/// A basic wire value, as the ghost model sees it.
pub enum BasicV {
    Byte(u8),
    Boolean(bool),
    Int16(i16),
    Uint16(u16),
    Int32(i32),
    Uint32(u32),
    Int64(i64),
    Uint64(u64),
    Str(Seq<char>),
    Path(Seq<u8>),
    UnixFdV(i32),
}

/// The single-byte wire type code of a basic value.
pub open spec fn tag_of(v: BasicV) -> u8 {
    match v {
        BasicV::Byte(_) => 'y' as u8,
        BasicV::Boolean(_) => 'b' as u8,
        BasicV::Int16(_) => 'n' as u8,
        BasicV::Uint16(_) => 'q' as u8,
        BasicV::Int32(_) => 'i' as u8,
        BasicV::Uint32(_) => 'u' as u8,
        BasicV::Int64(_) => 'x' as u8,
        BasicV::Uint64(_) => 't' as u8,
        BasicV::Str(_) => 's' as u8,
        BasicV::Path(_) => 'o' as u8,
        BasicV::UnixFdV(_) => 'h' as u8,
    }
}

/// A basic wire value a message stores: one scalar, string, object path
/// or file descriptor handle.
#[derive(Debug)]
pub enum BasicValue {
    Byte(u8),
    Boolean(bool),
    Int16(i16),
    Uint16(u16),
    Int32(i32),
    Uint32(u32),
    Int64(i64),
    Uint64(u64),
    Str(String),
    Path(ObjectPath),
    UnixFdV(i32),
}

impl View for BasicValue {
    type V = BasicV;

    closed spec fn view(&self) -> BasicV {
        match self {
            BasicValue::Byte(x) => BasicV::Byte(*x),
            BasicValue::Boolean(x) => BasicV::Boolean(*x),
            BasicValue::Int16(x) => BasicV::Int16(*x),
            BasicValue::Uint16(x) => BasicV::Uint16(*x),
            BasicValue::Int32(x) => BasicV::Int32(*x),
            BasicValue::Uint32(x) => BasicV::Uint32(*x),
            BasicValue::Int64(x) => BasicV::Int64(*x),
            BasicValue::Uint64(x) => BasicV::Uint64(*x),
            BasicValue::Str(x) => BasicV::Str(x@),
            BasicValue::Path(x) => BasicV::Path(x@),
            BasicValue::UnixFdV(x) => BasicV::UnixFdV(*x),
        }
    }
}

impl BasicValue {
    /// The single-byte wire type code of this value.
    pub fn dbus_type(&self) -> (r: u8)
        ensures
            r == tag_of(self@),
    {
        match self {
            BasicValue::Byte(_) => 'y' as u8,
            BasicValue::Boolean(_) => 'b' as u8,
            BasicValue::Int16(_) => 'n' as u8,
            BasicValue::Uint16(_) => 'q' as u8,
            BasicValue::Int32(_) => 'i' as u8,
            BasicValue::Uint32(_) => 'u' as u8,
            BasicValue::Int64(_) => 'x' as u8,
            BasicValue::Uint64(_) => 't' as u8,
            BasicValue::Str(_) => 's' as u8,
            BasicValue::Path(_) => 'o' as u8,
            BasicValue::UnixFdV(_) => 'h' as u8,
        }
    }
}

impl BasicValue {
    /// Wrap an owned string as the wire value it marshals to.
    pub fn of_string(s: String) -> (r: BasicValue)
        ensures
            r@ == BasicV::Str(s@),
    {
        BasicValue::Str(s)
    }

    /// The stored string, when this value is one.
    pub fn as_string(&self) -> (r: Option<&String>)
        ensures
            r is Some <==> self@ is Str,
            r matches Some(s) ==> self@ == BasicV::Str(s@),
    {
        match self {
            BasicValue::Str(s) => Some(s),
            _ => None,
        }
    }
}

impl Clone for BasicValue {
    /// Cloning keeps the wire value.
    fn clone(&self) -> (r: Self)
        ensures
            r@ == self@,
    {
        match self {
            BasicValue::Byte(x) => BasicValue::Byte(*x),
            BasicValue::Boolean(x) => BasicValue::Boolean(*x),
            BasicValue::Int16(x) => BasicValue::Int16(*x),
            BasicValue::Uint16(x) => BasicValue::Uint16(*x),
            BasicValue::Int32(x) => BasicValue::Int32(*x),
            BasicValue::Uint32(x) => BasicValue::Uint32(*x),
            BasicValue::Int64(x) => BasicValue::Int64(*x),
            BasicValue::Uint64(x) => BasicValue::Uint64(*x),
            BasicValue::Str(x) => BasicValue::Str(x.clone()),
            BasicValue::Path(x) => BasicValue::Path(x.clone()),
            BasicValue::UnixFdV(x) => BasicValue::UnixFdV(*x),
        }
    }
}

/// A file descriptor sent over the bus through the file descriptor
/// passing mechanism rather than as a plain integer.
#[derive(Debug, Clone, Copy, PartialEq, Eq, Structural)]
pub struct UnixFd(pub i32);

/// Promises that the type maps one-to-one onto a single basic wire type,
/// named by its single-byte code.
pub trait SdBusMessageDirect {
    /// The wire type code values of this type are stored under.
    spec fn spec_dbus_type() -> u8;

    /// The wire type code, as a runtime value.
    fn dbus_type() -> (r: u8)
        ensures
            r == Self::spec_dbus_type(),
    ;
}

/// Allows a type to append itself to a message.
pub trait ToSdBusMessage {
    /// The wire value this Rust value marshals to.
    spec fn to_basic(&self) -> BasicV;

    /// Append the value to the message's write cursor. Fails, leaving the
    /// message unchanged, exactly when the message is sealed.
    fn to_message(&self, m: &mut Message) -> (r: Result<(), Errno>)
        ensures
            old(m)@.sealed ==> r is Err && r->Err_0.code == crate::EPERM
                && final(m)@ == old(m)@,
            !old(m)@.sealed ==> r is Ok
                && final(m)@ == (super::message::MessageView {
                    body: old(m)@.body.push(self.to_basic()),
                    ..old(m)@
                }),
    ;
}

/// Allows a type to read itself from a message's read cursor.
pub trait FromSdBusMessage: Sized {
    /// The stored wire values this type can read.
    spec fn accepts(v: BasicV) -> bool;

    /// The wire value a decoded result stands for.
    spec fn basic_of(&self) -> BasicV;

    /// Read one value and advance the cursor. Yields `None` at the end of
    /// the message; a value of another wire type at the cursor is a hard
    /// error and leaves the cursor in place.
    fn from_message(it: &mut MessageIter) -> (r: Result<Option<Self>, Errno>)
        ensures
            old(it)@.pos >= old(it)@.body.len() ==> (r matches Ok(o) && o is None
                && final(it)@ == old(it)@),
            old(it)@.pos < old(it)@.body.len()
                && Self::accepts(old(it)@.body[old(it)@.pos]) ==> (r matches Ok(o)
                && o matches Some(v) && v.basic_of() == old(it)@.body[old(it)@.pos]
                && final(it)@.body == old(it)@.body && final(it)@.pos == old(it)@.pos + 1),
            old(it)@.pos < old(it)@.body.len()
                && !Self::accepts(old(it)@.body[old(it)@.pos]) ==> (r is Err
                && r->Err_0.code == ENXIO && final(it)@ == old(it)@),
    ;
}

/// The wire type codes of a body, element by element: the message's
/// signature.
pub open spec fn signature_of(body: Seq<BasicV>) -> Seq<u8> {
    Seq::new(body.len(), |i: int| tag_of(body[i]))
}

/// Every wire type code is an ASCII byte.
pub proof fn lemma_tag_ascii(v: BasicV)
    ensures
        tag_of(v) < 128,
{
}

/// The wire values of a stored body, element by element.
pub open spec fn body_view(b: Seq<BasicValue>) -> Seq<BasicV> {
    Seq::new(b.len(), |i: int| b[i]@)
}

/// The ghost state of a read cursor: the wire values at the cursor's
/// container level and the cursor position among them.
#[verifier::ext_equal]
pub struct MessageIterView {
    pub body: Seq<BasicV>,
    pub pos: int,
}

/// A read cursor over the elements of a sealed message.
///
/// The cursor starts at the first element of the container level it was
/// acquired for and only ever advances. Only one live cursor exists per
/// message at a time.
pub struct MessageIter {
    pub(crate) body: Vec<BasicValue>,
    pub(crate) pos: usize,
}

impl View for MessageIter {
    type V = MessageIterView;

    closed spec fn view(&self) -> MessageIterView {
        MessageIterView { body: body_view(self.body@), pos: self.pos as int }
    }
}

/// Build a fresh cursor over the given body, positioned at its start.
pub(crate) fn iter_from(body: Vec<BasicValue>) -> (r: MessageIter)
    ensures
        r@.body == body_view(body@),
        r@.pos == 0,
{
    MessageIter { body, pos: 0 }
}

impl MessageIter {
    /// Non-consuming lookahead: the wire type code of the element at the
    /// cursor and its container signature (empty for basic types), or the
    /// code 0 at the end of the message.
    pub fn peek_type(&mut self) -> (r: Result<(u8, String), Errno>)
        ensures
            final(self)@ == old(self)@,
            r is Ok,
            old(self)@.pos < old(self)@.body.len() ==> (r->Ok_0).0 == tag_of(
                old(self)@.body[old(self)@.pos],
            ),
            old(self)@.pos >= old(self)@.body.len() ==> (r->Ok_0).0 == 0,
            (r->Ok_0).1@ =~= Seq::<char>::empty(),
    {
        if self.pos < self.body.len() {
            let tag = slice_index_get(self.body.as_slice(), self.pos).dbus_type();
            Ok((tag, String::new()))
        } else {
            Ok((0, String::new()))
        }
    }

    /// Step the cursor past the element just read.
    fn advance(&mut self)
        requires
            old(self)@.pos < old(self)@.body.len(),
        ensures
            final(self)@.body == old(self)@.body,
            final(self)@.pos == old(self)@.pos + 1,
    {
        let ghost pre = self@;
        let n = self.body.len();
        proof {
            assert(self.pos < n);
        }
        self.pos = self.pos + 1;
        proof {
            assert(self@.body =~= pre.body);
        }
    }

    /// Read one element of type `V` and advance the cursor.
    pub fn next<V: FromSdBusMessage>(&mut self) -> (r: Result<Option<V>, Errno>)
        ensures
            old(self)@.pos >= old(self)@.body.len() ==> (r matches Ok(o) && o is None
                && final(self)@ == old(self)@),
            old(self)@.pos < old(self)@.body.len()
                && V::accepts(old(self)@.body[old(self)@.pos]) ==> (r matches Ok(o)
                && o matches Some(v) && v.basic_of() == old(self)@.body[old(self)@.pos]
                && final(self)@.body == old(self)@.body && final(self)@.pos == old(self)@.pos + 1),
            old(self)@.pos < old(self)@.body.len()
                && !V::accepts(old(self)@.body[old(self)@.pos]) ==> (r is Err
                && r->Err_0.code == ENXIO && final(self)@ == old(self)@),
    {
        V::from_message(self)
    }
}


// The eight directly stored scalar types, each under its fixed wire code.
impl SdBusMessageDirect for u8 {
    open spec fn spec_dbus_type() -> u8 {
        'y' as u8
    }

    fn dbus_type() -> (r: u8) {
        'y' as u8
    }
}

impl SdBusMessageDirect for i16 {
    open spec fn spec_dbus_type() -> u8 {
        'n' as u8
    }

    fn dbus_type() -> (r: u8) {
        'n' as u8
    }
}

impl SdBusMessageDirect for u16 {
    open spec fn spec_dbus_type() -> u8 {
        'q' as u8
    }

    fn dbus_type() -> (r: u8) {
        'q' as u8
    }
}

impl SdBusMessageDirect for i32 {
    open spec fn spec_dbus_type() -> u8 {
        'i' as u8
    }

    fn dbus_type() -> (r: u8) {
        'i' as u8
    }
}

impl SdBusMessageDirect for u32 {
    open spec fn spec_dbus_type() -> u8 {
        'u' as u8
    }

    fn dbus_type() -> (r: u8) {
        'u' as u8
    }
}

impl SdBusMessageDirect for i64 {
    open spec fn spec_dbus_type() -> u8 {
        'x' as u8
    }

    fn dbus_type() -> (r: u8) {
        'x' as u8
    }
}

impl SdBusMessageDirect for u64 {
    open spec fn spec_dbus_type() -> u8 {
        't' as u8
    }

    fn dbus_type() -> (r: u8) {
        't' as u8
    }
}

impl ToSdBusMessage for u8 {
    open spec fn to_basic(&self) -> BasicV {
        BasicV::Byte(*self)
    }

    fn to_message(&self, m: &mut Message) -> (r: Result<(), Errno>) {
        m.append_basic(BasicValue::Byte(*self))
    }
}

impl FromSdBusMessage for u8 {
    open spec fn accepts(v: BasicV) -> bool {
        v is Byte
    }

    open spec fn basic_of(&self) -> BasicV {
        BasicV::Byte(*self)
    }

    fn from_message(it: &mut MessageIter) -> (r: Result<Option<u8>, Errno>) {
        if it.pos >= it.body.len() {
            return Ok(None);
        }
        match slice_index_get(it.body.as_slice(), it.pos) {
            BasicValue::Byte(x) => {
                let v: u8 = *x;
                it.advance();
                Ok(Some(v))
            }
            _ => Err(Errno { code: ENXIO }),
        }
    }
}

impl ToSdBusMessage for bool {
    open spec fn to_basic(&self) -> BasicV {
        BasicV::Boolean(*self)
    }

    fn to_message(&self, m: &mut Message) -> (r: Result<(), Errno>) {
        m.append_basic(BasicValue::Boolean(*self))
    }
}

impl FromSdBusMessage for bool {
    open spec fn accepts(v: BasicV) -> bool {
        v is Boolean
    }

    open spec fn basic_of(&self) -> BasicV {
        BasicV::Boolean(*self)
    }

    fn from_message(it: &mut MessageIter) -> (r: Result<Option<bool>, Errno>) {
        if it.pos >= it.body.len() {
            return Ok(None);
        }
        match slice_index_get(it.body.as_slice(), it.pos) {
            BasicValue::Boolean(x) => {
                let v: bool = *x;
                it.advance();
                Ok(Some(v))
            }
            _ => Err(Errno { code: ENXIO }),
        }
    }
}

impl ToSdBusMessage for i16 {
    open spec fn to_basic(&self) -> BasicV {
        BasicV::Int16(*self)
    }

    fn to_message(&self, m: &mut Message) -> (r: Result<(), Errno>) {
        m.append_basic(BasicValue::Int16(*self))
    }
}

impl FromSdBusMessage for i16 {
    open spec fn accepts(v: BasicV) -> bool {
        v is Int16
    }

    open spec fn basic_of(&self) -> BasicV {
        BasicV::Int16(*self)
    }

    fn from_message(it: &mut MessageIter) -> (r: Result<Option<i16>, Errno>) {
        if it.pos >= it.body.len() {
            return Ok(None);
        }
        match slice_index_get(it.body.as_slice(), it.pos) {
            BasicValue::Int16(x) => {
                let v: i16 = *x;
                it.advance();
                Ok(Some(v))
            }
            _ => Err(Errno { code: ENXIO }),
        }
    }
}

impl ToSdBusMessage for u16 {
    open spec fn to_basic(&self) -> BasicV {
        BasicV::Uint16(*self)
    }

    fn to_message(&self, m: &mut Message) -> (r: Result<(), Errno>) {
        m.append_basic(BasicValue::Uint16(*self))
    }
}

impl FromSdBusMessage for u16 {
    open spec fn accepts(v: BasicV) -> bool {
        v is Uint16
    }

    open spec fn basic_of(&self) -> BasicV {
        BasicV::Uint16(*self)
    }

    fn from_message(it: &mut MessageIter) -> (r: Result<Option<u16>, Errno>) {
        if it.pos >= it.body.len() {
            return Ok(None);
        }
        match slice_index_get(it.body.as_slice(), it.pos) {
            BasicValue::Uint16(x) => {
                let v: u16 = *x;
                it.advance();
                Ok(Some(v))
            }
            _ => Err(Errno { code: ENXIO }),
        }
    }
}

impl ToSdBusMessage for i32 {
    open spec fn to_basic(&self) -> BasicV {
        BasicV::Int32(*self)
    }

    fn to_message(&self, m: &mut Message) -> (r: Result<(), Errno>) {
        m.append_basic(BasicValue::Int32(*self))
    }
}

impl FromSdBusMessage for i32 {
    open spec fn accepts(v: BasicV) -> bool {
        v is Int32
    }

    open spec fn basic_of(&self) -> BasicV {
        BasicV::Int32(*self)
    }

    fn from_message(it: &mut MessageIter) -> (r: Result<Option<i32>, Errno>) {
        if it.pos >= it.body.len() {
            return Ok(None);
        }
        match slice_index_get(it.body.as_slice(), it.pos) {
            BasicValue::Int32(x) => {
                let v: i32 = *x;
                it.advance();
                Ok(Some(v))
            }
            _ => Err(Errno { code: ENXIO }),
        }
    }
}

impl ToSdBusMessage for u32 {
    open spec fn to_basic(&self) -> BasicV {
        BasicV::Uint32(*self)
    }

    fn to_message(&self, m: &mut Message) -> (r: Result<(), Errno>) {
        m.append_basic(BasicValue::Uint32(*self))
    }
}

impl FromSdBusMessage for u32 {
    open spec fn accepts(v: BasicV) -> bool {
        v is Uint32
    }

    open spec fn basic_of(&self) -> BasicV {
        BasicV::Uint32(*self)
    }

    fn from_message(it: &mut MessageIter) -> (r: Result<Option<u32>, Errno>) {
        if it.pos >= it.body.len() {
            return Ok(None);
        }
        match slice_index_get(it.body.as_slice(), it.pos) {
            BasicValue::Uint32(x) => {
                let v: u32 = *x;
                it.advance();
                Ok(Some(v))
            }
            _ => Err(Errno { code: ENXIO }),
        }
    }
}

impl ToSdBusMessage for i64 {
    open spec fn to_basic(&self) -> BasicV {
        BasicV::Int64(*self)
    }

    fn to_message(&self, m: &mut Message) -> (r: Result<(), Errno>) {
        m.append_basic(BasicValue::Int64(*self))
    }
}

impl FromSdBusMessage for i64 {
    open spec fn accepts(v: BasicV) -> bool {
        v is Int64
    }

    open spec fn basic_of(&self) -> BasicV {
        BasicV::Int64(*self)
    }

    fn from_message(it: &mut MessageIter) -> (r: Result<Option<i64>, Errno>) {
        if it.pos >= it.body.len() {
            return Ok(None);
        }
        match slice_index_get(it.body.as_slice(), it.pos) {
            BasicValue::Int64(x) => {
                let v: i64 = *x;
                it.advance();
                Ok(Some(v))
            }
            _ => Err(Errno { code: ENXIO }),
        }
    }
}

impl ToSdBusMessage for u64 {
    open spec fn to_basic(&self) -> BasicV {
        BasicV::Uint64(*self)
    }

    fn to_message(&self, m: &mut Message) -> (r: Result<(), Errno>) {
        m.append_basic(BasicValue::Uint64(*self))
    }
}

impl FromSdBusMessage for u64 {
    open spec fn accepts(v: BasicV) -> bool {
        v is Uint64
    }

    open spec fn basic_of(&self) -> BasicV {
        BasicV::Uint64(*self)
    }

    fn from_message(it: &mut MessageIter) -> (r: Result<Option<u64>, Errno>) {
        if it.pos >= it.body.len() {
            return Ok(None);
        }
        match slice_index_get(it.body.as_slice(), it.pos) {
            BasicValue::Uint64(x) => {
                let v: u64 = *x;
                it.advance();
                Ok(Some(v))
            }
            _ => Err(Errno { code: ENXIO }),
        }
    }
}

impl ToSdBusMessage for UnixFd {
    open spec fn to_basic(&self) -> BasicV {
        BasicV::UnixFdV(self.0)
    }

    fn to_message(&self, m: &mut Message) -> (r: Result<(), Errno>) {
        m.append_basic(BasicValue::UnixFdV(self.0))
    }
}

impl FromSdBusMessage for UnixFd {
    open spec fn accepts(v: BasicV) -> bool {
        v is UnixFdV
    }

    open spec fn basic_of(&self) -> BasicV {
        BasicV::UnixFdV(self.0)
    }

    fn from_message(it: &mut MessageIter) -> (r: Result<Option<UnixFd>, Errno>) {
        if it.pos >= it.body.len() {
            return Ok(None);
        }
        match slice_index_get(it.body.as_slice(), it.pos) {
            BasicValue::UnixFdV(x) => {
                let v = UnixFd(*x);
                it.advance();
                Ok(Some(v))
            }
            _ => Err(Errno { code: ENXIO }),
        }
    }
}

impl ToSdBusMessage for String {
    open spec fn to_basic(&self) -> BasicV {
        BasicV::Str(self@)
    }

    fn to_message(&self, m: &mut Message) -> (r: Result<(), Errno>) {
        m.append_basic(BasicValue::Str(self.clone()))
    }
}

impl FromSdBusMessage for String {
    open spec fn accepts(v: BasicV) -> bool {
        v is Str
    }

    open spec fn basic_of(&self) -> BasicV {
        BasicV::Str(self@)
    }

    fn from_message(it: &mut MessageIter) -> (r: Result<Option<String>, Errno>) {
        if it.pos >= it.body.len() {
            return Ok(None);
        }
        match slice_index_get(it.body.as_slice(), it.pos) {
            BasicValue::Str(x) => {
                let v = x.clone();
                it.advance();
                Ok(Some(v))
            }
            _ => Err(Errno { code: ENXIO }),
        }
    }
}

impl ToSdBusMessage for ObjectPath {
    open spec fn to_basic(&self) -> BasicV {
        BasicV::Path(self@)
    }

    fn to_message(&self, m: &mut Message) -> (r: Result<(), Errno>) {
        m.append_basic(BasicValue::Path(self.clone()))
    }
}

impl FromSdBusMessage for ObjectPath {
    open spec fn accepts(v: BasicV) -> bool {
        v is Path
    }

    open spec fn basic_of(&self) -> BasicV {
        BasicV::Path(self@)
    }

    fn from_message(it: &mut MessageIter) -> (r: Result<Option<ObjectPath>, Errno>) {
        if it.pos >= it.body.len() {
            return Ok(None);
        }
        match slice_index_get(it.body.as_slice(), it.pos) {
            BasicValue::Path(x) => {
                let v = x.clone();
                it.advance();
                Ok(Some(v))
            }
            _ => Err(Errno { code: ENXIO }),
        }
    }
}

} // verus!
