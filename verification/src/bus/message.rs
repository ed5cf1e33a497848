//! The wire-format message container.
//!
//! A message is open while it is being built: values are appended at the
//! write cursor. Sealing (done by the send and call paths, or by the
//! transport on receipt) makes it immutable; only a sealed message can be
//! read, through a [`MessageIter`](super::types::MessageIter) cursor.

use vstd::prelude::*;
use vstd::slice::slice_index_get;

use crate::Errno;
use crate::EPERM;
use super::names::BusName;
use super::names::InterfaceName;
use super::names::MemberName;
use super::names::ObjectPath;
use super::types::BasicV;
use super::types::BasicValue;
use super::types::MessageIter;
use super::types::body_view;
use super::types::iter_from;
use super::types::ToSdBusMessage;

verus! {

/// The kind of a bus message.
#[derive(Debug, Copy, Clone, PartialEq, Eq, Structural)]
pub enum MessageType {
    MethodCall,
    MethodReturn,
    MethodError,
    Signal,
}

impl MessageType {
    /// The message type for a raw engine type code. The codes are fixed by
    /// the wire protocol: 1 method call, 2 method return, 3 method error,
    /// 4 signal. Any other code is an engine invariant violation, which
    /// callers must rule out.
    pub fn from_raw(raw: u8) -> (r: Self)
        requires
            1 <= raw <= 4,
        ensures
            raw == 1 ==> r == MessageType::MethodCall,
            raw == 2 ==> r == MessageType::MethodReturn,
            raw == 3 ==> r == MessageType::MethodError,
            raw == 4 ==> r == MessageType::Signal,
    {
        if raw == 1 {
            MessageType::MethodCall
        } else if raw == 2 {
            MessageType::MethodReturn
        } else if raw == 3 {
            MessageType::MethodError
        } else {
            MessageType::Signal
        }
    }
}

/// The view of an optional value.
pub open spec fn opt_view<T: View>(o: Option<T>) -> Option<T::V> {
    match o {
        Some(x) => Some(x@),
        None => None,
    }
}

/// The ghost state of a message: its addressing metadata, lifecycle state
/// and the sequence of wire values in its body.
#[verifier::ext_equal]
pub struct MessageView {
    pub mtype: MessageType,
    pub destination: Option<Seq<u8>>,
    pub path: Option<Seq<u8>>,
    pub interface: Option<Seq<u8>>,
    pub member: Option<Seq<u8>>,
    pub sender: Option<Seq<u8>>,
    pub error_name: Option<Seq<char>>,
    pub sealed: bool,
    pub body: Seq<BasicV>,
    pub cookie: u64,
    pub reply_cookie: u64,
}

/// A message to be sent or that was received over the bus.
///
/// Two lifecycle states: open (fresh from one of the constructors on the
/// connection; values may be appended) and sealed (sent, or received from
/// the transport; may only be read). Appending to a sealed message fails
/// with `EPERM` and changes nothing.
#[derive(Debug)]
pub struct MessageRef {
    pub(crate) mtype: MessageType,
    pub(crate) destination: Option<BusName>,
    pub(crate) path: Option<ObjectPath>,
    pub(crate) interface: Option<InterfaceName>,
    pub(crate) member: Option<MemberName>,
    pub(crate) sender: Option<BusName>,
    pub(crate) error_name: Option<String>,
    pub(crate) sealed: bool,
    pub(crate) body: Vec<BasicValue>,
    pub(crate) cookie: u64,
    pub(crate) reply_cookie: u64,
}

/// A message is its own reference target: the model keeps no shared
/// engine object behind a separate handle type.
pub type Message = MessageRef;

impl View for MessageRef {
    type V = MessageView;

    closed spec fn view(&self) -> MessageView {
        MessageView {
            mtype: self.mtype,
            destination: opt_view(self.destination),
            path: opt_view(self.path),
            interface: opt_view(self.interface),
            member: opt_view(self.member),
            sender: opt_view(self.sender),
            error_name: opt_view(self.error_name),
            sealed: self.sealed,
            body: body_view(self.body@),
            cookie: self.cookie,
            reply_cookie: self.reply_cookie,
        }
    }
}

/// Copy a body element by element, keeping every wire value.
pub(crate) fn clone_body(b: &Vec<BasicValue>) -> (r: Vec<BasicValue>)
    ensures
        body_view(r@) =~= body_view(b@),
{
    let mut out: Vec<BasicValue> = Vec::new();
    let mut i: usize = 0;
    while i < b.len()
        invariant
            i <= b@.len(),
            out@.len() == i,
            forall|j: int| 0 <= j < i ==> out@[j]@ == b@[j]@,
        decreases b@.len() - i,
    {
        out.push(slice_index_get(b.as_slice(), i).clone());
        i = i + 1;
    }
    out
}

impl MessageRef {
    /// Append one basic wire value at the write cursor. Fails, changing
    /// nothing, exactly when the message is sealed.
    pub fn append_basic(&mut self, v: BasicValue) -> (r: Result<(), Errno>)
        ensures
            old(self)@.sealed ==> r is Err && r->Err_0.code == EPERM
                && final(self)@ == old(self)@,
            !old(self)@.sealed ==> r is Ok
                && final(self)@ == (MessageView { body: old(self)@.body.push(v@), ..old(self)@ }),
    {
        if self.sealed {
            return Err(Errno { code: EPERM });
        }
        let ghost pre = self@;
        self.body.push(v);
        proof {
            assert(self@.body =~= pre.body.push(v@));
            assert(self@ =~= (MessageView { body: pre.body.push(v@), ..pre }));
        }
        Ok(())
    }

    /// Append a typed value at the write cursor. Fails, changing nothing,
    /// exactly when the message is sealed.
    pub fn append<V: ToSdBusMessage>(&mut self, v: V) -> (r: Result<(), Errno>)
        ensures
            old(self)@.sealed ==> r is Err && r->Err_0.code == EPERM
                && final(self)@ == old(self)@,
            !old(self)@.sealed ==> r is Ok
                && final(self)@ == (MessageView {
                    body: old(self)@.body.push(v.to_basic()),
                    ..old(self)@
                }),
    {
        v.to_message(self)
    }

    /// Finalize the message for transmission or receipt: no further value
    /// can be appended. The transport seals every message it delivers.
    pub fn seal(&mut self)
        ensures
            final(self)@ == (MessageView { sealed: true, ..old(self)@ }),
    {
        self.sealed = true;
        proof {
            assert(self@ =~= (MessageView { sealed: true, ..old(self)@ }));
        }
    }

    /// Whether the message has been sealed.
    pub fn is_sealed(&self) -> (r: bool)
        ensures
            r == self@.sealed,
    {
        self.sealed
    }

    /// Whether the message body holds no value.
    pub fn is_empty(&self) -> (r: bool)
        ensures
            r == (self@.body.len() == 0),
    {
        self.body.len() == 0
    }

    /// The kind of this message.
    pub fn type_(&self) -> (r: MessageType)
        ensures
            r == self@.mtype,
    {
        self.mtype
    }

    /// The object path the message addresses, if any.
    pub fn path(&self) -> (r: Option<&ObjectPath>)
        ensures
            opt_view(r) == self@.path,
    {
        self.path.as_ref()
    }

    /// The interface the message addresses, if any.
    pub fn interface(&self) -> (r: Option<&InterfaceName>)
        ensures
            opt_view(r) == self@.interface,
    {
        self.interface.as_ref()
    }

    /// The member the message addresses, if any.
    pub fn member(&self) -> (r: Option<&MemberName>)
        ensures
            opt_view(r) == self@.member,
    {
        self.member.as_ref()
    }

    /// The peer the message is addressed to, if any.
    pub fn destination(&self) -> (r: Option<&BusName>)
        ensures
            opt_view(r) == self@.destination,
    {
        self.destination.as_ref()
    }

    /// The peer the message came from, if any.
    pub fn sender(&self) -> (r: Option<&BusName>)
        ensures
            opt_view(r) == self@.sender,
    {
        self.sender.as_ref()
    }

    /// The error name a method-error message carries, if any.
    pub fn error_name(&self) -> (r: Option<&String>)
        ensures
            opt_view(r) == self@.error_name,
    {
        self.error_name.as_ref()
    }

    /// The signature of the message body: one wire type code per value,
    /// in order.
    pub fn signature(&self) -> (r: String)
        ensures
            r@ == crate::text::ascii_chars_of(super::types::signature_of(self@.body)),
    {
        let mut tags: Vec<u8> = Vec::new();
        let mut i: usize = 0;
        while i < self.body.len()
            invariant
                i <= self@.body.len(),
                tags@.len() == i,
                forall|j: int|
                    0 <= j < i ==> #[trigger] tags@[j] == super::types::signature_of(
                        self@.body,
                    )[j],
            decreases self@.body.len() - i,
        {
            tags.push(slice_index_get(self.body.as_slice(), i).dbus_type());
            i = i + 1;
        }
        proof {
            assert(tags@ =~= super::types::signature_of(self@.body));
            assert forall|j: int| 0 <= j < tags@.len() implies #[trigger] tags@[j] < 128 by {
                super::types::lemma_tag_ascii(self@.body[j]);
            }
        }
        crate::text::string_from_ascii(tags)
    }

    /// The cookie the transport assigned when the message was sent;
    /// 0 while unassigned.
    pub fn cookie(&self) -> (r: u64)
        ensures
            r == self@.cookie,
    {
        self.cookie
    }

    /// The cookie of the call this message replies to; 0 for none.
    pub fn reply_cookie(&self) -> (r: u64)
        ensures
            r == self@.reply_cookie,
    {
        self.reply_cookie
    }

    /// Change the destination of an unsealed message. Fails, changing
    /// nothing, exactly when the message is sealed.
    pub fn set_destination(&mut self, dest: &BusName) -> (r: Result<(), Errno>)
        ensures
            old(self)@.sealed ==> r is Err && r->Err_0.code == EPERM
                && final(self)@ == old(self)@,
            !old(self)@.sealed ==> r is Ok
                && final(self)@ == (MessageView {
                    destination: Some(dest@),
                    ..old(self)@
                }),
    {
        if self.sealed {
            return Err(Errno { code: EPERM });
        }
        let ghost pre = self@;
        self.destination = Some(dest.clone());
        proof {
            assert(self@ =~= (MessageView { destination: Some(dest@), ..pre }));
        }
        Ok(())
    }

    /// Obtain a read cursor over the message body, starting at its first
    /// element. Requires a sealed message; an open message cannot be
    /// probed and the call fails with `EPERM`.
    pub fn iter(&mut self) -> (r: Result<MessageIter, Errno>)
        ensures
            final(self)@ == old(self)@,
            old(self)@.sealed ==> (r matches Ok(it) && it@.body == old(self)@.body && it@.pos
                == 0),
            !old(self)@.sealed ==> (r is Err && r->Err_0.code == EPERM),
    {
        if !self.sealed {
            return Err(Errno { code: EPERM });
        }
        let body = clone_body(&self.body);
        let it = iter_from(body);
        proof {
            assert(it@.body =~= self@.body);
        }
        Ok(it)
    }
}

impl MessageRef {
    /// Assemble a fresh, open message with an empty body.
    pub(crate) fn build(
        mtype: MessageType,
        destination: Option<BusName>,
        path: Option<ObjectPath>,
        interface: Option<InterfaceName>,
        member: Option<MemberName>,
        sender: Option<BusName>,
        error_name: Option<String>,
        reply_cookie: u64,
    ) -> (m: Message)
        ensures
            m@ == (MessageView {
                mtype: mtype,
                destination: opt_view(destination),
                path: opt_view(path),
                interface: opt_view(interface),
                member: opt_view(member),
                sender: opt_view(sender),
                error_name: opt_view(error_name),
                sealed: false,
                body: Seq::empty(),
                cookie: 0,
                reply_cookie: reply_cookie,
            }),
    {
        let m = MessageRef {
            mtype,
            destination,
            path,
            interface,
            member,
            sender,
            error_name,
            sealed: false,
            body: Vec::new(),
            cookie: 0,
            reply_cookie,
        };
        proof {
            assert(m@.body =~= Seq::<BasicV>::empty());
            assert(m@ =~= (MessageView {
                mtype: mtype,
                destination: opt_view(destination),
                path: opt_view(path),
                interface: opt_view(interface),
                member: opt_view(member),
                sender: opt_view(sender),
                error_name: opt_view(error_name),
                sealed: false,
                body: Seq::empty(),
                cookie: 0,
                reply_cookie: reply_cookie,
            }));
        }
        m
    }

    /// Record the cookie the connection assigned at send time.
    pub(crate) fn set_cookie(&mut self, c: u64)
        ensures
            final(self)@ == (MessageView { cookie: c, ..old(self)@ }),
    {
        self.cookie = c;
        proof {
            assert(self@ =~= (MessageView { cookie: c, ..old(self)@ }));
        }
    }

    /// The first body element, when it is a string: the text a
    /// method-error reply carries.
    pub fn first_string(&self) -> (r: Option<&String>)
        ensures
            r is Some <==> (self@.body.len() > 0 && self@.body[0] is Str),
            r matches Some(s) ==> self@.body[0] == BasicV::Str(s@),
    {
        if self.body.len() == 0 {
            return None;
        }
        slice_index_get(self.body.as_slice(), 0).as_string()
    }

    /// Construct an open reply to this sealed method call. The reply is
    /// addressed back to the call's sender and correlated by the call's
    /// cookie. Fails with `EPERM` on a message that is not a sealed
    /// method call.
    pub fn new_method_return(&mut self) -> (r: Result<Message, Errno>)
        ensures
            final(self)@ == old(self)@,
            !(old(self)@.mtype == MessageType::MethodCall && old(self)@.sealed) ==> (r is Err
                && r->Err_0.code == EPERM),
            old(self)@.mtype == MessageType::MethodCall && old(self)@.sealed ==> (r matches Ok(m)
                && m@ == (MessageView {
                    mtype: MessageType::MethodReturn,
                    destination: old(self)@.sender,
                    path: None,
                    interface: None,
                    member: None,
                    sender: None,
                    error_name: None,
                    sealed: false,
                    body: Seq::empty(),
                    cookie: 0,
                    reply_cookie: old(self)@.cookie,
                })),
    {
        if !(matches!(self.mtype, MessageType::MethodCall) && self.sealed) {
            return Err(Errno { code: EPERM });
        }
        let sender = match &self.sender {
            Some(s) => Some(s.clone()),
            None => None,
        };
        let m = MessageRef::build(
            MessageType::MethodReturn,
            sender,
            None,
            None,
            None,
            None,
            None,
            self.cookie,
        );
        Ok(m)
    }

    /// Construct an open method-error reply to this sealed method call,
    /// carrying the error's name and, as the body, its message if it has
    /// one. Fails with `EPERM` on a message that is not a sealed method
    /// call.
    pub fn new_method_error(&mut self, error: &super::error::Error) -> (r: Result<
        Message,
        Errno,
    >)
        ensures
            final(self)@ == old(self)@,
            !(old(self)@.mtype == MessageType::MethodCall && old(self)@.sealed) ==> (r is Err
                && r->Err_0.code == EPERM),
            old(self)@.mtype == MessageType::MethodCall && old(self)@.sealed ==> (r matches Ok(m)
                && m@.mtype == MessageType::MethodError
                && m@.destination == old(self)@.sender
                && m@.error_name is Some && error@.name == Some(m@.error_name->Some_0)
                && m@.sealed == false
                && m@.cookie == 0
                && m@.reply_cookie == old(self)@.cookie
                && m@.body == (match error@.message {
                    Some(t) => Seq::empty().push(BasicV::Str(t)),
                    None => Seq::<BasicV>::empty(),
                })),
    {
        if !(matches!(self.mtype, MessageType::MethodCall) && self.sealed) {
            return Err(Errno { code: EPERM });
        }
        let sender = match &self.sender {
            Some(s) => Some(s.clone()),
            None => None,
        };
        let mut m = MessageRef::build(
            MessageType::MethodError,
            sender,
            None,
            None,
            None,
            None,
            Some(error.name().clone()),
            self.cookie,
        );
        match error.message() {
            Some(t) => {
                let pushed = m.append_basic(BasicValue::of_string(t.clone()));
                proof {
                    assert(pushed is Ok);
                }
            }
            None => {}
        }
        Ok(m)
    }
}

impl Clone for MessageRef {
    /// Cloning keeps the whole message state, body and lifecycle state
    /// included.
    fn clone(&self) -> (r: Self)
        ensures
            r@ == self@,
    {
        let r = MessageRef {
            mtype: self.mtype,
            destination: match &self.destination {
                Some(d) => Some(d.clone()),
                None => None,
            },
            path: match &self.path {
                Some(d) => Some(d.clone()),
                None => None,
            },
            interface: match &self.interface {
                Some(d) => Some(d.clone()),
                None => None,
            },
            member: match &self.member {
                Some(d) => Some(d.clone()),
                None => None,
            },
            sender: match &self.sender {
                Some(d) => Some(d.clone()),
                None => None,
            },
            error_name: match &self.error_name {
                Some(d) => Some(d.clone()),
                None => None,
            },
            sealed: self.sealed,
            body: clone_body(&self.body),
            cookie: self.cookie,
            reply_cookie: self.reply_cookie,
        };
        proof {
            assert(r@ =~= self@);
        }
        r
    }
}

} // verus!
