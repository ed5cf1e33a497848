//! Bus client: grammar-checked names, typed message marshalling, the
//! structured call error, and the per-connection protocol state machine.
//!
//! The connection model is poll-driven and single-threaded: the transport
//! (which owns the socket) feeds received, sealed messages in with
//! [`Bus::feed`] and drains [`Bus::take_outgoing`]; `process` hands over
//! one unit of work at a time in arrival order, and replies are
//! correlated to calls by cookie, never by send order.

use vstd::prelude::*;
use vstd::slice::slice_index_get;

use crate::Errno;
use crate::text::bytes_eq;
use crate::ENODATA;
use crate::ENOTCONN;
use crate::EPERM;
use crate::ESRCH;

pub mod error;
pub mod message;
pub mod names;
pub mod types;

pub use error::Error;
pub use error::RawError;
pub use names::BusName;
pub use names::InterfaceName;
pub use names::MemberName;
pub use names::ObjectPath;
pub use message::Message;
pub use message::MessageRef;
pub use message::MessageType;
pub use types::MessageIter;

use message::MessageView;
use message::opt_view;
use types::BasicV;

verus! {

/// The error name a call reports when its timeout elapses first.
pub const TIMEOUT_ERROR: &'static str = "org.freedesktop.DBus.Error.Timeout";

/// The error name a call reports for a method error without a name.
pub const FAILED_ERROR: &'static str = "org.freedesktop.DBus.Error.Failed";

/// The error name every operation reports once the connection is closed.
pub const DISCONNECTED_ERROR: &'static str = "org.freedesktop.DBus.Error.Disconnected";

/// Result type for bus calls that can carry an error returned by the
/// remote service (or raised locally by the connection).
pub type Result<T> = core::result::Result<T, Error>;

/// The views of a queue of messages, element by element.
pub open spec fn msgs_view(s: Seq<Message>) -> Seq<MessageView> {
    Seq::new(s.len(), |i: int| s[i]@)
}

/// The views of the registered object handlers.
pub open spec fn objects_view(s: Seq<(ObjectPath, u64)>) -> Seq<(Seq<u8>, u64)> {
    Seq::new(s.len(), |i: int| (s[i].0@, s[i].1))
}

/// The views of the names the connection has claimed.
pub open spec fn names_view(s: Seq<BusName>) -> Seq<Seq<u8>> {
    Seq::new(s.len(), |i: int| s[i]@)
}

/// Whether the queue holds a reply correlated to the given cookie.
pub open spec fn has_reply(inbox: Seq<MessageView>, c: u64) -> bool {
    exists|i: int| 0 <= i < inbox.len() && #[trigger] inbox[i].reply_cookie == c
}

/// The cookie a send assigns: a sealed message keeps the cookie it
/// already carries, an open one takes the connection's next cookie.
pub open spec fn sent_cookie(m: MessageView, b: BusView) -> u64 {
    if m.sealed {
        m.cookie
    } else {
        b.next_cookie
    }
}

/// The connection's cookie counter after one assignment.
pub open spec fn cookie_after(c: u64) -> u64 {
    if c == u64::MAX {
        1u64
    } else {
        (c + 1) as u64
    }
}

/// The ghost state of a connection: lifecycle, queues in both
/// directions, pending async calls and registered handlers.
#[verifier::ext_equal]
pub struct BusView {
    pub open: bool,
    pub next_cookie: u64,
    pub out_queue: Seq<MessageView>,
    pub inbox: Seq<MessageView>,
    pub pending: Seq<(u64, u64)>,
    pub objects: Seq<(Seq<u8>, u64)>,
    pub names: Seq<Seq<u8>>,
    pub unique_name: Option<Seq<u8>>,
}

/// A connection to the bus: the protocol state machine the safe layer
/// keeps for one transport.
///
/// Messages queued for sending sit in `out_queue` until the transport
/// drains them; received messages sit in the inbox until `process` (or a
/// blocking call waiting on its reply) takes them. All dispatch must be
/// driven from the one thread that owns the value; the exclusive borrow
/// each method takes enforces that.
#[derive(Debug)]
pub struct Bus {
    open: bool,
    next_cookie: u64,
    out_queue: Vec<Message>,
    inbox: Vec<Message>,
    pending: Vec<(u64, u64)>,
    objects: Vec<(ObjectPath, u64)>,
    names: Vec<BusName>,
    unique_name: Option<BusName>,
}

impl View for Bus {
    type V = BusView;

    closed spec fn view(&self) -> BusView {
        BusView {
            open: self.open,
            next_cookie: self.next_cookie,
            out_queue: msgs_view(self.out_queue@),
            inbox: msgs_view(self.inbox@),
            pending: self.pending@,
            objects: objects_view(self.objects@),
            names: names_view(self.names@),
            unique_name: opt_view(self.unique_name),
        }
    }
}

/// The state every fresh connection starts in.
pub open spec fn fresh_bus(b: BusView) -> bool {
    &&& b.open
    &&& b.next_cookie == 1
    &&& b.out_queue.len() == 0
    &&& b.inbox.len() == 0
    &&& b.pending.len() == 0
    &&& b.objects.len() == 0
    &&& b.names.len() == 0
    &&& b.unique_name is None
}

impl Bus {
    /// Open a connection to the bus most appropriate for the calling
    /// context. The transport attachment is the embedder's affair; the
    /// protocol state starts out fresh.
    pub fn default() -> (r: core::result::Result<Bus, Errno>)
        ensures
            r matches Ok(b) && fresh_bus(b@),
    {
        let b = Bus {
            open: true,
            next_cookie: 1,
            out_queue: Vec::new(),
            inbox: Vec::new(),
            pending: Vec::new(),
            objects: Vec::new(),
            names: Vec::new(),
            unique_name: None,
        };
        proof {
            assert(b@.out_queue =~= Seq::<MessageView>::empty());
            assert(b@.inbox =~= Seq::<MessageView>::empty());
            assert(b@.objects =~= Seq::<(Seq<u8>, u64)>::empty());
            assert(b@.names =~= Seq::<Seq<u8>>::empty());
        }
        Ok(b)
    }

    /// Open a connection to the per-user bus.
    pub fn default_user() -> (r: core::result::Result<Bus, Errno>)
        ensures
            r matches Ok(b) && fresh_bus(b@),
    {
        Bus::default()
    }

    /// Open a connection to the system bus.
    pub fn default_system() -> (r: core::result::Result<Bus, Errno>)
        ensures
            r matches Ok(b) && fresh_bus(b@),
    {
        Bus::default()
    }

    /// Whether the connection is open.
    pub fn is_open(&self) -> (r: bool)
        ensures
            r == self@.open,
    {
        self.open
    }

    /// Close the connection: the transport is torn down and every
    /// further operation reports a disconnect.
    pub fn close(&mut self)
        ensures
            final(self)@ == (BusView { open: false, ..old(self)@ }),
    {
        self.open = false;
        proof {
            assert(self@ =~= (BusView { open: false, ..old(self)@ }));
        }
    }

    /// The unique name the bus assigned to this connection, once the
    /// transport has learned it.
    pub fn unique_name(&self) -> (r: core::result::Result<&BusName, Errno>)
        ensures
            self@.unique_name is Some ==> (r matches Ok(n) && self@.unique_name == Some(n@)),
            self@.unique_name is None ==> (r matches Err(e) && e.code == ENODATA),
    {
        match &self.unique_name {
            Some(n) => Ok(n),
            None => Err(Errno { code: ENODATA }),
        }
    }

    /// Transport boundary: record the unique name the bus assigned.
    pub fn assign_unique_name(&mut self, name: BusName)
        ensures
            final(self)@ == (BusView { unique_name: Some(name@), ..old(self)@ }),
    {
        let ghost pre = self@;
        let ghost nv = name@;
        self.unique_name = Some(name);
        proof {
            assert(self@ =~= (BusView { unique_name: Some(nv), ..pre }));
        }
    }

    /// Transport boundary: a received message, already sealed, joins the
    /// inbox in arrival order.
    pub fn feed(&mut self, m: Message)
        requires
            m@.sealed,
        ensures
            final(self)@ == (BusView { inbox: old(self)@.inbox.push(m@), ..old(self)@ }),
    {
        let ghost pre = self@;
        let ghost mv = m@;
        self.inbox.push(m);
        proof {
            assert(self@.inbox =~= pre.inbox.push(mv));
            assert(self@ =~= (BusView { inbox: pre.inbox.push(mv), ..pre }));
        }
    }

    /// Transport boundary: the next message queued for the wire, in send
    /// order.
    pub fn take_outgoing(&mut self) -> (r: Option<Message>)
        ensures
            old(self)@.out_queue.len() == 0 ==> (r is None && final(self)@ == old(self)@),
            old(self)@.out_queue.len() > 0 ==> (r matches Some(m)
                && m@ == old(self)@.out_queue[0]
                && final(self)@ == (BusView {
                    out_queue: old(self)@.out_queue.drop_first(),
                    ..old(self)@
                })),
    {
        if self.out_queue.len() == 0 {
            return None;
        }
        let ghost pre = self@;
        let m = self.out_queue.remove(0);
        proof {
            assert(self@.out_queue =~= pre.out_queue.drop_first());
            assert(self@ =~= (BusView { out_queue: pre.out_queue.drop_first(), ..pre }));
        }
        Some(m)
    }

    /// The number of messages queued for the wire and not yet drained
    /// by the transport.
    pub fn n_queued_write(&self) -> (r: core::result::Result<u64, Errno>)
        ensures
            r matches Ok(n) && n == self@.out_queue.len(),
    {
        Ok(self.out_queue.len() as u64)
    }

    /// The number of received messages not yet taken by `process` or a
    /// blocking call.
    pub fn n_queued_read(&self) -> (r: core::result::Result<u64, Errno>)
        ensures
            r matches Ok(n) && n == self@.inbox.len(),
    {
        Ok(self.inbox.len() as u64)
    }

    /// Dequeue and hand over one unit of work.
    ///
    /// Returns `None` when nothing is pending, and otherwise the oldest
    /// received message, in arrival order — the model does no internal
    /// bookkeeping steps, so progress without a message does not occur.
    /// Fails once the connection is closed.
    pub fn process(&mut self) -> (r: core::result::Result<Option<Option<Message>>, Errno>)
        ensures
            !old(self)@.open ==> (r matches Err(e) && e.code == ENOTCONN
                && final(self)@ == old(self)@),
            old(self)@.open && old(self)@.inbox.len() == 0 ==> (r matches Ok(o) && o is None
                && final(self)@ == old(self)@),
            old(self)@.open && old(self)@.inbox.len() > 0 ==> (r matches Ok(o)
                && o matches Some(d) && d matches Some(m) && m@ == old(self)@.inbox[0]
                && final(self)@ == (BusView {
                    inbox: old(self)@.inbox.drop_first(),
                    ..old(self)@
                })),
    {
        if !self.open {
            return Err(Errno { code: ENOTCONN });
        }
        if self.inbox.len() == 0 {
            return Ok(None);
        }
        let ghost pre = self@;
        let m = self.inbox.remove(0);
        proof {
            assert(self@.inbox =~= pre.inbox.drop_first());
            assert(self@ =~= (BusView { inbox: pre.inbox.drop_first(), ..pre }));
        }
        Ok(Some(Some(m)))
    }

    /// The registered handler a reply belongs to: the oldest pending call
    /// with this cookie is claimed and its handler id returned. Replies
    /// correlate by cookie, never by send order.
    pub fn claim_reply(&mut self, reply_cookie: u64) -> (r: Option<u64>)
        ensures
            r matches Some(h) ==> exists|i: int|
                0 <= i < old(self)@.pending.len()
                && (#[trigger] old(self)@.pending[i]).0 == reply_cookie
                && old(self)@.pending[i].1 == h
                && (forall|j: int| 0 <= j < i ==> (#[trigger] old(self)@.pending[j]).0 != reply_cookie)
                && final(self)@ == (BusView {
                    pending: old(self)@.pending.remove(i),
                    ..old(self)@
                }),
            r is None ==> final(self)@ == old(self)@ && (forall|i: int|
                0 <= i < old(self)@.pending.len()
                    ==> (#[trigger] old(self)@.pending[i]).0 != reply_cookie),
    {
        let mut i: usize = 0;
        while i < self.pending.len()
            invariant
                i <= self@.pending.len(),
                self@ == old(self)@,
                forall|j: int| 0 <= j < i ==> (#[trigger] old(self)@.pending[j]).0 != reply_cookie,
            decreases self@.pending.len() - i,
        {
            let entry = *slice_index_get(self.pending.as_slice(), i);
            if entry.0 == reply_cookie {
                let h = entry.1;
                self.pending.remove(i);
                proof {
                    let ii = i as int;
                    assert(self@ =~= (BusView { pending: old(self)@.pending.remove(ii), ..old(self)@ }));
                    assert(0 <= ii < old(self)@.pending.len()
                        && (#[trigger] old(self)@.pending[ii]).0 == reply_cookie
                        && old(self)@.pending[ii].1 == h
                        && (forall|j: int| 0 <= j < ii ==> (#[trigger] old(self)@.pending[j]).0 != reply_cookie)
                        && self@ == (BusView { pending: old(self)@.pending.remove(ii), ..old(self)@ }));
                }
                return Some(h);
            }
            i = i + 1;
        }
        None
    }

    /// The handler registered for an inbound call's path, if any: the
    /// first registration wins.
    pub fn route_object(&self, path: &ObjectPath) -> (r: Option<u64>)
        ensures
            r matches Some(h) ==> exists|i: int|
                0 <= i < self@.objects.len() && (#[trigger] self@.objects[i]).0 == path@
                && self@.objects[i].1 == h
                && (forall|j: int| 0 <= j < i ==> (#[trigger] self@.objects[j]).0 != path@),
            r is None ==> forall|i: int|
                0 <= i < self@.objects.len() ==> (#[trigger] self@.objects[i]).0 != path@,
    {
        let mut i: usize = 0;
        while i < self.objects.len()
            invariant
                i <= self@.objects.len(),
                forall|j: int| 0 <= j < i ==> (#[trigger] self@.objects[j]).0 != path@,
            decreases self@.objects.len() - i,
        {
            let entry = slice_index_get(self.objects.as_slice(), i);
            if bytes_eq(entry.0.as_bytes(), path.as_bytes()) {
                let h = entry.1;
                proof {
                    let ii = i as int;
                    assert(0 <= ii < self@.objects.len()
                        && (#[trigger] self@.objects[ii]).0 == path@
                        && self@.objects[ii].1 == h
                        && (forall|j: int| 0 <= j < ii ==> (#[trigger] self@.objects[j]).0 != path@));
                }
                return Some(h);
            }
            i = i + 1;
        }
        None
    }

    /// Claim a well-known name on the bus. The connection records the
    /// claim; the daemon's queueing flags ride along unchanged. Blocks in
    /// the real transport; fails once the connection is closed.
    #[allow(unused_variables)]
    pub fn request_name(&mut self, name: &BusName, flags: u64) -> (r: core::result::Result<
        (),
        Errno,
    >)
        ensures
            !old(self)@.open ==> (r matches Err(e) && e.code == ENOTCONN
                && final(self)@ == old(self)@),
            old(self)@.open ==> r is Ok && final(self)@ == (BusView {
                names: old(self)@.names.push(name@),
                ..old(self)@
            }),
    {
        if !self.open {
            return Err(Errno { code: ENOTCONN });
        }
        let ghost pre = self@;
        self.names.push(name.clone());
        proof {
            assert(self@.names =~= pre.names.push(name@));
            assert(self@ =~= (BusView { names: pre.names.push(name@), ..pre }));
        }
        Ok(())
    }

    /// Claim a well-known name without blocking: the outcome will reach
    /// the given handler from a later `process` call. A fresh cookie
    /// correlates the daemon's answer with the handler.
    #[allow(unused_variables)]
    pub fn request_name_async(&mut self, name: &BusName, flags: u64, handler: u64) -> (r:
        core::result::Result<(), Errno>)
        ensures
            !old(self)@.open ==> (r matches Err(e) && e.code == ENOTCONN
                && final(self)@ == old(self)@),
            old(self)@.open ==> r is Ok && final(self)@ == (BusView {
                names: old(self)@.names.push(name@),
                pending: old(self)@.pending.push((old(self)@.next_cookie, handler)),
                next_cookie: cookie_after(old(self)@.next_cookie),
                ..old(self)@
            }),
    {
        if !self.open {
            return Err(Errno { code: ENOTCONN });
        }
        let ghost pre = self@;
        let c = self.next_cookie;
        self.next_cookie = if c == u64::MAX {
            1
        } else {
            c + 1
        };
        self.pending.push((c, handler));
        self.names.push(name.clone());
        proof {
            assert(self@.names =~= pre.names.push(name@));
            assert(self@ =~= (BusView {
                names: pre.names.push(name@),
                pending: pre.pending.push((pre.next_cookie, handler)),
                next_cookie: cookie_after(pre.next_cookie),
                ..pre
            }));
        }
        Ok(())
    }

    /// Give a claimed name back. Fails with `ESRCH` when the connection
    /// does not hold the name.
    pub fn release_name(&mut self, name: &BusName) -> (r: core::result::Result<(), Errno>)
        ensures
            r is Ok ==> exists|i: int|
                0 <= i < old(self)@.names.len() && #[trigger] old(self)@.names[i] == name@
                && (forall|j: int| 0 <= j < i ==> #[trigger] old(self)@.names[j] != name@)
                && final(self)@ == (BusView { names: old(self)@.names.remove(i), ..old(self)@ }),
            r matches Err(e) ==> e.code == ESRCH && final(self)@ == old(self)@ && (forall|i: int|
                0 <= i < old(self)@.names.len() ==> #[trigger] old(self)@.names[i] != name@),
    {
        let mut i: usize = 0;
        while i < self.names.len()
            invariant
                i <= self@.names.len(),
                self@ == old(self)@,
                forall|j: int| 0 <= j < i ==> #[trigger] old(self)@.names[j] != name@,
            decreases self@.names.len() - i,
        {
            let entry = slice_index_get(self.names.as_slice(), i);
            if bytes_eq(entry.as_bytes(), name.as_bytes()) {
                self.names.remove(i);
                proof {
                    let ii = i as int;
                    assert(self@.names =~= old(self)@.names.remove(ii));
                    assert(self@ =~= (BusView { names: old(self)@.names.remove(ii), ..old(self)@ }));
                    assert(0 <= ii < old(self)@.names.len()
                        && #[trigger] old(self)@.names[ii] == name@
                        && (forall|j: int| 0 <= j < ii ==> #[trigger] old(self)@.names[j] != name@)
                        && self@ == (BusView { names: old(self)@.names.remove(ii), ..old(self)@ }));
                }
                return Ok(());
            }
            i = i + 1;
        }
        Err(Errno { code: ESRCH })
    }

    /// Register an inbound-message handler for a path. The handler id
    /// stands for the closure the embedder owns; its storage lives with
    /// the registration until the connection tears the slot down.
    pub fn add_object(&mut self, path: &ObjectPath, handler: u64) -> (r: core::result::Result<
        (),
        Errno,
    >)
        ensures
            !old(self)@.open ==> (r matches Err(e) && e.code == ENOTCONN
                && final(self)@ == old(self)@),
            old(self)@.open ==> r is Ok && final(self)@ == (BusView {
                objects: old(self)@.objects.push((path@, handler)),
                ..old(self)@
            }),
    {
        if !self.open {
            return Err(Errno { code: ENOTCONN });
        }
        let ghost pre = self@;
        self.objects.push((path.clone(), handler));
        proof {
            assert(self@.objects =~= pre.objects.push((path@, handler)));
            assert(self@ =~= (BusView { objects: pre.objects.push((path@, handler)), ..pre }));
        }
        Ok(())
    }

    /// Construct an open method call addressed to `dest`'s `member` on
    /// `interface` at `path`. The body is empty; append arguments, then
    /// send or call.
    pub fn new_method_call(
        &mut self,
        dest: &BusName,
        path: &ObjectPath,
        interface: &InterfaceName,
        member: &MemberName,
    ) -> (r: core::result::Result<Message, Errno>)
        ensures
            final(self)@ == old(self)@,
            r matches Ok(m) && m@ == (MessageView {
                mtype: MessageType::MethodCall,
                destination: Some(dest@),
                path: Some(path@),
                interface: Some(interface@),
                member: Some(member@),
                sender: None,
                error_name: None,
                sealed: false,
                body: Seq::empty(),
                cookie: 0,
                reply_cookie: 0,
            }),
    {
        let m = MessageRef::build(
            MessageType::MethodCall,
            Some(dest.clone()),
            Some(path.clone()),
            Some(interface.clone()),
            Some(member.clone()),
            None,
            None,
            0,
        );
        proof {
            assert(m@ =~= (MessageView {
                mtype: MessageType::MethodCall,
                destination: Some(dest@),
                path: Some(path@),
                interface: Some(interface@),
                member: Some(member@),
                sender: None,
                error_name: None,
                sealed: false,
                body: Seq::empty(),
                cookie: 0,
                reply_cookie: 0,
            }));
        }
        Ok(m)
    }

    /// Construct an open signal message for `member` on `interface` at
    /// `path`. Signals carry no destination: the bus broadcasts them.
    pub fn new_signal(
        &mut self,
        path: &ObjectPath,
        interface: &InterfaceName,
        member: &MemberName,
    ) -> (r: core::result::Result<Message, Errno>)
        ensures
            final(self)@ == old(self)@,
            r matches Ok(m) && m@ == (MessageView {
                mtype: MessageType::Signal,
                destination: None,
                path: Some(path@),
                interface: Some(interface@),
                member: Some(member@),
                sender: None,
                error_name: None,
                sealed: false,
                body: Seq::empty(),
                cookie: 0,
                reply_cookie: 0,
            }),
    {
        let m = MessageRef::build(
            MessageType::Signal,
            None,
            Some(path.clone()),
            Some(interface.clone()),
            Some(member.clone()),
            None,
            None,
            0,
        );
        proof {
            assert(m@ =~= (MessageView {
                mtype: MessageType::Signal,
                destination: None,
                path: Some(path@),
                interface: Some(interface@),
                member: Some(member@),
                sender: None,
                error_name: None,
                sealed: false,
                body: Seq::empty(),
                cookie: 0,
                reply_cookie: 0,
            }));
        }
        Ok(m)
    }
}


impl MessageRef {
    /// Send expecting a reply: the message is sealed, takes the
    /// connection's next cookie (a sealed message keeps the one it has),
    /// and joins the outbound queue in send order. Returns the cookie a
    /// reply will carry. Fails once the connection is closed.
    pub fn send(&mut self, bus: &mut Bus) -> (r: core::result::Result<u64, Errno>)
        ensures
            !old(bus)@.open ==> (r matches Err(e) && e.code == ENOTCONN
                && final(self)@ == old(self)@ && final(bus)@ == old(bus)@),
            old(bus)@.open ==> (r matches Ok(c) && c == sent_cookie(old(self)@, old(bus)@)
                && final(self)@ == (MessageView {
                    sealed: true,
                    cookie: sent_cookie(old(self)@, old(bus)@),
                    ..old(self)@
                })
                && final(bus)@ == (BusView {
                    out_queue: old(bus)@.out_queue.push(final(self)@),
                    next_cookie: if old(self)@.sealed {
                        old(bus)@.next_cookie
                    } else {
                        cookie_after(old(bus)@.next_cookie)
                    },
                    ..old(bus)@
                })),
    {
        if !bus.open {
            return Err(Errno { code: ENOTCONN });
        }
        if !self.is_sealed() {
            self.set_cookie(bus.next_cookie);
            bus.next_cookie = if bus.next_cookie == u64::MAX {
                1
            } else {
                bus.next_cookie + 1
            };
            self.seal();
        }
        let c = self.cookie();
        let ghost mid_bus = bus@;
        bus.out_queue.push(self.clone());
        proof {
            assert(self@ =~= (MessageView {
                sealed: true,
                cookie: sent_cookie(old(self)@, old(bus)@),
                ..old(self)@
            }));
            assert(bus@.out_queue =~= mid_bus.out_queue.push(self@));
            assert(bus@ =~= (BusView { out_queue: mid_bus.out_queue.push(self@), ..mid_bus }));
        }
        Ok(c)
    }

    /// Send without expecting any reply; otherwise exactly `send`.
    pub fn send_no_reply(&mut self, bus: &mut Bus) -> (r: core::result::Result<(), Errno>)
        ensures
            !old(bus)@.open ==> (r matches Err(e) && e.code == ENOTCONN
                && final(self)@ == old(self)@ && final(bus)@ == old(bus)@),
            old(bus)@.open ==> (r is Ok
                && final(self)@ == (MessageView {
                    sealed: true,
                    cookie: sent_cookie(old(self)@, old(bus)@),
                    ..old(self)@
                })
                && final(bus)@ == (BusView {
                    out_queue: old(bus)@.out_queue.push(final(self)@),
                    next_cookie: if old(self)@.sealed {
                        old(bus)@.next_cookie
                    } else {
                        cookie_after(old(bus)@.next_cookie)
                    },
                    ..old(bus)@
                })),
    {
        match self.send(bus) {
            Ok(_) => Ok(()),
            Err(e) => Err(e),
        }
    }

    /// Set the destination, then send expecting a reply. Fails with
    /// `EPERM` on a sealed message, whose destination is fixed.
    pub fn send_to(&mut self, bus: &mut Bus, dest: &BusName) -> (r: core::result::Result<
        u64,
        Errno,
    >)
        ensures
            old(self)@.sealed ==> (r matches Err(e) && e.code == EPERM
                && final(self)@ == old(self)@ && final(bus)@ == old(bus)@),
            !old(self)@.sealed && !old(bus)@.open ==> (r matches Err(e) && e.code == ENOTCONN
                && final(self)@ == (MessageView { destination: Some(dest@), ..old(self)@ })
                && final(bus)@ == old(bus)@),
            !old(self)@.sealed && old(bus)@.open ==> (r matches Ok(c) && c
                == old(bus)@.next_cookie
                && final(self)@ == (MessageView {
                    destination: Some(dest@),
                    sealed: true,
                    cookie: old(bus)@.next_cookie,
                    ..old(self)@
                })
                && final(bus)@ == (BusView {
                    out_queue: old(bus)@.out_queue.push(final(self)@),
                    next_cookie: cookie_after(old(bus)@.next_cookie),
                    ..old(bus)@
                })),
    {
        match self.set_destination(dest) {
            Err(e) => Err(e),
            Ok(_) => {
                let r = self.send(bus);
                proof {
                    if old(bus)@.open {
                        assert(self@ =~= (MessageView {
                            destination: Some(dest@),
                            sealed: true,
                            cookie: old(bus)@.next_cookie,
                            ..old(self)@
                        }));
                    }
                }
                r
            }
        }
    }

    /// As `send_to`, but without expecting any reply.
    pub fn send_to_no_reply(&mut self, bus: &mut Bus, dest: &BusName) -> (r:
        core::result::Result<(), Errno>)
        ensures
            old(self)@.sealed ==> (r matches Err(e) && e.code == EPERM
                && final(self)@ == old(self)@ && final(bus)@ == old(bus)@),
            !old(self)@.sealed && !old(bus)@.open ==> (r matches Err(e) && e.code == ENOTCONN
                && final(self)@ == (MessageView { destination: Some(dest@), ..old(self)@ })
                && final(bus)@ == old(bus)@),
            !old(self)@.sealed && old(bus)@.open ==> (r is Ok
                && final(self)@ == (MessageView {
                    destination: Some(dest@),
                    sealed: true,
                    cookie: old(bus)@.next_cookie,
                    ..old(self)@
                })
                && final(bus)@ == (BusView {
                    out_queue: old(bus)@.out_queue.push(final(self)@),
                    next_cookie: cookie_after(old(bus)@.next_cookie),
                    ..old(bus)@
                })),
    {
        match self.send_to(bus, dest) {
            Ok(_) => Ok(()),
            Err(e) => Err(e),
        }
    }

    /// Use this message for a blocking method call: send it, then wait up
    /// to `usec` microseconds for the correlated reply.
    ///
    /// The oldest received message whose reply cookie matches is the
    /// outcome of the round trip: a method error becomes the structured
    /// [`Error`], anything else is the reply. With no correlated reply
    /// available the call reports the timeout; with a closed connection,
    /// the disconnect. The model keeps no clock, so the timeout outcome
    /// is reported at once rather than after `usec` microseconds.
    #[allow(unused_variables)]
    pub fn call(&mut self, bus: &mut Bus, usec: u64) -> (r: Result<Message>)
        ensures
            !old(bus)@.open ==> (r matches Err(e) && e@.name == Some(DISCONNECTED_ERROR@)
                && final(self)@ == old(self)@ && final(bus)@ == old(bus)@),
            old(bus)@.open ==> final(self)@ == (MessageView {
                sealed: true,
                cookie: sent_cookie(old(self)@, old(bus)@),
                ..old(self)@
            }),
            old(bus)@.open && !has_reply(old(bus)@.inbox, sent_cookie(old(self)@, old(bus)@))
                ==> (r matches Err(e) && e@.name == Some(TIMEOUT_ERROR@)
                && final(bus)@ == (BusView {
                    out_queue: old(bus)@.out_queue.push(final(self)@),
                    next_cookie: if old(self)@.sealed {
                        old(bus)@.next_cookie
                    } else {
                        cookie_after(old(bus)@.next_cookie)
                    },
                    ..old(bus)@
                })),
            old(bus)@.open && has_reply(old(bus)@.inbox, sent_cookie(old(self)@, old(bus)@))
                ==> exists|i: int|
                {
                    let c = sent_cookie(old(self)@, old(bus)@);
                    let reply = old(bus)@.inbox[i];
                    &&& 0 <= i < old(bus)@.inbox.len()
                    &&& (#[trigger] old(bus)@.inbox[i]).reply_cookie == c
                    &&& (forall|j: int| 0 <= j < i ==> (#[trigger] old(bus)@.inbox[j]).reply_cookie != c)
                    &&& final(bus)@ == (BusView {
                        out_queue: old(bus)@.out_queue.push(final(self)@),
                        next_cookie: if old(self)@.sealed {
                            old(bus)@.next_cookie
                        } else {
                            cookie_after(old(bus)@.next_cookie)
                        },
                        inbox: old(bus)@.inbox.remove(i),
                        ..old(bus)@
                    })
                    &&& (reply.mtype != MessageType::MethodError ==> (r matches Ok(m) && m@
                        == reply))
                    &&& (reply.mtype == MessageType::MethodError ==> (r matches Err(e)
                        && e@.name == (match reply.error_name {
                            Some(n) => Some(n),
                            None => Some(FAILED_ERROR@),
                        })
                        && e@.message == (if reply.body.len() > 0 && reply.body[0] is Str {
                            Some(reply.body[0]->Str_0)
                        } else {
                            None
                        })))
                },
    {
        if !bus.open {
            return Err(Error::new(DISCONNECTED_ERROR, None));
        }
        if !self.is_sealed() {
            self.set_cookie(bus.next_cookie);
            bus.next_cookie = if bus.next_cookie == u64::MAX {
                1
            } else {
                bus.next_cookie + 1
            };
            self.seal();
        }
        let c = self.cookie();
        let ghost mid_bus = bus@;
        bus.out_queue.push(self.clone());
        proof {
            assert(self@ =~= (MessageView {
                sealed: true,
                cookie: sent_cookie(old(self)@, old(bus)@),
                ..old(self)@
            }));
            assert(bus@.out_queue =~= mid_bus.out_queue.push(self@));
            assert(bus@ =~= (BusView { out_queue: mid_bus.out_queue.push(self@), ..mid_bus }));
        }
        let ghost sent_bus = bus@;
        let mut i: usize = 0;
        while i < bus.inbox.len()
            invariant
                i <= bus@.inbox.len(),
                old(bus)@.open,
                c == sent_cookie(old(self)@, old(bus)@),
                self@ == (MessageView {
                    sealed: true,
                    cookie: sent_cookie(old(self)@, old(bus)@),
                    ..old(self)@
                }),
                bus@ == sent_bus,
                sent_bus == (BusView {
                    out_queue: old(bus)@.out_queue.push(self@),
                    next_cookie: if old(self)@.sealed {
                        old(bus)@.next_cookie
                    } else {
                        cookie_after(old(bus)@.next_cookie)
                    },
                    ..old(bus)@
                }),
                forall|j: int| 0 <= j < i ==> (#[trigger] old(bus)@.inbox[j]).reply_cookie != c,
            decreases bus@.inbox.len() - i,
        {
            if slice_index_get(bus.inbox.as_slice(), i).reply_cookie() == c {
                let reply = bus.inbox.remove(i);
                proof {
                    let ii = i as int;
                    assert(reply@ == old(bus)@.inbox[ii]);
                    assert(bus@.inbox =~= sent_bus.inbox.remove(ii));
                    assert(bus@ =~= (BusView { inbox: sent_bus.inbox.remove(ii), ..sent_bus }));
                }
                if !matches!(reply.type_(), MessageType::MethodError) {
                    return Ok(reply);
                }
                let e = match reply.error_name() {
                    Some(n) => match reply.first_string() {
                        Some(t) => Error::new(n.as_str(), Some(t.as_str())),
                        None => Error::new(n.as_str(), None),
                    },
                    None => match reply.first_string() {
                        Some(t) => Error::new(FAILED_ERROR, Some(t.as_str())),
                        None => Error::new(FAILED_ERROR, None),
                    },
                };
                return Err(e);
            }
            i = i + 1;
        }
        Err(Error::new(TIMEOUT_ERROR, None))
    }

    /// Use this message for a method call answered through a later
    /// `process` pass: the message is sent as by `send`, and the reply
    /// cookie is registered for the given handler, which the embedder
    /// resolves to its callback when the reply is claimed. Registration
    /// failure is synchronous; nothing is recorded then.
    #[allow(unused_variables)]
    pub fn call_async(&mut self, bus: &mut Bus, handler: u64, usec: u64) -> (r:
        core::result::Result<(), Errno>)
        ensures
            !old(bus)@.open ==> (r matches Err(e) && e.code == ENOTCONN
                && final(self)@ == old(self)@ && final(bus)@ == old(bus)@),
            old(bus)@.open ==> (r is Ok
                && final(self)@ == (MessageView {
                    sealed: true,
                    cookie: sent_cookie(old(self)@, old(bus)@),
                    ..old(self)@
                })
                && final(bus)@ == (BusView {
                    out_queue: old(bus)@.out_queue.push(final(self)@),
                    next_cookie: if old(self)@.sealed {
                        old(bus)@.next_cookie
                    } else {
                        cookie_after(old(bus)@.next_cookie)
                    },
                    pending: old(bus)@.pending.push(
                        (sent_cookie(old(self)@, old(bus)@), handler),
                    ),
                    ..old(bus)@
                })),
    {
        if !bus.open {
            return Err(Errno { code: ENOTCONN });
        }
        if !self.is_sealed() {
            self.set_cookie(bus.next_cookie);
            bus.next_cookie = if bus.next_cookie == u64::MAX {
                1
            } else {
                bus.next_cookie + 1
            };
            self.seal();
        }
        let c = self.cookie();
        let ghost mid_bus = bus@;
        bus.out_queue.push(self.clone());
        bus.pending.push((c, handler));
        proof {
            assert(self@ =~= (MessageView {
                sealed: true,
                cookie: sent_cookie(old(self)@, old(bus)@),
                ..old(self)@
            }));
            assert(bus@.out_queue =~= mid_bus.out_queue.push(self@));
            assert(bus@ =~= (BusView {
                out_queue: mid_bus.out_queue.push(self@),
                pending: mid_bus.pending.push((c, handler)),
                ..mid_bus
            }));
        }
        Ok(())
    }
}

} // verus!
