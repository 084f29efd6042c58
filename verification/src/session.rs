//! The connection session's decision core. The transport layer owns the
//! physical channel, the reader task and the write lock; every choice it has
//! to make — what a decoded message means, whether an inbound request has a
//! handler, which frame answers it, and when the termination signal fires —
//! is a verified function here.

use vstd::prelude::*;

use crate::codec::{Frame, FrameKind};
use crate::error::{UnicomError, UnicomErrorKind};
use crate::message::UnicomRequest;

verus! {

/// One decoded steady-state message, payloads already parsed by the JSON
/// boundary.
#[derive(Debug)]
pub enum UnixMessage {
    Error { id: u64, error: UnicomError },
    Response { id: u64, data: Vec<u8> },
    Request { id: u64, data: UnicomRequest },
    Quit,
}

/// What the reader loop does with one decoded message.
#[derive(Debug)]
pub enum ReaderAction {
    /// End the session and fire the termination signal (through the latch).
    Terminate,
    /// Settle the pending entry for a local call with the remote outcome.
    Resolve { id: u64, outcome: Result<Vec<u8>, UnicomError> },
    /// Serve an inbound request and write the outcome back under its id.
    Handle { id: u64, request: UnicomRequest },
}

/// The reader loop's dispatch: an error or a response with a nonzero
/// identifier settles the matching local caller; an error on identifier 0 is
/// a fatal handshake-phase failure; a request is served; quit ends the
/// session.
pub fn reader_step(msg: UnixMessage) -> (a: ReaderAction)
    ensures
        match msg {
            UnixMessage::Error { id, error } => if id == 0 {
                a == ReaderAction::Terminate
            } else {
                a == (ReaderAction::Resolve { id, outcome: Err(error) })
            },
            UnixMessage::Response { id, data } => a == (ReaderAction::Resolve {
                id,
                outcome: Ok(data),
            }),
            UnixMessage::Request { id, data } => a == (ReaderAction::Handle { id, request: data }),
            UnixMessage::Quit => a == ReaderAction::Terminate,
        },
{
    match msg {
        UnixMessage::Error { id, error } => {
            if id == 0 {
                ReaderAction::Terminate
            } else {
                ReaderAction::Resolve { id, outcome: Err(error) }
            }
        },
        UnixMessage::Response { id, data } => ReaderAction::Resolve { id, outcome: Ok(data) },
        UnixMessage::Request { id, data } => ReaderAction::Handle { id, request: data },
        UnixMessage::Quit => ReaderAction::Terminate,
    }
}

/// The node-side registry of operation identifiers with a registered
/// handler. Identifiers are assigned sequentially at registration; the
/// handler objects themselves live with the transport layer, keyed by these
/// identifiers.
pub struct ApiRegistry {
    counter: u16,
    ids: Vec<u16>,
}

impl ApiRegistry {
    /// The identifiers registered so far.
    pub closed spec fn spec_ids(self) -> Seq<u16> {
        self.ids@
    }

    /// The next identifier to assign.
    pub closed spec fn spec_counter(self) -> u16 {
        self.counter
    }

    /// The registered identifiers are exactly 0 up to the counter.
    pub closed spec fn wf(self) -> bool {
        &&& self.ids@.len() == self.counter
        &&& forall|i: int| 0 <= i < self.ids@.len() ==> #[trigger] self.ids@[i] == i
    }

    /// An empty registry.
    pub fn new() -> (r: ApiRegistry)
        ensures
            r.wf(),
            r.spec_counter() == 0,
            r.spec_ids().len() == 0,
    {
        ApiRegistry { counter: 0, ids: Vec::new() }
    }

    /// Register one handler and return the identifier assigned to it.
    pub fn add(&mut self) -> (id: u16)
        requires
            old(self).wf(),
            old(self).spec_counter() < u16::MAX,
        ensures
            final(self).wf(),
            id == old(self).spec_counter(),
            final(self).spec_counter() == id + 1,
            final(self).spec_ids() == old(self).spec_ids().push(id),
            !old(self).spec_ids().contains(id),
            final(self).spec_ids().contains(id),
    {
        let id = self.counter;
        self.ids.push(id);
        self.counter = self.counter + 1;
        proof {
            assert(final(self).spec_ids().last() == id);
        }
        id
    }

    /// Whether an operation identifier has a registered handler.
    pub fn contains(&self, op: u16) -> (b: bool)
        requires
            self.wf(),
        ensures
            b == self.spec_ids().contains(op),
    {
        let hit = op < self.counter;
        proof {
            if hit {
                assert(self.spec_ids()[op as int] == op);
            } else {
                assert forall|i: int| 0 <= i < self.spec_ids().len() implies self.spec_ids()[i]
                    != op by {}
            }
        }
        hit
    }
}

/// How an inbound request is to be served: run the registered handler, or
/// answer at once with an error.
#[derive(Debug)]
pub enum RequestDisposition {
    /// A handler is registered under this operation identifier.
    Invoke { op: u16 },
    /// No handler; the error (kind not-found) goes back under the request's
    /// identifier.
    Reject { error: UnicomError },
}

/// Decide an inbound request: the operation identifier is served by its
/// registered handler, and an identifier outside the registry is rejected
/// with a not-found error.
pub fn dispose_request(reg: &ApiRegistry, op: u16) -> (d: RequestDisposition)
    requires
        reg.wf(),
    ensures
        reg.spec_ids().contains(op) ==> d == (RequestDisposition::Invoke { op }),
        !reg.spec_ids().contains(op) ==> (d matches RequestDisposition::Reject { error }
            && error.kind == UnicomErrorKind::NotFound),
{
    if reg.contains(op) {
        RequestDisposition::Invoke { op }
    } else {
        RequestDisposition::Reject {
            error: UnicomError::new(UnicomErrorKind::NotFound, "api id not found"),
        }
    }
}

/// The request frame for one outbound call: the fresh correlation identifier
/// and the JSON image of the request object.
pub fn request_frame(id: u64, payload: Vec<u8>) -> (f: Frame)
    requires
        payload@.len() <= u32::MAX,
    ensures
        f.kind == FrameKind::Request,
        f.id == id,
        f.payload == payload,
        f.wf(),
{
    Frame { kind: FrameKind::Request, id, payload }
}

/// The response frame answering the inbound request with this identifier.
pub fn response_frame(id: u64, data: Vec<u8>) -> (f: Frame)
    requires
        data@.len() <= u32::MAX,
    ensures
        f.kind == FrameKind::Response,
        f.id == id,
        f.payload == data,
        f.wf(),
{
    Frame { kind: FrameKind::Response, id, payload: data }
}

/// The error frame answering the inbound request with this identifier; the
/// payload is the JSON image of the error.
pub fn error_frame(id: u64, payload: Vec<u8>) -> (f: Frame)
    requires
        payload@.len() <= u32::MAX,
    ensures
        f.kind == FrameKind::Error,
        f.id == id,
        f.payload == payload,
        f.wf(),
{
    Frame { kind: FrameKind::Error, id, payload }
}

/// The graceful shutdown frame: kind quit, identifier 0, no payload.
pub fn quit_frame() -> (f: Frame)
    ensures
        f.kind == FrameKind::Quit,
        f.id == 0,
        f.payload@.len() == 0,
        f.wf(),
{
    Frame { kind: FrameKind::Quit, id: 0, payload: Vec::new() }
}

/// The single-use latch in front of the session's termination signal: the
/// first observer of a terminal condition fires the signal, every later one
/// is turned away.
pub struct TerminationLatch {
    fired: bool,
}

impl TerminationLatch {
    /// Whether the signal has already been fired.
    pub closed spec fn spec_fired(self) -> bool {
        self.fired
    }

    /// A fresh latch: nothing fired yet.
    pub fn new() -> (g: TerminationLatch)
        ensures
            !g.spec_fired(),
    {
        TerminationLatch { fired: false }
    }

    /// Observe a terminal condition: returns whether this observer is the
    /// one that must fire the signal. After the first call the latch stays
    /// set forever.
    pub fn fire(&mut self) -> (signal: bool)
        ensures
            final(self).spec_fired(),
            signal == !old(self).spec_fired(),
    {
        let signal = !self.fired;
        self.fired = true;
        signal
    }
}

/// How many of `n` observers passing one latch in turn are told to fire,
/// starting from the given latch state: each observer leaves the latch set,
/// as `fire` ensures.
pub open spec fn spec_signals(fired: bool, n: nat) -> nat
    decreases n,
{
    if n == 0 {
        0
    } else {
        (if !fired {
            1nat
        } else {
            0nat
        }) + spec_signals(true, (n - 1) as nat)
    }
}

/// Law: the termination signal fires at most once, however many tasks
/// observe the session's end: of `n` observers passing the latch in turn, at
/// most one — and none once the latch is set — is told to fire.
pub proof fn lemma_signal_fires_at_most_once(fired: bool, n: nat)
    ensures
        spec_signals(fired, n) <= 1,
        fired ==> spec_signals(fired, n) == 0,
    decreases n,
{
    if n > 0 {
        lemma_signal_fires_at_most_once(true, (n - 1) as nat);
    }
}

/// Law: the termination signal fires at most once. Whenever two observers
/// pass the latch in turn — with anything happening in between, as long as a
/// set latch is never replaced by a fresh one — at most one of them is told
/// to fire the signal.
pub proof fn lemma_signal_at_most_once(
    g0: TerminationLatch,
    g1: TerminationLatch,
    s1: bool,
    g2: TerminationLatch,
    g3: TerminationLatch,
    s2: bool,
)
    requires
        g1.spec_fired() && s1 == !g0.spec_fired(),
        g1.spec_fired() ==> g2.spec_fired(),
        g3.spec_fired() && s2 == !g2.spec_fired(),
    ensures
        !(s1 && s2),
{
}

} // verus!
