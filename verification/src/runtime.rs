//! The decisions of the dispatch runtime: the init handshake that must
//! open every session, and the lifecycle a driving loop walks through —
//! await the handshake, run, drain outstanding work once input ends, and
//! stop only when nothing is in flight.  The loop itself (streams, tasks,
//! timers) lives outside the library and consults these functions.

use vstd::prelude::*;

use crate::protocol::is_reply_to;
use crate::protocol::Body;
use crate::protocol::Init;
use crate::protocol::InitPayload;
use crate::protocol::Message;
use crate::protocol::NodeError;

verus! {

/// Perform the handshake on the first inbound envelope: it must carry an
/// `Init` payload — anything else is a protocol violation fatal to the
/// session — and the reply acknowledges it with `InitOk`, message id 0,
/// answering the init message's own id.
pub fn handshake(input: Message<InitPayload>) -> (r: Result<
    (Init, Message<InitPayload>),
    NodeError,
>)
    ensures
        match input.body.payload {
            InitPayload::Init(init) => {
                &&& r matches Ok((i, reply))
                &&& i == init
                &&& is_reply_to(reply, input, 0)
                &&& reply.body.payload is InitOk
            },
            InitPayload::InitOk => r == Err::<(Init, Message<InitPayload>), NodeError>(
                NodeError::NotInit,
            ),
        },
{
    let Message { src, dst, body } = input;
    match body.payload {
        InitPayload::Init(init) => {
            let reply = Message {
                src: dst,
                dst: src,
                body: Body { id: Some(0), in_reply_to: body.id, payload: InitPayload::InitOk },
            };
            Ok((init, reply))
        },
        InitPayload::InitOk => Err(NodeError::NotInit),
    }
}

/// The phases of a session, in the order a run walks through them.
#[derive(Debug, Clone, Copy, PartialEq, Eq, Structural)]
pub enum Phase {
    /// Nothing has arrived yet; only the handshake is acceptable.
    AwaitingInit,
    /// The handshake is done; inbound lines are dispatched to the node.
    Running,
    /// Input has ended; outstanding units of work are being awaited.
    Draining,
    /// All work is finished.
    Stopped,
}

/// The lifecycle of a session: its phase and how many dispatched units of
/// work have not finished yet.  A driving loop records every unit it
/// starts and every unit that completes, so that it stops only once input
/// has ended and nothing is left in flight.
pub struct Lifecycle {
    /// Where in the session the run stands.
    pub phase: Phase,
    /// Dispatched units of work that have not completed.
    pub inflight: usize,
}

impl Lifecycle {
    /// Once stopped, nothing is in flight: the session never ends with
    /// work outstanding.
    pub open spec fn wf(self) -> bool {
        self.phase is Stopped ==> self.inflight == 0
    }

    /// A fresh session awaiting its handshake.
    pub fn new() -> (lc: Lifecycle)
        ensures
            lc.wf(),
            lc.phase is AwaitingInit,
            lc.inflight == 0,
    {
        Lifecycle { phase: Phase::AwaitingInit, inflight: 0 }
    }

    /// The handshake succeeded: start running.
    pub fn handshake_done(&mut self)
        requires
            old(self).wf(),
            old(self).phase is AwaitingInit,
        ensures
            final(self).wf(),
            final(self).phase is Running,
            final(self).inflight == old(self).inflight,
    {
        self.phase = Phase::Running;
    }

    /// One more unit of work was dispatched.
    pub fn unit_started(&mut self)
        requires
            old(self).wf(),
            old(self).phase is Running,
            old(self).inflight < usize::MAX,
        ensures
            final(self).wf(),
            final(self).phase is Running,
            final(self).inflight == old(self).inflight + 1,
    {
        self.inflight = self.inflight + 1;
    }

    /// One unit of work completed.  While draining, the last completion
    /// stops the session.
    pub fn unit_done(&mut self)
        requires
            old(self).wf(),
            old(self).phase is Running || old(self).phase is Draining,
            old(self).inflight > 0,
        ensures
            final(self).wf(),
            final(self).inflight == old(self).inflight - 1,
            old(self).phase is Running ==> final(self).phase is Running,
            old(self).phase is Draining && final(self).inflight > 0
                ==> final(self).phase is Draining,
            old(self).phase is Draining && final(self).inflight == 0
                ==> final(self).phase is Stopped,
    {
        self.inflight = self.inflight - 1;
        if matches!(self.phase, Phase::Draining) && self.inflight == 0 {
            self.phase = Phase::Stopped;
        }
    }

    /// Input reached end-of-file: drain, or stop at once if nothing is in
    /// flight.
    pub fn input_closed(&mut self)
        requires
            old(self).wf(),
            old(self).phase is Running,
        ensures
            final(self).wf(),
            final(self).inflight == old(self).inflight,
            old(self).inflight == 0 ==> final(self).phase is Stopped,
            old(self).inflight > 0 ==> final(self).phase is Draining,
    {
        if self.inflight == 0 {
            self.phase = Phase::Stopped;
        } else {
            self.phase = Phase::Draining;
        }
    }
}

} // verus!
