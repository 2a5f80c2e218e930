use vstd::prelude::*;

verus! {

/// The two events of the start handshake, in the only order they may occur.
#[derive(Debug, Clone, Copy, PartialEq, Eq, Structural)]
pub enum Phase {
    /// The created process finished namespace, cgroup and rootfs setup.
    SetupComplete,
    /// The creator authorizes the created process to run its workload.
    Proceed,
}

/// Why a handshake step failed. Every one of them ends the construction.
#[derive(Debug, Clone, Copy, PartialEq, Eq, Structural)]
pub enum SyncError {
    /// Nothing arrived before the deadline.
    Timeout,
    /// The peer closed its end without signaling.
    PeerClosed,
    /// A phase was signaled twice, or before the phase that precedes it.
    OutOfOrder,
}

/// What a wait does after one look at the channel.
#[derive(Debug, Clone, Copy, PartialEq, Eq, Structural)]
pub enum WaitStep {
    Ready,
    Failed(SyncError),
    /// Nothing decided yet: look again.
    Pending,
}

/// The phase that must be signaled `i`-th.
pub open spec fn phase_at(i: int) -> Phase {
    if i == 0 {
        Phase::SetupComplete
    } else {
        Phase::Proceed
    }
}

/// A log of signals is legal when it is a prefix of the handshake.
pub open spec fn legal_log(log: Seq<Phase>) -> bool {
    &&& log.len() <= 2
    &&& forall|i: int| 0 <= i < log.len() ==> #[trigger] log[i] == phase_at(i)
}

pub open spec fn phase_index(p: Phase) -> int {
    match p {
        Phase::SetupComplete => 0,
        Phase::Proceed => 1,
    }
}

/// What `wait_ready` for `p` returns on a channel with this log and state.
pub open spec fn wait_result(log: Seq<Phase>, closed: bool, p: Phase) -> Result<(), SyncError> {
    if phase_index(p) < log.len() {
        Ok(())
    } else if closed {
        Err(SyncError::PeerClosed)
    } else {
        Err(SyncError::Timeout)
    }
}

/// One use of the start handshake between a creator and the process it
/// created: the signals delivered so far, and whether the signaling side
/// closed its end.
pub struct NotifyChannel {
    log: Vec<Phase>,
    closed: bool,
}

impl NotifyChannel {
    pub closed spec fn log(&self) -> Seq<Phase> {
        self.log@
    }

    pub closed spec fn is_closed(&self) -> bool {
        self.closed
    }

    pub open spec fn wf(&self) -> bool {
        legal_log(self.log())
    }

    /// Binds a fresh rendezvous point, before the fork.
    pub fn listen() -> (r: NotifyChannel)
        ensures
            r.wf(),
            r.log() == Seq::<Phase>::empty(),
            !r.is_closed(),
    {
        NotifyChannel { log: Vec::new(), closed: false }
    }

    /// Delivers `p`. It must be the next phase of the handshake and the
    /// channel must still be open; otherwise nothing is delivered.
    pub fn signal_ready(&mut self, p: Phase) -> (r: Result<(), SyncError>)
        requires
            old(self).wf(),
        ensures
            final(self).wf(),
            final(self).is_closed() == old(self).is_closed(),
            old(self).is_closed() ==> r == Err::<(), SyncError>(SyncError::PeerClosed),
            !old(self).is_closed() && old(self).log().len() < 2 && p == phase_at(old(self).log().len() as int)
                ==> r is Ok,
            !old(self).is_closed() && !(old(self).log().len() < 2 && p == phase_at(old(self).log().len() as int))
                ==> r == Err::<(), SyncError>(SyncError::OutOfOrder),
            r is Ok ==> final(self).log() == old(self).log().push(p),
            r is Err ==> final(self).log() == old(self).log(),
    {
        if self.closed {
            return Err(SyncError::PeerClosed);
        }
        let n = self.log.len();
        let next = if n == 0 { Phase::SetupComplete } else { Phase::Proceed };
        if n < 2 && p == next {
            self.log.push(p);
            proof {
                assert forall|i: int| 0 <= i < self.log@.len() implies #[trigger] self.log@[i] == phase_at(i) by {
                    if i < n {
                        assert(self.log@[i] == old(self).log@[i]);
                    }
                }
            }
            Ok(())
        } else {
            Err(SyncError::OutOfOrder)
        }
    }

    /// Closes the signaling end without a further signal, as a creator does
    /// when it aborts.
    pub fn close(&mut self)
        requires
            old(self).wf(),
        ensures
            final(self).wf(),
            final(self).is_closed(),
            final(self).log() == old(self).log(),
    {
        self.closed = true;
    }

    /// Whether `p` has been delivered.
    pub fn is_signaled(&self, p: Phase) -> (r: bool)
        requires
            self.wf(),
        ensures
            r == (phase_index(p) < self.log().len()),
    {
        match p {
            Phase::SetupComplete => self.log.len() > 0,
            Phase::Proceed => self.log.len() > 1,
        }
    }

    /// Waits for `p`. Every signal this channel will get has been delivered
    /// by the time the waiter looks, so an undelivered phase on an open
    /// channel is a timeout, and on a closed one the peer's abort.
    pub fn wait_ready(&self, p: Phase) -> (r: Result<(), SyncError>)
        requires
            self.wf(),
        ensures
            r == wait_result(self.log(), self.is_closed(), p),
    {
        let signaled = self.is_signaled(p);
        if signaled {
            Ok(())
        } else if self.closed {
            Err(SyncError::PeerClosed)
        } else {
            Err(SyncError::Timeout)
        }
    }

    /// The signals delivered so far, in order.
    pub fn observed(&self) -> (r: Vec<Phase>)
        ensures
            r@ == self.log(),
    {
        let mut out: Vec<Phase> = Vec::new();
        let mut i: usize = 0;
        while i < self.log.len()
            invariant
                0 <= i <= self.log@.len(),
                out@ == self.log@.take(i as int),
            decreases self.log@.len() - i,
        {
            out.push(self.log[i]);
            i = i + 1;
            assert(out@ == self.log@.take(i as int));
        }
        assert(self.log@.take(i as int) == self.log@);
        out
    }
}

/// Decides one step of a blocking wait: `signaled` and `peer_closed` are what
/// the waiter just saw, `elapsed` how long it has waited, and `timeout` its
/// deadline (none: wait as long as it takes).
pub fn wait_step(signaled: bool, peer_closed: bool, elapsed: u64, timeout: Option<u64>) -> (r: WaitStep)
    ensures
        signaled ==> r == WaitStep::Ready,
        !signaled && peer_closed ==> r == WaitStep::Failed(SyncError::PeerClosed),
        !signaled && !peer_closed && timeout is Some && elapsed >= timeout->Some_0
            ==> r == WaitStep::Failed(SyncError::Timeout),
        !signaled && !peer_closed && !(timeout is Some && elapsed >= timeout->Some_0)
            ==> r == WaitStep::Pending,
{
    if signaled {
        WaitStep::Ready
    } else if peer_closed {
        WaitStep::Failed(SyncError::PeerClosed)
    } else {
        match timeout {
            Some(t) if elapsed >= t => WaitStep::Failed(SyncError::Timeout),
            _ => WaitStep::Pending,
        }
    }
}

/// On any legal channel the go signal is never observed before the setup
/// signal: wherever `Proceed` stands in the log, `SetupComplete` stands
/// earlier, and the first signal is always `SetupComplete`.
pub proof fn lemma_setup_observed_before_proceed(c: &NotifyChannel)
    requires
        c.wf(),
    ensures
        c.log().len() > 0 ==> c.log()[0] == Phase::SetupComplete,
        forall|i: int|
            0 <= i < c.log().len() && #[trigger] c.log()[i] == Phase::Proceed ==> exists|j: int|
                0 <= j < i && #[trigger] c.log()[j] == Phase::SetupComplete,
{
    assert forall|i: int|
        0 <= i < c.log().len() && #[trigger] c.log()[i] == Phase::Proceed implies exists|j: int|
            0 <= j < i && #[trigger] c.log()[j] == Phase::SetupComplete by {
        assert(c.log()[0] == phase_at(0));
    }
}

/// Once the peer has closed, a wait for any phase that was not delivered
/// fails with `PeerClosed`: it neither reports success nor times out.
pub proof fn lemma_wait_after_abort(c: &NotifyChannel, p: Phase)
    requires
        c.wf(),
        c.is_closed(),
        phase_index(p) >= c.log().len(),
    ensures
        wait_result(c.log(), c.is_closed(), p) == Err::<(), SyncError>(SyncError::PeerClosed),
{
}

} // verus!
