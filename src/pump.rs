use vstd::prelude::*;

verus! {

/// What one read from a stream produced.
///
/// `Data` with an empty buffer is end of stream, as a read of zero bytes
/// reports it. `Interrupted` is a read cut short by a signal, which is retried.
/// `Failed` is any other error, which ends the stream like end of stream does.
#[derive(Debug)]
pub enum ReadOutcome {
    Data(Vec<u8>),
    Interrupted,
    Failed,
}

impl ReadOutcome {
    /// True when the outcome ends the stream: end of stream or an error.
    pub open spec fn ends_stream(&self) -> bool {
        match self {
            ReadOutcome::Data(b) => b@.len() == 0,
            ReadOutcome::Interrupted => false,
            ReadOutcome::Failed => true,
        }
    }
}

/// What a pump does next.
#[derive(Debug, PartialEq, Eq)]
pub enum PumpStep {
    /// Write this chunk to the sink, then report how the write went.
    Write(Vec<u8>),
    /// Read from the source again.
    Read,
    /// Stop copying: the source ended, or the sink refused a write.
    Stop,
    /// The event did not fit the pump's state and was ignored.
    Ignore,
}

/// Where a pump stands.
#[derive(Debug, Clone, Copy, PartialEq, Eq, Structural)]
pub enum PumpState {
    /// A read from the source is outstanding.
    Reading,
    /// A chunk is being written to the sink.
    Writing,
    /// The source ended and everything read was written.
    Drained,
    /// The sink refused a write; copying stopped.
    Broken,
}

/// A one-way copy from a source stream to a sink.
///
/// The pump does not own either stream: it only decides, for each event, what
/// the loop that drives it does next. It records, as ghost state, every byte
/// taken from the source and every byte the sink accepted.
pub struct Pump {
    state: PumpState,
    taken: Ghost<Seq<u8>>,
    given: Ghost<Seq<u8>>,
    chunk: Ghost<Seq<u8>>,
}

impl Pump {
    /// The pump's state.
    pub closed spec fn phase(&self) -> PumpState {
        self.state
    }

    /// Every byte read from the source so far, in order.
    pub closed spec fn taken(&self) -> Seq<u8> {
        self.taken@
    }

    /// Every byte the sink has accepted so far, in order.
    pub closed spec fn given(&self) -> Seq<u8> {
        self.given@
    }

    /// The chunk whose write is outstanding (empty when none is).
    pub closed spec fn in_flight(&self) -> Seq<u8> {
        self.chunk@
    }

    /// The sink has received exactly a prefix of what the source gave, with
    /// nothing lost but the chunk of an outstanding or refused write.
    pub closed spec fn wf(&self) -> bool {
        &&& match self.state {
            PumpState::Reading | PumpState::Drained => {
                &&& self.given@ == self.taken@
                &&& self.chunk@.len() == 0
            },
            PumpState::Writing | PumpState::Broken => {
                &&& self.taken@ == self.given@ + self.chunk@
                &&& self.chunk@.len() > 0
            },
        }
    }

    /// True while the pump is still copying.
    pub open spec fn running(&self) -> bool {
        self.phase() == PumpState::Reading || self.phase() == PumpState::Writing
    }

    /// A pump that has read nothing and waits for its first read.
    pub fn new() -> (r: Pump)
        ensures
            r.wf(),
            r.phase() == PumpState::Reading,
            r.taken() == Seq::<u8>::empty(),
            r.given() == Seq::<u8>::empty(),
    {
        Pump {
            state: PumpState::Reading,
            taken: Ghost(Seq::empty()),
            given: Ghost(Seq::empty()),
            chunk: Ghost(Seq::empty()),
        }
    }

    /// The pump's state.
    pub fn state(&self) -> (r: PumpState)
        ensures
            r == self.phase(),
    {
        self.state
    }

    /// Decides what follows a read from the source.
    ///
    /// Bytes are handed on to the sink unchanged; an interrupted read is
    /// retried; end of stream or an error stops the pump. A read that comes
    /// while no read is outstanding is ignored.
    pub fn on_read(&mut self, outcome: ReadOutcome) -> (r: PumpStep)
        requires
            old(self).wf(),
        ensures
            final(self).wf(),
            old(self).phase() != PumpState::Reading ==> r is Ignore && *final(self) == *old(self),
            old(self).phase() == PumpState::Reading ==> match outcome {
                ReadOutcome::Data(b) => if b@.len() == 0 {
                    &&& r is Stop
                    &&& final(self).phase() == PumpState::Drained
                    &&& final(self).taken() == old(self).taken()
                    &&& final(self).given() == old(self).given()
                } else {
                    &&& r == PumpStep::Write(b)
                    &&& final(self).phase() == PumpState::Writing
                    &&& final(self).taken() == old(self).taken() + b@
                    &&& final(self).given() == old(self).given()
                    &&& final(self).in_flight() == b@
                },
                ReadOutcome::Interrupted => r is Read && *final(self) == *old(self),
                ReadOutcome::Failed => {
                    &&& r is Stop
                    &&& final(self).phase() == PumpState::Drained
                    &&& final(self).taken() == old(self).taken()
                    &&& final(self).given() == old(self).given()
                },
            },
    {
        if self.state != PumpState::Reading {
            return PumpStep::Ignore;
        }
        match outcome {
            ReadOutcome::Data(b) => {
                if b.len() == 0 {
                    self.state = PumpState::Drained;
                    PumpStep::Stop
                } else {
                    self.state = PumpState::Writing;
                    self.taken = Ghost(self.taken@ + b@);
                    self.chunk = Ghost(b@);
                    PumpStep::Write(b)
                }
            },
            ReadOutcome::Interrupted => PumpStep::Read,
            ReadOutcome::Failed => {
                self.state = PumpState::Drained;
                PumpStep::Stop
            },
        }
    }

    /// Decides what follows a write to the sink: read again when the sink took
    /// the chunk, stop when it refused it. A report that comes while no write
    /// is outstanding is ignored.
    pub fn on_written(&mut self, ok: bool) -> (r: PumpStep)
        requires
            old(self).wf(),
        ensures
            final(self).wf(),
            old(self).phase() != PumpState::Writing ==> r is Ignore && *final(self) == *old(self),
            old(self).phase() == PumpState::Writing ==> {
                &&& final(self).taken() == old(self).taken()
                &&& ok ==> {
                    &&& r is Read
                    &&& final(self).phase() == PumpState::Reading
                    &&& final(self).given() == old(self).given() + old(self).in_flight()
                }
                &&& !ok ==> {
                    &&& r is Stop
                    &&& final(self).phase() == PumpState::Broken
                    &&& final(self).given() == old(self).given()
                }
            },
    {
        if self.state != PumpState::Writing {
            return PumpStep::Ignore;
        }
        if ok {
            self.state = PumpState::Reading;
            self.given = Ghost(self.given@ + self.chunk@);
            self.chunk = Ghost(Seq::empty());
            PumpStep::Read
        } else {
            self.state = PumpState::Broken;
            PumpStep::Stop
        }
    }

    /// Transparency: a pump that is waiting to read, or whose source has
    /// ended, has handed the sink exactly the bytes its source gave, in
    /// order and unchanged.
    pub proof fn lemma_transparent(&self)
        requires
            self.wf(),
            self.phase() == PumpState::Reading || self.phase() == PumpState::Drained,
        ensures
            self.given() == self.taken(),
    {
    }

    /// Whatever happens, the sink has received a prefix of the source's bytes.
    pub proof fn lemma_prefix(&self)
        requires
            self.wf(),
        ensures
            self.given().len() <= self.taken().len(),
            self.given() == self.taken().take(self.given().len() as int),
    {
        assert(self.taken@.take(self.given@.len() as int) =~= self.given@);
    }
}

} // verus!
