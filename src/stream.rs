use vstd::prelude::*;

verus! {

/// The one reusable region that a read fills and a render consumes.
pub struct FrameBuffer {
    bytes: Vec<u8>,
}

impl View for FrameBuffer {
    type V = Seq<u8>;

    closed spec fn view(&self) -> Seq<u8> {
        self.bytes@
    }
}

impl FrameBuffer {
    /// A zeroed buffer of `frame_size` bytes.
    pub fn new(frame_size: usize) -> (r: FrameBuffer)
        ensures
            r@ == Seq::new(frame_size as nat, |i: int| 0u8),
    {
        let mut bytes: Vec<u8> = Vec::with_capacity(frame_size);
        while bytes.len() < frame_size
            invariant
                bytes.len() <= frame_size,
                forall|i: int| 0 <= i < bytes@.len() ==> bytes@[i] == 0u8,
            decreases frame_size - bytes.len(),
        {
            bytes.push(0u8);
        }
        assert(bytes@ =~= Seq::new(frame_size as nat, |i: int| 0u8));
        FrameBuffer { bytes }
    }

    pub fn len(&self) -> (r: usize)
        ensures
            r == self@.len(),
    {
        self.bytes.len()
    }

    /// The whole region, for a read to fill. What the read leaves there is
    /// what the buffer holds afterwards, at the same length.
    pub fn read_target(&mut self) -> (r: &mut [u8])
        ensures
            r@ == old(self)@,
            final(self)@ == final(r)@,
    {
        self.bytes.as_mut_slice()
    }

    /// The whole region, as the read left it, for a render.
    pub fn frame(&self) -> (r: &[u8])
        ensures
            r@ == self@,
    {
        self.bytes.as_slice()
    }
}

/// What one read of up to a frame's worth of bytes came back with.
#[derive(Clone, Copy, Debug, PartialEq, Eq, Structural)]
pub enum ReadOutcome {
    /// The read put this many bytes at the start of the buffer.
    Bytes(usize),
    /// The read failed with an I/O error.
    Failed,
}

/// Why streaming of one open file ended.
#[derive(Clone, Copy, Debug, PartialEq, Eq, Structural)]
pub enum Termination {
    /// A read returned no bytes: the file is at its end.
    EndOfFile,
    /// A read returned part of a frame: the rest of the file is no whole frame.
    ShortChunk,
    /// A read failed.
    ReadError,
    /// The button was pressed after a rendered frame.
    AdvanceRequested,
}

/// What the engine does with a read's outcome.
#[derive(Clone, Copy, Debug, PartialEq, Eq, Structural)]
pub enum ReadStep {
    /// A whole frame is in the buffer: render it.
    Render,
    /// Streaming of this file ends.
    Stop(Termination),
}

pub open spec fn read_step_of(outcome: ReadOutcome, frame_size: nat) -> ReadStep {
    match outcome {
        ReadOutcome::Failed => ReadStep::Stop(Termination::ReadError),
        ReadOutcome::Bytes(n) => if n == 0 {
            ReadStep::Stop(Termination::EndOfFile)
        } else if n < frame_size {
            ReadStep::Stop(Termination::ShortChunk)
        } else {
            ReadStep::Render
        },
    }
}

/// Whether the playlist moves on after streaming ended for this reason; only
/// a clean end of file replays the same entry.
pub open spec fn advances(t: Termination) -> bool {
    t != Termination::EndOfFile
}

/// Classifies a read that asked for `frame_size` bytes: a failure ends the
/// file with a read error, no bytes with its end, part of a frame with a
/// short chunk, and a whole frame is rendered.
pub fn classify_read(outcome: ReadOutcome, frame_size: usize) -> (r: ReadStep)
    requires
        frame_size > 0,
        outcome matches ReadOutcome::Bytes(n) ==> n <= frame_size,
    ensures
        r == read_step_of(outcome, frame_size as nat),
{
    match outcome {
        ReadOutcome::Failed => ReadStep::Stop(Termination::ReadError),
        ReadOutcome::Bytes(n) => if n == 0 {
            ReadStep::Stop(Termination::EndOfFile)
        } else if n < frame_size {
            ReadStep::Stop(Termination::ShortChunk)
        } else {
            ReadStep::Render
        },
    }
}

impl Termination {
    /// Whether the playlist moves to the next entry after this termination.
    pub fn advances(&self) -> (r: bool)
        ensures
            r == advances(*self),
    {
        !matches!(self, Termination::EndOfFile)
    }
}

} // verus!
