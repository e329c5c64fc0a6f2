use vstd::prelude::*;

use crate::input::{edge_between, Edge, EdgeDetector};
use crate::playlist::{is_initial_index, Playlist};
use crate::stream::{advances, classify_read, read_step_of, ReadOutcome, ReadStep, Termination};

verus! {

/// The failures that playback knows of.
#[derive(Clone, Copy, Debug, PartialEq, Eq, Structural)]
pub enum PlaybackError {
    /// The card's volume could not be opened.
    VolumeOpen,
    /// The root directory could not be opened.
    DirectoryOpen,
    /// A playlist entry could not be opened.
    FileOpen,
    /// A read from the open file failed.
    Read,
    /// A read returned part of a frame.
    ShortChunk,
    /// No directory entry is playable.
    EmptyPlaylist,
}

pub open spec fn is_fatal(e: PlaybackError) -> bool {
    match e {
        PlaybackError::Read | PlaybackError::ShortChunk => false,
        _ => true,
    }
}

impl PlaybackError {
    /// Whether the failure ends playback for good (the terminal idle state);
    /// a read error or a short chunk only skips the current file.
    pub fn is_fatal(&self) -> (r: bool)
        ensures
            r == is_fatal(*self),
    {
        !matches!(self, PlaybackError::Read | PlaybackError::ShortChunk)
    }
}

/// Where the controller stands, and so which event it waits for.
#[derive(Clone, Copy, Debug, PartialEq, Eq, Structural)]
pub enum Phase {
    /// An entry is being opened.
    Opening,
    /// The open file is being read into the frame buffer.
    Reading,
    /// A whole frame is being drawn.
    Rendering,
    /// The open file is being closed after streaming ended for this reason.
    Closing(Termination),
    /// Terminal: nothing more happens.
    Idle,
}

/// What the device is to do next.
#[derive(Clone, Copy, Debug, PartialEq, Eq, Structural)]
pub enum Command {
    /// Open the playlist entry at this index for reading; report with
    /// `on_open`.
    Open(usize),
    /// Read up to one frame from the open file into the frame buffer; report
    /// with `on_read`.
    Read,
    /// Draw the whole frame buffer, sample the button, report its level with
    /// `on_rendered`, then wait the pacing delay.
    Render,
    /// Close the open file; report with `on_closed`.
    Close(Termination),
    /// Enter the terminal idle loop for this reason; no further I/O.
    Idle(PlaybackError),
}

pub struct PlayerModel {
    pub len: nat,
    pub index: nat,
    pub frame_size: nat,
    pub previous_level: bool,
    pub phase: Phase,
}

/// Every state the controller can reach: a frame has bytes, a playing index
/// lies within the playlist, and an empty playlist means idle.
pub open spec fn well_formed(m: PlayerModel) -> bool {
    &&& 0 < m.frame_size <= usize::MAX
    &&& m.len <= usize::MAX
    &&& m.phase != Phase::Idle ==> m.index < m.len
    &&& m.len == 0 ==> m.phase == Phase::Idle
}

pub open spec fn start_model(len: nat, initial: nat, frame_size: nat, level: bool) -> (PlayerModel, Command) {
    if len == 0 {
        (
            PlayerModel { len, index: 0, frame_size, previous_level: level, phase: Phase::Idle },
            Command::Idle(PlaybackError::EmptyPlaylist),
        )
    } else {
        (
            PlayerModel { len, index: initial, frame_size, previous_level: level, phase: Phase::Opening },
            Command::Open(initial as usize),
        )
    }
}

pub open spec fn open_model(m: PlayerModel, opened: bool) -> (PlayerModel, Command) {
    if opened {
        (PlayerModel { phase: Phase::Reading, ..m }, Command::Read)
    } else {
        (PlayerModel { phase: Phase::Idle, ..m }, Command::Idle(PlaybackError::FileOpen))
    }
}

pub open spec fn read_model(m: PlayerModel, outcome: ReadOutcome) -> (PlayerModel, Command) {
    match read_step_of(outcome, m.frame_size) {
        ReadStep::Render => (PlayerModel { phase: Phase::Rendering, ..m }, Command::Render),
        ReadStep::Stop(t) => (PlayerModel { phase: Phase::Closing(t), ..m }, Command::Close(t)),
    }
}

pub open spec fn rendered_model(m: PlayerModel, active: bool) -> (PlayerModel, Command) {
    if edge_between(m.previous_level, active) == Edge::Rising {
        (
            PlayerModel { previous_level: active, phase: Phase::Closing(Termination::AdvanceRequested), ..m },
            Command::Close(Termination::AdvanceRequested),
        )
    } else {
        (PlayerModel { previous_level: active, phase: Phase::Reading, ..m }, Command::Read)
    }
}

pub open spec fn next_index_of(index: nat, len: nat) -> nat {
    ((index + 1) as int % (len as int)) as nat
}

pub open spec fn closed_model(m: PlayerModel) -> (PlayerModel, Command) {
    let t = m.phase->Closing_0;
    let index = if advances(t) { next_index_of(m.index, m.len) } else { m.index };
    (PlayerModel { index, phase: Phase::Opening, ..m }, Command::Open(index as usize))
}

/// The index after `index` on a playlist of `len` entries, wrapping to 0.
pub fn next_index(index: usize, len: usize) -> (r: usize)
    requires
        index < len,
    ensures
        r == next_index_of(index as nat, len as nat),
{
    (index + 1) % len
}

/// The playback controller: it owns the playlist position and the button's
/// edge state, and from each reported event decides the next command.
pub struct Player {
    len: usize,
    index: usize,
    frame_size: usize,
    edges: EdgeDetector,
    phase: Phase,
}

impl View for Player {
    type V = PlayerModel;

    closed spec fn view(&self) -> PlayerModel {
        PlayerModel {
            len: self.len as nat,
            index: self.index as nat,
            frame_size: self.frame_size as nat,
            previous_level: self.edges.previous(),
            phase: self.phase,
        }
    }
}

impl Player {
    /// Starts playback of `playlist` with frames of `frame_size` bytes and
    /// the button at `initial_level`: on the first entry whose base name
    /// starts with `preferred` (else the first entry), or idle on an empty
    /// playlist.
    pub fn start(playlist: &Playlist, preferred: &[u8], frame_size: usize, initial_level: bool) -> (r: (
        Player,
        Command,
    ))
        requires
            frame_size > 0,
        ensures
            well_formed(r.0@),
            playlist@.len() > 0 ==> is_initial_index(playlist@, preferred@, r.0@.index),
            (r.0@, r.1) == start_model(playlist@.len(), r.0@.index, frame_size as nat, initial_level),
    {
        let len = playlist.len();
        let edges = EdgeDetector::new(initial_level);
        if len == 0 {
            (Player { len, index: 0, frame_size, edges, phase: Phase::Idle }, Command::Idle(PlaybackError::EmptyPlaylist))
        } else {
            let index = playlist.initial_index(preferred);
            (Player { len, index, frame_size, edges, phase: Phase::Opening }, Command::Open(index))
        }
    }

    pub fn phase(&self) -> (r: Phase)
        ensures
            r == self@.phase,
    {
        self.phase
    }

    pub fn index(&self) -> (r: usize)
        ensures
            r == self@.index,
    {
        self.index
    }

    /// Reports whether the entry asked for could be opened. An entry that
    /// cannot be opened ends playback.
    pub fn on_open(&mut self, opened: bool) -> (r: Command)
        requires
            well_formed(old(self)@),
            old(self)@.phase == Phase::Opening,
        ensures
            well_formed(final(self)@),
            (final(self)@, r) == open_model(old(self)@, opened),
    {
        if opened {
            self.phase = Phase::Reading;
            Command::Read
        } else {
            self.phase = Phase::Idle;
            Command::Idle(PlaybackError::FileOpen)
        }
    }

    /// Reports what a read of up to one frame came back with.
    pub fn on_read(&mut self, outcome: ReadOutcome) -> (r: Command)
        requires
            well_formed(old(self)@),
            old(self)@.phase == Phase::Reading,
            outcome matches ReadOutcome::Bytes(n) ==> n <= old(self)@.frame_size,
        ensures
            well_formed(final(self)@),
            (final(self)@, r) == read_model(old(self)@, outcome),
    {
        match classify_read(outcome, self.frame_size) {
            ReadStep::Render => {
                self.phase = Phase::Rendering;
                Command::Render
            },
            ReadStep::Stop(t) => {
                self.phase = Phase::Closing(t);
                Command::Close(t)
            },
        }
    }

    /// Reports the button's active level, sampled right after a frame was
    /// drawn. A press ends streaming of this file.
    pub fn on_rendered(&mut self, active: bool) -> (r: Command)
        requires
            well_formed(old(self)@),
            old(self)@.phase == Phase::Rendering,
        ensures
            well_formed(final(self)@),
            (final(self)@, r) == rendered_model(old(self)@, active),
    {
        let edge = self.edges.sample(active);
        if edge == Edge::Rising {
            self.phase = Phase::Closing(Termination::AdvanceRequested);
            Command::Close(Termination::AdvanceRequested)
        } else {
            self.phase = Phase::Reading;
            Command::Read
        }
    }

    /// Reports that the file was closed; the playlist moves on unless the
    /// file simply ended, and the chosen entry is opened.
    pub fn on_closed(&mut self) -> (r: Command)
        requires
            well_formed(old(self)@),
            old(self)@.phase is Closing,
        ensures
            well_formed(final(self)@),
            (final(self)@, r) == closed_model(old(self)@),
    {
        let t = match self.phase {
            Phase::Closing(t) => t,
            _ => Termination::EndOfFile,
        };
        if t.advances() {
            self.index = next_index(self.index, self.len);
        }
        self.phase = Phase::Opening;
        Command::Open(self.index)
    }
}

/// Advancing wraps: after streaming ended for any reason but a clean end of
/// file, the entry opened next is `(i + 1) mod L`.
pub proof fn lemma_advance_wraps(m: PlayerModel, t: Termination)
    requires
        well_formed(m),
        m.phase == Phase::Closing(t),
        advances(t),
    ensures
        closed_model(m).0.index == (m.index + 1) as int % (m.len as int),
        closed_model(m).1 == Command::Open(((m.index + 1) as int % (m.len as int)) as usize),
        well_formed(closed_model(m).0),
{
}

/// A read of exactly one frame is rendered, once, and leaves the playlist
/// position where it was.
pub proof fn lemma_full_frame_renders(m: PlayerModel)
    requires
        well_formed(m),
        m.phase == Phase::Reading,
    ensures
        read_model(m, ReadOutcome::Bytes(m.frame_size as usize)).1 == Command::Render,
        read_model(m, ReadOutcome::Bytes(m.frame_size as usize)).0 == (PlayerModel { phase: Phase::Rendering, ..m }),
{
}

/// A read of part of a frame renders nothing, closes the file, and the entry
/// after it is opened next.
pub proof fn lemma_short_chunk_skips(m: PlayerModel, n: usize)
    requires
        well_formed(m),
        m.phase == Phase::Reading,
        0 < n < m.frame_size,
    ensures
        read_model(m, ReadOutcome::Bytes(n)).1 == Command::Close(Termination::ShortChunk),
        closed_model(read_model(m, ReadOutcome::Bytes(n)).0).1 == Command::Open(
            next_index_of(m.index, m.len) as usize,
        ),
{
}

/// A read of no bytes closes the file and opens the same entry again.
pub proof fn lemma_end_of_file_replays(m: PlayerModel)
    requires
        well_formed(m),
        m.phase == Phase::Reading,
    ensures
        read_model(m, ReadOutcome::Bytes(0)).1 == Command::Close(Termination::EndOfFile),
        closed_model(read_model(m, ReadOutcome::Bytes(0)).0).1 == Command::Open(m.index as usize),
        closed_model(read_model(m, ReadOutcome::Bytes(0)).0).0.index == m.index,
{
}

/// A press seen right after a whole frame ends the file after that one
/// render: the frame is read, rendered once, the file is closed, and the
/// next entry is opened.
pub proof fn lemma_press_after_frame_advances(m: PlayerModel)
    requires
        well_formed(m),
        m.phase == Phase::Reading,
        !m.previous_level,
    ensures
        ({
            let (m1, c1) = read_model(m, ReadOutcome::Bytes(m.frame_size as usize));
            let (m2, c2) = rendered_model(m1, true);
            let (m3, c3) = closed_model(m2);
            &&& c1 == Command::Render
            &&& c2 == Command::Close(Termination::AdvanceRequested)
            &&& c3 == Command::Open(next_index_of(m.index, m.len) as usize)
            &&& m3.index == next_index_of(m.index, m.len)
        }),
{
}

/// With no playable entry the controller goes idle at once and asks for no
/// open or read; no event is taken in the idle phase.
pub proof fn lemma_empty_playlist_idles(initial: nat, frame_size: nat, level: bool)
    ensures
        start_model(0, initial, frame_size, level).1 == Command::Idle(PlaybackError::EmptyPlaylist),
        start_model(0, initial, frame_size, level).0.phase == Phase::Idle,
{
}

} // verus!
