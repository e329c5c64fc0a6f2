use raw_player::config::{media_extension, preferred_prefix, FRAME_SIZE, HIDDEN_MARKER};
use raw_player::controller::{next_index, Command, Phase, PlaybackError, Player};
use raw_player::input::{Edge, EdgeDetector};
use raw_player::playlist::{bytes_equal, starts_with, DirEntry, EntryVerdict, MediaFilter, Playlist};
use raw_player::stream::{classify_read, FrameBuffer, ReadOutcome, ReadStep, Termination};

fn entry(base: &str, ext: &str, size: u32) -> DirEntry {
    DirEntry {
        base_name: base.as_bytes().to_vec(),
        extension: ext.as_bytes().to_vec(),
        is_directory: false,
        size_bytes: size,
    }
}

fn standard_filter() -> MediaFilter {
    MediaFilter::new(media_extension(), HIDDEN_MARKER, FRAME_SIZE)
}

fn playlist_of(names: &[&str]) -> Playlist {
    let entries = names.iter().map(|n| entry(n, "RAW", FRAME_SIZE as u32)).collect();
    Playlist::build(standard_filter(), entries)
}

fn base_names(p: &Playlist) -> Vec<String> {
    (0..p.len()).map(|i| String::from_utf8(p.entry(i).base_name.clone()).unwrap()).collect()
}

/// A player that has opened its first entry and waits on a read.
fn reading_player(names: &[&str]) -> Player {
    let list = playlist_of(names);
    let (mut player, cmd) = Player::start(&list, &preferred_prefix(), FRAME_SIZE, false);
    assert!(matches!(cmd, Command::Open(_)));
    assert_eq!(player.on_open(true), Command::Read);
    player
}

#[test]
fn frame_size_matches_geometry() {
    assert_eq!(FRAME_SIZE, 172 * 320 * 2);
    assert_eq!(FRAME_SIZE, 110_080);
}

#[test]
fn filter_keeps_only_playable_entries() {
    let entries = vec![
        entry("A", "RAW", FRAME_SIZE as u32),
        entry("_B", "RAW", FRAME_SIZE as u32),
        entry("C", "RAW", FRAME_SIZE as u32 - 1),
        entry("D", "TXT", FRAME_SIZE as u32),
    ];
    let list = Playlist::build(standard_filter(), entries);
    assert_eq!(base_names(&list), vec!["A".to_string()]);
    assert_eq!(list.entry(0).extension, b"RAW".to_vec());
    assert_eq!(list.entry(0).size_bytes, FRAME_SIZE as u32);
}

#[test]
fn filter_verdicts() {
    let f = standard_filter();
    assert_eq!(f.classify(&entry("A", "RAW", FRAME_SIZE as u32)), EntryVerdict::Accepted);
    assert_eq!(f.classify(&entry("BIG", "RAW", 3 * FRAME_SIZE as u32 + 5)), EntryVerdict::Accepted);
    assert_eq!(f.classify(&entry("_B", "RAW", FRAME_SIZE as u32)), EntryVerdict::Hidden);
    assert_eq!(f.classify(&entry("C", "RAW", FRAME_SIZE as u32 - 1)), EntryVerdict::TooSmall);
    assert_eq!(f.classify(&entry("E", "RAW", 0)), EntryVerdict::TooSmall);
    assert_eq!(f.classify(&entry("D", "TXT", FRAME_SIZE as u32)), EntryVerdict::NotMedia);
    assert_eq!(f.classify(&entry("L", "raw", FRAME_SIZE as u32)), EntryVerdict::NotMedia);
    assert_eq!(f.classify(&entry("M", "RA", FRAME_SIZE as u32)), EntryVerdict::NotMedia);
    let mut dir = entry("MOVIES", "RAW", FRAME_SIZE as u32);
    dir.is_directory = true;
    assert_eq!(f.classify(&dir), EntryVerdict::NotMedia);
}

#[test]
fn hidden_marker_only_counts_at_the_start() {
    let f = standard_filter();
    assert_eq!(f.classify(&entry("A_B", "RAW", FRAME_SIZE as u32)), EntryVerdict::Accepted);
    assert_eq!(f.classify(&entry("", "RAW", FRAME_SIZE as u32)), EntryVerdict::Accepted);
}

#[test]
fn filter_with_other_settings() {
    let f = MediaFilter::new(b"BIN".to_vec(), b'.', 4);
    assert_eq!(f.classify(&entry("X", "BIN", 4)), EntryVerdict::Accepted);
    assert_eq!(f.classify(&entry("X", "BIN", 3)), EntryVerdict::TooSmall);
    assert_eq!(f.classify(&entry(".X", "BIN", 4)), EntryVerdict::Hidden);
    assert_eq!(f.classify(&entry("_X", "BIN", 4)), EntryVerdict::Accepted);
    assert_eq!(f.classify(&entry("X", "RAW", 4)), EntryVerdict::NotMedia);
}

#[test]
fn offer_appends_in_scan_order() {
    let mut list = Playlist::new(standard_filter());
    assert!(list.is_empty());
    assert_eq!(list.offer(entry("Z", "RAW", FRAME_SIZE as u32)), EntryVerdict::Accepted);
    assert_eq!(list.offer(entry("_Y", "RAW", FRAME_SIZE as u32)), EntryVerdict::Hidden);
    assert_eq!(list.offer(entry("A", "RAW", FRAME_SIZE as u32)), EntryVerdict::Accepted);
    assert_eq!(base_names(&list), vec!["Z".to_string(), "A".to_string()]);
    assert!(!list.is_empty());
}

#[test]
fn initial_index_prefers_prefix() {
    let list = playlist_of(&["X", "NOCOW", "Y"]);
    assert_eq!(list.initial_index(&preferred_prefix()), 1);
}

#[test]
fn initial_index_takes_first_match() {
    let list = playlist_of(&["X", "NOA", "NOB"]);
    assert_eq!(list.initial_index(b"NO"), 1);
    let list = playlist_of(&["NO", "X"]);
    assert_eq!(list.initial_index(b"NO"), 0);
}

#[test]
fn initial_index_falls_back_to_zero() {
    let list = playlist_of(&["X", "ONO", "N"]);
    assert_eq!(list.initial_index(&preferred_prefix()), 0);
    let empty = playlist_of(&[]);
    assert_eq!(empty.initial_index(&preferred_prefix()), 0);
}

#[test]
fn prefix_and_equality_helpers() {
    assert!(starts_with(b"NOCOW", b"NO"));
    assert!(starts_with(b"NO", b"NO"));
    assert!(starts_with(b"ABC", b""));
    assert!(!starts_with(b"N", b"NO"));
    assert!(!starts_with(b"XNO", b"NO"));
    assert!(bytes_equal(b"RAW", b"RAW"));
    assert!(!bytes_equal(b"RAW", b"RAWX"));
    assert!(!bytes_equal(b"RAW", b"RAV"));
    assert!(bytes_equal(b"", b""));
}

#[test]
fn edge_detector_transitions() {
    let mut d = EdgeDetector::new(false);
    assert_eq!(d.sample(false), Edge::Steady);
    assert_eq!(d.sample(true), Edge::Rising);
    assert!(d.previous_level());
    assert_eq!(d.sample(true), Edge::Steady);
    assert_eq!(d.sample(false), Edge::Falling);
    assert!(!d.previous_level());
    let mut held = EdgeDetector::new(true);
    assert_eq!(held.sample(true), Edge::Steady);
}

#[test]
fn read_classification() {
    assert_eq!(classify_read(ReadOutcome::Failed, 8), ReadStep::Stop(Termination::ReadError));
    assert_eq!(classify_read(ReadOutcome::Bytes(0), 8), ReadStep::Stop(Termination::EndOfFile));
    assert_eq!(classify_read(ReadOutcome::Bytes(1), 8), ReadStep::Stop(Termination::ShortChunk));
    assert_eq!(classify_read(ReadOutcome::Bytes(7), 8), ReadStep::Stop(Termination::ShortChunk));
    assert_eq!(classify_read(ReadOutcome::Bytes(8), 8), ReadStep::Render);
}

#[test]
fn only_end_of_file_keeps_the_entry() {
    assert!(!Termination::EndOfFile.advances());
    assert!(Termination::ShortChunk.advances());
    assert!(Termination::ReadError.advances());
    assert!(Termination::AdvanceRequested.advances());
}

#[test]
fn fatal_errors() {
    assert!(PlaybackError::VolumeOpen.is_fatal());
    assert!(PlaybackError::DirectoryOpen.is_fatal());
    assert!(PlaybackError::FileOpen.is_fatal());
    assert!(PlaybackError::EmptyPlaylist.is_fatal());
    assert!(!PlaybackError::Read.is_fatal());
    assert!(!PlaybackError::ShortChunk.is_fatal());
}

#[test]
fn advance_wraps() {
    assert_eq!(next_index(2, 3), 0);
    assert_eq!(next_index(0, 3), 1);
    assert_eq!(next_index(0, 1), 0);
}

#[test]
fn advance_wraps_in_player() {
    // Start on the preferred entry, the last of three.
    let mut p = reading_player(&["A", "B", "NOX"]);
    assert_eq!(p.index(), 2);
    assert_eq!(p.on_read(ReadOutcome::Failed), Command::Close(Termination::ReadError));
    assert_eq!(p.on_closed(), Command::Open(0));
    assert_eq!(p.index(), 0);
}

#[test]
fn full_frame_renders_once() {
    let mut p = reading_player(&["A", "NOB", "C"]);
    assert_eq!(p.index(), 1);
    assert_eq!(p.on_read(ReadOutcome::Bytes(FRAME_SIZE)), Command::Render);
    assert_eq!(p.phase(), Phase::Rendering);
    assert_eq!(p.index(), 1);
    assert_eq!(p.on_rendered(false), Command::Read);
    assert_eq!(p.index(), 1);
}

#[test]
fn frame_buffer_hands_over_bytes_unchanged() {
    let mut buf = FrameBuffer::new(FRAME_SIZE);
    assert_eq!(buf.len(), FRAME_SIZE);
    assert!(buf.frame().iter().all(|b| *b == 0));
    let target = buf.read_target();
    for (i, b) in target.iter_mut().enumerate() {
        *b = (i % 251) as u8;
    }
    let frame = buf.frame();
    assert_eq!(frame.len(), FRAME_SIZE);
    assert!(frame.iter().enumerate().all(|(i, b)| *b == (i % 251) as u8));
}

#[test]
fn short_chunk_skips_without_render() {
    let mut p = reading_player(&["NOA", "B"]);
    assert_eq!(p.on_read(ReadOutcome::Bytes(1)), Command::Close(Termination::ShortChunk));
    assert_eq!(p.on_closed(), Command::Open(1));
    assert_eq!(p.on_open(true), Command::Read);
    assert_eq!(p.on_read(ReadOutcome::Bytes(FRAME_SIZE - 1)), Command::Close(Termination::ShortChunk));
    assert_eq!(p.on_closed(), Command::Open(0));
}

#[test]
fn end_of_file_replays_same_entry() {
    let mut p = reading_player(&["A", "NOB", "C"]);
    assert_eq!(p.on_read(ReadOutcome::Bytes(FRAME_SIZE)), Command::Render);
    assert_eq!(p.on_rendered(false), Command::Read);
    assert_eq!(p.on_read(ReadOutcome::Bytes(0)), Command::Close(Termination::EndOfFile));
    assert_eq!(p.on_closed(), Command::Open(1));
    assert_eq!(p.index(), 1);
}

#[test]
fn press_after_render_advances() {
    let mut p = reading_player(&["A", "NOB", "C"]);
    assert_eq!(p.on_read(ReadOutcome::Bytes(FRAME_SIZE)), Command::Render);
    assert_eq!(p.on_rendered(true), Command::Close(Termination::AdvanceRequested));
    assert_eq!(p.on_closed(), Command::Open(2));
    assert_eq!(p.on_open(true), Command::Read);
    // Still held: no new edge, playback goes on.
    assert_eq!(p.on_read(ReadOutcome::Bytes(FRAME_SIZE)), Command::Render);
    assert_eq!(p.on_rendered(true), Command::Read);
    // Released: a falling edge changes nothing.
    assert_eq!(p.on_read(ReadOutcome::Bytes(FRAME_SIZE)), Command::Render);
    assert_eq!(p.on_rendered(false), Command::Read);
    assert_eq!(p.index(), 2);
}

#[test]
fn empty_playlist_idles() {
    let list = Playlist::build(standard_filter(), vec![entry("_A", "RAW", FRAME_SIZE as u32), entry("B", "TXT", 9)]);
    let (p, cmd) = Player::start(&list, &preferred_prefix(), FRAME_SIZE, false);
    assert_eq!(cmd, Command::Idle(PlaybackError::EmptyPlaylist));
    assert_eq!(p.phase(), Phase::Idle);
}

#[test]
fn open_failure_idles() {
    let list = playlist_of(&["A"]);
    let (mut p, cmd) = Player::start(&list, &preferred_prefix(), FRAME_SIZE, false);
    assert_eq!(cmd, Command::Open(0));
    assert_eq!(p.on_open(false), Command::Idle(PlaybackError::FileOpen));
    assert_eq!(p.phase(), Phase::Idle);
}
