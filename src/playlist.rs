use vstd::prelude::*;

verus! {

/// One entry of a directory listing, as the filesystem reports it: the two
/// halves of its 8.3 short name, whether it is a directory, and its size.
pub struct DirEntry {
    pub base_name: Vec<u8>,
    pub extension: Vec<u8>,
    pub is_directory: bool,
    pub size_bytes: u32,
}

/// A playable file of the playlist.
pub struct MediaEntry {
    pub base_name: Vec<u8>,
    pub extension: Vec<u8>,
    pub size_bytes: u32,
}

/// What decides whether a directory entry is playable.
pub struct MediaFilter {
    /// The media extension, compared byte for byte as stored.
    pub extension: Vec<u8>,
    /// A base name that starts with this byte marks a hidden entry.
    pub hidden_marker: u8,
    /// Size of one whole frame; smaller files hold no frame.
    pub frame_size: usize,
}

pub struct EntryModel {
    pub base_name: Seq<u8>,
    pub extension: Seq<u8>,
    pub is_directory: bool,
    pub size_bytes: nat,
}

pub struct MediaModel {
    pub base_name: Seq<u8>,
    pub extension: Seq<u8>,
    pub size_bytes: nat,
}

pub struct FilterModel {
    pub extension: Seq<u8>,
    pub hidden_marker: u8,
    pub frame_size: nat,
}

impl View for DirEntry {
    type V = EntryModel;

    open spec fn view(&self) -> EntryModel {
        EntryModel {
            base_name: self.base_name@,
            extension: self.extension@,
            is_directory: self.is_directory,
            size_bytes: self.size_bytes as nat,
        }
    }
}

impl View for MediaEntry {
    type V = MediaModel;

    open spec fn view(&self) -> MediaModel {
        MediaModel {
            base_name: self.base_name@,
            extension: self.extension@,
            size_bytes: self.size_bytes as nat,
        }
    }
}

impl View for MediaFilter {
    type V = FilterModel;

    open spec fn view(&self) -> FilterModel {
        FilterModel {
            extension: self.extension@,
            hidden_marker: self.hidden_marker,
            frame_size: self.frame_size as nat,
        }
    }
}

/// How the scan treats one directory entry.
#[derive(Clone, Copy, Debug, PartialEq, Eq, Structural)]
pub enum EntryVerdict {
    /// Playable: it joins the playlist.
    Accepted,
    /// A directory, or another extension: passed over silently.
    NotMedia,
    /// A media file whose base name starts with the hidden marker.
    Hidden,
    /// A media file smaller than one frame.
    TooSmall,
}

pub open spec fn is_prefix(prefix: Seq<u8>, s: Seq<u8>) -> bool {
    prefix.len() <= s.len() && s.subrange(0, prefix.len() as int) == prefix
}

pub open spec fn verdict_of(f: FilterModel, e: EntryModel) -> EntryVerdict {
    if e.is_directory || e.extension != f.extension {
        EntryVerdict::NotMedia
    } else if is_prefix(seq![f.hidden_marker], e.base_name) {
        EntryVerdict::Hidden
    } else if e.size_bytes < f.frame_size {
        EntryVerdict::TooSmall
    } else {
        EntryVerdict::Accepted
    }
}

/// An entry is playable iff it is a file with the media extension, its base
/// name does not start with the hidden marker, and it holds a whole frame.
pub open spec fn qualifies(f: FilterModel, e: EntryModel) -> bool {
    &&& !e.is_directory
    &&& e.extension == f.extension
    &&& !is_prefix(seq![f.hidden_marker], e.base_name)
    &&& e.size_bytes >= f.frame_size
}

pub open spec fn media_of(e: EntryModel) -> MediaModel {
    MediaModel { base_name: e.base_name, extension: e.extension, size_bytes: e.size_bytes }
}

/// The playlist that a scan of `entries`, in this order, builds.
pub open spec fn playlist_of(f: FilterModel, entries: Seq<EntryModel>) -> Seq<MediaModel>
    decreases entries.len(),
{
    if entries.len() == 0 {
        Seq::empty()
    } else {
        let rest = playlist_of(f, entries.drop_last());
        if qualifies(f, entries.last()) {
            rest.push(media_of(entries.last()))
        } else {
            rest
        }
    }
}

pub open spec fn models(list: Seq<MediaEntry>) -> Seq<MediaModel> {
    list.map_values(|m: MediaEntry| m@)
}

pub open spec fn entry_models(list: Seq<DirEntry>) -> Seq<EntryModel> {
    list.map_values(|e: DirEntry| e@)
}

/// Whether `prefix` opens `s`.
pub fn starts_with(s: &[u8], prefix: &[u8]) -> (r: bool)
    ensures
        r == is_prefix(prefix@, s@),
{
    if prefix.len() > s.len() {
        return false;
    }
    let mut i: usize = 0;
    while i < prefix.len()
        invariant
            prefix.len() <= s.len(),
            i <= prefix.len(),
            forall|j: int| 0 <= j < i ==> s@[j] == prefix@[j],
        decreases prefix.len() - i,
    {
        if s[i] != prefix[i] {
            assert(s@.subrange(0, prefix.len() as int)[i as int] != prefix@[i as int]);
            return false;
        }
        i = i + 1;
    }
    assert(s@.subrange(0, prefix.len() as int) =~= prefix@);
    true
}

/// Whether two byte strings are equal.
pub fn bytes_equal(a: &[u8], b: &[u8]) -> (r: bool)
    ensures
        r == (a@ == b@),
{
    if a.len() != b.len() {
        return false;
    }
    let r = starts_with(a, b);
    assert(a@.subrange(0, b@.len() as int) =~= a@);
    r
}

impl MediaFilter {
    pub fn new(extension: Vec<u8>, hidden_marker: u8, frame_size: usize) -> (r: MediaFilter)
        ensures
            r.extension@ == extension@,
            r.hidden_marker == hidden_marker,
            r.frame_size == frame_size,
    {
        MediaFilter { extension, hidden_marker, frame_size }
    }

    /// Sorts one directory entry into its verdict.
    pub fn classify(&self, e: &DirEntry) -> (r: EntryVerdict)
        ensures
            r == verdict_of(self@, e@),
            (r == EntryVerdict::Accepted) == qualifies(self@, e@),
    {
        if e.is_directory || !bytes_equal(e.extension.as_slice(), self.extension.as_slice()) {
            return EntryVerdict::NotMedia;
        }
        let marker = [self.hidden_marker];
        let hidden = starts_with(e.base_name.as_slice(), &marker);
        proof {
            assert(marker@ =~= seq![self.hidden_marker]);
        }
        if hidden {
            EntryVerdict::Hidden
        } else if (e.size_bytes as usize) < self.frame_size {
            EntryVerdict::TooSmall
        } else {
            EntryVerdict::Accepted
        }
    }
}

/// The ordered list of playable files, in the order the scan met them.
pub struct Playlist {
    filter: MediaFilter,
    entries: Vec<MediaEntry>,
}

impl View for Playlist {
    type V = Seq<MediaModel>;

    closed spec fn view(&self) -> Seq<MediaModel> {
        models(self.entries@)
    }
}

/// Whether `index` is where playback starts on `list`: the first entry whose
/// base name starts with `preferred`, or 0 where none does.
pub open spec fn is_initial_index(list: Seq<MediaModel>, preferred: Seq<u8>, index: nat) -> bool {
    if exists|i: int| 0 <= i < list.len() && is_prefix(preferred, #[trigger] list[i].base_name) {
        &&& index < list.len()
        &&& is_prefix(preferred, list[index as int].base_name)
        &&& forall|j: int| 0 <= j < index ==> !is_prefix(preferred, #[trigger] list[j].base_name)
    } else {
        index == 0
    }
}

impl Playlist {
    pub closed spec fn filter_model(&self) -> FilterModel {
        self.filter@
    }

    /// An empty playlist that will take the entries `filter` accepts.
    pub fn new(filter: MediaFilter) -> (r: Playlist)
        ensures
            r@ == Seq::<MediaModel>::empty(),
            r.filter_model() == filter@,
    {
        Playlist { filter, entries: Vec::new() }
    }

    /// Offers the next entry of the directory scan; a playable one is
    /// appended, any other is left out. Returns the verdict, so that the
    /// caller can report a skipped entry.
    pub fn offer(&mut self, e: DirEntry) -> (r: EntryVerdict)
        ensures
            r == verdict_of(old(self).filter_model(), e@),
            final(self).filter_model() == old(self).filter_model(),
            qualifies(old(self).filter_model(), e@) ==> final(self)@ == old(self)@.push(media_of(e@)),
            !qualifies(old(self).filter_model(), e@) ==> final(self)@ == old(self)@,
    {
        let r = self.filter.classify(&e);
        if r == EntryVerdict::Accepted {
            let m = MediaEntry { base_name: e.base_name, extension: e.extension, size_bytes: e.size_bytes };
            self.entries.push(m);
            proof {
                assert(models(self.entries@) =~= models(old(self).entries@).push(media_of(e@)));
            }
        }
        r
    }

    /// Scans a whole directory listing, in its order.
    pub fn build(filter: MediaFilter, entries: Vec<DirEntry>) -> (r: Playlist)
        ensures
            r@ == playlist_of(filter@, entry_models(entries@)),
            r.filter_model() == filter@,
    {
        let ghost all = entry_models(entries@);
        let ghost f = filter@;
        let mut list = Playlist::new(filter);
        let mut rest = entries;
        let ghost done: nat = 0;
        while rest.len() > 0
            invariant
                done <= all.len(),
                entry_models(rest@) == all.skip(done as int),
                list@ == playlist_of(f, all.take(done as int)),
                list.filter_model() == f,
            decreases rest.len(),
        {
            let ghost before = rest@;
            let e = rest.remove(0);
            proof {
                assert(entry_models(before).len() == before.len());
                assert(entry_models(before)[0] == all.skip(done as int)[0]);
                assert(e@ == all[done as int]);
                assert(entry_models(rest@) =~= all.skip(done + 1 as int)) by {
                    assert forall|k: int| 0 <= k < rest@.len() implies entry_models(rest@)[k] == all.skip(done + 1 as int)[k] by {
                        assert(rest@[k] == before[k + 1]);
                        assert(entry_models(before)[k + 1] == all.skip(done as int)[k + 1]);
                    }
                }
                assert(all.take(done + 1 as int).drop_last() =~= all.take(done as int));
            }
            list.offer(e);
            proof {
                done = done + 1;
            }
        }
        proof {
            assert(all.take(done as int) =~= all);
        }
        list
    }

    pub fn len(&self) -> (r: usize)
        ensures
            r == self@.len(),
    {
        self.entries.len()
    }

    pub fn is_empty(&self) -> (r: bool)
        ensures
            r == (self@.len() == 0),
    {
        self.entries.len() == 0
    }

    /// The entry at `index`.
    pub fn entry(&self, index: usize) -> (r: &MediaEntry)
        requires
            index < self@.len(),
        ensures
            r@ == self@[index as int],
    {
        &self.entries[index]
    }

    /// Where playback starts: the first entry whose base name starts with
    /// `preferred`, else the first entry.
    pub fn initial_index(&self, preferred: &[u8]) -> (r: usize)
        ensures
            is_initial_index(self@, preferred@, r as nat),
    {
        let mut i: usize = 0;
        while i < self.entries.len()
            invariant
                i <= self@.len(),
                self@.len() == self.entries@.len(),
                forall|j: int| 0 <= j < i ==> !is_prefix(preferred@, #[trigger] self@[j].base_name),
            decreases self.entries.len() - i,
        {
            assert(self@[i as int] == self.entries@[i as int]@);
            if starts_with(self.entries[i].base_name.as_slice(), preferred) {
                return i;
            }
            i = i + 1;
        }
        assert(!exists|k: int| 0 <= k < self@.len() && is_prefix(preferred@, #[trigger] self@[k].base_name));
        0
    }
}

/// Filter correctness: an entry reaches the playlist iff it is a file with
/// the media extension, its base name does not start with the hidden marker,
/// and it holds at least one frame; the playlist keeps the scan's order.
pub proof fn lemma_playlist_membership(f: FilterModel, entries: Seq<EntryModel>, m: MediaModel)
    ensures
        playlist_of(f, entries) == entries.filter(|e: EntryModel| qualifies(f, e)).map_values(
            |e: EntryModel| media_of(e),
        ),
        playlist_of(f, entries).contains(m) <==> exists|i: int|
            0 <= i < entries.len() && qualifies(f, #[trigger] entries[i]) && media_of(entries[i]) == m,
    decreases entries.len(),
{
    let keep = |e: EntryModel| qualifies(f, e);
    let conv = |e: EntryModel| media_of(e);
    if entries.len() == 0 {
        assert(entries.filter(keep) =~= Seq::<EntryModel>::empty());
        assert(entries.filter(keep).map_values(conv) =~= Seq::<MediaModel>::empty());
    } else {
        let init = entries.drop_last();
        let x = entries.last();
        lemma_playlist_membership(f, init, m);
        reveal(Seq::filter);
        assert(entries.filter(keep) == if keep(x) { init.filter(keep).push(x) } else { init.filter(keep) });
        assert(playlist_of(f, entries) =~= entries.filter(keep).map_values(conv));
        if playlist_of(f, entries).contains(m) {
            let k = choose|k: int| 0 <= k < playlist_of(f, entries).len() && playlist_of(f, entries)[k] == m;
            if k < playlist_of(f, init).len() {
                assert(playlist_of(f, init)[k] == m);
                let i = choose|i: int| 0 <= i < init.len() && qualifies(f, #[trigger] init[i]) && media_of(init[i]) == m;
                assert(entries[i] == init[i]);
            } else {
                assert(qualifies(f, entries[entries.len() - 1]));
            }
        }
        if exists|i: int| 0 <= i < entries.len() && qualifies(f, #[trigger] entries[i]) && media_of(entries[i]) == m {
            let i = choose|i: int| 0 <= i < entries.len() && qualifies(f, #[trigger] entries[i]) && media_of(entries[i]) == m;
            if i < init.len() {
                assert(init[i] == entries[i]);
                assert(playlist_of(f, init).contains(m));
                let k = choose|k: int| 0 <= k < playlist_of(f, init).len() && playlist_of(f, init)[k] == m;
                assert(playlist_of(f, entries)[k] == m);
            } else {
                assert(playlist_of(f, entries).last() == m);
            }
        }
    }
}

} // verus!
