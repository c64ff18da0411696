//! The shared data model: library entries, their variants and track sources,
//! and the playback progress value.

use vstd::prelude::*;

verus! {

broadcast use vstd::std_specs::vec::axiom_vec_index_decreases;

/// The kind of a library entry.  `Folder` entries are containers whose
/// children are listed by the catalog; the other variants are playable
/// leaves carrying a track source.
#[derive(Clone, Copy, Debug, PartialEq, Eq, Structural)]
pub enum Variant {
    Folder,
    Stream,
    File,
    Spotify,
}

/// Playback position and total duration, both in milliseconds.
#[derive(Clone, Copy, Debug, PartialEq, Eq, Structural)]
pub struct Progress {
    pub position: u64,
    pub duration: u64,
}

impl Default for Progress {
    /// A fresh progress value: position zero over the default track length.
    fn default() -> (r: Self)
        ensures
            r.position == 0,
            r.duration == 100_000,
    {
        Progress { position: 0, duration: 100_000 }
    }
}

pub open spec fn is_container(v: Variant) -> bool {
    v is Folder
}

pub open spec fn is_playable(v: Variant) -> bool {
    !(v is Folder)
}

/// The playback locator of a playable entry: a stream URL, an embedded file
/// blob, or a remote-service identifier pair.
#[derive(Debug)]
pub struct TrackSource {
    pub id: i32,
    pub library_entry_id: Option<i32>,
    pub title: String,
    pub url: Option<String>,
    pub file: Option<Vec<u8>>,
    pub spotify_id: Option<String>,
    pub spotify_type: Option<String>,
}

/// Mathematical model of a [`TrackSource`].
#[verifier::ext_equal]
pub struct TrackSourceView {
    pub id: int,
    pub library_entry_id: Option<int>,
    pub title: Seq<char>,
    pub url: Option<Seq<char>>,
    pub file: Option<Seq<u8>>,
    pub spotify_id: Option<Seq<char>>,
    pub spotify_type: Option<Seq<char>>,
}

pub open spec fn opt_string_view(s: Option<String>) -> Option<Seq<char>> {
    match s {
        Some(x) => Some(x@),
        None => None,
    }
}

pub open spec fn opt_bytes_view(b: Option<Vec<u8>>) -> Option<Seq<u8>> {
    match b {
        Some(x) => Some(x@),
        None => None,
    }
}

impl View for TrackSource {
    type V = TrackSourceView;

    open spec fn view(&self) -> TrackSourceView {
        TrackSourceView {
            id: self.id as int,
            library_entry_id: match self.library_entry_id {
                Some(i) => Some(i as int),
                None => None,
            },
            title: self.title@,
            url: opt_string_view(self.url),
            file: opt_bytes_view(self.file),
            spotify_id: opt_string_view(self.spotify_id),
            spotify_type: opt_string_view(self.spotify_type),
        }
    }
}

/// One entry of the hierarchical library.  A resolved container entry
/// carries its direct children; a playable entry carries a track source.
#[derive(Debug)]
pub struct LibraryEntry {
    pub id: i32,
    pub parent_id: Option<i32>,
    pub variant: Variant,
    pub name: String,
    pub image: Option<Vec<u8>>,
    /// Seconds since the Unix epoch of the last playback, if any.
    pub played_at: Option<i64>,
    pub sort_key: i32,
    /// Direct children, present only when the entry was resolved as a
    /// container by a catalog lookup.
    pub children: Option<Vec<LibraryEntry>>,
    pub track_source: Option<TrackSource>,
}

/// Mathematical model of a [`LibraryEntry`].
#[verifier::ext_equal]
pub struct EntryView {
    pub id: int,
    pub parent_id: Option<int>,
    pub variant: Variant,
    pub name: Seq<char>,
    pub image: Option<Seq<u8>>,
    pub played_at: Option<int>,
    pub sort_key: int,
    pub children: Option<Seq<EntryView>>,
    pub track_source: Option<TrackSourceView>,
}

/// Model of one library entry.
pub open spec fn entry_view(e: LibraryEntry) -> EntryView
    decreases e,
{
    EntryView {
        id: e.id as int,
        parent_id: match e.parent_id {
            Some(i) => Some(i as int),
            None => None,
        },
        variant: e.variant,
        name: e.name@,
        image: opt_bytes_view(e.image),
        played_at: match e.played_at {
            Some(t) => Some(t as int),
            None => None,
        },
        sort_key: e.sort_key as int,
        children: if e.children is Some {
            Some(entry_seq_view((e.children->0)@))
        } else {
            None
        },
        track_source: match e.track_source {
            Some(t) => Some(t@),
            None => None,
        },
    }
}

/// Model of a sequence of library entries, element by element.
pub open spec fn entry_seq_view(s: Seq<LibraryEntry>) -> Seq<EntryView>
    decreases s,
{
    if s.len() == 0 {
        Seq::empty()
    } else {
        entry_seq_view(s.subrange(0, s.len() - 1)).push(entry_view(s[s.len() - 1]))
    }
}

impl View for LibraryEntry {
    type V = EntryView;

    open spec fn view(&self) -> EntryView {
        entry_view(*self)
    }
}

pub open spec fn opt_i32_view(x: Option<i32>) -> Option<int> {
    match x {
        Some(i) => Some(i as int),
        None => None,
    }
}

pub open spec fn opt_entry_view(e: Option<LibraryEntry>) -> Option<EntryView> {
    match e {
        Some(x) => Some(x@),
        None => None,
    }
}

pub proof fn lemma_entry_seq_view_props(s: Seq<LibraryEntry>)
    ensures
        entry_seq_view(s).len() == s.len(),
        forall|i: int| 0 <= i < s.len() ==> entry_seq_view(s)[i] == entry_view(s[i]),
    decreases s.len(),
{
    if s.len() > 0 {
        lemma_entry_seq_view_props(s.subrange(0, s.len() - 1));
    }
}

pub proof fn lemma_entry_seq_view_push(s: Seq<LibraryEntry>, e: LibraryEntry)
    ensures
        entry_seq_view(s.push(e)) == entry_seq_view(s).push(entry_view(e)),
{
    let p = s.push(e);
    assert(p.subrange(0, p.len() - 1) =~= s);
    assert(p[p.len() - 1] == e);
}

/// Well-formedness of an entry: a container carries (possibly empty) children
/// and no track source; a playable entry carries a track source and no
/// children list; and every listed child is itself well-formed.
pub open spec fn entry_wf(v: EntryView) -> bool
    decreases v,
{
    &&& (is_container(v.variant) ==> v.children is Some && v.track_source is None)
    &&& (is_playable(v.variant) ==> v.track_source is Some && v.children is None)
    &&& (v.children is Some ==> entries_wf(v.children->0))
}

pub open spec fn entries_wf(s: Seq<EntryView>) -> bool
    decreases s,
{
    if s.len() == 0 {
        true
    } else {
        entries_wf(s.subrange(0, s.len() - 1)) && entry_wf(s[s.len() - 1])
    }
}

pub proof fn lemma_entries_wf_index(s: Seq<EntryView>)
    requires
        entries_wf(s),
    ensures
        forall|i: int| 0 <= i < s.len() ==> entry_wf(s[i]),
    decreases s.len(),
{
    if s.len() > 0 {
        lemma_entries_wf_index(s.subrange(0, s.len() - 1));
        assert forall|i: int| 0 <= i < s.len() implies entry_wf(s[i]) by {
            if i < s.len() - 1 {
                assert(s.subrange(0, s.len() - 1)[i] == s[i]);
            }
        }
    }
}

/// The model of a folder entry as built by [`LibraryEntry::new_folder`].
pub open spec fn folder_view(
    id: int,
    name: Seq<char>,
    parent_id: Option<int>,
    image: Option<Seq<u8>>,
    sort_key: int,
) -> EntryView {
    EntryView {
        id,
        parent_id,
        variant: Variant::Folder,
        name,
        image,
        played_at: None,
        sort_key,
        children: Some(Seq::empty()),
        track_source: None,
    }
}

/// The model of a remote-service track entry as built by
/// [`LibraryEntry::new_spotify`].
pub open spec fn spotify_view(id: int, name: Seq<char>, parent_id: Option<int>, sort_key: int) -> EntryView {
    EntryView {
        id,
        parent_id,
        variant: Variant::Spotify,
        name,
        image: None,
        played_at: None,
        sort_key,
        children: None,
        track_source: Some(TrackSourceView {
            id: 1,
            library_entry_id: None,
            title: name,
            url: None,
            file: None,
            spotify_id: Some("some_id"@),
            spotify_type: Some("track"@),
        }),
    }
}

impl LibraryEntry {
    /// An unresolved folder entry with an empty children list.
    pub fn new_folder(id: i32, name: &str, parent_id: Option<i32>, image: Option<Vec<u8>>, sort_key: i32) -> (r: Self)
        ensures
            r@ == folder_view(id as int, name@, opt_i32_view(parent_id), opt_bytes_view(image), sort_key as int),
            entry_wf(r@),
    {
        let r = LibraryEntry {
            id,
            parent_id,
            variant: Variant::Folder,
            name: name.to_owned(),
            image,
            played_at: None,
            sort_key,
            children: Some(Vec::new()),
            track_source: None,
        };
        r
    }

    /// A playable entry backed by a remote-service track.
    pub fn new_spotify(id: i32, name: &str, parent_id: Option<i32>, sort_key: i32) -> (r: Self)
        ensures
            r@ == spotify_view(id as int, name@, opt_i32_view(parent_id), sort_key as int),
            entry_wf(r@),
    {
        let title = name.to_owned();
        LibraryEntry {
            id,
            parent_id,
            variant: Variant::Spotify,
            name: name.to_owned(),
            image: None,
            played_at: None,
            sort_key,
            children: None,
            track_source: Some(TrackSource {
                id: 1,
                library_entry_id: None,
                title,
                url: None,
                file: None,
                spotify_id: Some("some_id".to_owned()),
                spotify_type: Some("track".to_owned()),
            }),
        }
    }
}

/// Copies a byte vector; the copy has the same contents.
fn clone_bytes(v: &Vec<u8>) -> (r: Vec<u8>)
    ensures
        r@ == v@,
{
    let r = v.clone();
    proof {
        assert(r@ =~= v@);
    }
    r
}

fn clone_opt_bytes(v: &Option<Vec<u8>>) -> (r: Option<Vec<u8>>)
    ensures
        opt_bytes_view(r) == opt_bytes_view(*v),
{
    match v {
        Some(b) => Some(clone_bytes(b)),
        None => None,
    }
}

fn clone_opt_string(s: &Option<String>) -> (r: Option<String>)
    ensures
        r == *s,
{
    match s {
        Some(x) => Some(x.clone()),
        None => None,
    }
}

impl Clone for TrackSource {
    /// The copy has the same model as the original.
    fn clone(&self) -> (r: Self)
        ensures
            r@ == self@,
    {
        TrackSource {
            id: self.id,
            library_entry_id: self.library_entry_id,
            title: self.title.clone(),
            url: clone_opt_string(&self.url),
            file: clone_opt_bytes(&self.file),
            spotify_id: clone_opt_string(&self.spotify_id),
            spotify_type: clone_opt_string(&self.spotify_type),
        }
    }
}

impl Clone for LibraryEntry {
    /// The copy has the same model as the original, children included.
    fn clone(&self) -> (r: Self)
        ensures
            r@ == self@,
        decreases *self,
    {
        let children: Option<Vec<LibraryEntry>> = match &self.children {
            Some(v) => {
                let mut c: Vec<LibraryEntry> = Vec::new();
                let mut j: usize = 0;
                while j < v.len()
                    invariant
                        j <= v.len(),
                        self.children == Some(*v),
                        entry_seq_view(c@) == entry_seq_view(v@.subrange(0, j as int)),
                    decreases v.len() - j,
                {
                    proof {
                        assert(decreases_to!(self.children->0 => (self.children->0)@[j as int]));
                        assert(decreases_to!(*self => v@[j as int]));
                    }
                    let e = v[j].clone();
                    proof {
                        lemma_entry_seq_view_push(c@, e);
                        lemma_entry_seq_view_push(v@.subrange(0, j as int), v@[j as int]);
                        assert(v@.subrange(0, j as int).push(v@[j as int]) =~= v@.subrange(0, j + 1 as int));
                    }
                    c.push(e);
                    j += 1;
                }
                proof {
                    assert(v@.subrange(0, v@.len() as int) =~= v@);
                }
                Some(c)
            }
            None => None,
        };
        LibraryEntry {
            id: self.id,
            parent_id: self.parent_id,
            variant: self.variant,
            name: self.name.clone(),
            image: clone_opt_bytes(&self.image),
            played_at: self.played_at,
            sort_key: self.sort_key,
            children,
            track_source: match &self.track_source {
                Some(t) => Some(t.clone()),
                None => None,
            },
        }
    }
}

} // verus!
