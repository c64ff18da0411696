//! The catalog: a flat list of library entries forming a tree through
//! `parent_id` references.  A lookup by id resolves a container entry with
//! its direct children, in the catalog's insertion order.

use vstd::prelude::*;

use crate::entry::{
    entries_wf, entry_seq_view, entry_view, entry_wf, folder_view, is_container, opt_entry_view,
    spotify_view, EntryView, LibraryEntry, Variant,
};

verus! {

/// The library data source: entries are looked up by id, and a container's
/// direct children are the entries whose `parent_id` names it.
pub struct Catalog {
    pub entries: Vec<LibraryEntry>,
}

impl View for Catalog {
    type V = Seq<EntryView>;

    open spec fn view(&self) -> Seq<EntryView> {
        entry_seq_view(self.entries@)
    }
}

/// The first entry with the given id, if any.
pub open spec fn spec_find(s: Seq<EntryView>, id: int) -> Option<EntryView>
    decreases s.len(),
{
    if s.len() == 0 {
        None
    } else if s[0].id == id {
        Some(s[0])
    } else {
        spec_find(s.subrange(1, s.len() as int), id)
    }
}

/// The direct children of the entry with the given id, in catalog order.
pub open spec fn spec_children(s: Seq<EntryView>, id: int) -> Seq<EntryView>
    decreases s.len(),
{
    if s.len() == 0 {
        Seq::empty()
    } else {
        let pre = spec_children(s.subrange(0, s.len() - 1), id);
        if s[s.len() - 1].parent_id == Some(id) {
            pre.push(s[s.len() - 1])
        } else {
            pre
        }
    }
}

/// What a successful lookup returns: the found entry, with its children
/// attached when it is a container.
pub open spec fn spec_resolve(s: Seq<EntryView>, e: EntryView) -> EntryView {
    if is_container(e.variant) {
        EntryView { children: Some(spec_children(s, e.id)), ..e }
    } else {
        e
    }
}

/// The result of a catalog lookup by id.
pub open spec fn spec_lookup(s: Seq<EntryView>, id: int) -> Option<EntryView> {
    match spec_find(s, id) {
        Some(e) => Some(spec_resolve(s, e)),
        None => None,
    }
}

proof fn lemma_spec_find_is_member(s: Seq<EntryView>, id: int)
    ensures
        spec_find(s, id) matches Some(e) ==> s.contains(e),
    decreases s.len(),
{
    if s.len() > 0 && s[0].id != id {
        lemma_spec_find_is_member(s.subrange(1, s.len() as int), id);
        if spec_find(s, id) is Some {
            let e = spec_find(s, id)->0;
            let t = s.subrange(1, s.len() as int);
            let i = choose|i: int| 0 <= i < t.len() && t[i] == e;
            assert(s[i + 1] == e);
        }
    } else if s.len() > 0 {
        assert(s[0] == spec_find(s, id)->0);
    }
}

proof fn lemma_spec_children_members(s: Seq<EntryView>, id: int)
    ensures
        forall|j: int| 0 <= j < spec_children(s, id).len() ==> s.contains(#[trigger] spec_children(s, id)[j]),
    decreases s.len(),
{
    if s.len() > 0 {
        let pre = s.subrange(0, s.len() - 1);
        lemma_spec_children_members(pre, id);
        assert forall|j: int| 0 <= j < spec_children(s, id).len() implies s.contains(
            #[trigger] spec_children(s, id)[j],
        ) by {
            if j < spec_children(pre, id).len() {
                let i = choose|i: int| 0 <= i < pre.len() && pre[i] == spec_children(pre, id)[j];
                assert(s[i] == spec_children(s, id)[j]);
            } else {
                assert(s[s.len() - 1] == spec_children(s, id)[j]);
            }
        }
    }
}

/// Every entry a well-formed catalog hands out is itself well-formed, and a
/// container comes with its children list attached.
pub proof fn lemma_spec_lookup_wf(s: Seq<EntryView>, id: int)
    requires
        entries_wf(s),
    ensures
        spec_lookup(s, id) matches Some(e) ==> entry_wf(e),
        spec_lookup(s, id) matches Some(e) ==> (is_container(e.variant) ==> e.children is Some),
{
    crate::entry::lemma_entries_wf_index(s);
    if spec_find(s, id) is Some {
        let f = spec_find(s, id)->0;
        lemma_spec_find_is_member(s, id);
        assert(entry_wf(f));
        assert(s.contains(f));
        if is_container(f.variant) {
            let kids = spec_children(s, f.id);
            lemma_spec_children_members(s, f.id);
            lemma_entries_wf_of_members(s, kids);
        }
    }
}

proof fn lemma_entries_wf_of_members(s: Seq<EntryView>, kids: Seq<EntryView>)
    requires
        forall|i: int| 0 <= i < s.len() ==> entry_wf(s[i]),
        forall|j: int| 0 <= j < kids.len() ==> s.contains(#[trigger] kids[j]),
    ensures
        entries_wf(kids),
    decreases kids.len(),
{
    if kids.len() > 0 {
        let pre = kids.subrange(0, kids.len() - 1);
        assert forall|j: int| 0 <= j < pre.len() implies s.contains(#[trigger] pre[j]) by {
            assert(kids[j] == pre[j]);
        }
        lemma_entries_wf_of_members(s, pre);
        let last = kids[kids.len() - 1];
        let i = choose|i: int| 0 <= i < s.len() && s[i] == last;
        assert(entry_wf(last));
    }
}

impl Catalog {
    /// A catalog over the given flat entry list.
    pub fn new(entries: Vec<LibraryEntry>) -> (c: Self)
        ensures
            c@ == entry_seq_view(entries@),
    {
        Catalog { entries }
    }

    /// Looks up an entry by id.  A container entry is returned with its
    /// direct children attached, in catalog order; a playable entry is
    /// returned as stored; an unknown id yields `None`.
    pub fn lookup(&self, id: i32) -> (r: Option<LibraryEntry>)
        ensures
            opt_entry_view(r) == spec_lookup(self@, id as int),
    {
        proof {
            crate::entry::lemma_entry_seq_view_props(self.entries@);
        }
        let n = self.entries.len();
        proof {
            assert(self@.subrange(0, n as int) =~= self@);
        }
        let mut i: usize = 0;
        while i < n
            invariant
                n == self.entries.len(),
                i <= n,
                spec_find(self@, id as int) == spec_find(self@.subrange(i as int, n as int), id as int),
                forall|k: int| 0 <= k < self.entries@.len() ==> entry_seq_view(self.entries@)[k] == entry_view(self.entries@[k]),
                entry_seq_view(self.entries@).len() == self.entries@.len(),
            decreases n - i,
        {
            if self.entries[i].id == id {
                proof {
                    let rest = self@.subrange(i as int, n as int);
                    assert(rest[0] == self@[i as int]);
                }
                let found = self.entries[i].clone();
                return Some(self.resolve(found));
            }
            proof {
                let rest = self@.subrange(i as int, n as int);
                assert(rest[0] == self@[i as int]);
                assert(rest.subrange(1, rest.len() as int) =~= self@.subrange(i + 1 as int, n as int));
            }
            i += 1;
        }
        proof {
            assert(self@.subrange(n as int, n as int).len() == 0);
        }
        None
    }

    /// Attaches the direct children to a found container entry.
    fn resolve(&self, found: LibraryEntry) -> (r: LibraryEntry)
        ensures
            r@ == spec_resolve(self@, found@),
    {
        proof {
            crate::entry::lemma_entry_seq_view_props(self.entries@);
        }
        let is_folder = match found.variant {
            Variant::Folder => true,
            _ => false,
        };
        if !is_folder {
            return found;
        }
        let id = found.id;
        let n = self.entries.len();
        let mut kids: Vec<LibraryEntry> = Vec::new();
        let mut i: usize = 0;
        while i < n
            invariant
                n == self.entries.len(),
                i <= n,
                entry_seq_view(kids@) == spec_children(self@.subrange(0, i as int), id as int),
                forall|k: int| 0 <= k < self.entries@.len() ==> entry_seq_view(self.entries@)[k] == entry_view(self.entries@[k]),
                entry_seq_view(self.entries@).len() == self.entries@.len(),
            decreases n - i,
        {
            let matches_parent = match self.entries[i].parent_id {
                Some(p) => p == id,
                None => false,
            };
            proof {
                let pre = self@.subrange(0, i as int);
                let cur = self@.subrange(0, i + 1 as int);
                assert(cur.subrange(0, cur.len() - 1) =~= pre);
                assert(cur[cur.len() - 1] == self@[i as int]);
            }
            if matches_parent {
                let child = self.entries[i].clone();
                proof {
                    crate::entry::lemma_entry_seq_view_push(kids@, child);
                }
                kids.push(child);
            }
            i += 1;
        }
        proof {
            assert(self@.subrange(0, n as int) =~= self@);
        }
        let mut resolved = found;
        resolved.children = Some(kids);
        resolved
    }
}

/// The models of the entries of the built-in sample catalog, in insertion
/// order.
pub open spec fn demo_entries() -> Seq<EntryView> {
    seq![
        folder_view(0, "Root"@, Some(-1int), None, 0),
        folder_view(1, "Hoerspiele"@, Some(0int), None, 0),
        folder_view(2, "Radio"@, Some(0int), None, 1),
        folder_view(3, "Musik"@, Some(0int), None, 2),
        folder_view(13, "Hoerspiele"@, Some(0int), None, 0),
        folder_view(14, "Radio"@, Some(0int), None, 1),
        folder_view(15, "Musik"@, Some(0int), None, 2),
        folder_view(16, "Hoerspiele"@, Some(0int), None, 0),
        folder_view(17, "Radio"@, Some(0int), None, 1),
        folder_view(18, "Musik"@, Some(0int), None, 2),
        folder_view(4, "Aquaparty"@, Some(3int), None, 0),
        folder_view(5, "Boomschakalaka"@, Some(1int), None, 0),
        folder_view(6, "Kitahits"@, Some(3int), None, 1),
        spotify_view(7, "Spotify Track 1"@, Some(4int), 0),
        spotify_view(8, "Spotify Track 2"@, Some(4int), 1),
        spotify_view(9, "Spotify Track 3"@, Some(4int), 2),
        spotify_view(10, "Spotify Track 4"@, Some(6int), 0),
        spotify_view(11, "Spotify Track 5"@, Some(6int), 1),
        spotify_view(12, "Spotify Track 6"@, Some(6int), 2),
    ]
}

/// The built-in sample catalog.  Images are not embedded here; a caller may
/// attach image blobs to its own catalog instead.
pub fn demo_catalog() -> (c: Catalog)
    ensures
        c@ == demo_entries(),
        entries_wf(c@),
{
    let mut v: Vec<LibraryEntry> = Vec::new();
    push_demo(&mut v, LibraryEntry::new_folder(0, "Root", Some(-1), None, 0));
    push_demo(&mut v, LibraryEntry::new_folder(1, "Hoerspiele", Some(0), None, 0));
    push_demo(&mut v, LibraryEntry::new_folder(2, "Radio", Some(0), None, 1));
    push_demo(&mut v, LibraryEntry::new_folder(3, "Musik", Some(0), None, 2));
    push_demo(&mut v, LibraryEntry::new_folder(13, "Hoerspiele", Some(0), None, 0));
    push_demo(&mut v, LibraryEntry::new_folder(14, "Radio", Some(0), None, 1));
    push_demo(&mut v, LibraryEntry::new_folder(15, "Musik", Some(0), None, 2));
    push_demo(&mut v, LibraryEntry::new_folder(16, "Hoerspiele", Some(0), None, 0));
    push_demo(&mut v, LibraryEntry::new_folder(17, "Radio", Some(0), None, 1));
    push_demo(&mut v, LibraryEntry::new_folder(18, "Musik", Some(0), None, 2));
    push_demo(&mut v, LibraryEntry::new_folder(4, "Aquaparty", Some(3), None, 0));
    push_demo(&mut v, LibraryEntry::new_folder(5, "Boomschakalaka", Some(1), None, 0));
    push_demo(&mut v, LibraryEntry::new_folder(6, "Kitahits", Some(3), None, 1));
    push_demo(&mut v, LibraryEntry::new_spotify(7, "Spotify Track 1", Some(4), 0));
    push_demo(&mut v, LibraryEntry::new_spotify(8, "Spotify Track 2", Some(4), 1));
    push_demo(&mut v, LibraryEntry::new_spotify(9, "Spotify Track 3", Some(4), 2));
    push_demo(&mut v, LibraryEntry::new_spotify(10, "Spotify Track 4", Some(6), 0));
    push_demo(&mut v, LibraryEntry::new_spotify(11, "Spotify Track 5", Some(6), 1));
    push_demo(&mut v, LibraryEntry::new_spotify(12, "Spotify Track 6", Some(6), 2));
    proof {
        assert(entry_seq_view(v@) =~= demo_entries());
        lemma_demo_entries_wf();
    }
    Catalog { entries: v }
}

fn push_demo(v: &mut Vec<LibraryEntry>, e: LibraryEntry)
    ensures
        final(v)@ == old(v)@.push(e),
        entry_seq_view(final(v)@) == entry_seq_view(old(v)@).push(e@),
{
    proof {
        crate::entry::lemma_entry_seq_view_push(v@, e);
    }
    v.push(e);
}

proof fn lemma_demo_entries_wf()
    ensures
        entries_wf(demo_entries()),
{
    let s = demo_entries();
    assert forall|i: int| 0 <= i < s.len() implies entry_wf(s[i]) by {
        assert(entries_wf(Seq::<EntryView>::empty()));
    }
    lemma_entries_wf_from_index(s);
}

proof fn lemma_entries_wf_from_index(s: Seq<EntryView>)
    requires
        forall|i: int| 0 <= i < s.len() ==> entry_wf(s[i]),
    ensures
        entries_wf(s),
    decreases s.len(),
{
    if s.len() > 0 {
        let pre = s.subrange(0, s.len() - 1);
        lemma_entries_wf_from_index(pre);
    }
}

/// Looks up an entry of the built-in sample catalog.
pub fn get_library_entry(id: i32) -> (r: Option<LibraryEntry>)
    ensures
        opt_entry_view(r) == spec_lookup(demo_entries(), id as int),
{
    let catalog = demo_catalog();
    catalog.lookup(id)
}

} // verus!
