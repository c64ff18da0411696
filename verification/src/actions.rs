//! Actions dispatched to the store, the sum type of its named state fields,
//! and the change notification broadcast after each processed action.

use vstd::prelude::*;
use vstd::string::StringExecFns;

use crate::entry::{entry_view, EntryView, LibraryEntry, Progress};

verus! {

/// A request to mutate the application state, queued and processed by the
/// store strictly in dispatch order.
#[derive(Debug)]
pub enum Action {
    /// Look an entry up in the catalog and make it the active entry.
    LoadLibraryEntry(i32),
    /// Load an entry into the playback device and start it.
    PlayLibraryEntry(LibraryEntry),
    /// Pause when currently playing, resume otherwise; the payload is the
    /// play state the caller currently observes.
    TogglePlay(bool),
    /// Overwrite the progress field.
    SetProgress(Progress),
}

/// Mathematical model of an [`Action`].
pub enum ActionView {
    LoadLibraryEntry(int),
    PlayLibraryEntry(EntryView),
    TogglePlay(bool),
    SetProgress(Progress),
}

impl View for Action {
    type V = ActionView;

    open spec fn view(&self) -> ActionView {
        match self {
            Action::LoadLibraryEntry(id) => ActionView::LoadLibraryEntry(*id as int),
            Action::PlayLibraryEntry(e) => ActionView::PlayLibraryEntry(entry_view(*e)),
            Action::TogglePlay(b) => ActionView::TogglePlay(*b),
            Action::SetProgress(p) => ActionView::SetProgress(*p),
        }
    }
}

/// One named state slot together with a new value for it; the argument of
/// the store's single field mutator.
#[derive(Debug)]
pub enum Field {
    Messages(Vec<String>),
    ActiveLibraryEntry(Option<LibraryEntry>),
    PlayingLibraryEntry(Option<LibraryEntry>),
    IsPlaying(bool),
    Progress(Progress),
}

/// The identity of a state field, as recorded in a change list.
#[derive(Clone, Copy, Debug, PartialEq, Eq, Structural)]
pub enum FieldName {
    Messages,
    ActiveLibraryEntry,
    PlayingLibraryEntry,
    IsPlaying,
    Progress,
}

/// The field a [`Field`] value writes.
pub open spec fn field_tag(f: Field) -> FieldName {
    match f {
        Field::Messages(_) => FieldName::Messages,
        Field::ActiveLibraryEntry(_) => FieldName::ActiveLibraryEntry,
        Field::PlayingLibraryEntry(_) => FieldName::PlayingLibraryEntry,
        Field::IsPlaying(_) => FieldName::IsPlaying,
        Field::Progress(_) => FieldName::Progress,
    }
}

/// The name of a field, as it appears in a change notification.
pub open spec fn spec_field_name(f: FieldName) -> Seq<char> {
    match f {
        FieldName::Messages => "messages"@,
        FieldName::ActiveLibraryEntry => "active_library_entry"@,
        FieldName::PlayingLibraryEntry => "playing_library_entry"@,
        FieldName::IsPlaying => "is_playing"@,
        FieldName::Progress => "progress"@,
    }
}

impl FieldName {
    /// The field's name as text.
    pub fn name(&self) -> (r: &'static str)
        ensures
            r@ == spec_field_name(*self),
    {
        match self {
            FieldName::Messages => "messages",
            FieldName::ActiveLibraryEntry => "active_library_entry",
            FieldName::PlayingLibraryEntry => "playing_library_entry",
            FieldName::IsPlaying => "is_playing",
            FieldName::Progress => "progress",
        }
    }
}

/// The names of the fields in a change list, in write order.
pub open spec fn spec_change_names(tags: Seq<FieldName>) -> Seq<Seq<char>> {
    Seq::new(tags.len(), |i: int| spec_field_name(tags[i]))
}

/// The set of fields one processed action wrote, in write order, broadcast
/// to every subscriber after the mutation committed.  Each handler writes
/// each field at most once, so the list is deduplicated by construction.
#[derive(Debug)]
pub struct StateChange {
    pub changed_fields: Vec<String>,
}

impl View for StateChange {
    type V = Seq<Seq<char>>;

    open spec fn view(&self) -> Seq<Seq<char>> {
        Seq::new(self.changed_fields@.len(), |i: int| self.changed_fields@[i]@)
    }
}

impl Clone for StateChange {
    /// The copy names the same fields in the same order.
    fn clone(&self) -> (r: Self)
        ensures
            r@ == self@,
    {
        let r = StateChange { changed_fields: self.changed_fields.clone() };
        proof {
            assert(r@ =~= self@);
        }
        r
    }
}

impl StateChange {
    /// A change notification naming the given fields.
    pub fn new(fields: Vec<&str>) -> (r: Self)
        ensures
            r@ == Seq::new(fields@.len(), |i: int| fields@[i]@),
    {
        let mut changed_fields: Vec<String> = Vec::new();
        let n = fields.len();
        let mut i: usize = 0;
        while i < n
            invariant
                i <= n,
                n == fields@.len(),
                changed_fields@.len() == i,
                forall|k: int| 0 <= k < i ==> changed_fields@[k]@ == fields@[k]@,
            decreases n - i,
        {
            changed_fields.push(fields[i].to_owned());
            i += 1;
        }
        let r = StateChange { changed_fields };
        proof {
            assert(r@ =~= Seq::new(fields@.len(), |i: int| fields@[i]@));
        }
        r
    }

    /// A change notification for the given field identities, in order.
    pub fn from_tags(tags: &Vec<FieldName>) -> (r: Self)
        ensures
            r@ == spec_change_names(tags@),
    {
        let mut changed_fields: Vec<String> = Vec::new();
        let n = tags.len();
        let mut i: usize = 0;
        while i < n
            invariant
                i <= n,
                n == tags@.len(),
                changed_fields@.len() == i,
                forall|k: int| 0 <= k < i ==> changed_fields@[k]@ == spec_field_name(tags@[k]),
            decreases n - i,
        {
            changed_fields.push(tags[i].name().to_owned());
            i += 1;
        }
        let r = StateChange { changed_fields };
        proof {
            assert(r@ =~= spec_change_names(tags@));
        }
        r
    }
}

} // verus!
