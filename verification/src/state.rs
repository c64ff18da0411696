//! The state store: the canonical application state behind one boundary,
//! an action queue consumed strictly in FIFO order, and change
//! notifications fanned out to every registered subscriber after each
//! action commits.
//!
//! The store is specified by one transition function, [`spec_step`]: it
//! applies the handler of the queue's head action, removes the action, and
//! appends one [`StateChange`] naming the written fields to every
//! subscriber's inbox.  [`State::process_next`] performs exactly one such
//! step; a driver loop around the library performs the queue consumption
//! and the delivery of the inbox entries to callbacks.

use vstd::prelude::*;
use vstd::string::StringExecFns;

use crate::actions::{
    field_tag, spec_change_names, Action, ActionView, Field, FieldName, StateChange,
};
use crate::catalog::{spec_lookup, Catalog};
use crate::entry::{
    entries_wf, entry_wf, is_playable, opt_entry_view, EntryView, LibraryEntry, Progress,
};
use crate::player::{device_step, spec_error_message, DeviceOp, Player, PlayerError, PlayerView};
use crate::text::{i32_to_string, spec_int_string};

verus! {

/// The named state fields, plus the change list of the action currently
/// being applied.
pub struct InnerState {
    /// The chronological message log, oldest first.
    pub messages: Vec<String>,
    /// The container currently displayed, children resolved.
    pub active_library_entry: Option<LibraryEntry>,
    /// The entry currently loaded into the playback device.
    pub playing_library_entry: Option<LibraryEntry>,
    pub is_playing: bool,
    pub progress: Progress,
    /// The fields written while the current action is applied, in write
    /// order.
    pub changes: Vec<FieldName>,
}

impl InnerState {
    /// Applies one field write and records the written field.
    pub fn set(&mut self, field: Field)
        ensures
            final(self).changes@ == old(self).changes@.push(field_tag(field)),
            final(self).messages == (match field {
                Field::Messages(v) => v,
                _ => old(self).messages,
            }),
            final(self).active_library_entry == (match field {
                Field::ActiveLibraryEntry(v) => v,
                _ => old(self).active_library_entry,
            }),
            final(self).playing_library_entry == (match field {
                Field::PlayingLibraryEntry(v) => v,
                _ => old(self).playing_library_entry,
            }),
            final(self).is_playing == (match field {
                Field::IsPlaying(v) => v,
                _ => old(self).is_playing,
            }),
            final(self).progress == (match field {
                Field::Progress(v) => v,
                _ => old(self).progress,
            }),
    {
        match field {
            Field::Messages(v) => {
                self.messages = v;
                self.changes.push(FieldName::Messages);
            },
            Field::ActiveLibraryEntry(v) => {
                self.active_library_entry = v;
                self.changes.push(FieldName::ActiveLibraryEntry);
            },
            Field::PlayingLibraryEntry(v) => {
                self.playing_library_entry = v;
                self.changes.push(FieldName::PlayingLibraryEntry);
            },
            Field::IsPlaying(v) => {
                self.is_playing = v;
                self.changes.push(FieldName::IsPlaying);
            },
            Field::Progress(v) => {
                self.progress = v;
                self.changes.push(FieldName::Progress);
            },
        }
    }
}

/// One registered subscriber: the change notifications delivered to it so
/// far, in delivery order.
pub struct Subscriber {
    inbox: Vec<StateChange>,
}

/// Model of a sequence of strings, element by element.
pub open spec fn strings_view(s: Seq<String>) -> Seq<Seq<char>> {
    Seq::new(s.len(), |i: int| s[i]@)
}

/// Model of a sequence of actions, element by element.
pub open spec fn action_seq_view(s: Seq<Action>) -> Seq<ActionView> {
    Seq::new(s.len(), |i: int| s[i]@)
}

/// Model of a sequence of change notifications, element by element.
pub open spec fn change_seq_view(s: Seq<StateChange>) -> Seq<Seq<Seq<char>>> {
    Seq::new(s.len(), |i: int| s[i]@)
}

/// Mathematical model of the whole store: the field values, the pending
/// queue, the device, the catalog, and one inbox of delivered notifications
/// per subscriber.
#[verifier::ext_equal]
pub struct StateView {
    pub messages: Seq<Seq<char>>,
    pub active: Option<EntryView>,
    pub playing: Option<EntryView>,
    pub is_playing: bool,
    pub progress: Progress,
    pub changes: Seq<FieldName>,
    pub queue: Seq<ActionView>,
    pub player: PlayerView,
    pub catalog: Seq<EntryView>,
    pub inboxes: Seq<Seq<Seq<Seq<char>>>>,
}

/// The message appended when a catalog lookup misses.
pub open spec fn spec_not_found_message(id: int) -> Seq<char> {
    "Library entry with id "@ + spec_int_string(id) + " not found"@
}

/// The message appended when the device refuses to play an entry.
pub open spec fn spec_play_failed_message(e: PlayerError) -> Seq<char> {
    "Could not play track: "@ + spec_error_message(e)
}

/// The message appended when pausing or resuming fails.
pub open spec fn spec_toggle_failed_message(e: PlayerError) -> Seq<char> {
    "Could not toggle play: "@ + spec_error_message(e)
}

/// Renders the lookup-miss message for an id.
pub fn not_found_message(id: i32) -> (s: String)
    ensures
        s@ == spec_not_found_message(id as int),
{
    let mut s = "Library entry with id ".to_owned();
    let digits = i32_to_string(id);
    s.append(digits.as_str());
    s.append(" not found");
    s
}

fn play_failed_message(e: PlayerError) -> (s: String)
    ensures
        s@ == spec_play_failed_message(e),
{
    let mut s = "Could not play track: ".to_owned();
    let m = e.message();
    s.append(m.as_str());
    s
}

fn toggle_failed_message(e: PlayerError) -> (s: String)
    ensures
        s@ == spec_toggle_failed_message(e),
{
    let mut s = "Could not toggle play: ".to_owned();
    let m = e.message();
    s.append(m.as_str());
    s
}

/// Validity of a store model: the catalog is well-formed, a displayed entry
/// is well-formed, a loaded entry is playable, and no action is mid-flight
/// (its change list is empty).
pub open spec fn state_wf(s: StateView) -> bool {
    &&& entries_wf(s.catalog)
    &&& (s.active matches Some(e) ==> entry_wf(e))
    &&& (s.playing matches Some(e) ==> is_playable(e.variant))
    &&& s.changes == Seq::<FieldName>::empty()
}

/// Handler of `LoadLibraryEntry`: a hit replaces the active entry with the
/// resolved one; a miss appends one message naming the id and leaves the
/// active entry untouched.
pub open spec fn spec_load(s: StateView, id: int) -> StateView {
    match spec_lookup(s.catalog, id) {
        Some(e) => StateView {
            active: Some(e),
            changes: s.changes.push(FieldName::ActiveLibraryEntry),
            ..s
        },
        None => StateView {
            messages: s.messages.push(spec_not_found_message(id)),
            changes: s.changes.push(FieldName::Messages),
            ..s
        },
    }
}

/// Handler of `PlayLibraryEntry`: on device success the entry becomes the
/// loaded entry and playback is on; on failure one message is appended and
/// the fields stay untouched.
pub open spec fn spec_play(s: StateView, e: EntryView) -> StateView {
    let step = device_step(s.player, DeviceOp::Play(e));
    match step.1 {
        Ok(_) => StateView {
            player: step.0,
            playing: Some(e),
            is_playing: true,
            changes: s.changes.push(FieldName::PlayingLibraryEntry).push(FieldName::IsPlaying),
            ..s
        },
        Err(err) => StateView {
            player: step.0,
            messages: s.messages.push(spec_play_failed_message(err)),
            changes: s.changes.push(FieldName::Messages),
            ..s
        },
    }
}

/// Handler of `TogglePlay`: pause when the caller observes playback,
/// resume otherwise.  On success the flag becomes the negation of the
/// input; on failure one message is appended and the flag stays untouched.
pub open spec fn spec_toggle(s: StateView, playing: bool) -> StateView {
    let op = if playing {
        DeviceOp::Pause
    } else {
        DeviceOp::Resume
    };
    let step = device_step(s.player, op);
    match step.1 {
        Ok(_) => StateView {
            player: step.0,
            is_playing: !playing,
            changes: s.changes.push(FieldName::IsPlaying),
            ..s
        },
        Err(err) => StateView {
            player: step.0,
            messages: s.messages.push(spec_toggle_failed_message(err)),
            changes: s.changes.push(FieldName::Messages),
            ..s
        },
    }
}

/// Handler of `SetProgress`: overwrites the progress field.
pub open spec fn spec_set_progress(s: StateView, p: Progress) -> StateView {
    StateView { progress: p, changes: s.changes.push(FieldName::Progress), ..s }
}

/// The handler of one action.
pub open spec fn spec_handle(s: StateView, a: ActionView) -> StateView {
    match a {
        ActionView::LoadLibraryEntry(id) => spec_load(s, id),
        ActionView::PlayLibraryEntry(e) => spec_play(s, e),
        ActionView::TogglePlay(b) => spec_toggle(s, b),
        ActionView::SetProgress(p) => spec_set_progress(s, p),
    }
}

/// One step of the processing loop: the head action is removed from the
/// queue, its handler runs to completion, and one notification naming the
/// written fields, in write order, is appended to every inbox that was
/// registered at that point.
pub open spec fn spec_step(s: StateView) -> StateView
    recommends
        s.queue.len() > 0,
{
    let rest = s.queue.subrange(1, s.queue.len() as int);
    let h = spec_handle(StateView { changes: Seq::empty(), queue: rest, ..s }, s.queue[0]);
    let names = spec_change_names(h.changes);
    StateView {
        changes: Seq::empty(),
        inboxes: Seq::new(h.inboxes.len(), |i: int| h.inboxes[i].push(names)),
        ..h
    }
}

/// The processing loop run to exhaustion: every pending action applied, one
/// at a time, in dispatch order.
pub open spec fn spec_run(s: StateView) -> StateView
    decreases s.queue.len(),
{
    if s.queue.len() == 0 {
        s
    } else {
        spec_run(spec_step(s))
    }
}

/// The state store.
pub struct State {
    inner: InnerState,
    queue: Vec<Action>,
    player: Player,
    catalog: Catalog,
    subscribers: Vec<Subscriber>,
}

impl View for State {
    type V = StateView;

    closed spec fn view(&self) -> StateView {
        StateView {
            messages: strings_view(self.inner.messages@),
            active: opt_entry_view(self.inner.active_library_entry),
            playing: opt_entry_view(self.inner.playing_library_entry),
            is_playing: self.inner.is_playing,
            progress: self.inner.progress,
            changes: self.inner.changes@,
            queue: action_seq_view(self.queue@),
            player: self.player@,
            catalog: self.catalog@,
            inboxes: Seq::new(
                self.subscribers@.len(),
                |i: int| change_seq_view(self.subscribers@[i].inbox@),
            ),
        }
    }
}

impl State {
    /// A store over the given device and catalog, with empty fields, an
    /// empty queue and no subscribers.
    pub fn new(player: Player, catalog: Catalog) -> (r: Self)
        ensures
            r@ == (StateView {
                messages: Seq::empty(),
                active: None,
                playing: None,
                is_playing: false,
                progress: Progress { position: 0, duration: 100_000 },
                changes: Seq::empty(),
                queue: Seq::empty(),
                player: player@,
                catalog: catalog@,
                inboxes: Seq::empty(),
            }),
            entries_wf(catalog@) ==> state_wf(r@),
    {
        let r = State {
            inner: InnerState {
                messages: Vec::new(),
                active_library_entry: None,
                playing_library_entry: None,
                is_playing: false,
                progress: Progress::default(),
                changes: Vec::new(),
            },
            queue: Vec::new(),
            player,
            catalog,
            subscribers: Vec::new(),
        };
        proof {
            assert(r@ =~~= (StateView {
                messages: Seq::empty(),
                active: None,
                playing: None,
                is_playing: false,
                progress: Progress { position: 0, duration: 100_000 },
                changes: Seq::empty(),
                queue: Seq::empty(),
                player: r.player@,
                catalog: r.catalog@,
                inboxes: Seq::empty(),
            }));
        }
        r
    }

    /// Enqueues an action for asynchronous processing; nothing else of the
    /// store changes, and nothing is applied yet.
    pub fn dispatch(&mut self, action: Action)
        ensures
            final(self)@ == (StateView { queue: old(self)@.queue.push(action@), ..old(self)@ }),
    {
        let ghost pre = self@;
        self.queue.push(action);
        proof {
            assert(self@ =~~= (StateView { queue: pre.queue.push(action@), ..pre }));
        }
    }

    /// Registers a subscriber and returns its handle.  The new inbox is
    /// empty: notifications broadcast before registration are not replayed.
    pub fn subscribe(&mut self) -> (id: usize)
        ensures
            final(self)@ == (StateView {
                inboxes: old(self)@.inboxes.push(Seq::empty()),
                ..old(self)@
            }),
            id == old(self)@.inboxes.len(),
    {
        let ghost pre = self@;
        let id = self.subscribers.len();
        self.subscribers.push(Subscriber { inbox: Vec::new() });
        proof {
            assert(change_seq_view(Seq::<StateChange>::empty()) =~= Seq::<Seq<Seq<char>>>::empty());
            assert(self@ =~~= (StateView { inboxes: pre.inboxes.push(Seq::empty()), ..pre }));
        }
        id
    }

    /// A clone of the message log.
    pub fn messages(&self) -> (r: Vec<String>)
        ensures
            strings_view(r@) == self@.messages,
    {
        let r = self.inner.messages.clone();
        proof {
            assert(strings_view(r@) =~= self@.messages);
        }
        r
    }

    /// A clone of the active library entry.
    pub fn active_library_entry(&self) -> (r: Option<LibraryEntry>)
        ensures
            opt_entry_view(r) == self@.active,
    {
        match &self.inner.active_library_entry {
            Some(e) => Some(e.clone()),
            None => None,
        }
    }

    /// A clone of the entry loaded into the device.
    pub fn playing_library_entry(&self) -> (r: Option<LibraryEntry>)
        ensures
            opt_entry_view(r) == self@.playing,
    {
        match &self.inner.playing_library_entry {
            Some(e) => Some(e.clone()),
            None => None,
        }
    }

    /// Whether playback is on.
    pub fn is_playing(&self) -> (r: bool)
        ensures
            r == self@.is_playing,
    {
        self.inner.is_playing
    }

    /// The current progress value.
    pub fn progress(&self) -> (r: Progress)
        ensures
            r == self@.progress,
    {
        self.inner.progress
    }

    /// How many dispatched actions are still pending.
    pub fn queue_len(&self) -> (r: usize)
        ensures
            r == self@.queue.len(),
    {
        self.queue.len()
    }

    /// The device's event log so far, in emission order.  A delivery loop
    /// around the library forwards new entries to playback-event listeners.
    pub fn player_events(&self) -> (r: &Vec<crate::player::PlayerEvent>)
        ensures
            crate::player::event_seq_view(r@) == self@.player.events,
    {
        self.player.events()
    }

    /// How many subscribers are registered.
    pub fn subscriber_count(&self) -> (r: usize)
        ensures
            r == self@.inboxes.len(),
    {
        self.subscribers.len()
    }

    /// The notifications delivered to one subscriber so far, in order.
    pub fn notifications(&self, id: usize) -> (r: &Vec<StateChange>)
        requires
            id < self@.inboxes.len(),
        ensures
            change_seq_view(r@) == self@.inboxes[id as int],
    {
        &self.subscribers[id].inbox
    }

    fn handle_load(&mut self, id: i32)
        ensures
            final(self)@ == spec_load(old(self)@, id as int),
    {
        let ghost pre = self@;
        match self.catalog.lookup(id) {
            Some(entry) => {
                self.inner.set(Field::ActiveLibraryEntry(Some(entry)));
                proof {
                    assert(self@ =~~= spec_load(pre, id as int));
                }
            },
            None => {
                let mut msgs = self.inner.messages.clone();
                msgs.push(not_found_message(id));
                self.inner.set(Field::Messages(msgs));
                proof {
                    assert(strings_view(msgs@) =~= pre.messages.push(
                        spec_not_found_message(id as int),
                    ));
                    assert(self@ =~~= spec_load(pre, id as int));
                }
            },
        }
    }

    fn handle_play(&mut self, library_entry: LibraryEntry)
        ensures
            final(self)@ == spec_play(old(self)@, library_entry@),
    {
        let ghost pre = self@;
        let device_entry = library_entry.clone();
        let result = self.player.play(device_entry);
        match result {
            Ok(_) => {
                self.inner.set(Field::PlayingLibraryEntry(Some(library_entry)));
                self.inner.set(Field::IsPlaying(true));
                proof {
                    assert(self@ =~~= spec_play(pre, library_entry@));
                }
            },
            Err(err) => {
                let mut msgs = self.inner.messages.clone();
                msgs.push(play_failed_message(err));
                self.inner.set(Field::Messages(msgs));
                proof {
                    assert(strings_view(msgs@) =~= pre.messages.push(
                        spec_play_failed_message(err),
                    ));
                    assert(self@ =~~= spec_play(pre, library_entry@));
                }
            },
        }
    }

    fn handle_toggle(&mut self, playing: bool)
        ensures
            final(self)@ == spec_toggle(old(self)@, playing),
    {
        let ghost pre = self@;
        let result = if playing {
            self.player.pause()
        } else {
            self.player.resume()
        };
        match result {
            Ok(_) => {
                self.inner.set(Field::IsPlaying(!playing));
                proof {
                    assert(self@ =~~= spec_toggle(pre, playing));
                }
            },
            Err(err) => {
                let mut msgs = self.inner.messages.clone();
                msgs.push(toggle_failed_message(err));
                self.inner.set(Field::Messages(msgs));
                proof {
                    assert(strings_view(msgs@) =~= pre.messages.push(
                        spec_toggle_failed_message(err),
                    ));
                    assert(self@ =~~= spec_toggle(pre, playing));
                }
            },
        }
    }

    fn handle_set_progress(&mut self, progress: Progress)
        ensures
            final(self)@ == spec_set_progress(old(self)@, progress),
    {
        let ghost pre = self@;
        self.inner.set(Field::Progress(progress));
        proof {
            assert(self@ =~~= spec_set_progress(pre, progress));
        }
    }

    /// Applies the head action of the queue, if any: the handler runs to
    /// completion, then every subscriber receives exactly one notification
    /// naming the fields the handler wrote.
    pub fn process_next(&mut self) -> (processed: bool)
        ensures
            old(self)@.queue.len() == 0 ==> !processed && *final(self) == *old(self),
            old(self)@.queue.len() > 0 ==> processed && final(self)@ == spec_step(old(self)@),
            state_wf(old(self)@) ==> state_wf(final(self)@),
    {
        let ghost pre = self@;
        if self.queue.len() == 0 {
            return false;
        }
        self.inner.changes = Vec::new();
        let action = self.queue.remove(0);
        proof {
            assert(action_seq_view(self.queue@) =~= pre.queue.subrange(1, pre.queue.len() as int));
            assert(self@ =~~= (StateView {
                changes: Seq::empty(),
                queue: pre.queue.subrange(1, pre.queue.len() as int),
                ..pre
            }));
        }
        match action {
            Action::LoadLibraryEntry(id) => self.handle_load(id),
            Action::PlayLibraryEntry(e) => self.handle_play(e),
            Action::TogglePlay(b) => self.handle_toggle(b),
            Action::SetProgress(p) => self.handle_set_progress(p),
        }
        let ghost handled = self@;
        proof {
            assert(handled == spec_handle(
                StateView {
                    changes: Seq::empty(),
                    queue: pre.queue.subrange(1, pre.queue.len() as int),
                    ..pre
                },
                pre.queue[0],
            ));
        }
        let change = StateChange::from_tags(&self.inner.changes);
        self.inner.changes = Vec::new();
        let n = self.subscribers.len();
        let mut i: usize = 0;
        while i < n
            invariant
                i <= n,
                n == self.subscribers@.len(),
                change@ == spec_change_names(handled.changes),
                self@ == (StateView {
                    changes: Seq::empty(),
                    inboxes: self@.inboxes,
                    ..handled
                }),
                self@.inboxes.len() == n,
                forall|k: int|
                    0 <= k < i ==> self@.inboxes[k] == handled.inboxes[k].push(
                        spec_change_names(handled.changes),
                    ),
                forall|k: int| i <= k < n ==> self@.inboxes[k] == handled.inboxes[k],
            decreases n - i,
        {
            let ghost before = self@;
            let ghost subs0 = self.subscribers@;
            let mut sub = self.subscribers.remove(i);
            sub.inbox.push(change.clone());
            self.subscribers.insert(i, sub);
            proof {
                let names = spec_change_names(handled.changes);
                assert(self.subscribers@ =~= subs0.update(i as int, self.subscribers@[i as int]));
                let updated = before.inboxes[i as int].push(names);
                assert(change_seq_view(self.subscribers@[i as int].inbox@) =~= updated);
                assert(self@ =~~= (StateView {
                    inboxes: before.inboxes.update(
                        i as int,
                        before.inboxes[i as int].push(names),
                    ),
                    ..before
                }));
            }
            i += 1;
        }
        proof {
            assert(self@ =~~= spec_step(pre));
            if state_wf(pre) {
                lemma_handle_wf(
                    StateView {
                        changes: Seq::empty(),
                        queue: pre.queue.subrange(1, pre.queue.len() as int),
                        ..pre
                    },
                    pre.queue[0],
                );
            }
        }
        true
    }

    /// Processes pending actions until the queue is empty, one at a time,
    /// in dispatch order.
    pub fn process_all(&mut self)
        ensures
            final(self)@ == spec_run(old(self)@),
            state_wf(old(self)@) ==> state_wf(final(self)@),
    {
        while self.queue_len() > 0
            invariant
                spec_run(self@) == spec_run(old(self)@),
                state_wf(old(self)@) ==> state_wf(self@),
            decreases self@.queue.len(),
        {
            self.process_next();
        }
    }
}

/// A handler preserves validity: the catalog is untouched, a newly active
/// entry came out of the well-formed catalog, and a newly loaded entry was
/// accepted by the device, which only plays playable variants.
proof fn lemma_handle_wf(s: StateView, a: ActionView)
    requires
        entries_wf(s.catalog),
        s.active matches Some(e) ==> entry_wf(e),
        s.playing matches Some(e) ==> is_playable(e.variant),
    ensures
        entries_wf(spec_handle(s, a).catalog),
        spec_handle(s, a).active matches Some(e) ==> entry_wf(e),
        spec_handle(s, a).playing matches Some(e) ==> is_playable(e.variant),
{
    match a {
        ActionView::LoadLibraryEntry(id) => {
            crate::catalog::lemma_spec_lookup_wf(s.catalog, id);
        },
        ActionView::PlayLibraryEntry(e) => {},
        ActionView::TogglePlay(b) => {},
        ActionView::SetProgress(p) => {},
    }
}

} // verus!

