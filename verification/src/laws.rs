//! The library's laws: properties that relate several operations, stated
//! over the models that the operations' own contracts use and proved once
//! and for all.

use vstd::prelude::*;

use crate::actions::{spec_change_names, ActionView, FieldName};
use crate::catalog::{spec_children, spec_find, spec_lookup, spec_resolve};
use crate::entry::{is_container, is_playable, EntryView};
use crate::player::{device_step, DeviceOp, PlayerError, PlayerEventView, PlayerView};
use crate::state::{
    spec_handle, spec_load, spec_not_found_message, spec_play, spec_step, spec_toggle,
    spec_toggle_failed_message, StateView,
};

verus! {

/// The state a handler starts from: the head action removed, no field
/// written yet.
pub open spec fn step_start(s: StateView) -> StateView {
    StateView { changes: Seq::empty(), queue: s.queue.subrange(1, s.queue.len() as int), ..s }
}

/// The field names one processing step broadcasts.
pub open spec fn step_change_names(s: StateView) -> Seq<Seq<char>> {
    spec_change_names(spec_handle(step_start(s), s.queue[0]).changes)
}

/// Actions are consumed strictly in FIFO order: one processing step removes
/// exactly the head of the queue and no handler touches the queue.
pub proof fn lemma_step_fifo(s: StateView)
    requires
        s.queue.len() > 0,
    ensures
        spec_step(s).queue == s.queue.subrange(1, s.queue.len() as int),
        spec_step(s).catalog == s.catalog,
{
    match s.queue[0] {
        ActionView::LoadLibraryEntry(id) => {},
        ActionView::PlayLibraryEntry(e) => {},
        ActionView::TogglePlay(b) => {},
        ActionView::SetProgress(p) => {},
    }
}

/// Dispatching a play and then a toggle guarantees that the toggle observes
/// the completed play: the first step loads the entry and turns playback
/// on, the second pauses it — the toggle can never run before the track is
/// loaded.
pub proof fn lemma_fifo_play_then_toggle(s: StateView, e: EntryView)
    requires
        s.queue == seq![ActionView::PlayLibraryEntry(e), ActionView::TogglePlay(true)],
        is_playable(e.variant),
    ensures
        spec_step(s).is_playing == true,
        spec_step(s).playing == Some(e),
        spec_step(spec_step(s)).is_playing == false,
        spec_step(spec_step(s)).playing == Some(e),
        spec_step(spec_step(s)).messages == s.messages,
        spec_step(spec_step(s)).queue.len() == 0,
{
    let s1 = spec_step(s);
    assert(s.queue.subrange(1, 2) =~= seq![ActionView::TogglePlay(true)]);
    assert(s1.queue == seq![ActionView::TogglePlay(true)]);
    let s2 = spec_step(s1);
    assert(s1.queue.subrange(1, 1) =~= Seq::<ActionView>::empty());
    assert(s1.player.track == Some(e));
    assert(s2.is_playing == false);
}

/// The direct children a lookup attaches are exactly the catalog entries
/// whose `parent_id` names the looked-up id, in catalog order: none is
/// dropped, none is invented, and no grandchild is included.
pub proof fn lemma_children_exactly_filter(s: Seq<EntryView>, id: int)
    ensures
        spec_children(s, id) == s.filter(|e: EntryView| e.parent_id == Some(id)),
    decreases s.len(),
{
    if s.len() > 0 {
        let pre = s.subrange(0, s.len() - 1);
        lemma_children_exactly_filter(pre, id);
        assert(s.drop_last() =~= pre);
        reveal_with_fuel(Seq::filter, 2);
    }
}

/// Looking a container up yields that entry with exactly its direct
/// children attached; every other field is the found entry's own.
pub proof fn lemma_lookup_container(s: Seq<EntryView>, id: int)
    requires
        spec_find(s, id) matches Some(f) && is_container(f.variant),
    ensures
        spec_lookup(s, id) matches Some(r) && r == (EntryView {
            children: Some(spec_children(s, id)),
            ..spec_find(s, id)->0
        }),
{
    let f = spec_find(s, id)->0;
    lemma_find_id(s, id);
    assert(spec_resolve(s, f) == EntryView { children: Some(spec_children(s, f.id)), ..f });
}

/// A found entry carries the id it was looked up by.
pub proof fn lemma_find_id(s: Seq<EntryView>, id: int)
    ensures
        spec_find(s, id) matches Some(f) ==> f.id == id,
    decreases s.len(),
{
    if s.len() > 0 && s[0].id != id {
        lemma_find_id(s.subrange(1, s.len() as int), id);
    }
}

/// A lookup miss leaves every state field but the message log untouched
/// and appends exactly one message, the one naming the missing id.
pub proof fn lemma_load_miss(s: StateView, id: int)
    requires
        spec_find(s.catalog, id) is None,
    ensures
        spec_load(s, id).active == s.active,
        spec_load(s, id).playing == s.playing,
        spec_load(s, id).is_playing == s.is_playing,
        spec_load(s, id).progress == s.progress,
        spec_load(s, id).player == s.player,
        spec_load(s, id).messages == s.messages.push(spec_not_found_message(id)),
{
}

/// The play → pause → resume round trip: all three operations succeed, no
/// message is appended, playback ends on, and the loaded entry is the one
/// that was played.
pub proof fn lemma_play_pause_resume_roundtrip(s: StateView, e: EntryView)
    requires
        is_playable(e.variant),
    ensures
        ({
            let s1 = spec_play(s, e);
            let s2 = spec_toggle(s1, true);
            let s3 = spec_toggle(s2, false);
            &&& s3.is_playing == true
            &&& s3.playing == Some(e)
            &&& s3.messages == s.messages
            &&& s2.is_playing == false
            &&& s1.is_playing == true
        }),
{
    let s1 = spec_play(s, e);
    assert(s1.player.track == Some(e));
}

/// Resuming with no prior play fails with `NoTrackLoaded`: exactly one
/// message is appended and the loaded entry and the play flag stay as they
/// were.
pub proof fn lemma_resume_without_track(s: StateView)
    requires
        s.player.track is None,
    ensures
        device_step(s.player, DeviceOp::Resume).1 == Err::<(), PlayerError>(
            PlayerError::NoTrackLoaded,
        ),
        spec_toggle(s, false).messages == s.messages.push(
            spec_toggle_failed_message(PlayerError::NoTrackLoaded),
        ),
        spec_toggle(s, false).playing == s.playing,
        spec_toggle(s, false).is_playing == s.is_playing,
{
}

/// Every subscriber registered before a step receives exactly one
/// notification from it, naming the fields the handler wrote, in write
/// order; no inbox is skipped and none receives two.  A subscriber
/// registered afterwards starts with an empty inbox and receives nothing
/// for actions already broadcast.
pub proof fn lemma_step_notifies_each_subscriber(s: StateView)
    requires
        s.queue.len() > 0,
    ensures
        spec_step(s).inboxes.len() == s.inboxes.len(),
        forall|i: int|
            0 <= i < s.inboxes.len() ==> spec_step(s).inboxes[i] == s.inboxes[i].push(
                step_change_names(s),
            ),
{
}

/// A handler writes each field at most once, so the broadcast change list
/// is deduplicated by construction.
pub proof fn lemma_step_changes_distinct(s: StateView)
    requires
        s.queue.len() > 0,
    ensures
        ({
            let tags = spec_handle(step_start(s), s.queue[0]).changes;
            forall|i: int, j: int| 0 <= i < j < tags.len() ==> tags[i] != tags[j]
        }),
{
    let tags = spec_handle(step_start(s), s.queue[0]).changes;
    match s.queue[0] {
        ActionView::LoadLibraryEntry(id) => {
            assert(tags.len() == 1);
        },
        ActionView::PlayLibraryEntry(e) => {
            if device_step(step_start(s).player, DeviceOp::Play(e)).1 is Ok {
                assert(tags =~= seq![FieldName::PlayingLibraryEntry, FieldName::IsPlaying]);
            } else {
                assert(tags.len() == 1);
            }
        },
        ActionView::TogglePlay(b) => {
            assert(tags.len() == 1);
        },
        ActionView::SetProgress(p) => {
            assert(tags.len() == 1);
        },
    }
}

/// The store's processing loop serializes device work as well: one step,
/// whatever its handler does, only appends to the device's event log and
/// never rewrites what earlier handlers emitted.
pub proof fn lemma_step_device_serialized(s: StateView)
    requires
        s.queue.len() > 0,
    ensures
        spec_step(s).player.events.len() >= s.player.events.len(),
        spec_step(s).player.events.subrange(0, s.player.events.len() as int) == s.player.events,
{
    let h = step_start(s);
    match s.queue[0] {
        ActionView::LoadLibraryEntry(id) => {
            assert(spec_step(s).player.events.subrange(0, s.player.events.len() as int)
                =~= s.player.events);
        },
        ActionView::PlayLibraryEntry(e) => {
            lemma_device_step_appends(h.player, DeviceOp::Play(e));
        },
        ActionView::TogglePlay(b) => {
            lemma_device_step_appends(h.player, if b { DeviceOp::Pause } else { DeviceOp::Resume });
        },
        ActionView::SetProgress(p) => {
            assert(spec_step(s).player.events.subrange(0, s.player.events.len() as int)
                =~= s.player.events);
        },
    }
}

/// A sequence of device operations applied in order, each running to
/// completion before the next starts.
pub open spec fn run_device_ops(p: PlayerView, ops: Seq<DeviceOp>) -> PlayerView
    decreases ops.len(),
{
    if ops.len() == 0 {
        p
    } else {
        run_device_ops(device_step(p, ops[0]).0, ops.subrange(1, ops.len() as int))
    }
}

/// One device operation only appends to the event log: what was already
/// emitted is never rewritten.
pub proof fn lemma_device_step_appends(p: PlayerView, op: DeviceOp)
    ensures
        device_step(p, op).0.events.len() >= p.events.len(),
        device_step(p, op).0.events.subrange(0, p.events.len() as int) == p.events,
{
    let q = device_step(p, op).0;
    assert(q.events.subrange(0, p.events.len() as int) =~= p.events) by {
        match op {
            DeviceOp::Play(e) => {
                if is_playable(e.variant) {
                    assert(q.events == p.events.push(PlayerEventView::Playing(e)));
                }
            },
            DeviceOp::Pause => {},
            DeviceOp::Resume => {},
            DeviceOp::Seek(pos) => {},
            DeviceOp::Stop => {},
            DeviceOp::SetVolume(v) => {},
        }
    }
}

/// Device operations serialize: a whole sequence of operations yields one
/// consistent event log that extends the starting log — transitions never
/// interleave and no partial write is ever observed.
pub proof fn lemma_device_ops_serialize(p: PlayerView, ops: Seq<DeviceOp>)
    ensures
        run_device_ops(p, ops).events.len() >= p.events.len(),
        run_device_ops(p, ops).events.subrange(0, p.events.len() as int) == p.events,
    decreases ops.len(),
{
    if ops.len() == 0 {
        assert(run_device_ops(p, ops).events.subrange(0, p.events.len() as int) =~= p.events);
    } else {
        let q = device_step(p, ops[0]).0;
        lemma_device_step_appends(p, ops[0]);
        lemma_device_ops_serialize(q, ops.subrange(1, ops.len() as int));
        let r = run_device_ops(p, ops);
        assert(r.events.subrange(0, p.events.len() as int) =~= q.events.subrange(
            0,
            q.events.len() as int,
        ).subrange(0, p.events.len() as int));
        assert(r.events.subrange(0, p.events.len() as int) =~= p.events);
    }
}

/// Running two batches of device operations one after the other is the
/// same as running their concatenation: queued operations compose into a
/// single serialized history.
pub proof fn lemma_device_run_append(p: PlayerView, ops1: Seq<DeviceOp>, ops2: Seq<DeviceOp>)
    ensures
        run_device_ops(p, ops1 + ops2) == run_device_ops(run_device_ops(p, ops1), ops2),
    decreases ops1.len(),
{
    if ops1.len() == 0 {
        assert(ops1 + ops2 =~= ops2);
    } else {
        let q = device_step(p, ops1[0]).0;
        assert((ops1 + ops2).subrange(1, (ops1 + ops2).len() as int) =~= ops1.subrange(
            1,
            ops1.len() as int,
        ) + ops2);
        lemma_device_run_append(q, ops1.subrange(1, ops1.len() as int), ops2);
    }
}

} // verus!
