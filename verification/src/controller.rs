//! The content controller: the store-facing side of the content view.  It
//! registers as a subscriber on construction and turns user intents into
//! dispatched actions; reading its notifications and rendering belong to
//! the presentation layer around the library.

use vstd::prelude::*;

use crate::actions::{Action, ActionView};
use crate::state::{State, StateView};

verus! {

/// Dispatches content-view actions into a store it owns and keeps the
/// handle of its change subscription.
pub struct ContentController {
    pub state: State,
    pub subscription: usize,
}

impl ContentController {
    /// Takes the store over and registers a subscriber for the content
    /// view; the new subscription starts with an empty inbox.
    pub fn new(state: State) -> (c: Self)
        ensures
            c.state@ == (StateView { inboxes: state@.inboxes.push(Seq::empty()), ..state@ }),
            c.subscription == state@.inboxes.len(),
    {
        let mut owned = state;
        let subscription = owned.subscribe();
        ContentController { state: owned, subscription }
    }

    /// Requests the initial data: the root entry of the library.
    pub fn init(&mut self)
        ensures
            final(self).state@ == (StateView {
                queue: old(self).state@.queue.push(ActionView::LoadLibraryEntry(0)),
                ..old(self).state@
            }),
            final(self).subscription == old(self).subscription,
    {
        self.state.dispatch(Action::LoadLibraryEntry(0));
    }

    /// Requests the entry the user selected.
    pub fn on_select(&mut self, id: i32)
        ensures
            final(self).state@ == (StateView {
                queue: old(self).state@.queue.push(ActionView::LoadLibraryEntry(id as int)),
                ..old(self).state@
            }),
            final(self).subscription == old(self).subscription,
    {
        self.state.dispatch(Action::LoadLibraryEntry(id));
    }
}

} // verus!
