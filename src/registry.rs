//! The windows the loop knows, by identifier. The registry observes windows
//! and does not own them: what it stores is a handle that the caller can
//! upgrade to the window while the window is alive.
use vstd::prelude::*;

use std::collections::HashMap;

use crate::window_set::{strictly_sorted, WindowId, WindowIdSet};

verus! {

broadcast use vstd::std_specs::hash::group_hash_axioms;

/// Window handles by identifier.
#[verifier::reject_recursive_types(W)]
pub struct WindowRegistry<W> {
    windows: HashMap<WindowId, W>,
    ids: WindowIdSet,
}

impl<W> View for WindowRegistry<W> {
    type V = Map<WindowId, W>;

    closed spec fn view(&self) -> Map<WindowId, W> {
        self.windows@
    }
}

impl<W> WindowRegistry<W> {
    /// The identifiers kept beside the map are exactly its keys.
    pub closed spec fn wf(&self) -> bool {
        self.ids.wf() && self.ids@.to_set() == self.windows@.dom()
    }

    /// A registry with no windows.
    pub fn new() -> (r: Self)
        ensures
            r.wf(),
            r@ == Map::<WindowId, W>::empty(),
    {
        let r = WindowRegistry { windows: HashMap::new(), ids: WindowIdSet::new() };
        proof {
            assert(r.ids@.to_set() =~= r.windows@.dom());
        }
        r
    }

    /// The handle registered under `id`, if any.
    pub fn get(&self, id: WindowId) -> (r: Option<&W>)
        requires
            self.wf(),
        ensures
            match r {
                Some(w) => self@.contains_key(id) && *w == self@[id],
                None => !self@.contains_key(id),
            },
    {
        self.windows.get(&id)
    }

    /// Whether no window is registered.
    pub fn is_empty(&self) -> (r: bool)
        requires
            self.wf(),
        ensures
            r == self@.dom().is_empty(),
    {
        proof {
            if self.ids@.len() > 0 {
                assert(self.ids@.to_set().contains(self.ids@[0]));
            }
        }
        self.ids.len() == 0
    }

    /// The identifiers of all registered windows, in increasing order.
    pub fn ids(&self) -> (r: Vec<WindowId>)
        requires
            self.wf(),
        ensures
            r@.to_set() == self@.dom(),
            strictly_sorted(r@),
            r@.no_duplicates(),
    {
        proof {
            crate::window_set::lemma_sorted_has_no_duplicates(self.ids@);
        }
        self.ids.to_vec()
    }
}

/// Registers `window` under `id`, replacing what was registered there.
pub fn register_window<W>(registry: &mut WindowRegistry<W>, id: WindowId, window: W)
    requires
        old(registry).wf(),
    ensures
        final(registry).wf(),
        final(registry)@ == old(registry)@.insert(id, window),
{
    registry.windows.insert(id, window);
    registry.ids.insert(id);
}

/// Removes whatever is registered under `id`; nothing happens if nothing is.
pub fn unregister_window<W>(registry: &mut WindowRegistry<W>, id: WindowId)
    requires
        old(registry).wf(),
    ensures
        final(registry).wf(),
        final(registry)@ == old(registry)@.remove(id),
{
    registry.windows.remove(&id);
    registry.ids.remove(id);
}

} // verus!
