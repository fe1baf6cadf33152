//! Tabs and the tab set: an ordered collection of browsing contexts
//! with an active-tab selector, never empty, ids never reused.

use vstd::prelude::*;
use vstd::string::*;
use crate::url::NavigationTarget;
use crate::url::blank_target;

verus! {

/// Error kinds of tab-set operations. Reported to the caller; the tab
/// set itself is left unchanged.
#[derive(Clone, Copy, Debug, PartialEq, Eq, Structural)]
pub enum NavError {
    /// A tab operation named an out-of-range index.
    InvalidIndex,
    /// An attempt to close the last remaining tab.
    EmptyTabSetViolation,
}

/// A single browsing context: a current target, a display title, a
/// loading flag and an optional icon reference, under a stable id.
pub struct Tab {
    pub id: usize,
    pub target: NavigationTarget,
    pub title: String,
    pub loading: bool,
    pub favicon: Option<String>,
}

/// `t` is a freshly created blank tab carrying `id`.
pub open spec fn blank_tab(t: Tab, id: int) -> bool {
    &&& t.id == id
    &&& t.target@ == "about:blank"@
    &&& t.title@ == "New Tab"@
    &&& t.loading == false
    &&& t.favicon is None
}

/// `post` is `pre` pointed at `target` and marked loading, with the
/// fixed loading placeholder title; id and icon kept.
pub open spec fn tab_loading_from(pre: Tab, post: Tab, target: Seq<char>) -> bool {
    &&& post.id == pre.id
    &&& post.favicon == pre.favicon
    &&& post.target@ == target
    &&& post.loading == true
    &&& post.title@ == "Loading..."@
}

/// `post` is `pre` with its load finished under display title `title`;
/// everything else kept.
pub open spec fn tab_loaded_from(pre: Tab, post: Tab, title: Seq<char>) -> bool {
    &&& post.id == pre.id
    &&& post.favicon == pre.favicon
    &&& post.target@ == pre.target@
    &&& post.loading == false
    &&& post.title@ == title
}

/// Where the active index lands after removing the tab at `removed`
/// from a set of `len` tabs: decremented when the removal is at or
/// before it (floored at zero), then clamped to the new last index.
pub open spec fn active_after_close(active: int, removed: int, len: int) -> int {
    let shifted = if removed <= active && active > 0 {
        active - 1
    } else {
        active
    };
    if shifted > len - 2 {
        len - 2
    } else {
        shifted
    }
}

/// Ordered sequence of tabs (the tab-bar order) plus the active index.
pub struct TabSet {
    pub tabs: Vec<Tab>,
    pub active_index: usize,
    pub next_id: usize,
}

impl TabSet {
    /// Never empty; the active index valid; ids strictly increasing in
    /// bar order and all below the next id to hand out.
    pub open spec fn wf(self) -> bool {
        &&& self.tabs@.len() > 0
        &&& (self.active_index as int) < self.tabs@.len()
        &&& forall|i: int, j: int|
            0 <= i < j < self.tabs@.len() ==> #[trigger] self.tabs@[i].id < #[trigger] self.tabs@[j].id
        &&& forall|i: int| 0 <= i < self.tabs@.len() ==> #[trigger] self.tabs@[i].id < self.next_id
    }

    /// A fresh set holding one blank tab with id 0, active.
    pub fn new() -> (ts: TabSet)
        ensures
            ts.wf(),
            ts.tabs@.len() == 1,
            blank_tab(ts.tabs@[0], 0),
            ts.active_index == 0,
            ts.next_id == 1,
    {
        let mut tabs: Vec<Tab> = Vec::new();
        tabs.push(
            Tab {
                id: 0,
                target: blank_target(),
                title: String::from_str("New Tab"),
                loading: false,
                favicon: None,
            },
        );
        TabSet { tabs, active_index: 0, next_id: 1 }
    }

    /// Append a fresh blank tab, make it active, return its id — a new
    /// id, above every id handed out before. Always succeeds.
    pub fn create_tab(&mut self) -> (id: usize)
        requires
            old(self).wf(),
            old(self).next_id < usize::MAX,
        ensures
            final(self).wf(),
            id == old(self).next_id,
            final(self).tabs@.len() == old(self).tabs@.len() + 1,
            final(self).tabs@.subrange(0, old(self).tabs@.len() as int) == old(self).tabs@,
            blank_tab(final(self).tabs@[old(self).tabs@.len() as int], id as int),
            final(self).active_index as int == final(self).tabs@.len() - 1,
            final(self).next_id == old(self).next_id + 1,
    {
        let id = self.next_id;
        self.tabs.push(
            Tab {
                id,
                target: blank_target(),
                title: String::from_str("New Tab"),
                loading: false,
                favicon: None,
            },
        );
        self.active_index = self.tabs.len() - 1;
        self.next_id = self.next_id + 1;
        proof {
            let pre = *old(self);
            assert(final(self).tabs@.subrange(0, pre.tabs@.len() as int) =~= pre.tabs@);
        }
        id
    }

    /// Make the tab at `index` active, or report `InvalidIndex` and
    /// change nothing.
    pub fn switch_active(&mut self, index: usize) -> (r: Result<(), NavError>)
        requires
            old(self).wf(),
        ensures
            final(self).wf(),
            final(self).tabs@ == old(self).tabs@,
            final(self).next_id == old(self).next_id,
            (index as int) < old(self).tabs@.len() ==> r == Ok::<(), NavError>(())
                && final(self).active_index == index,
            (index as int) >= old(self).tabs@.len() ==> r == Err::<(), NavError>(
                NavError::InvalidIndex,
            ) && *final(self) == *old(self),
    {
        if index < self.tabs.len() {
            self.active_index = index;
            Ok(())
        } else {
            Err(NavError::InvalidIndex)
        }
    }

    /// Remove the tab at `index`. An out-of-range index or an attempt
    /// to close the last remaining tab is rejected, with nothing
    /// changed; otherwise the active index follows
    /// `active_after_close`.
    pub fn close_tab(&mut self, index: usize) -> (r: Result<(), NavError>)
        requires
            old(self).wf(),
        ensures
            final(self).wf(),
            final(self).next_id == old(self).next_id,
            (index as int) >= old(self).tabs@.len() ==> r == Err::<(), NavError>(
                NavError::InvalidIndex,
            ) && *final(self) == *old(self),
            (index as int) < old(self).tabs@.len() && old(self).tabs@.len() == 1 ==> r == Err::<
                (),
                NavError,
            >(NavError::EmptyTabSetViolation) && *final(self) == *old(self),
            (index as int) < old(self).tabs@.len() && old(self).tabs@.len() > 1 ==> {
                &&& r == Ok::<(), NavError>(())
                &&& final(self).tabs@ == old(self).tabs@.remove(index as int)
                &&& final(self).active_index as int == active_after_close(
                    old(self).active_index as int,
                    index as int,
                    old(self).tabs@.len() as int,
                )
            },
    {
        if index >= self.tabs.len() {
            return Err(NavError::InvalidIndex);
        }
        if self.tabs.len() == 1 {
            return Err(NavError::EmptyTabSetViolation);
        }
        self.tabs.remove(index);
        if self.active_index >= index && self.active_index > 0 {
            self.active_index = self.active_index - 1;
        }
        if self.active_index >= self.tabs.len() {
            self.active_index = self.tabs.len() - 1;
        }
        Ok(())
    }

    /// The active tab; always valid under the non-empty invariant.
    pub fn active_tab(&self) -> (t: &Tab)
        requires
            self.wf(),
        ensures
            *t == self.tabs@[self.active_index as int],
    {
        &self.tabs[self.active_index]
    }

    /// Point the active tab at `t` and mark it loading.
    pub fn begin_load(&mut self, t: NavigationTarget)
        requires
            old(self).wf(),
        ensures
            final(self).wf(),
            final(self).tabs@.len() == old(self).tabs@.len(),
            final(self).active_index == old(self).active_index,
            final(self).next_id == old(self).next_id,
            forall|i: int|
                0 <= i < old(self).tabs@.len() && i != old(self).active_index as int
                    ==> final(self).tabs@[i] == old(self).tabs@[i],
            tab_loading_from(
                old(self).tabs@[old(self).active_index as int],
                final(self).tabs@[old(self).active_index as int],
                t@,
            ),
    {
        let i = self.active_index;
        self.tabs[i].target = t;
        self.tabs[i].loading = true;
        self.tabs[i].title = String::from_str("Loading...");
    }

    /// Finish the active tab's load under the given display title.
    pub fn finish_load(&mut self, title: String)
        requires
            old(self).wf(),
        ensures
            final(self).wf(),
            final(self).tabs@.len() == old(self).tabs@.len(),
            final(self).active_index == old(self).active_index,
            final(self).next_id == old(self).next_id,
            forall|i: int|
                0 <= i < old(self).tabs@.len() && i != old(self).active_index as int
                    ==> final(self).tabs@[i] == old(self).tabs@[i],
            tab_loaded_from(
                old(self).tabs@[old(self).active_index as int],
                final(self).tabs@[old(self).active_index as int],
                title@,
            ),
    {
        let i = self.active_index;
        self.tabs[i].loading = false;
        self.tabs[i].title = title;
    }
}

/// Law: closing the active tab when it stands last moves the active
/// index to the new last position, and closing any tab strictly before
/// the active one decrements the active index by exactly one.
pub proof fn lemma_active_after_close_cases(active: int, removed: int, len: int)
    requires
        len > 1,
        0 <= removed < len,
        0 <= active < len,
    ensures
        removed == active && active == len - 1 ==> active_after_close(active, removed, len) == len
            - 2,
        removed < active ==> active_after_close(active, removed, len) == active - 1,
{
}

} // verus!
