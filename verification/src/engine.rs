//! The navigation controller: on a navigate request it normalizes the
//! input, updates the active tab, and records the target in the
//! history log; back/forward traversal re-runs a logged target against
//! the active tab without recording it again.

use vstd::prelude::*;
use crate::history::HistoryLog;
use crate::history::back_step;
use crate::history::forward_step;
use crate::history::record_step;
use crate::history::view_opt;
use crate::tabs::NavError;
use crate::tabs::Tab;
use crate::tabs::TabSet;
use crate::tabs::active_after_close;
use crate::tabs::blank_tab;
use crate::tabs::tab_loaded_from;
use crate::tabs::tab_loading_from;
use crate::url::NavigationTarget;
use crate::url::get_title_from_url;
use crate::url::normalize;
use crate::url::normalized_of;
use crate::url::str_eq;
use crate::url::target_wf;
use crate::url::title_of;

verus! {

/// The navigation state of one browsing session: the open tabs and the
/// history log.
pub struct BrowserEngine {
    pub tabs: TabSet,
    pub history: HistoryLog,
}

impl BrowserEngine {
    pub open spec fn wf(self) -> bool {
        &&& self.tabs.wf()
        &&& self.history.wf()
    }

    /// The active tab of the session.
    pub open spec fn active(self) -> Tab {
        self.tabs.tabs@[self.tabs.active_index as int]
    }

    /// A fresh session: one blank tab, an empty history log.
    pub fn new() -> (e: BrowserEngine)
        ensures
            e.wf(),
            e.tabs.tabs@.len() == 1,
            blank_tab(e.tabs.tabs@[0], 0),
            e.tabs.active_index == 0,
            e.tabs.next_id == 1,
            e.history.targets().len() == 0,
            e.history.cursor() == -1,
    {
        BrowserEngine { tabs: TabSet::new(), history: HistoryLog::new() }
    }

    /// Normalize raw address-bar input, point the active tab at the
    /// result (marked loading), and record it in the history log.
    /// Total: ambiguous input degrades to a search query. Returns the
    /// normalized target.
    pub fn navigate_to(&mut self, url: &str) -> (t: NavigationTarget)
        requires
            old(self).wf(),
        ensures
            final(self).wf(),
            t@ == normalized_of(url@),
            target_wf(t@),
            record_step(old(self).history, final(self).history, normalized_of(url@)),
            final(self).tabs.tabs@.len() == old(self).tabs.tabs@.len(),
            final(self).tabs.active_index == old(self).tabs.active_index,
            final(self).tabs.next_id == old(self).tabs.next_id,
            forall|i: int|
                0 <= i < old(self).tabs.tabs@.len() && i != old(self).tabs.active_index as int
                    ==> final(self).tabs.tabs@[i] == old(self).tabs.tabs@[i],
            tab_loading_from(old(self).active(), final(self).active(), normalized_of(url@)),
    {
        let t = normalize(url);
        self.tabs.begin_load(t.clone());
        self.history.record(t.clone());
        t
    }

    /// Step back in the history log; on success re-run the yielded
    /// target against the active tab without recording it again.
    pub fn go_back(&mut self) -> (r: Option<NavigationTarget>)
        requires
            old(self).wf(),
        ensures
            final(self).wf(),
            back_step(old(self).history, final(self).history, view_opt(r)),
            final(self).tabs.tabs@.len() == old(self).tabs.tabs@.len(),
            final(self).tabs.active_index == old(self).tabs.active_index,
            final(self).tabs.next_id == old(self).tabs.next_id,
            forall|i: int|
                0 <= i < old(self).tabs.tabs@.len() && i != old(self).tabs.active_index as int
                    ==> final(self).tabs.tabs@[i] == old(self).tabs.tabs@[i],
            r is Some ==> tab_loading_from(old(self).active(), final(self).active(), r->Some_0@),
            r is None ==> final(self).tabs == old(self).tabs,
    {
        match self.history.go_back() {
            Some(t) => {
                self.tabs.begin_load(t.clone());
                Some(t)
            },
            None => None,
        }
    }

    /// Step forward in the history log; on success re-run the yielded
    /// target against the active tab without recording it again.
    pub fn go_forward(&mut self) -> (r: Option<NavigationTarget>)
        requires
            old(self).wf(),
        ensures
            final(self).wf(),
            forward_step(old(self).history, final(self).history, view_opt(r)),
            final(self).tabs.tabs@.len() == old(self).tabs.tabs@.len(),
            final(self).tabs.active_index == old(self).tabs.active_index,
            final(self).tabs.next_id == old(self).tabs.next_id,
            forall|i: int|
                0 <= i < old(self).tabs.tabs@.len() && i != old(self).tabs.active_index as int
                    ==> final(self).tabs.tabs@[i] == old(self).tabs.tabs@[i],
            r is Some ==> tab_loading_from(old(self).active(), final(self).active(), r->Some_0@),
            r is None ==> final(self).tabs == old(self).tabs,
    {
        match self.history.go_forward() {
            Some(t) => {
                self.tabs.begin_load(t.clone());
                Some(t)
            },
            None => None,
        }
    }

    pub fn can_go_back(&self) -> (r: bool)
        ensures
            r == (self.history.cursor() > 0),
    {
        self.history.can_go_back()
    }

    pub fn can_go_forward(&self) -> (r: bool)
        ensures
            r == (self.history.cursor() < self.history.targets().len() - 1),
    {
        self.history.can_go_forward()
    }

    /// Open a fresh blank tab, make it active, return its id. The
    /// history log is untouched.
    pub fn new_tab(&mut self) -> (id: usize)
        requires
            old(self).wf(),
            old(self).tabs.next_id < usize::MAX,
        ensures
            final(self).wf(),
            final(self).history == old(self).history,
            id == old(self).tabs.next_id,
            final(self).tabs.tabs@.len() == old(self).tabs.tabs@.len() + 1,
            final(self).tabs.tabs@.subrange(0, old(self).tabs.tabs@.len() as int) == old(
                self,
            ).tabs.tabs@,
            blank_tab(final(self).tabs.tabs@[old(self).tabs.tabs@.len() as int], id as int),
            final(self).tabs.active_index as int == final(self).tabs.tabs@.len() - 1,
            final(self).tabs.next_id == old(self).tabs.next_id + 1,
    {
        self.tabs.create_tab()
    }

    /// Close the tab at `index`; rejected on an out-of-range index or
    /// when it is the last remaining tab. The history log is untouched.
    pub fn close_tab(&mut self, index: usize) -> (r: Result<(), NavError>)
        requires
            old(self).wf(),
        ensures
            final(self).wf(),
            final(self).history == old(self).history,
            final(self).tabs.next_id == old(self).tabs.next_id,
            (index as int) >= old(self).tabs.tabs@.len() ==> r == Err::<(), NavError>(
                NavError::InvalidIndex,
            ) && *final(self) == *old(self),
            (index as int) < old(self).tabs.tabs@.len() && old(self).tabs.tabs@.len() == 1 ==> r
                == Err::<(), NavError>(NavError::EmptyTabSetViolation) && *final(self) == *old(
                self,
            ),
            (index as int) < old(self).tabs.tabs@.len() && old(self).tabs.tabs@.len() > 1 ==> {
                &&& r == Ok::<(), NavError>(())
                &&& final(self).tabs.tabs@ == old(self).tabs.tabs@.remove(index as int)
                &&& final(self).tabs.active_index as int == active_after_close(
                    old(self).tabs.active_index as int,
                    index as int,
                    old(self).tabs.tabs@.len() as int,
                )
            },
    {
        self.tabs.close_tab(index)
    }

    /// Make the tab at `index` active; rejected on an out-of-range
    /// index. The history log is untouched.
    pub fn switch_tab(&mut self, index: usize) -> (r: Result<(), NavError>)
        requires
            old(self).wf(),
        ensures
            final(self).wf(),
            final(self).history == old(self).history,
            final(self).tabs.tabs@ == old(self).tabs.tabs@,
            final(self).tabs.next_id == old(self).tabs.next_id,
            (index as int) < old(self).tabs.tabs@.len() ==> r == Ok::<(), NavError>(())
                && final(self).tabs.active_index == index,
            (index as int) >= old(self).tabs.tabs@.len() ==> r == Err::<(), NavError>(
                NavError::InvalidIndex,
            ) && *final(self) == *old(self),
    {
        self.tabs.switch_active(index)
    }

    /// The active tab; always valid under the non-empty invariant.
    pub fn active_tab(&self) -> (t: &Tab)
        requires
            self.wf(),
        ensures
            *t == self.active(),
    {
        self.tabs.active_tab()
    }

    /// Apply the outcome of a content fetch for `target`: when the
    /// active tab still shows `target`, clear its loading flag and set
    /// its title to the fetched one, or to the derived fallback when
    /// none came. A stale result — the active tab has moved on to
    /// another target — changes nothing.
    pub fn finish_load(&mut self, target: &NavigationTarget, title: Option<String>)
        requires
            old(self).wf(),
        ensures
            final(self).wf(),
            final(self).history == old(self).history,
            final(self).tabs.tabs@.len() == old(self).tabs.tabs@.len(),
            final(self).tabs.active_index == old(self).tabs.active_index,
            final(self).tabs.next_id == old(self).tabs.next_id,
            forall|i: int|
                0 <= i < old(self).tabs.tabs@.len() && i != old(self).tabs.active_index as int
                    ==> final(self).tabs.tabs@[i] == old(self).tabs.tabs@[i],
            old(self).active().target@ == target@ ==> tab_loaded_from(
                old(self).active(),
                final(self).active(),
                (match title {
                    Some(t) => t@,
                    None => title_of(target@),
                }),
            ),
            old(self).active().target@ != target@ ==> *final(self) == *old(self),
    {
        let still_current = str_eq(self.tabs.active_tab().target.s.as_str(), target.s.as_str());
        if still_current {
            let shown = match title {
                Some(t) => t,
                None => get_title_from_url(target.s.as_str()),
            };
            self.tabs.finish_load(shown);
        }
    }
}

} // verus!
