//! The history log: an append-only-with-truncation sequence of visited
//! targets plus a movable cursor supporting back/forward traversal.

use vstd::prelude::*;
use crate::url::NavigationTarget;

verus! {

/// Ordered sequence of visited targets plus a cursor. The cursor
/// indexes the displayed entry; it is `-1` exactly when the log is
/// empty.
pub struct HistoryLog {
    pub entries: Vec<NavigationTarget>,
    pub pos: usize,
}

/// The view of an optional returned target.
pub open spec fn view_opt(r: Option<NavigationTarget>) -> Option<Seq<char>> {
    match r {
        Some(t) => Some(t@),
        None => None,
    }
}

impl HistoryLog {
    /// The visited targets, oldest first.
    pub open spec fn targets(self) -> Seq<Seq<char>> {
        self.entries@.map_values(|t: NavigationTarget| t@)
    }

    /// Index of the displayed entry, or `-1` when the log is empty.
    pub open spec fn cursor(self) -> int {
        if self.entries@.len() == 0 {
            -1
        } else {
            self.pos as int
        }
    }

    /// The cursor indexes a valid entry or the log is empty.
    pub open spec fn wf(self) -> bool {
        &&& self.entries@.len() == 0 ==> self.pos == 0
        &&& self.entries@.len() > 0 ==> (self.pos as int) < self.entries@.len()
    }
}

/// `post` is `pre` after `record(t)`: abandoned forward entries
/// truncated, `t` appended, cursor at the new tail.
pub open spec fn record_step(pre: HistoryLog, post: HistoryLog, t: Seq<char>) -> bool {
    &&& post.targets() == pre.targets().subrange(0, pre.cursor() + 1).push(t)
    &&& post.cursor() == post.targets().len() - 1
}

/// `post` and `r` are the state and result `go_back` leaves from `pre`:
/// the logged sequence itself never changes.
pub open spec fn back_step(pre: HistoryLog, post: HistoryLog, r: Option<Seq<char>>) -> bool {
    &&& post.targets() == pre.targets()
    &&& if pre.cursor() > 0 {
        post.cursor() == pre.cursor() - 1 && r == Some(pre.targets()[pre.cursor() - 1])
    } else {
        post.cursor() == pre.cursor() && r == None::<Seq<char>>
    }
}

/// `post` and `r` are the state and result `go_forward` leaves from
/// `pre`: the logged sequence itself never changes.
pub open spec fn forward_step(pre: HistoryLog, post: HistoryLog, r: Option<Seq<char>>) -> bool {
    &&& post.targets() == pre.targets()
    &&& if pre.cursor() < pre.targets().len() - 1 {
        post.cursor() == pre.cursor() + 1 && r == Some(pre.targets()[pre.cursor() + 1])
    } else {
        post.cursor() == pre.cursor() && r == None::<Seq<char>>
    }
}

impl HistoryLog {
    pub fn new() -> (h: HistoryLog)
        ensures
            h.wf(),
            h.targets().len() == 0,
            h.cursor() == -1,
    {
        HistoryLog { entries: Vec::new(), pos: 0 }
    }

    /// Record a newly visited target: truncate everything after the
    /// cursor, append, move the cursor to the tail. Always succeeds.
    pub fn record(&mut self, t: NavigationTarget)
        requires
            old(self).wf(),
        ensures
            final(self).wf(),
            record_step(*old(self), *final(self), t@),
    {
        if self.entries.len() > 0 {
            let keep = self.pos + 1;
            self.entries.truncate(keep);
        }
        self.entries.push(t);
        self.pos = self.entries.len() - 1;
        proof {
            assert(final(self).targets() =~= old(self).targets().subrange(
                0,
                old(self).cursor() + 1,
            ).push(t@));
        }
    }

    /// Step the cursor back and return the entry it now rests on, or
    /// nothing (and no mutation) when there is nowhere to go.
    pub fn go_back(&mut self) -> (r: Option<NavigationTarget>)
        requires
            old(self).wf(),
        ensures
            final(self).wf(),
            back_step(*old(self), *final(self), view_opt(r)),
    {
        if self.entries.len() > 0 && self.pos > 0 {
            self.pos = self.pos - 1;
            let t = self.entries[self.pos].clone();
            Some(t)
        } else {
            None
        }
    }

    /// Step the cursor forward and return the entry it now rests on, or
    /// nothing (and no mutation) when there is nowhere to go.
    pub fn go_forward(&mut self) -> (r: Option<NavigationTarget>)
        requires
            old(self).wf(),
        ensures
            final(self).wf(),
            forward_step(*old(self), *final(self), view_opt(r)),
    {
        if self.entries.len() > 0 && self.pos < self.entries.len() - 1 {
            self.pos = self.pos + 1;
            let t = self.entries[self.pos].clone();
            Some(t)
        } else {
            None
        }
    }

    pub fn can_go_back(&self) -> (r: bool)
        ensures
            r == (self.cursor() > 0),
    {
        self.entries.len() > 0 && self.pos > 0
    }

    pub fn can_go_forward(&self) -> (r: bool)
        ensures
            r == (self.cursor() < self.targets().len() - 1),
    {
        self.entries.len() > 0 && self.pos < self.entries.len() - 1
    }
}

/// Law: after recording `a`, `b`, `c` into a fresh log, going back
/// yields `b`, then `a`, then nothing.
pub proof fn lemma_back_retraces_records(
    h0: HistoryLog,
    h1: HistoryLog,
    h2: HistoryLog,
    h3: HistoryLog,
    h4: HistoryLog,
    h5: HistoryLog,
    h6: HistoryLog,
    a: Seq<char>,
    b: Seq<char>,
    c: Seq<char>,
    r1: Option<Seq<char>>,
    r2: Option<Seq<char>>,
    r3: Option<Seq<char>>,
)
    requires
        h0.targets().len() == 0,
        record_step(h0, h1, a),
        record_step(h1, h2, b),
        record_step(h2, h3, c),
        back_step(h3, h4, r1),
        back_step(h4, h5, r2),
        back_step(h5, h6, r3),
    ensures
        r1 == Some(b),
        r2 == Some(a),
        r3 == None::<Seq<char>>,
{
    assert(h1.targets() =~= seq![a]);
    assert(h2.targets() =~= seq![a, b]);
    assert(h3.targets() =~= seq![a, b, c]);
}

/// Law: recording after going back truncates the abandoned forward
/// entry: record `a`, record `b`, go back, record `c` leaves exactly
/// `[a, c]`, and going forward then yields nothing.
pub proof fn lemma_record_truncates_forward(
    h0: HistoryLog,
    h1: HistoryLog,
    h2: HistoryLog,
    h3: HistoryLog,
    h4: HistoryLog,
    h5: HistoryLog,
    a: Seq<char>,
    b: Seq<char>,
    c: Seq<char>,
    rb: Option<Seq<char>>,
    rf: Option<Seq<char>>,
)
    requires
        h0.targets().len() == 0,
        record_step(h0, h1, a),
        record_step(h1, h2, b),
        back_step(h2, h3, rb),
        record_step(h3, h4, c),
        forward_step(h4, h5, rf),
    ensures
        h4.targets() == seq![a, c],
        rf == None::<Seq<char>>,
{
    assert(h1.targets() =~= seq![a]);
    assert(h2.targets() =~= seq![a, b]);
    assert(h4.targets() =~= seq![a, c]);
}

proof fn lemma_traversal_preserves_log_to(
    hs: Seq<HistoryLog>,
    rs: Seq<Option<Seq<char>>>,
    i: int,
)
    requires
        hs.len() == rs.len() + 1,
        forall|k: int|
            0 <= k < rs.len() ==> back_step(hs[k], hs[k + 1], rs[k]) || forward_step(
                hs[k],
                hs[k + 1],
                rs[k],
            ),
        0 <= i < hs.len(),
    ensures
        hs[i].targets() == hs[0].targets(),
    decreases i,
{
    if i > 0 {
        lemma_traversal_preserves_log_to(hs, rs, i - 1);
        assert(back_step(hs[i - 1], hs[i], rs[i - 1]) || forward_step(hs[i - 1], hs[i], rs[i - 1]));
    }
}

/// Law: any number of consecutive back/forward traversals leaves the
/// logged sequence (and so its length) unchanged.
pub proof fn lemma_traversal_preserves_log(hs: Seq<HistoryLog>, rs: Seq<Option<Seq<char>>>)
    requires
        hs.len() == rs.len() + 1,
        forall|k: int|
            0 <= k < rs.len() ==> back_step(hs[k], hs[k + 1], rs[k]) || forward_step(
                hs[k],
                hs[k + 1],
                rs[k],
            ),
    ensures
        forall|i: int| 0 <= i < hs.len() ==> #[trigger] hs[i].targets() == hs[0].targets(),
{
    assert forall|i: int| 0 <= i < hs.len() implies #[trigger] hs[i].targets()
        == hs[0].targets() by {
        lemma_traversal_preserves_log_to(hs, rs, i);
    }
}

} // verus!
