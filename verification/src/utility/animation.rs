//! The animation state machine.
//!
//! An [`Animation`] owns a set of named frame sequences over a shared atlas
//! (addressed as cells of a fixed grid), a currently displayed cell, the
//! currently selected sequence and an optional higher-priority *intercepted*
//! sequence, and a frame timer. `select`, `intercept`, `deselect` and
//! `advance` are the whole interface; each one's effect is given exactly by a
//! spec-level transition function, and the laws about those transitions
//! (re-selection does not restart, a non-looping intercept finishes exactly
//! once and then holds its last frame) are proved below.

use crate::utility::str_eq;
use vstd::prelude::*;

verus! {

/// Error for selecting or intercepting a name absent from the known set.
/// A missing name signals a content/configuration mismatch, so callers
/// treat it as fatal rather than recoverable.
#[derive(Clone, Copy, PartialEq, Eq, Structural, Debug)]
pub enum AnimationSelectError {
    NotFound,
}

/// One named frame sequence: an ordered, non-empty run of atlas cells,
/// looping or played once.
pub struct AnimSeq {
    pub name: String,
    pub looping: bool,
    pub cells: Vec<(u16, u16)>,
}

impl AnimSeq {
    /// A sequence must hold at least one cell, so the frame position is
    /// always in bounds.
    pub open spec fn wf(self) -> bool {
        self.cells.len() > 0
    }
}

/// No two sequences share a name, so a name picks out one sequence.
pub open spec fn seq_names_unique(s: Seq<AnimSeq>) -> bool {
    forall|i: int, j: int|
        0 <= i < j < s.len() ==> (#[trigger] s[i].name@) != (#[trigger] s[j].name@)
}

/// Whether some sequence carries this name.
pub open spec fn seq_has_name(s: Seq<AnimSeq>, name: Seq<char>) -> bool {
    exists|i: int| 0 <= i < s.len() && (#[trigger] s[i].name@) == name
}

/// Index of the sequence carrying this name (meaningful when present).
pub open spec fn seq_index_of(s: Seq<AnimSeq>, name: Seq<char>) -> int {
    choose|i: int| 0 <= i < s.len() && (#[trigger] s[i].name@) == name
}

/// With unique names, any position that matches a name is the one that
/// `seq_index_of` picks.
pub proof fn lemma_index_of_unique(s: Seq<AnimSeq>, name: Seq<char>, i: int)
    requires
        seq_names_unique(s),
        0 <= i < s.len(),
        s[i].name@ == name,
    ensures
        seq_has_name(s, name),
        seq_index_of(s, name) == i,
{
    assert(seq_has_name(s, name));
    let j = seq_index_of(s, name);
    assert(0 <= j < s.len() && s[j].name@ == name);
    if i < j {
        assert(s[i].name@ != s[j].name@);
    } else if j < i {
        assert(s[j].name@ != s[i].name@);
    }
}

/// The frame-atlas indexer with select/intercept/deselect transitions and a
/// timed frame advance.
pub struct Animation {
    /// Number of cells across and down the shared atlas.
    pub cell_grid: (u16, u16),
    /// The known named sequences.
    pub frames: Vec<AnimSeq>,
    /// Cell shown when nothing drives the display (the idle cell).
    pub default_cell: (u16, u16),
    /// Cell currently displayed.
    pub current: (u16, u16),
    /// Index into `frames` of the sequence chosen by `select`.
    pub selected: Option<usize>,
    /// Index into `frames` of the higher-priority transient sequence.
    pub intercepted: Option<usize>,
    /// Position within the active sequence.
    pub frame: usize,
    /// Timestamp in milliseconds of the last frame advance.
    pub last_advance_ms: u64,
    /// Milliseconds between frame advances.
    pub frame_interval_ms: u64,
}

impl Animation {
    /// The sequence driving the displayed frame: the intercept when present,
    /// else the selection.
    pub open spec fn active(self) -> Option<usize> {
        if self.intercepted is Some {
            self.intercepted
        } else {
            self.selected
        }
    }

    pub open spec fn has_anim(self, name: Seq<char>) -> bool {
        seq_has_name(self.frames@, name)
    }

    pub open spec fn index_of(self, name: Seq<char>) -> int {
        seq_index_of(self.frames@, name)
    }

    /// Internal invariant: names unique, sequences non-empty, indices and
    /// the frame position in bounds.
    pub open spec fn wf(self) -> bool {
        &&& seq_names_unique(self.frames@)
        &&& forall|i: int| 0 <= i < self.frames@.len() ==> (#[trigger] self.frames@[i]).wf()
        &&& (self.selected matches Some(s) ==> s < self.frames@.len())
        &&& (self.intercepted matches Some(s) ==> s < self.frames@.len())
        &&& (self.active() matches Some(a) ==> self.frame < self.frames@[a as int].cells@.len())
    }

    /// State after `select(name)`: nothing changes when the name is absent,
    /// when an intercept is running, or when the name is the one already
    /// selected; otherwise the selection moves to the name and the frame
    /// position restarts at the sequence start.
    pub open spec fn spec_select(self, name: Seq<char>) -> Animation {
        if !self.has_anim(name) {
            self
        } else if self.intercepted is Some {
            self
        } else if (self.selected matches Some(s) && self.frames@[s as int].name@ == name) {
            self
        } else {
            let i = self.index_of(name);
            Animation {
                selected: Some(i as usize),
                frame: 0,
                current: self.frames@[i].cells@[0],
                ..self
            }
        }
    }

    /// State after `intercept(name)`: nothing changes when the name is absent
    /// or already intercepting; otherwise the intercept moves to the name and
    /// starts at the sequence start.
    pub open spec fn spec_intercept(self, name: Seq<char>) -> Animation {
        if !self.has_anim(name) {
            self
        } else if (self.intercepted matches Some(s) && self.frames@[s as int].name@ == name) {
            self
        } else {
            let i = self.index_of(name);
            Animation {
                intercepted: Some(i as usize),
                frame: 0,
                current: self.frames@[i].cells@[0],
                ..self
            }
        }
    }

    /// State after `deselect()`: the selection is cleared; the displayed cell
    /// reverts to the idle cell only when no intercept is running.
    pub open spec fn spec_deselect(self) -> Animation {
        if self.intercepted is Some {
            Animation { selected: None, ..self }
        } else {
            Animation { selected: None, frame: 0, current: self.default_cell, ..self }
        }
    }

    /// State and "finished" report after `advance(now)`. Nothing moves until
    /// a full frame interval has elapsed. When it has: the active sequence
    /// steps one cell; at its end a looping sequence wraps to the start,
    /// while a non-looping one holds its last cell, reports finished, and
    /// stops driving the display (the intercept or selection that ran it is
    /// cleared).
    pub open spec fn spec_advance(self, now: u64) -> (Animation, bool) {
        if now < self.last_advance_ms + self.frame_interval_ms {
            (self, false)
        } else {
            match self.active() {
                None => (Animation { last_advance_ms: now, ..self }, false),
                Some(a) => {
                    let sq = self.frames@[a as int];
                    if self.frame + 1 < sq.cells@.len() {
                        (
                            Animation {
                                last_advance_ms: now,
                                frame: (self.frame + 1) as usize,
                                current: sq.cells@[self.frame + 1],
                                ..self
                            },
                            false,
                        )
                    } else if sq.looping {
                        (
                            Animation {
                                last_advance_ms: now,
                                frame: 0,
                                current: sq.cells@[0],
                                ..self
                            },
                            false,
                        )
                    } else if self.intercepted is Some {
                        (
                            Animation { last_advance_ms: now, frame: 0, intercepted: None, ..self },
                            true,
                        )
                    } else {
                        (
                            Animation { last_advance_ms: now, frame: 0, selected: None, ..self },
                            true,
                        )
                    }
                },
            }
        }
    }

    /// A fresh machine: nothing selected, nothing intercepting, the idle
    /// cell displayed.
    pub fn new(
        cell_grid: (u16, u16),
        frames: Vec<AnimSeq>,
        default_cell: (u16, u16),
        frame_interval_ms: u64,
    ) -> (r: Animation)
        requires
            seq_names_unique(frames@),
            forall|i: int| 0 <= i < frames@.len() ==> (#[trigger] frames@[i]).wf(),
        ensures
            r == (Animation {
                cell_grid,
                frames,
                default_cell,
                current: default_cell,
                selected: None,
                intercepted: None,
                frame: 0,
                last_advance_ms: 0,
                frame_interval_ms,
            }),
            r.wf(),
    {
        Animation {
            cell_grid,
            frames,
            default_cell,
            current: default_cell,
            selected: None,
            intercepted: None,
            frame: 0,
            last_advance_ms: 0,
            frame_interval_ms,
        }
    }

    /// Whether a transient (intercepted) sequence is currently running.
    pub fn has_intercept(&self) -> (r: bool)
        ensures
            r == (self.intercepted is Some),
    {
        self.intercepted.is_some()
    }

    /// Sets the active (non-intercepted) sequence. Fails, changing nothing,
    /// exactly when the name is unknown. Re-selecting the sequence already
    /// selected does not restart it; selecting a different one restarts at
    /// the sequence start. A running intercept is not disturbed.
    pub fn select(&mut self, name: &str) -> (r: Result<(), AnimationSelectError>)
        requires
            old(self).wf(),
        ensures
            *final(self) == old(self).spec_select(name@),
            final(self).wf(),
            r is Ok <==> old(self).has_anim(name@),
            r is Err ==> r == Err::<(), AnimationSelectError>(AnimationSelectError::NotFound)
                && *final(self) == *old(self),
    {
        match find_anim(&self.frames, name) {
            None => Err(AnimationSelectError::NotFound),
            Some(i) => {
                proof {
                    lemma_index_of_unique(self.frames@, name@, i as int);
                }
                if self.intercepted.is_none() {
                    let same: bool = match self.selected {
                        Some(s) => s == i,
                        None => false,
                    };
                    if !same {
                        self.selected = Some(i);
                        self.frame = 0;
                        self.current = self.frames[i].cells[0];
                    }
                }
                Ok(())
            },
        }
    }

    /// Sets the higher-priority transient sequence. Fails, changing nothing,
    /// exactly when the name is unknown. A newly triggered intercept starts
    /// at the sequence start; re-intercepting the running one does not
    /// restart it.
    pub fn intercept(&mut self, name: &str) -> (r: Result<(), AnimationSelectError>)
        requires
            old(self).wf(),
        ensures
            *final(self) == old(self).spec_intercept(name@),
            final(self).wf(),
            r is Ok <==> old(self).has_anim(name@),
            r is Err ==> r == Err::<(), AnimationSelectError>(AnimationSelectError::NotFound)
                && *final(self) == *old(self),
    {
        match find_anim(&self.frames, name) {
            None => Err(AnimationSelectError::NotFound),
            Some(i) => {
                proof {
                    lemma_index_of_unique(self.frames@, name@, i as int);
                }
                let same: bool = match self.intercepted {
                    Some(s) => s == i,
                    None => false,
                };
                if !same {
                    self.intercepted = Some(i);
                    self.frame = 0;
                    self.current = self.frames[i].cells[0];
                }
                Ok(())
            },
        }
    }

    /// Clears the active (non-intercepted) selection; with no intercept
    /// running, the displayed cell reverts to the idle cell.
    pub fn deselect(&mut self)
        requires
            old(self).wf(),
        ensures
            *final(self) == old(self).spec_deselect(),
            final(self).wf(),
    {
        self.selected = None;
        if self.intercepted.is_none() {
            self.frame = 0;
            self.current = self.default_cell;
        }
    }

    /// Advances the frame timer to `now`, stepping the active sequence when a
    /// full interval has elapsed. Returns true exactly when a non-looping
    /// sequence completed on this call.
    pub fn advance(&mut self, now: u64) -> (finished: bool)
        requires
            old(self).wf(),
            old(self).last_advance_ms <= now,
        ensures
            (*final(self), finished) == old(self).spec_advance(now),
            final(self).wf(),
    {
        if now - self.last_advance_ms < self.frame_interval_ms {
            return false;
        }
        self.last_advance_ms = now;
        let active: Option<usize> = if self.intercepted.is_some() {
            self.intercepted
        } else {
            self.selected
        };
        match active {
            None => false,
            Some(a) => {
                let len = self.frames[a].cells.len();
                if self.frame + 1 < len {
                    self.frame = self.frame + 1;
                    self.current = self.frames[a].cells[self.frame];
                    false
                } else if self.frames[a].looping {
                    self.frame = 0;
                    self.current = self.frames[a].cells[0];
                    false
                } else {
                    if self.intercepted.is_some() {
                        self.intercepted = None;
                    } else {
                        self.selected = None;
                    }
                    self.frame = 0;
                    true
                }
            },
        }
    }
}

impl Animation {
    /// One advance taken exactly at the frame-interval boundary.
    pub open spec fn spec_advance_fired(self) -> (Animation, bool) {
        self.spec_advance((self.last_advance_ms + self.frame_interval_ms) as u64)
    }

    /// `n` advances, each taken exactly at the frame-interval boundary.
    pub open spec fn spec_advance_fired_n(self, n: nat) -> Animation
        decreases n,
    {
        if n == 0 {
            self
        } else {
            self.spec_advance_fired_n((n - 1) as nat).spec_advance_fired().0
        }
    }
}

/// Law: selecting the name that is already selected a second time changes
/// nothing — in particular the frame position is left where it was.
pub proof fn lemma_select_same_twice(a: Animation, name: Seq<char>)
    requires
        a.wf(),
    ensures
        a.spec_select(name).spec_select(name) == a.spec_select(name),
{
    let b = a.spec_select(name);
    if a.has_anim(name) && !(a.intercepted is Some) {
        let i = a.index_of(name);
        assert(0 <= i < a.frames@.len() && a.frames@[i].name@ == name);
    }
}

/// Law: with no intercept running, selecting a present name different from
/// the one already selected restarts the frame position at the sequence
/// start and moves the selection to the new name.
pub proof fn lemma_select_restart(a: Animation, first: Seq<char>, second: Seq<char>)
    requires
        a.wf(),
        a.intercepted is None,
        a.has_anim(first),
        a.has_anim(second),
        first != second,
    ensures
        a.spec_select(first).spec_select(second).frame == 0,
        a.spec_select(first).spec_select(second).selected
            == Some(a.index_of(second) as usize),
{
    let b = a.spec_select(first);
    let i1 = a.index_of(first);
    assert(0 <= i1 < a.frames@.len() && a.frames@[i1].name@ == first);
    let i2 = a.index_of(second);
    assert(0 <= i2 < a.frames@.len() && a.frames@[i2].name@ == second);
    assert(a.frames.len() == a.frames@.len());
    assert(b.frames == a.frames);
    lemma_index_of_unique(b.frames@, second, i2);
    match b.selected {
        Some(s) => {
            assert(b.frames@[s as int].name@ == first);
        },
        None => {},
    }
}

/// Law: while a non-looping intercepted sequence of length `N` is running
/// from its start, the first `N - 1` boundary advances step through the
/// cells in order — after `j` advances the machine displays cell `j` — and
/// none of them reports finished.
pub proof fn lemma_nonloop_intercept_runs(a: Animation, k: usize, j: nat)
    requires
        a.wf(),
        a.intercepted == Some(k),
        !a.frames@[k as int].looping,
        a.frame == 0,
        a.current == a.frames@[k as int].cells@[0],
        j < a.frames@[k as int].cells@.len(),
        a.last_advance_ms + j * a.frame_interval_ms <= u64::MAX,
    ensures
        a.spec_advance_fired_n(j) == (Animation {
            current: a.frames@[k as int].cells@[j as int],
            frame: j as usize,
            last_advance_ms: (a.last_advance_ms + j * a.frame_interval_ms) as u64,
            ..a
        }),
        forall|i: nat|
            i < j ==> !(#[trigger] a.spec_advance_fired_n(i)).spec_advance_fired().1,
    decreases j,
{
    let interval = a.frame_interval_ms as int;
    if j == 0 {
        assert(j * interval == 0) by (nonlinear_arith)
            requires
                j == 0,
        ;
    } else {
        assert((j - 1) * interval + interval == j * interval) by (nonlinear_arith);
        assert(0 <= (j - 1) * interval <= j * interval) by (nonlinear_arith)
            requires
                j >= 1,
                interval >= 0,
        ;
        lemma_nonloop_intercept_runs(a, k, (j - 1) as nat);
        let b = a.spec_advance_fired_n((j - 1) as nat);
        let fired = b.spec_advance_fired();
        assert(b.frame + 1 < b.frames@[k as int].cells@.len());
        assert(a.spec_advance_fired_n(j) == fired.0);
        assert forall|i: nat| i < j implies !(#[trigger] a.spec_advance_fired_n(
            i,
        )).spec_advance_fired().1 by {
            if i < j - 1 {
            } else {
                assert(a.spec_advance_fired_n(i) == b);
            }
        }
    }
}

/// Law: the advance after the last cell of a non-looping intercepted
/// sequence reports finished, clears the intercept, and holds the displayed
/// cell where it was; the selection is untouched.
pub proof fn lemma_nonloop_intercept_finishes(a: Animation, k: usize)
    requires
        a.wf(),
        a.intercepted == Some(k),
        !a.frames@[k as int].looping,
        a.frame == a.frames@[k as int].cells@.len() - 1,
        a.last_advance_ms + a.frame_interval_ms <= u64::MAX,
    ensures
        a.spec_advance_fired() == (
            Animation {
                intercepted: None::<usize>,
                frame: 0,
                last_advance_ms: (a.last_advance_ms + a.frame_interval_ms) as u64,
                ..a
            },
            true,
        ),
{
}

/// Law: with nothing selected and nothing intercepting, boundary advances
/// change only the timer: the displayed cell stays, and no advance ever
/// reports finished.
pub proof fn lemma_idle_advance_holds(a: Animation, m: nat)
    requires
        a.wf(),
        a.intercepted is None,
        a.selected is None,
        a.last_advance_ms + m * a.frame_interval_ms <= u64::MAX,
    ensures
        a.spec_advance_fired_n(m) == (Animation {
            last_advance_ms: (a.last_advance_ms + m * a.frame_interval_ms) as u64,
            ..a
        }),
        forall|i: nat|
            i < m ==> !(#[trigger] a.spec_advance_fired_n(i)).spec_advance_fired().1,
    decreases m,
{
    let interval = a.frame_interval_ms as int;
    if m == 0 {
        assert(m * interval == 0) by (nonlinear_arith)
            requires
                m == 0,
        ;
    } else {
        assert((m - 1) * interval + interval == m * interval) by (nonlinear_arith);
        assert(0 <= (m - 1) * interval <= m * interval) by (nonlinear_arith)
            requires
                m >= 1,
                interval >= 0,
        ;
        lemma_idle_advance_holds(a, (m - 1) as nat);
        let b = a.spec_advance_fired_n((m - 1) as nat);
        assert forall|i: nat| i < m implies !(#[trigger] a.spec_advance_fired_n(
            i,
        )).spec_advance_fired().1 by {
            if i == m - 1 {
                assert(a.spec_advance_fired_n(i) == b);
            }
        }
    }
}

/// Law: an intercepted non-looping sequence of length `N`, advanced at
/// interval boundaries with nothing selected behind it, steps through its
/// cells, reports finished exactly once — at the `N`th advance — and from
/// then on holds its last cell.
pub proof fn lemma_nonloop_completion(a: Animation, k: usize, m: nat)
    requires
        a.wf(),
        a.intercepted == Some(k),
        a.selected is None,
        !a.frames@[k as int].looping,
        a.frame == 0,
        a.current == a.frames@[k as int].cells@[0],
        m >= a.frames@[k as int].cells@.len(),
        a.last_advance_ms + m * a.frame_interval_ms <= u64::MAX,
    ensures
        forall|i: nat|
            i < m ==> ((#[trigger] a.spec_advance_fired_n(i)).spec_advance_fired().1 <==> i
                + 1 == a.frames@[k as int].cells@.len()),
        forall|i: nat|
            a.frames@[k as int].cells@.len() <= i <= m ==> (#[trigger] a.spec_advance_fired_n(
                i,
            )).current == a.frames@[k as int].cells@.last()
                && a.spec_advance_fired_n(i).intercepted is None
                && a.spec_advance_fired_n(i).selected is None,
    decreases m,
{
    let n = a.frames@[k as int].cells@.len();
    let interval = a.frame_interval_ms as int;
    assert((n - 1) * interval <= m * interval && n * interval <= m * interval && 0 <= (n - 1)
        * interval) by (nonlinear_arith)
        requires
            1 <= n <= m,
            interval >= 0,
    ;
    lemma_nonloop_intercept_runs(a, k, (n - 1) as nat);
    let b = a.spec_advance_fired_n((n - 1) as nat);
    assert((n - 1) * interval + interval == n * interval) by (nonlinear_arith);
    lemma_nonloop_intercept_finishes(b, k);
    let c = a.spec_advance_fired_n(n as nat);
    assert(c == b.spec_advance_fired().0);
    assert(c.current == a.frames@[k as int].cells@.last());
    assert forall|i: nat| i < m implies ((#[trigger] a.spec_advance_fired_n(
        i,
    )).spec_advance_fired().1 <==> i + 1 == n) by {
        if i < n - 1 {
        } else if i + 1 == n {
            assert(a.spec_advance_fired_n(i) == b);
        } else {
            assert(i * interval <= m * interval) by (nonlinear_arith)
                requires
                    i <= m,
                    interval >= 0,
            ;
            lemma_fired_n_shift(a, c, n as nat, (i - n) as nat);
            let s = a.spec_advance_fired_n(i);
            assert(s.intercepted is None && s.selected is None);
        }
    }
    assert forall|i: nat| n <= i <= m implies (#[trigger] a.spec_advance_fired_n(i)).current
        == a.frames@[k as int].cells@.last() && a.spec_advance_fired_n(i).intercepted is None
        && a.spec_advance_fired_n(i).selected is None by {
        assert(i * interval <= m * interval) by (nonlinear_arith)
            requires
                i <= m,
                interval >= 0,
        ;
        lemma_fired_n_shift(a, c, n as nat, (i - n) as nat);
    }
}

/// After `n` boundary advances reach a state with nothing active, each
/// further boundary advance only moves the timer.
proof fn lemma_fired_n_shift(a: Animation, c: Animation, n: nat, e: nat)
    requires
        c == a.spec_advance_fired_n(n),
        c.wf(),
        c.intercepted is None,
        c.selected is None,
        c.frame_interval_ms == a.frame_interval_ms,
        c.last_advance_ms == a.last_advance_ms + n * a.frame_interval_ms,
        a.last_advance_ms + (n + e) * a.frame_interval_ms <= u64::MAX,
    ensures
        a.spec_advance_fired_n((n + e) as nat) == (Animation {
            last_advance_ms: (a.last_advance_ms + (n + e) * a.frame_interval_ms) as u64,
            ..c
        }),
    decreases e,
{
    let interval = a.frame_interval_ms as int;
    if e == 0 {
        assert(a.spec_advance_fired_n((n + 0) as nat) == c);
        assert((Animation {
            last_advance_ms: (a.last_advance_ms + n * interval) as u64,
            ..c
        }) == c);
    } else {
        assert((n + e - 1) * interval + interval == (n + e) * interval) by (nonlinear_arith);
        assert((n) * interval <= (n + e - 1) * interval) by (nonlinear_arith)
            requires
                interval >= 0,
                e >= 1,
        ;
        assert(0 <= n * interval) by (nonlinear_arith)
            requires
                interval >= 0,
        ;
        lemma_fired_n_shift(a, c, n, (e - 1) as nat);
        let b = a.spec_advance_fired_n((n + e - 1) as nat);
        assert(a.spec_advance_fired_n((n + e) as nat) == b.spec_advance_fired().0);
    }
}

/// Whether `cells` is exactly `count` cells of row `row`, starting at
/// column `start_col` and advancing one column per frame.
pub open spec fn is_cell_run(cells: Seq<(u16, u16)>, start_col: u16, count: int, row: u16) -> bool {
    &&& cells.len() == count
    &&& forall|i: int| 0 <= i < count ==> (#[trigger] cells[i]) == (((start_col + i) as u16), row)
}

/// A horizontal run of atlas cells: `count` cells of row `row`, starting
/// at column `start_col`.
pub fn cell_run(start_col: u16, count: u16, row: u16) -> (r: Vec<(u16, u16)>)
    requires
        start_col + count <= u16::MAX,
    ensures
        is_cell_run(r@, start_col, count as int, row),
{
    let mut cells: Vec<(u16, u16)> = Vec::new();
    let mut c: u16 = 0;
    while c < count
        invariant
            c <= count,
            start_col + count <= u16::MAX,
            cells@.len() == c as nat,
            forall|i: int| 0 <= i < c ==> cells@[i] == (((start_col + i) as u16), row),
        decreases count - c,
    {
        cells.push((start_col + c, row));
        c = c + 1;
    }
    cells
}

/// Position of the sequence carrying `name`, scanned front to back.
fn find_anim(frames: &Vec<AnimSeq>, name: &str) -> (r: Option<usize>)
    ensures
        match r {
            Some(i) => i < frames@.len() && frames@[i as int].name@ == name@,
            None => !seq_has_name(frames@, name@),
        },
{
    let mut i: usize = 0;
    while i < frames.len()
        invariant
            i <= frames@.len(),
            forall|j: int| 0 <= j < i ==> (#[trigger] frames@[j].name@) != name@,
        decreases frames@.len() - i,
    {
        if str_eq(frames[i].name.as_str(), name) {
            return Some(i);
        }
        i = i + 1;
    }
    None
}

} // verus!
