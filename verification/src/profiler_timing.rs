//! Timestamp slots of a profiled substep: every timed compute pass reserves
//! a begin and an end slot of the query set, in order, and never more slots
//! than the set holds; after the substep the tick difference of each pass
//! is read back from its two slots.
use vstd::prelude::*;

use crate::schedule::{label_category, label_display, label_id, MpmPassLabel};
use crate::text::{chars_to_string, push_decimal, push_str, str_chars};

verus! {

/// Labels of a timed pass: report key, display name and category.
#[derive(Clone, Debug, PartialEq, Eq)]
pub struct ProfilePassLabel {
    pub id: String,
    pub display: String,
    pub category: String,
}

pub struct LabelView {
    pub id: Seq<char>,
    pub display: Seq<char>,
    pub category: Seq<char>,
}

impl View for ProfilePassLabel {
    type V = LabelView;

    open spec fn view(&self) -> LabelView {
        LabelView { id: self.id@, display: self.display@, category: self.category@ }
    }
}

impl ProfilePassLabel {
    pub fn new(id: &str, display: &str, category: &str) -> (r: Self)
        ensures
            r@ == (LabelView { id: id@, display: display@, category: category@ }),
    {
        ProfilePassLabel {
            id: chars_to_string(&str_chars(id)),
            display: chars_to_string(&str_chars(display)),
            category: chars_to_string(&str_chars(category)),
        }
    }

    /// The labels of an MPM pass.
    pub fn mpm(label: MpmPassLabel) -> (r: Self)
        ensures
            r@ == (LabelView {
                id: label_id(label),
                display: label_display(label),
                category: label_category(label),
            }),
    {
        Self::new(label.id(), label.display(), label.category())
    }
}

/// One timed pass and its two slots.
pub struct TimedScope {
    pub label: ProfilePassLabel,
    pub begin: u32,
    pub end: u32,
}

pub struct ScopeView {
    pub label: LabelView,
    pub begin: u32,
    pub end: u32,
}

impl View for TimedScope {
    type V = ScopeView;

    open spec fn view(&self) -> ScopeView {
        ScopeView { label: self.label@, begin: self.begin, end: self.end }
    }
}

/// Slots handed out so far within one substep.
pub struct FrameRecorder {
    timed: bool,
    capacity: u32,
    next: u32,
    scopes: Vec<TimedScope>,
}

pub struct RecorderView {
    /// Whether the run has a timestamp query set at all.
    pub timed: bool,
    pub capacity: u32,
    pub next: u32,
    pub scopes: Seq<ScopeView>,
}

/// A recorder is well formed when its passes hold the slots `2i` and
/// `2i + 1` in order, the next free slot follows the last pass, and a timed
/// recorder never hands out more slots than its query set holds (an untimed
/// one hands out none).
pub open spec fn recorder_wf(v: RecorderView) -> bool {
    &&& v.next == 2 * v.scopes.len()
    &&& forall|i: int|
        0 <= i < v.scopes.len() ==> #[trigger] v.scopes[i].begin == 2 * i && v.scopes[i].end == 2
            * i + 1
    &&& if v.timed {
        v.next <= v.capacity
    } else {
        v.next == 0 && v.capacity == 0
    }
}

impl FrameRecorder {
    pub closed spec fn model(&self) -> RecorderView {
        RecorderView {
            timed: self.timed,
            capacity: self.capacity,
            next: self.next,
            scopes: self.scopes@.map_values(|s: TimedScope| s@),
        }
    }
}

impl View for FrameRecorder {
    type V = RecorderView;

    open spec fn view(&self) -> RecorderView {
        self.model()
    }
}

pub open spec fn capacity_message(capacity: u32, needed: int) -> Seq<char> {
    "query set capacity "@ + crate::text::decimal(capacity as nat) + " exceeded ("@
        + crate::text::decimal(needed as nat) + " slots needed); increase the profiler timestamp capacity estimate"@
}

impl FrameRecorder {
    /// A recorder for a run whose query set holds `timer_capacity` slots, or
    /// that has no query set.
    pub fn new(timer_capacity: Option<u32>) -> (r: Self)
        ensures
            recorder_wf(r@),
            r@.timed == timer_capacity is Some,
            r@.capacity == match timer_capacity {
                Some(c) => c,
                None => 0,
            },
            r@.scopes.len() == 0,
    {
        let r = FrameRecorder {
            timed: timer_capacity.is_some(),
            capacity: match timer_capacity {
                Some(c) => c,
                None => 0,
            },
            next: 0,
            scopes: Vec::new(),
        };
        assert(r@.scopes =~= Seq::<ScopeView>::empty());
        r
    }

    pub fn next(&self) -> (r: u32)
        ensures
            r == self@.next,
    {
        self.next
    }

    pub fn capacity(&self) -> (r: u32)
        ensures
            r == self@.capacity,
    {
        self.capacity
    }

    pub fn is_timed(&self) -> (r: bool)
        ensures
            r == self@.timed,
    {
        self.timed
    }

    pub fn scopes(&self) -> (r: &Vec<TimedScope>)
        ensures
            r@.map_values(|s: TimedScope| s@) == self@.scopes,
    {
        &self.scopes
    }

    /// Takes the next two slots for a pass labelled `label`.
    pub fn reserve(&mut self, label: ProfilePassLabel) -> (r: (u32, u32))
        requires
            recorder_wf(old(self)@),
            old(self)@.next + 2 <= old(self)@.capacity,
        ensures
            recorder_wf(final(self)@),
            r == (old(self)@.next, (old(self)@.next + 1) as u32),
            final(self)@ == (RecorderView {
                next: (old(self)@.next + 2) as u32,
                scopes: old(self)@.scopes.push(ScopeView { label: label@, begin: r.0, end: r.1 }),
                ..old(self)@
            }),
    {
        let begin = self.next;
        let end = self.next + 1;
        self.next = self.next + 2;
        let ghost before = self.scopes@;
        let ghost lv = label@;
        self.scopes.push(TimedScope { label, begin, end });
        assert(self.scopes@.map_values(|s: TimedScope| s@) =~= before.map_values(
            |s: TimedScope| s@,
        ).push(ScopeView { label: lv, begin, end }));
        (begin, end)
    }

    /// Takes the next two slots, or says how many the query set would have
    /// needed; a failed reservation changes nothing.
    pub fn try_reserve(&mut self, label: ProfilePassLabel) -> (r: Result<(u32, u32), String>)
        requires
            recorder_wf(old(self)@),
        ensures
            recorder_wf(final(self)@),
            old(self)@.next + 2 <= old(self)@.capacity ==> r == Ok::<(u32, u32), String>(
                (old(self)@.next, (old(self)@.next + 1) as u32),
            ) && final(self)@ == (RecorderView {
                next: (old(self)@.next + 2) as u32,
                scopes: old(self)@.scopes.push(
                    ScopeView {
                        label: label@,
                        begin: old(self)@.next,
                        end: (old(self)@.next + 1) as u32,
                    },
                ),
                ..old(self)@
            }),
            old(self)@.next + 2 > old(self)@.capacity ==> (r matches Err(e) && e@ == capacity_message(
                old(self)@.capacity,
                old(self)@.next + 2,
            )) && final(self)@ == old(self)@,
    {
        if self.capacity >= 2 && self.next <= self.capacity - 2 {
            Ok(self.reserve(label))
        } else {
            let mut msg: Vec<char> = Vec::new();
            push_str(&mut msg, "query set capacity ");
            push_decimal(&mut msg, self.capacity as u64);
            push_str(&mut msg, " exceeded (");
            push_decimal(&mut msg, self.next as u64 + 2);
            push_str(
                &mut msg,
                " slots needed); increase the profiler timestamp capacity estimate",
            );
            assert(msg@ =~= capacity_message(self@.capacity, self@.next + 2));
            Err(chars_to_string(&msg))
        }
    }

    /// The slots of a pass labelled `label`, when the run is timed; an
    /// untimed run records nothing.
    pub fn writes(&mut self, label: ProfilePassLabel) -> (r: Option<(u32, u32)>)
        requires
            recorder_wf(old(self)@),
            old(self)@.timed ==> old(self)@.next + 2 <= old(self)@.capacity,
        ensures
            recorder_wf(final(self)@),
            !old(self)@.timed ==> r is None && final(self)@ == old(self)@,
            old(self)@.timed ==> r == Some((old(self)@.next, (old(self)@.next + 1) as u32))
                && final(self)@ == (RecorderView {
                next: (old(self)@.next + 2) as u32,
                scopes: old(self)@.scopes.push(
                    ScopeView {
                        label: label@,
                        begin: old(self)@.next,
                        end: (old(self)@.next + 1) as u32,
                    },
                ),
                ..old(self)@
            }),
    {
        if !self.timed {
            return None;
        }
        Some(self.reserve(label))
    }

    /// `writes` for an MPM pass.
    pub fn writes_mpm(&mut self, label: MpmPassLabel) -> (r: Option<(u32, u32)>)
        requires
            recorder_wf(old(self)@),
            old(self)@.timed ==> old(self)@.next + 2 <= old(self)@.capacity,
        ensures
            recorder_wf(final(self)@),
            !old(self)@.timed ==> r is None && final(self)@ == old(self)@,
            old(self)@.timed ==> r == Some((old(self)@.next, (old(self)@.next + 1) as u32))
                && final(self)@ == (RecorderView {
                next: (old(self)@.next + 2) as u32,
                scopes: old(self)@.scopes.push(
                    ScopeView {
                        label: LabelView {
                            id: label_id(label),
                            display: label_display(label),
                            category: label_category(label),
                        },
                        begin: old(self)@.next,
                        end: (old(self)@.next + 1) as u32,
                    },
                ),
                ..old(self)@
            }),
    {
        self.writes(ProfilePassLabel::mpm(label))
    }

    /// The tick count of every recorded pass: its end stamp minus its begin
    /// stamp, or zero when the end stamp is the smaller one.
    pub fn scope_tick_deltas(&self, ticks: &[u64]) -> (r: Vec<u64>)
        requires
            recorder_wf(self@),
            ticks@.len() >= self@.next,
        ensures
            r@.len() == self@.scopes.len(),
            forall|i: int|
                0 <= i < r@.len() ==> #[trigger] r@[i] == if ticks@[2 * i + 1] >= ticks@[2 * i] {
                    ticks@[2 * i + 1] - ticks@[2 * i]
                } else {
                    0
                },
    {
        let mut out: Vec<u64> = Vec::new();
        let mut i: usize = 0;
        while i < self.scopes.len()
            invariant
                recorder_wf(self@),
                ticks@.len() >= self@.next,
                i <= self.scopes@.len(),
                out@.len() == i,
                forall|j: int|
                    0 <= j < i ==> #[trigger] out@[j] == if ticks@[2 * j + 1] >= ticks@[2 * j] {
                        ticks@[2 * j + 1] - ticks@[2 * j]
                    } else {
                        0
                    },
            decreases self.scopes.len() - i,
        {
            assert(self@.scopes[i as int] == self.scopes@[i as int]@);
            assert(self@.scopes[i as int].begin == 2 * i);
            assert(self@.scopes.len() == self.scopes@.len());
            let b = self.scopes[i].begin;
            let e = self.scopes[i].end;
            let delta = if ticks[e as usize] >= ticks[b as usize] {
                ticks[e as usize] - ticks[b as usize]
            } else {
                0
            };
            out.push(delta);
            i = i + 1;
        }
        out
    }
}

/// The slots of a well-formed recorder never overlap and lie below the next
/// free slot, which a timed run keeps within its query set.
pub proof fn lemma_recorded_slots_are_disjoint(v: RecorderView, i: int, j: int)
    requires
        recorder_wf(v),
        0 <= i < v.scopes.len(),
        0 <= j < v.scopes.len(),
        i != j,
    ensures
        v.scopes[i].begin != v.scopes[j].begin,
        v.scopes[i].begin != v.scopes[j].end,
        v.scopes[i].end != v.scopes[j].end,
        v.scopes[i].end < v.next,
        v.timed ==> v.next <= v.capacity,
{
    assert(v.scopes[i].begin == 2 * i);
    assert(v.scopes[j].begin == 2 * j);
}

} // verus!
