//! Hierarchical progress tracker.
//!
//! A _span_ is a task with a name, a start time and an optional end time.
//! A _branch span_ has child spans (subtasks); a _leaf span_ tracks progress
//! as a number of items done out of a total.
//!
//! The span tree is addressed by _positions_: a position is the sequence of
//! child indices that leads from the root to a span.  Times are microseconds
//! since the Unix epoch.

use std::sync::Arc;
use std::sync::atomic::AtomicU64;
use vstd::prelude::*;

verus! {

/// A node of the span tree.
pub struct SpanInner {
    pub kind: SpanKind,
    pub started: i64,
    pub finished: Option<i64>,
}

/// What a span is: a branch with named children, or a leaf with a shared
/// counter of items done and a total.
pub enum SpanKind {
    Branch { children: Vec<(String, SpanInner)> },
    Leaf { progress: Arc<AtomicU64>, total: u64 },
}

/// The span found at `pos` below `span`, if the position leads to one.
pub open spec fn span_at(span: SpanInner, pos: Seq<usize>) -> Option<SpanInner>
    decreases pos.len(),
{
    if pos.len() == 0 {
        Some(span)
    } else {
        match span.kind {
            SpanKind::Branch { children } => {
                if pos[0] < children@.len() {
                    span_at(children@[pos[0] as int].1, pos.drop_first())
                } else {
                    None
                }
            },
            SpanKind::Leaf { .. } => None,
        }
    }
}

/// `new` is `old` where the span at `pos` was replaced by one that stands in
/// relation `at` to it, and nothing else changed.
pub open spec fn changed_at(
    old: SpanInner,
    new: SpanInner,
    pos: Seq<usize>,
    at: spec_fn(SpanInner, SpanInner) -> bool,
) -> bool
    decreases pos.len(),
{
    if pos.len() == 0 {
        at(old, new)
    } else {
        &&& new.started == old.started
        &&& new.finished == old.finished
        &&& match (old.kind, new.kind) {
            (SpanKind::Branch { children: oc }, SpanKind::Branch { children: nc }) => {
                &&& pos[0] < oc@.len()
                &&& nc@.len() == oc@.len()
                &&& forall|i: int| 0 <= i < oc@.len() && i != pos[0] ==> nc@[i] == oc@[i]
                &&& nc@[pos[0] as int].0 == oc@[pos[0] as int].0
                &&& changed_at(
                    oc@[pos[0] as int].1,
                    nc@[pos[0] as int].1,
                    pos.drop_first(),
                    at,
                )
            },
            _ => false,
        }
    }
}

/// The relation of a span to itself once it was marked finished at `now`.
pub open spec fn finished_rel(now: i64) -> spec_fn(SpanInner, SpanInner) -> bool {
    |o: SpanInner, n: SpanInner| n.kind == o.kind && n.started == o.started && n.finished == Some(now)
}

/// The number of children of a branch span; a leaf has none.
pub open spec fn child_count(span: SpanInner) -> nat {
    match span.kind {
        SpanKind::Branch { children } => children@.len(),
        SpanKind::Leaf { .. } => 0,
    }
}

/// The relation of a branch span to itself once a child named `name`, of
/// kind `kind`, started at `started` and not finished, was appended to it.
pub open spec fn appended_rel(name: Seq<char>, kind: SpanKind, started: i64) -> spec_fn(
    SpanInner,
    SpanInner,
) -> bool {
    |o: SpanInner, n: SpanInner|
        {
            &&& n.started == o.started
            &&& n.finished == o.finished
            &&& match (o.kind, n.kind) {
                (SpanKind::Branch { children: oc }, SpanKind::Branch { children: nc }) => {
                    &&& nc@.len() == oc@.len() + 1
                    &&& forall|i: int| 0 <= i < oc@.len() ==> nc@[i] == oc@[i]
                    &&& nc@[oc@.len() as int].0@ == name
                    &&& nc@[oc@.len() as int].1 == SpanInner { kind, started, finished: None }
                },
                _ => false,
            }
        }
}

/// What a snapshot reports: the names of the spans from the root to the
/// active span, when the whole task started, when the active span started,
/// and, for a leaf, its progress as (done, total).
pub struct ProgressEntry {
    pub stage: Vec<String>,
    pub started: i64,
    pub stage_started: i64,
    pub stage_progress: Option<(u64, u64)>,
}

/// The active span below `span`, searched depth first in the order the
/// children were appended: its position relative to `span`, and the span.
/// A finished span has no active span; an unfinished leaf, or an unfinished
/// branch none of whose children is active, is itself the active span.
pub open spec fn active_in(span: SpanInner) -> Option<(Seq<usize>, SpanInner)>
    decreases span, 0int,
{
    if span.finished is Some {
        None
    } else {
        match span.kind {
            SpanKind::Branch { children } => {
                match active_in_children(children@, 0) {
                    Some(found) => Some(found),
                    None => Some((Seq::empty(), span)),
                }
            },
            SpanKind::Leaf { .. } => Some((Seq::empty(), span)),
        }
    }
}

/// The first active span below the children from index `i` on.
pub open spec fn active_in_children(children: Seq<(String, SpanInner)>, i: int) -> Option<
    (Seq<usize>, SpanInner),
>
    decreases children, children.len() - i,
{
    if i < 0 || i >= children.len() {
        None
    } else {
        match active_in(children[i].1) {
            Some((p, s)) => Some((seq![i as usize] + p, s)),
            None => active_in_children(children, i + 1),
        }
    }
}

/// The names of the spans along `pos` below `span`, root excluded.
pub open spec fn names_along(span: SpanInner, pos: Seq<usize>) -> Seq<String>
    decreases pos.len(),
{
    if pos.len() == 0 {
        Seq::empty()
    } else {
        match span.kind {
            SpanKind::Branch { children } => {
                if pos[0] < children@.len() {
                    seq![children@[pos[0] as int].0] + names_along(
                        children@[pos[0] as int].1,
                        pos.drop_first(),
                    )
                } else {
                    Seq::empty()
                }
            },
            SpanKind::Leaf { .. } => Seq::empty(),
        }
    }
}

/// The position that marks a failed append: it leads to no span.
pub open spec fn invalid_position() -> Seq<usize> {
    seq![usize::MAX, usize::MAX]
}

/// A copy of a list of names.
fn copy_names(names: &Vec<String>) -> (res: Vec<String>)
    ensures
        res@ == names@,
{
    let mut res: Vec<String> = Vec::new();
    let mut i: usize = 0;
    while i < names.len()
        invariant
            i <= names@.len(),
            res@ == names@.take(i as int),
        decreases names@.len() - i,
    {
        res.push(names[i].clone());
        i = i + 1;
        assert(res@ == names@.take(i as int));
    }
    assert(names@.take(names@.len() as int) == names@);
    res
}

/// The number of items done of a leaf span, as another thread may have
/// counted them: nothing is known of the value but that it was read from
/// this counter.
fn load_progress(progress: &Arc<AtomicU64>) -> u64 {
    progress.load(std::sync::atomic::Ordering::Relaxed)
}

/// Whether `done` is a value that a read of the shared counter `counter`
/// returned.  Other threads count on the counter, so which value a read
/// returns is not known; this names where the value came from.
pub closed spec fn is_counter_reading(counter: Arc<AtomicU64>, done: u64) -> bool {
    call_ensures(load_progress, (&counter,), done)
}

/// Whether `res` reports the active span below `span`, as `active_in`
/// defines it: the names `prefix` that lead to `span` followed by those from
/// `span` to the active span, the start `root_started` of the whole task,
/// the active span's own start and, for a leaf, its total and a reading of
/// its shared counter as the number done.  No active span, no report.
pub open spec fn reports_active(
    span: SpanInner,
    prefix: Seq<String>,
    root_started: i64,
    res: Option<ProgressEntry>,
) -> bool {
    match active_in(span) {
        None => res is None,
        Some((p, s)) => res matches Some(e) && {
            &&& e.stage@ == prefix + names_along(span, p)
            &&& e.started == root_started
            &&& e.stage_started == s.started
            &&& match s.kind {
                SpanKind::Leaf { progress, total } => e.stage_progress matches Some((d, t)) && t
                    == total && is_counter_reading(progress, d),
                SpanKind::Branch { .. } => e.stage_progress is None,
            }
        },
    }
}

impl SpanInner {
    /// A root branch span without children, started at `started`.
    pub fn new_root(started: i64) -> (res: SpanInner)
        ensures
            res.started == started,
            res.finished is None,
            res.kind matches SpanKind::Branch { children } && children@.len() == 0,
    {
        SpanInner { kind: SpanKind::Branch { children: Vec::new() }, started, finished: None }
    }

    /// What the tracker reports of the task rooted here: nothing once the
    /// root is finished, otherwise the active span with the names leading to
    /// it, the root's start and the span's own start.
    pub fn snapshot(&self) -> (res: Option<ProgressEntry>)
        ensures
            res is None <==> self.finished is Some,
            reports_active(*self, Seq::empty(), self.started, res),
    {
        let mut path: Vec<String> = Vec::new();
        let res = Self::find_active(self, &mut path, self.started);
        assert(Seq::<String>::empty() + names_along(*self, active_in(*self).unwrap().0)
            == names_along(*self, active_in(*self).unwrap().0));
        res
    }

    /// Finds the active span below `span`, as `active_in` defines it, and
    /// reports it with `path` as the names that lead to `span` and
    /// `root_started` as the start of the whole task.  A leaf's done count is
    /// read from its shared counter at the time of the call.
    pub fn find_active(span: &SpanInner, path: &mut Vec<String>, root_started: i64) -> (res:
        Option<ProgressEntry>)
        ensures
            reports_active(*span, old(path)@, root_started, res),
            res matches Some(e) ==> final(path)@ == e.stage@,
            res is None ==> final(path)@ == old(path)@,
        decreases span,
    {
        if span.finished.is_some() {
            return None;
        }
        match &span.kind {
            SpanKind::Branch { children } => {
                let mut i: usize = 0;
                while i < children.len()
                    invariant
                        i <= children@.len(),
                        path@ == old(path)@,
                        span.finished is None,
                        span.kind == (SpanKind::Branch { children: *children }),
                        active_in_children(children@, 0) == active_in_children(children@, i as int),
                    decreases children@.len() - i,
                {
                    let ghost before = path@;
                    path.push(children[i].0.clone());
                    proof {
                        let ghost child = children@[i as int];
                        assert(decreases_to!(*span => span.kind));
                        assert(decreases_to!(span.kind => span.kind->children));
                        assert(decreases_to!(*children => children@));
                        assert(decreases_to!(children@ => child));
                        assert(decreases_to!(child => child.1));
                    }
                    let found = Self::find_active(&children[i].1, path, root_started);
                    match found {
                        Some(entry) => {
                            let ghost p = active_in(children@[i as int].1).unwrap().0;
                            assert((seq![i] + p).drop_first() == p);
                            assert(entry.stage@ == before + names_along(*span, seq![i] + p));
                            return Some(entry);
                        },
                        None => {
                            path.pop();
                            assert(path@ == before);
                        },
                    }
                    i = i + 1;
                }
                Some(ProgressEntry {
                    stage: copy_names(path),
                    started: root_started,
                    stage_started: span.started,
                    stage_progress: None,
                })
            },
            SpanKind::Leaf { progress, total } => {
                let done: u64 = load_progress(progress);
                Some(ProgressEntry {
                    stage: copy_names(path),
                    started: root_started,
                    stage_started: span.started,
                    stage_progress: Some((done, *total)),
                })
            },
        }
    }

    /// Whether a span stands at `position`.
    pub fn has_span(&self, position: &[usize]) -> (res: bool)
        ensures
            res == span_at(*self, position@) is Some,
    {
        assert(position@.skip(0) == position@);
        self.has_span_from(position, 0)
    }

    fn has_span_from(&self, position: &[usize], depth: usize) -> (res: bool)
        requires
            depth <= position@.len(),
        ensures
            res == span_at(*self, position@.skip(depth as int)) is Some,
        decreases position@.len() - depth,
    {
        if depth == position.len() {
            return true;
        }
        assert(position@.skip(depth as int).drop_first() == position@.skip(depth + 1));
        match &self.kind {
            SpanKind::Branch { children } => {
                let idx: usize = position[depth];
                if idx < children.len() {
                    children[idx].1.has_span_from(position, depth + 1)
                } else {
                    false
                }
            },
            SpanKind::Leaf { .. } => false,
        }
    }

    /// The number of children of the branch span at `position`, or `None`
    /// when no branch stands there.
    pub fn branch_len_at(&self, position: &[usize]) -> (res: Option<usize>)
        ensures
            res is Some <==> (span_at(*self, position@) matches Some(s) && s.kind is Branch),
            res matches Some(n) ==> n == child_count(span_at(*self, position@).unwrap()),
    {
        assert(position@.skip(0) == position@);
        self.branch_len_from(position, 0)
    }

    fn branch_len_from(&self, position: &[usize], depth: usize) -> (res: Option<usize>)
        requires
            depth <= position@.len(),
        ensures
            res is Some <==> (span_at(*self, position@.skip(depth as int)) matches Some(s)
                && s.kind is Branch),
            res matches Some(n) ==> n == child_count(
                span_at(*self, position@.skip(depth as int)).unwrap(),
            ),
        decreases position@.len() - depth,
    {
        if depth == position.len() {
            return match &self.kind {
                SpanKind::Branch { children } => Some(children.len()),
                SpanKind::Leaf { .. } => None,
            };
        }
        assert(position@.skip(depth as int).drop_first() == position@.skip(depth + 1));
        match &self.kind {
            SpanKind::Branch { children } => {
                let idx: usize = position[depth];
                if idx < children.len() {
                    children[idx].1.branch_len_from(position, depth + 1)
                } else {
                    None
                }
            },
            SpanKind::Leaf { .. } => None,
        }
    }

    /// Appends a child span named `name`, of kind `kind`, started at
    /// `started`, to the branch span at `position`, and returns the position
    /// of the new child.  When no branch span stands at `position`, nothing
    /// changes and the returned position leads to no span.
    pub fn append_child(&mut self, position: &[usize], name: &str, kind: SpanKind, started: i64) -> (res: Vec<usize>)
        ensures
            (span_at(*old(self), position@) matches Some(s) && s.kind is Branch) ==> {
                &&& res@ == position@.push(child_count(span_at(*old(self), position@).unwrap()) as usize)
                &&& changed_at(*old(self), *final(self), position@, appended_rel(name@, kind, started))
            },
            !(span_at(*old(self), position@) matches Some(s) && s.kind is Branch) ==> {
                &&& res@ == invalid_position()
                &&& *final(self) == *old(self)
            },
    {
        match self.branch_len_at(position) {
            Some(n) => {
                let mut res: Vec<usize> = Vec::new();
                let mut i: usize = 0;
                while i < position.len()
                    invariant
                        i <= position@.len(),
                        res@ == position@.take(i as int),
                    decreases position@.len() - i,
                {
                    res.push(position[i]);
                    i = i + 1;
                    assert(res@ == position@.take(i as int));
                }
                assert(position@.take(position@.len() as int) == position@);
                res.push(n);
                assert(position@.skip(0) == position@);
                self.append_from(position, 0, name, kind, started);
                res
            },
            None => {
                let mut res: Vec<usize> = Vec::new();
                res.push(usize::MAX);
                res.push(usize::MAX);
                res
            },
        }
    }

    fn append_from(&mut self, position: &[usize], depth: usize, name: &str, kind: SpanKind, started: i64)
        requires
            depth <= position@.len(),
            span_at(*old(self), position@.skip(depth as int)) matches Some(s) && s.kind is Branch,
        ensures
            changed_at(*old(self), *final(self), position@.skip(depth as int), appended_rel(name@, kind, started)),
        decreases position@.len() - depth,
    {
        if depth == position.len() {
            match &mut self.kind {
                SpanKind::Branch { children } => {
                    children.push((name.to_owned(), SpanInner { kind, started, finished: None }));
                },
                SpanKind::Leaf { .. } => {},
            }
            return;
        }
        assert(position@.skip(depth as int).drop_first() == position@.skip(depth + 1));
        match &mut self.kind {
            SpanKind::Branch { children } => {
                let idx: usize = position[depth];
                children[idx].1.append_from(position, depth + 1, name, kind, started);
            },
            SpanKind::Leaf { .. } => {},
        }
    }

    /// Marks the span at `position` as finished at `now`.  Returns whether
    /// such a span exists; when it does not, nothing changes.
    pub fn finish(&mut self, position: &[usize], now: i64) -> (found: bool)
        ensures
            found == span_at(*old(self), position@) is Some,
            found ==> changed_at(*old(self), *final(self), position@, finished_rel(now)),
            !found ==> *final(self) == *old(self),
    {
        if !self.has_span(position) {
            return false;
        }
        assert(position@.skip(0) == position@);
        self.finish_from(position, 0, now);
        true
    }

    fn finish_from(&mut self, position: &[usize], depth: usize, now: i64)
        requires
            depth <= position@.len(),
            span_at(*old(self), position@.skip(depth as int)) is Some,
        ensures
            changed_at(*old(self), *final(self), position@.skip(depth as int), finished_rel(now)),
        decreases position@.len() - depth,
    {
        if depth == position.len() {
            self.finished = Some(now);
            return;
        }
        assert(position@.skip(depth as int).drop_first() == position@.skip(depth + 1));
        match &mut self.kind {
            SpanKind::Branch { children } => {
                let idx: usize = position[depth];
                children[idx].1.finish_from(position, depth + 1, now);
            },
            SpanKind::Leaf { .. } => {},
        }
    }
}

} // verus!
