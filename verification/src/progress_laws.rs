//! Laws of the span tree: what appending a child and finishing a span do to
//! every position, and what the active span is.

use crate::progress_tracker::{
    active_in, active_in_children, appended_rel, changed_at, child_count, finished_rel,
    is_counter_reading, reports_active, span_at, ProgressEntry, SpanInner, SpanKind,
};
use vstd::prelude::*;

verus! {

/// Looking up `p + r` is looking up `p`, then `r` below the span found.
pub proof fn lemma_span_at_concat(span: SpanInner, p: Seq<usize>, r: Seq<usize>)
    ensures
        span_at(span, p + r) == match span_at(span, p) {
            Some(t) => span_at(t, r),
            None => None,
        },
    decreases p.len(),
{
    if p.len() == 0 {
        assert(p + r == r);
    } else {
        assert((p + r)[0] == p[0]);
        assert((p + r).drop_first() == p.drop_first() + r);
        match span.kind {
            SpanKind::Branch { children } => {
                if p[0] < children@.len() {
                    lemma_span_at_concat(children@[p[0] as int].1, p.drop_first(), r);
                }
            },
            SpanKind::Leaf { .. } => {},
        }
    }
}

/// A change at `pos` leaves a span at `pos` before and after, related by
/// `at`, and keeps a span at every position on the way to it.
pub proof fn lemma_changed_at_target(
    old: SpanInner,
    new: SpanInner,
    pos: Seq<usize>,
    at: spec_fn(SpanInner, SpanInner) -> bool,
)
    requires
        changed_at(old, new, pos, at),
    ensures
        span_at(old, pos) is Some,
        span_at(new, pos) is Some,
        at(span_at(old, pos).unwrap(), span_at(new, pos).unwrap()),
        forall|q: Seq<usize>| #[trigger] q.is_prefix_of(pos) ==> span_at(new, q) is Some,
    decreases pos.len(),
{
    if pos.len() > 0 {
        match (old.kind, new.kind) {
            (SpanKind::Branch { children: oc }, SpanKind::Branch { children: nc }) => {
                let i: int = pos[0] as int;
                lemma_changed_at_target(oc@[i].1, nc@[i].1, pos.drop_first(), at);
                assert forall|q: Seq<usize>| #[trigger] q.is_prefix_of(pos) implies span_at(
                    new,
                    q,
                ) is Some by {
                    if q.len() > 0 {
                        assert(q[0] == pos[0]);
                        assert(q.drop_first().is_prefix_of(pos.drop_first()));
                    }
                }
            },
            _ => {},
        }
    } else {
        assert forall|q: Seq<usize>| #[trigger] q.is_prefix_of(pos) implies span_at(
            new,
            q,
        ) is Some by {
            assert(q.len() == 0);
        }
    }
}

/// A change at `pos` leaves every position that neither leads to `pos` nor
/// lies below it as it was.
pub proof fn lemma_changed_at_off_path(
    old: SpanInner,
    new: SpanInner,
    pos: Seq<usize>,
    at: spec_fn(SpanInner, SpanInner) -> bool,
    q: Seq<usize>,
)
    requires
        changed_at(old, new, pos, at),
        !q.is_prefix_of(pos),
        !pos.is_prefix_of(q),
    ensures
        span_at(new, q) == span_at(old, q),
    decreases pos.len(),
{
    if pos.len() == 0 {
        assert(pos.is_prefix_of(q));
    } else if q.len() == 0 {
        assert(q.is_prefix_of(pos));
    } else {
        match (old.kind, new.kind) {
            (SpanKind::Branch { children: oc }, SpanKind::Branch { children: nc }) => {
                if q[0] != pos[0] {
                    if q[0] < oc@.len() {
                        assert(nc@[q[0] as int] == oc@[q[0] as int]);
                    }
                } else {
                    let i: int = pos[0] as int;
                    if q.drop_first().is_prefix_of(pos.drop_first()) {
                        assert(q =~= seq![q[0]] + q.drop_first());
                        assert(q.is_prefix_of(pos));
                    }
                    if pos.drop_first().is_prefix_of(q.drop_first()) {
                        assert forall|j: int| 0 <= j < pos.len() implies pos[j] == q[j] by {
                            if j > 0 {
                                assert(pos[j] == pos.drop_first()[j - 1]);
                                assert(q[j] == q.drop_first()[j - 1]);
                            }
                        }
                        assert(pos =~= q.subrange(0, pos.len() as int));
                    }
                    lemma_changed_at_off_path(oc@[i].1, nc@[i].1, pos.drop_first(), at, q.drop_first());
                }
            },
            _ => {},
        }
    }
}

/// Whether `q` lies strictly on the way to `pos`: a prefix of it, but not
/// `pos` itself.
pub open spec fn strictly_above(q: Seq<usize>, pos: Seq<usize>) -> bool {
    q.is_prefix_of(pos) && q.len() < pos.len()
}

/// Appending a child to the branch span at `pos` (as `SpanInner::append_child`
/// does) keeps every span that stood anywhere: positions handed out before
/// stay valid, and every span that is not on the way to `pos` is unchanged.
/// The new child stands at `pos` followed by the former number of children,
/// unfinished.
pub proof fn lemma_append_child_effect(
    old: SpanInner,
    new: SpanInner,
    pos: Seq<usize>,
    name: Seq<char>,
    kind: SpanKind,
    started: i64,
    q: Seq<usize>,
)
    requires
        changed_at(old, new, pos, appended_rel(name, kind, started)),
    ensures
        span_at(old, q) is Some ==> span_at(new, q) is Some,
        span_at(old, q) is Some && !q.is_prefix_of(pos) ==> span_at(new, q) == span_at(old, q),
        span_at(new, pos.push(child_count(span_at(old, pos).unwrap()) as usize)) == Some(
            SpanInner { kind, started, finished: None },
        ),
{
    let at = appended_rel(name, kind, started);
    lemma_changed_at_target(old, new, pos, at);
    let t_old = span_at(old, pos).unwrap();
    let t_new = span_at(new, pos).unwrap();
    let n: nat = child_count(t_old);
    assert(pos.push(n as usize) == pos + seq![n as usize]);
    lemma_span_at_concat(new, pos, seq![n as usize]);
    assert(seq![n as usize].drop_first() =~= Seq::<usize>::empty());
    match (t_old.kind, t_new.kind) {
        (SpanKind::Branch { children: oc }, SpanKind::Branch { children: nc }) => {
            assert(n == oc@.len());
            assert(nc.len() == nc@.len());
            assert(span_at(t_new, seq![n as usize]) == span_at(nc@[n as int].1, Seq::<usize>::empty()));
        },
        _ => {},
    }
    if span_at(old, q) is Some {
        if q.is_prefix_of(pos) {
        } else if pos.is_prefix_of(q) {
            let r = q.subrange(pos.len() as int, q.len() as int);
            assert(q =~= pos + r);
            lemma_span_at_concat(old, pos, r);
            lemma_span_at_concat(new, pos, r);
            assert(r.len() > 0);
            match (t_old.kind, t_new.kind) {
                (SpanKind::Branch { children: oc }, SpanKind::Branch { children: nc }) => {
                    assert(r[0] < oc@.len());
                    assert(nc@[r[0] as int] == oc@[r[0] as int]);
                },
                _ => {},
            }
        } else {
            lemma_changed_at_off_path(old, new, pos, at, q);
        }
    }
}

/// Finishing the span at `pos` (as `SpanInner::finish` does) records the time
/// in that span alone: every position keeps its span, every span off the way
/// to `pos` is unchanged, the spans below `pos` included, and the span at
/// `pos` keeps its kind and start.
pub proof fn lemma_finish_effect(old: SpanInner, new: SpanInner, pos: Seq<usize>, now: i64, q: Seq<usize>)
    requires
        changed_at(old, new, pos, finished_rel(now)),
    ensures
        span_at(old, q) is Some ==> span_at(new, q) is Some,
        span_at(old, q) is Some && !strictly_above(q, pos) && q != pos ==> span_at(new, q)
            == span_at(old, q),
        span_at(new, pos) is Some,
        span_at(new, pos).unwrap().finished == Some(now),
        span_at(new, pos).unwrap().kind == span_at(old, pos).unwrap().kind,
        span_at(new, pos).unwrap().started == span_at(old, pos).unwrap().started,
{
    let at = finished_rel(now);
    lemma_changed_at_target(old, new, pos, at);
    let t_old = span_at(old, pos).unwrap();
    let t_new = span_at(new, pos).unwrap();
    if span_at(old, q) is Some {
        if q.is_prefix_of(pos) {
            if q.len() == pos.len() {
                assert(q =~= pos);
            }
        } else if pos.is_prefix_of(q) {
            let r = q.subrange(pos.len() as int, q.len() as int);
            assert(q =~= pos + r);
            lemma_span_at_concat(old, pos, r);
            lemma_span_at_concat(new, pos, r);
            if r.len() == 0 {
                assert(q =~= pos);
            } else {
                match t_old.kind {
                    SpanKind::Branch { children } => {},
                    SpanKind::Leaf { .. } => {},
                }
            }
        } else {
            lemma_changed_at_off_path(old, new, pos, at, q);
        }
    }
}

/// A span stands at `q` below `span` and is not finished.
pub open spec fn unfinished_at(span: SpanInner, q: Seq<usize>) -> bool {
    span_at(span, q) matches Some(u) && u.finished is None
}

/// An unfinished span always has an active span below it; a finished one has
/// none.
pub proof fn lemma_active_exists_iff_unfinished(span: SpanInner)
    ensures
        active_in(span) is Some <==> span.finished is None,
{
}

/// The active span stands at the position that `active_in` reports, is
/// unfinished, and is either a leaf or a branch all of whose children are
/// finished; every span on the way to it is unfinished too.
pub proof fn lemma_active_span_is_deepest_running(span: SpanInner)
    requires
        active_in(span) is Some,
    ensures
        ({
            let (p, s) = active_in(span).unwrap();
            &&& span_at(span, p) == Some(s)
            &&& s.finished is None
            &&& match s.kind {
                SpanKind::Branch { children } => forall|i: int|
                    0 <= i < children@.len() ==> (#[trigger] children@[i]).1.finished is Some,
                SpanKind::Leaf { .. } => true,
            }
            &&& forall|q: Seq<usize>| #[trigger]
                q.is_prefix_of(p) ==> unfinished_at(span, q)
        }),
    decreases span, 0int,
{
    match span.kind {
        SpanKind::Branch { children } => {
            let i: int = lemma_active_in_children(children@, 0);
            assert(children.len() == children@.len());
            match active_in_children(children@, 0) {
                Some((p, s)) => {
                    let c = children@[i].1;
                    lemma_active_span_is_deepest_running(c);
                    let pc = active_in(c).unwrap().0;
                    assert(p == seq![i as usize] + pc);
                    assert(p.drop_first() =~= pc);
                    assert(p[0] == i as usize);
                    assert(span_at(span, p) == span_at(c, pc));
                    assert forall|q: Seq<usize>| #[trigger]
                        q.is_prefix_of(p) implies unfinished_at(span, q) by {
                        if q.len() > 0 {
                            assert(q[0] == p[0]);
                            assert(q.drop_first().is_prefix_of(pc));
                        }
                    }
                },
                None => {
                    assert forall|q: Seq<usize>| #[trigger]
                        q.is_prefix_of(Seq::<usize>::empty()) implies unfinished_at(span, q) by {
                        assert(q.len() == 0);
                    }
                },
            }
        },
        SpanKind::Leaf { .. } => {
            assert forall|q: Seq<usize>| #[trigger]
                q.is_prefix_of(Seq::<usize>::empty()) implies unfinished_at(span, q) by {
                assert(q.len() == 0);
            }
        },
    }
}

/// What the search over children from index `i` finds: the first child
/// (from `i` on) that has an active span, or nothing when every such child
/// is finished.
proof fn lemma_active_in_children(children: Seq<(String, SpanInner)>, i: int) -> (j: int)
    requires
        0 <= i,
    ensures
        active_in_children(children, i) is None <==> forall|k: int|
            i <= k < children.len() ==> (#[trigger] children[k]).1.finished is Some,
        active_in_children(children, i) is Some ==> {
            &&& i <= j < children.len()
            &&& active_in(children[j].1) is Some
            &&& active_in_children(children, i) == Some(
                (
                    seq![j as usize] + active_in(children[j].1).unwrap().0,
                    active_in(children[j].1).unwrap().1,
                ),
            )
        },
    decreases children.len() - i,
{
    if i < children.len() {
        let j: int = lemma_active_in_children(children, i + 1);
        lemma_active_exists_iff_unfinished(children[i].1);
        if active_in(children[i].1) is Some {
            i
        } else {
            j
        }
    } else {
        i
    }
}


/// Once the span at `pos` is finished, the active span is never that span
/// nor one below it: a snapshot moves on to the enclosing task.
pub proof fn lemma_finished_span_is_not_reported(old: SpanInner, new: SpanInner, pos: Seq<usize>, now: i64)
    requires
        changed_at(old, new, pos, finished_rel(now)),
    ensures
        active_in(new) matches Some((p, s)) ==> !pos.is_prefix_of(p),
{
    lemma_finish_effect(old, new, pos, now, pos);
    if active_in(new) is Some {
        lemma_active_span_is_deepest_running(new);
        let p = active_in(new).unwrap().0;
        if pos.is_prefix_of(p) {
            assert(unfinished_at(new, pos));
        }
    }
}

/// Two reports of the same span tree agree on the stage, the start times
/// and the total: they can differ only in the number done, and each of
/// those numbers is a reading of the active leaf's own shared counter.
pub proof fn lemma_reports_differ_only_in_done(
    span: SpanInner,
    prefix: Seq<String>,
    root_started: i64,
    a: Option<ProgressEntry>,
    b: Option<ProgressEntry>,
)
    requires
        reports_active(span, prefix, root_started, a),
        reports_active(span, prefix, root_started, b),
    ensures
        a is None <==> b is None,
        a matches Some(x) ==> b matches Some(y) && {
            &&& x.stage@ == y.stage@
            &&& x.started == y.started
            &&& x.stage_started == y.stage_started
            &&& (x.stage_progress is None <==> y.stage_progress is None)
            &&& x.stage_progress matches Some((_, t)) ==> y.stage_progress matches Some((_, u))
                && t == u
        },
        active_in(span) matches Some((_, s)) ==> s.kind matches SpanKind::Leaf { progress, .. }
            ==> a matches Some(x) && x.stage_progress matches Some((d, _)) && is_counter_reading(
            progress,
            d,
        ),
{
}

} // verus!
