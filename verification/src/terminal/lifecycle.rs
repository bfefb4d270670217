//! The life of a session as a sequence of operations on the registry, and
//! what holds of every such sequence.
//!
//! Each operation of `Registry` is one `Op`; `step` is what it does to the
//! map of tracked sessions. The registry's lock makes the operations of all
//! threads one sequence, so what is proved here of every sequence holds of
//! every interleaving of callers and background loops.

use vstd::prelude::*;
use vstd::utf8::encode_utf8;
use crate::terminal::provenance::is_command_origin;
use crate::terminal::registry::{resized, written, SessionView};

verus! {

/// The tracked sessions, by identifier.
pub type Sessions<R> = Map<Seq<char>, SessionView<R>>;

/// One operation on the registry.
pub enum Op<R> {
    /// A spawned session starts to be tracked.
    Insert { id: Seq<char>, session: SessionView<R> },
    /// The caller writes `data` to a session.
    Write { id: Seq<char>, data: Seq<char>, origin: Option<Seq<char>>, at: u64 },
    /// The caller resizes a session.
    Resize { id: Seq<char>, cols: u16, rows: u16 },
    /// The caller closes a session.
    Close { id: Seq<char> },
    /// A background loop has seen the session's process end (its output
    /// closed, or the wait for it returned) and finalizes the session.
    Finalize { id: Seq<char> },
}

impl<R> Op<R> {
    /// The session that the operation is about.
    pub open spec fn target(self) -> Seq<char> {
        match self {
            Op::Insert { id, .. } => id,
            Op::Write { id, .. } => id,
            Op::Resize { id, .. } => id,
            Op::Close { id } => id,
            Op::Finalize { id } => id,
        }
    }
}

/// The tracked sessions after one operation.
pub open spec fn step<R>(m: Sessions<R>, op: Op<R>) -> Sessions<R> {
    match op {
        Op::Insert { id, session } => m.insert(id, session),
        Op::Write { id, data, origin, at } => if m.contains_key(id) {
            m.insert(id, written(m[id], data, origin, at))
        } else {
            m
        },
        Op::Resize { id, cols, rows } => if m.contains_key(id) {
            m.insert(id, resized(m[id], cols, rows))
        } else {
            m
        },
        Op::Close { id } => m.remove(id),
        Op::Finalize { id } => m.remove(id),
    }
}

/// Whether the operation finds its session. A write, a resize or a close that
/// does not is answered with `NotFound`; a finalization that does not stays
/// silent.
pub open spec fn finds<R>(m: Sessions<R>, op: Op<R>) -> bool {
    m.contains_key(op.target())
}

/// Whether the operation sends the exit notification of session `id`: it is a
/// finalization of `id` that finds it.
pub open spec fn announces_exit<R>(m: Sessions<R>, op: Op<R>, id: Seq<char>) -> bool {
    op == (Op::<R>::Finalize { id }) && m.contains_key(id)
}

/// The bytes that the operation hands on for the input of session `id`: those
/// of the data, unchanged, if it is a write to `id` that finds it.
pub open spec fn hands_on<R>(m: Sessions<R>, op: Op<R>, id: Seq<char>) -> Seq<u8> {
    match op {
        Op::Write { id: target, data, .. } => if target == id && m.contains_key(id) {
            encode_utf8(data)
        } else {
            Seq::empty()
        },
        _ => Seq::empty(),
    }
}

/// The tracked sessions after the operations `ops`, in order.
pub open spec fn run<R>(m: Sessions<R>, ops: Seq<Op<R>>) -> Sessions<R>
    decreases ops.len(),
{
    if ops.len() == 0 {
        m
    } else {
        step(run(m, ops.drop_last()), ops.last())
    }
}

/// How many exit notifications of session `id` the operations `ops` send.
pub open spec fn exits_announced<R>(m: Sessions<R>, ops: Seq<Op<R>>, id: Seq<char>) -> nat
    decreases ops.len(),
{
    if ops.len() == 0 {
        0
    } else {
        let before = exits_announced(m, ops.drop_last(), id);
        if announces_exit(run(m, ops.drop_last()), ops.last(), id) {
            before + 1
        } else {
            before
        }
    }
}

/// All the bytes that the operations `ops` hand on for the input of session
/// `id`, in order.
pub open spec fn input_of<R>(m: Sessions<R>, ops: Seq<Op<R>>, id: Seq<char>) -> Seq<u8>
    decreases ops.len(),
{
    if ops.len() == 0 {
        Seq::empty()
    } else {
        input_of(m, ops.drop_last(), id) + hands_on(run(m, ops.drop_last()), ops.last(), id)
    }
}

/// The bytes of the data of all writes to session `id` among `ops`, in the
/// order in which they were issued.
pub open spec fn written_to<R>(ops: Seq<Op<R>>, id: Seq<char>) -> Seq<u8>
    decreases ops.len(),
{
    if ops.len() == 0 {
        Seq::empty()
    } else {
        written_to(ops.drop_last(), id) + match ops.last() {
            Op::Write { id: target, data, .. } => if target == id {
                encode_utf8(data)
            } else {
                Seq::empty()
            },
            _ => Seq::empty(),
        }
    }
}

/// No operation among `ops` starts to track `id`: an identifier is issued
/// once and never used again.
pub open spec fn never_issues<R>(ops: Seq<Op<R>>, id: Seq<char>) -> bool {
    forall|k: int| 0 <= k < ops.len() ==> !(#[trigger] ops[k] is Insert && ops[k].target() == id)
}

/// No operation among `ops` closes `id`.
pub open spec fn never_closes<R>(ops: Seq<Op<R>>, id: Seq<char>) -> bool {
    forall|k: int| 0 <= k < ops.len() ==> #[trigger] ops[k] != (Op::<R>::Close { id })
}

/// No operation among `ops` finalizes `id`.
pub open spec fn never_finalizes<R>(ops: Seq<Op<R>>, id: Seq<char>) -> bool {
    forall|k: int| 0 <= k < ops.len() ==> #[trigger] ops[k] != (Op::<R>::Finalize { id })
}

/// What holds of a sequence without an operation of some kind holds of the
/// sequence without its last operation, and of the last operation.
proof fn lemma_never_issues_unfolds<R>(ops: Seq<Op<R>>, id: Seq<char>)
    requires
        ops.len() > 0,
    ensures
        never_issues(ops, id) <==> never_issues(ops.drop_last(), id) && !(ops.last() is Insert
            && ops.last().target() == id),
{
    let init = ops.drop_last();
    if never_issues(ops, id) {
        assert(ops.last() == ops[ops.len() - 1]);
        assert forall|k: int| 0 <= k < init.len() implies !(#[trigger] init[k] is Insert
            && init[k].target() == id) by {
            assert(init[k] == ops[k]);
        }
    }
    if never_issues(init, id) && !(ops.last() is Insert && ops.last().target() == id) {
        assert forall|k: int| 0 <= k < ops.len() implies !(#[trigger] ops[k] is Insert
            && ops[k].target() == id) by {
            if k < init.len() {
                assert(init[k] == ops[k]);
            }
        }
    }
}

proof fn lemma_never_closes_unfolds<R>(ops: Seq<Op<R>>, id: Seq<char>)
    requires
        ops.len() > 0,
    ensures
        never_closes(ops, id) <==> never_closes(ops.drop_last(), id) && ops.last() != (
        Op::<R>::Close { id }),
{
    let init = ops.drop_last();
    if never_closes(ops, id) {
        assert(ops.last() == ops[ops.len() - 1]);
        assert forall|k: int| 0 <= k < init.len() implies #[trigger] init[k] != (Op::<R>::Close {
            id,
        }) by {
            assert(init[k] == ops[k]);
        }
    }
    if never_closes(init, id) && ops.last() != (Op::<R>::Close { id }) {
        assert forall|k: int| 0 <= k < ops.len() implies #[trigger] ops[k] != (Op::<R>::Close {
            id,
        }) by {
            if k < init.len() {
                assert(init[k] == ops[k]);
            }
        }
    }
}

proof fn lemma_never_finalizes_unfolds<R>(ops: Seq<Op<R>>, id: Seq<char>)
    requires
        ops.len() > 0,
    ensures
        never_finalizes(ops, id) <==> never_finalizes(ops.drop_last(), id) && ops.last() != (
        Op::<R>::Finalize { id }),
{
    let init = ops.drop_last();
    if never_finalizes(ops, id) {
        assert(ops.last() == ops[ops.len() - 1]);
        assert forall|k: int| 0 <= k < init.len() implies #[trigger] init[k] != (
        Op::<R>::Finalize { id }) by {
            assert(init[k] == ops[k]);
        }
    }
    if never_finalizes(init, id) && ops.last() != (Op::<R>::Finalize { id }) {
        assert forall|k: int| 0 <= k < ops.len() implies #[trigger] ops[k] != (
        Op::<R>::Finalize { id }) by {
            if k < init.len() {
                assert(init[k] == ops[k]);
            }
        }
    }
}

/// The registry holds exactly the sessions that are still alive to it: a
/// tracked session stays tracked until the first close or finalization of it,
/// and is untracked from then on.
pub proof fn law_tracked_until_closed_or_finalized<R>(
    m: Sessions<R>,
    ops: Seq<Op<R>>,
    id: Seq<char>,
)
    requires
        m.contains_key(id),
        never_issues(ops, id),
    ensures
        run(m, ops).contains_key(id) <==> never_closes(ops, id) && never_finalizes(ops, id),
    decreases ops.len(),
{
    if ops.len() > 0 {
        lemma_never_issues_unfolds(ops, id);
        lemma_never_closes_unfolds(ops, id);
        lemma_never_finalizes_unfolds(ops, id);
        law_tracked_until_closed_or_finalized(m, ops.drop_last(), id);
    }
}

/// A session that is not tracked (it was never issued, was closed, or has
/// been finalized) stays untracked and sends no exit notification, whatever
/// follows, as long as its identifier is not issued again.
pub proof fn law_untracked_stays_silent<R>(m: Sessions<R>, ops: Seq<Op<R>>, id: Seq<char>)
    requires
        !m.contains_key(id),
        never_issues(ops, id),
    ensures
        !run(m, ops).contains_key(id),
        exits_announced(m, ops, id) == 0,
    decreases ops.len(),
{
    if ops.len() > 0 {
        lemma_never_issues_unfolds(ops, id);
        law_untracked_stays_silent(m, ops.drop_last(), id);
    }
}

/// While a session is still tracked, no exit notification of it has been
/// sent.
pub proof fn law_tracked_means_not_announced<R>(m: Sessions<R>, ops: Seq<Op<R>>, id: Seq<char>)
    requires
        never_issues(ops, id),
        run(m, ops).contains_key(id),
    ensures
        exits_announced(m, ops, id) == 0,
    decreases ops.len(),
{
    if ops.len() > 0 {
        lemma_never_issues_unfolds(ops, id);
        assert(run(m, ops.drop_last()).contains_key(id));
        law_tracked_means_not_announced(m, ops.drop_last(), id);
    }
}

/// Of a tracked session that is never closed: as long as it is not
/// finalized no exit notification is sent, and from its first finalization
/// on exactly one has been.
proof fn lemma_exit_count<R>(m: Sessions<R>, ops: Seq<Op<R>>, id: Seq<char>)
    requires
        m.contains_key(id),
        never_issues(ops, id),
        never_closes(ops, id),
    ensures
        exits_announced(m, ops, id) == if never_finalizes(ops, id) {
            0nat
        } else {
            1nat
        },
    decreases ops.len(),
{
    if ops.len() > 0 {
        let init = ops.drop_last();
        lemma_never_issues_unfolds(ops, id);
        lemma_never_closes_unfolds(ops, id);
        lemma_never_finalizes_unfolds(ops, id);
        lemma_exit_count(m, init, id);
        law_tracked_until_closed_or_finalized(m, init, id);
    }
}

/// Once a session is untracked, nothing more is announced of it: the count
/// of its exit notifications stays what it was.
proof fn lemma_nothing_after_removal<R>(
    m: Sessions<R>,
    ops: Seq<Op<R>>,
    j: int,
    n: int,
    id: Seq<char>,
)
    requires
        never_issues(ops, id),
        0 <= j <= n <= ops.len(),
        !run(m, ops.take(j)).contains_key(id),
    ensures
        exits_announced(m, ops.take(n), id) == exits_announced(m, ops.take(j), id),
        !run(m, ops.take(n)).contains_key(id),
    decreases n - j,
{
    if j < n {
        lemma_nothing_after_removal(m, ops, j, n - 1, id);
        assert(ops.take(n).drop_last() =~= ops.take(n - 1));
        assert(ops.take(n).last() == ops[n - 1]);
        assert(!(ops[n - 1] is Insert && ops[n - 1].target() == id));
    }
}

/// A part of a sequence that issues no identifier `id` issues none either.
proof fn lemma_never_issues_of_prefix<R>(ops: Seq<Op<R>>, k: int, id: Seq<char>)
    requires
        never_issues(ops, id),
        0 <= k <= ops.len(),
    ensures
        never_issues(ops.take(k), id),
{
    assert forall|j: int| 0 <= j < k implies !(#[trigger] ops.take(k)[j] is Insert && ops.take(
        k,
    )[j].target() == id) by {
        assert(ops.take(k)[j] == ops[j]);
    }
}

/// Single notification per natural exit: a tracked session whose end a
/// background loop observes before any close of it sends exactly one exit
/// notification, whichever loop finalizes first, however often the
/// finalization is repeated, and whatever is asked of the session afterwards.
pub proof fn law_single_exit_notification<R>(
    m: Sessions<R>,
    ops: Seq<Op<R>>,
    k: int,
    id: Seq<char>,
)
    requires
        m.contains_key(id),
        never_issues(ops, id),
        0 <= k < ops.len(),
        ops[k] == (Op::<R>::Finalize { id }),
        never_closes(ops.take(k), id),
    ensures
        exits_announced(m, ops, id) == 1,
        !run(m, ops).contains_key(id),
{
    let upto = ops.take(k + 1);
    assert(upto.drop_last() =~= ops.take(k));
    assert(upto.last() == ops[k]);
    lemma_never_issues_of_prefix(ops, k + 1, id);
    lemma_never_closes_unfolds(upto, id);
    lemma_never_finalizes_unfolds(upto, id);
    lemma_exit_count(m, upto, id);
    law_tracked_until_closed_or_finalized(m, upto, id);
    lemma_nothing_after_removal(m, ops, k + 1, ops.len() as int, id);
    assert(ops.take(ops.len() as int) =~= ops);
}

/// No notification after explicit close: where a close of `id` finds its
/// session, no exit notification of `id` is sent, neither before the close
/// nor ever after it.
pub proof fn law_no_exit_notification_after_close<R>(
    m: Sessions<R>,
    ops: Seq<Op<R>>,
    k: int,
    id: Seq<char>,
)
    requires
        never_issues(ops, id),
        0 <= k < ops.len(),
        ops[k] == (Op::<R>::Close { id }),
        finds(run(m, ops.take(k)), ops[k]),
    ensures
        exits_announced(m, ops, id) == 0,
        !run(m, ops).contains_key(id),
{
    let upto = ops.take(k + 1);
    assert(upto.drop_last() =~= ops.take(k));
    assert(upto.last() == ops[k]);
    lemma_never_issues_of_prefix(ops, k, id);
    law_tracked_means_not_announced(m, ops.take(k), id);
    lemma_nothing_after_removal(m, ops, k + 1, ops.len() as int, id);
    assert(ops.take(ops.len() as int) =~= ops);
}

/// Write ordering: while a session is tracked and neither closed nor
/// finalized, every write to it is handed on, and the bytes handed on are
/// those of the writes' data in the order in which the writes were issued,
/// whatever their origin tags and whatever else happens in between.
pub proof fn law_writes_handed_on_in_order<R>(m: Sessions<R>, ops: Seq<Op<R>>, id: Seq<char>)
    requires
        m.contains_key(id),
        never_closes(ops, id),
        never_finalizes(ops, id),
    ensures
        run(m, ops).contains_key(id),
        input_of(m, ops, id) == written_to(ops, id),
    decreases ops.len(),
{
    if ops.len() > 0 {
        lemma_never_closes_unfolds(ops, id);
        lemma_never_finalizes_unfolds(ops, id);
        law_writes_handed_on_in_order(m, ops.drop_last(), id);
    }
}

/// What is fixed at spawn stays fixed: as long as a session is tracked, its
/// kind, its environment tag and its resources are those it was tracked
/// with. Only its size and its last command ever change.
pub proof fn law_tag_kind_and_resources_are_fixed<R>(
    m: Sessions<R>,
    ops: Seq<Op<R>>,
    id: Seq<char>,
)
    requires
        never_issues(ops, id),
        run(m, ops).contains_key(id),
    ensures
        m.contains_key(id),
        run(m, ops)[id].meta.kind == m[id].meta.kind,
        run(m, ops)[id].meta.environment_tag == m[id].meta.environment_tag,
        run(m, ops)[id].resources == m[id].resources,
    decreases ops.len(),
{
    if ops.len() > 0 {
        lemma_never_issues_unfolds(ops, id);
        assert(run(m, ops.drop_last()).contains_key(id));
        law_tag_kind_and_resources_are_fixed(m, ops.drop_last(), id);
    }
}

/// An operation changes nothing of the sessions that it is not about: they
/// stay tracked or untracked as they were, with the same bookkeeping and
/// resources.
pub proof fn law_operations_touch_only_their_target<R>(m: Sessions<R>, op: Op<R>, id: Seq<char>)
    requires
        op.target() != id,
    ensures
        step(m, op).contains_key(id) == m.contains_key(id),
        m.contains_key(id) ==> step(m, op)[id] == m[id],
        !announces_exit(m, op, id),
        hands_on(m, op, id) == Seq::<u8>::empty(),
{
}

/// A write or a resize never changes which sessions are tracked: whether its
/// input and output succeed afterwards or not, the session stays tracked and
/// usable for the next attempt.
pub proof fn law_write_and_resize_keep_tracking<R>(m: Sessions<R>, op: Op<R>)
    requires
        op is Write || op is Resize,
    ensures
        step(m, op).dom() == m.dom(),
{
    assert(step(m, op).dom() =~= m.dom());
}

/// Idempotent removal: the first removal of an identifier finds its session
/// if it is tracked; a second removal finds nothing and changes nothing.
pub proof fn law_second_removal_finds_nothing<R>(m: Sessions<R>, id: Seq<char>)
    ensures
        !m.remove(id).contains_key(id),
        m.remove(id).remove(id) == m.remove(id),
        !finds(step(m, (Op::<R>::Finalize { id })), (Op::<R>::Finalize { id })),
        !announces_exit(step(m, (Op::<R>::Finalize { id })), (Op::<R>::Finalize { id }), id),
{
    assert(m.remove(id).remove(id) =~= m.remove(id));
}

/// Unknown-session errors: a write, a resize or a close of an identifier that
/// was never issued, or whose session has been removed, finds nothing (and is
/// answered with `NotFound`), and changes nothing.
pub proof fn law_unknown_session_not_found<R>(m: Sessions<R>, op: Op<R>)
    requires
        op is Write || op is Resize || op is Close,
    ensures
        !m.contains_key(op.target()) ==> !finds(m, op) && step(m, op) == m,
        !finds(m.remove(op.target()), op),
        step(m.remove(op.target()), op) == m.remove(op.target()),
{
    let id = op.target();
    assert(m.remove(id).remove(id) =~= m.remove(id));
    if !m.contains_key(id) {
        assert(m.remove(id) =~= m);
    }
}

/// Provenance scrubbing: a write whose origin is absent, or is not the tag of
/// a structured command run, changes nothing of the session, whatever its
/// data looks like.
pub proof fn law_untagged_write_leaves_no_trace<R>(
    m: Sessions<R>,
    id: Seq<char>,
    data: Seq<char>,
    origin: Option<Seq<char>>,
    at: u64,
)
    requires
        !is_command_origin(origin),
    ensures
        step(m, (Op::Write { id, data, origin, at })) == m,
        m.contains_key(id) ==> written(m[id], data, origin, at) == m[id],
{
    if m.contains_key(id) {
        assert(m.insert(id, m[id]) =~= m);
    }
}

/// Resize reflected: after a resize that finds its session, the session's
/// recorded size is the one asked for, and nothing else of it has changed.
pub proof fn law_resize_reflected<R>(m: Sessions<R>, id: Seq<char>, cols: u16, rows: u16)
    requires
        m.contains_key(id),
    ensures
        step(m, (Op::Resize { id, cols, rows })).contains_key(id),
        step(m, (Op::Resize { id, cols, rows }))[id].meta.cols == cols,
        step(m, (Op::Resize { id, cols, rows }))[id].meta.rows == rows,
        step(m, (Op::Resize { id, cols, rows }))[id] == resized(m[id], cols, rows),
{
}

} // verus!
