//! The session registry: which sessions are tracked, and what is recorded of
//! each.
//!
//! A registry is a finite map from session identifier to session. A session
//! holds its bookkeeping (`SessionMeta`) and the caller's resources `R` (the
//! pseudo-terminal, the writer, the kill capability), which the registry
//! carries and never looks into. An identifier is in the map exactly while its
//! session is tracked; removing it is what ends the tracking, and only one
//! removal of an identifier ever finds it.
//!
//! The caller keeps one registry behind one lock, makes each call below under
//! that lock, and does the input and output on `R` after releasing it.

use vstd::prelude::*;
use vstd::string::StringSliceAdditionalSpecFns;
use crate::ident::{fresh_identifier, is_identifier};
use crate::terminal::lifecycle::{announces_exit, finds, hands_on, step, Op};
use crate::terminal::provenance::{command_to_remember, origin_of, remembered_command};
use crate::terminal::session_manager::{SpawnSpec, TerminalKind, WriteMeta};
use crate::terminal::{SessionId, TerminalError, TerminalExitEvent};
use crate::text::str_eq;

verus! {

/// The last structured command written to a session, and when.
#[derive(Debug)]
pub struct CommandRecord {
    /// The command in its remembered form.
    pub command: String,
    /// The caller's clock reading at the write.
    pub at: u64,
}

/// The bookkeeping of one session.
#[derive(Debug)]
pub struct SessionMeta {
    pub kind: TerminalKind,
    /// A free-form label such as "LOCAL" or "PROD", fixed at spawn.
    pub environment_tag: String,
    pub cols: u16,
    pub rows: u16,
    pub last_command: Option<CommandRecord>,
}

/// `SessionMeta` with its strings as sequences.
pub struct SessionMetaView {
    pub kind: TerminalKind,
    pub environment_tag: Seq<char>,
    pub cols: u16,
    pub rows: u16,
    pub last_command: Option<(Seq<char>, u64)>,
}

impl View for SessionMeta {
    type V = SessionMetaView;

    open spec fn view(&self) -> SessionMetaView {
        SessionMetaView {
            kind: self.kind,
            environment_tag: self.environment_tag@,
            cols: self.cols,
            rows: self.rows,
            last_command: match self.last_command {
                Some(rec) => Some((rec.command@, rec.at)),
                None => None,
            },
        }
    }
}

/// One tracked session: its bookkeeping and the caller's resources.
pub struct Session<R> {
    pub meta: SessionMeta,
    pub resources: R,
}

/// `Session` with its bookkeeping as a view.
pub struct SessionView<R> {
    pub meta: SessionMetaView,
    pub resources: R,
}

impl<R> View for Session<R> {
    type V = SessionView<R>;

    open spec fn view(&self) -> SessionView<R> {
        SessionView { meta: self.meta@, resources: self.resources }
    }
}

/// The bookkeeping of a session that was spawned from `spec`: its kind, its
/// tag and its opening size, and no last command.
pub open spec fn meta_at_spawn(spec: SpawnSpec) -> SessionMetaView {
    SessionMetaView {
        kind: spec.kind,
        environment_tag: spec.environment_tag@,
        cols: spec.spec_size().0,
        rows: spec.spec_size().1,
        last_command: None,
    }
}

/// A session as it is when it starts to be tracked: the bookkeeping of a
/// session spawned from `spec`, and its resources.
pub open spec fn session_at_spawn<R>(spec: SpawnSpec, resources: R) -> SessionView<R> {
    SessionView { meta: meta_at_spawn(spec), resources }
}

/// A session after a resize to `cols` by `rows`: only its size changes.
pub open spec fn resized<R>(s: SessionView<R>, cols: u16, rows: u16) -> SessionView<R> {
    SessionView { meta: SessionMetaView { cols: cols, rows: rows, ..s.meta }, resources: s.resources }
}

/// A session after a write of `data` tagged `origin` at time `at`: its last
/// command becomes what the write leaves to remember, if anything; nothing
/// else changes.
pub open spec fn written<R>(
    s: SessionView<R>,
    data: Seq<char>,
    origin: Option<Seq<char>>,
    at: u64,
) -> SessionView<R> {
    match command_to_remember(data, origin) {
        Some(cmd) => SessionView {
            meta: SessionMetaView { last_command: Some((cmd, at)), ..s.meta },
            resources: s.resources,
        },
        None => s,
    }
}

impl SessionMeta {
    /// The bookkeeping of a session that is spawned from `spec`.
    pub fn at_spawn(spec: &SpawnSpec) -> (meta: SessionMeta)
        ensures
            meta@ == meta_at_spawn(*spec),
    {
        let (cols, rows) = spec.size();
        SessionMeta {
            kind: spec.kind,
            environment_tag: spec.environment_tag.clone(),
            cols,
            rows,
            last_command: None,
        }
    }
}

struct Slot<R> {
    id: String,
    session: Session<R>,
}

/// The tracked sessions, by identifier.
pub struct Registry<R> {
    entries: Vec<Slot<R>>,
}

spec fn distinct<R>(es: Seq<Slot<R>>) -> bool {
    forall|i: int, j: int| 0 <= i < j < es.len() ==> es[i].id@ != es[j].id@
}

spec fn holds<R>(es: Seq<Slot<R>>, id: Seq<char>) -> bool {
    exists|i: int| 0 <= i < es.len() && #[trigger] es[i].id@ == id
}

spec fn place<R>(es: Seq<Slot<R>>, id: Seq<char>) -> int {
    choose|i: int| 0 <= i < es.len() && #[trigger] es[i].id@ == id
}

spec fn table<R>(es: Seq<Slot<R>>) -> Map<Seq<char>, SessionView<R>> {
    Map::new(|id: Seq<char>| holds(es, id), |id: Seq<char>| es[place(es, id)].session@)
}

proof fn lemma_table_at<R>(es: Seq<Slot<R>>, i: int)
    requires
        distinct(es),
        0 <= i < es.len(),
    ensures
        table(es).contains_key(es[i].id@),
        table(es)[es[i].id@] == es[i].session@,
{
    let id = es[i].id@;
    assert(holds(es, id));
    let p = place(es, id);
    assert(p == i) by {
        if p < i {
            assert(es[p].id@ != es[i].id@);
        } else if i < p {
            assert(es[i].id@ != es[p].id@);
        }
    }
}

proof fn lemma_table_remove<R>(es: Seq<Slot<R>>, i: int)
    requires
        distinct(es),
        0 <= i < es.len(),
    ensures
        distinct(es.remove(i)),
        table(es.remove(i)) == table(es).remove(es[i].id@),
{
    let id = es[i].id@;
    let rest = es.remove(i);
    assert forall|a: int, b: int| 0 <= a < b < rest.len() implies rest[a].id@ != rest[b].id@ by {
        let a0 = if a < i { a } else { a + 1 };
        let b0 = if b < i { b } else { b + 1 };
        assert(rest[a] == es[a0]);
        assert(rest[b] == es[b0]);
    }
    assert forall|k: Seq<char>| holds(rest, k) <==> (holds(es, k) && k != id) by {
        if holds(rest, k) {
            let a = place(rest, k);
            let a0 = if a < i { a } else { a + 1 };
            assert(rest[a] == es[a0]);
            assert(es[a0].id@ == k);
            if a0 < i {
                assert(es[a0].id@ != es[i].id@);
            } else {
                assert(es[i].id@ != es[a0].id@);
            }
        }
        if holds(es, k) && k != id {
            let a0 = place(es, k);
            let a = if a0 < i { a0 } else { a0 - 1 };
            assert(rest[a] == es[a0]);
            assert(rest[a].id@ == k);
        }
    }
    assert forall|k: Seq<char>| holds(rest, k) implies es[place(es, k)].session@ == rest[place(
        rest,
        k,
    )].session@ by {
        let a = place(rest, k);
        let a0 = if a < i { a } else { a + 1 };
        assert(rest[a] == es[a0]);
        lemma_table_at(es, a0);
    }
    assert(table(rest) =~= table(es).remove(id));
}

proof fn lemma_table_push<R>(es: Seq<Slot<R>>, e: Slot<R>)
    requires
        distinct(es),
        !holds(es, e.id@),
    ensures
        distinct(es.push(e)),
        table(es.push(e)) == table(es).insert(e.id@, e.session@),
{
    let more = es.push(e);
    let n = es.len() as int;
    assert forall|a: int, b: int| 0 <= a < b < more.len() implies more[a].id@ != more[b].id@ by {
        if b == n {
            assert(more[a] == es[a]);
            if es[a].id@ == e.id@ {
                assert(holds(es, e.id@));
            }
        } else {
            assert(more[a] == es[a]);
            assert(more[b] == es[b]);
        }
    }
    assert forall|k: Seq<char>| holds(more, k) <==> (holds(es, k) || k == e.id@) by {
        if holds(more, k) {
            let a = place(more, k);
            if a < n {
                assert(more[a] == es[a]);
                assert(es[a].id@ == k);
            }
        }
        if holds(es, k) {
            let a = place(es, k);
            assert(more[a] == es[a]);
            assert(more[a].id@ == k);
        }
        if k == e.id@ {
            assert(more[n].id@ == k);
        }
    }
    assert forall|k: Seq<char>| holds(more, k) implies more[place(more, k)].session@ == (if k
        == e.id@ {
        e.session@
    } else {
        es[place(es, k)].session@
    }) by {
        if k == e.id@ {
            lemma_table_at(more, n);
        } else {
            let a = place(es, k);
            assert(more[a] == es[a]);
            lemma_table_at(more, a);
        }
    }
    assert(table(more) =~= table(es).insert(e.id@, e.session@));
}

proof fn lemma_table_update<R>(es: Seq<Slot<R>>, i: int, e: Slot<R>)
    requires
        distinct(es),
        0 <= i < es.len(),
        e.id@ == es[i].id@,
    ensures
        distinct(es.update(i, e)),
        table(es.update(i, e)) == table(es).insert(e.id@, e.session@),
{
    let next = es.update(i, e);
    assert forall|a: int, b: int| 0 <= a < b < next.len() implies next[a].id@ != next[b].id@ by {
        assert(next[a].id@ == es[a].id@);
        assert(next[b].id@ == es[b].id@);
    }
    assert forall|k: Seq<char>| holds(next, k) <==> holds(es, k) by {
        if holds(next, k) {
            let a = place(next, k);
            assert(es[a].id@ == k);
        }
        if holds(es, k) {
            let a = place(es, k);
            assert(next[a].id@ == k);
        }
    }
    assert(holds(es, e.id@));
    assert forall|k: Seq<char>| holds(next, k) implies next[place(next, k)].session@ == (if k
        == e.id@ {
        e.session@
    } else {
        es[place(es, k)].session@
    }) by {
        if k == e.id@ {
            lemma_table_at(next, i);
        } else {
            let a = place(es, k);
            assert(next[a] == es[a]);
            lemma_table_at(next, a);
        }
    }
    assert(table(next) =~= table(es).insert(e.id@, e.session@));
}

proof fn lemma_table_size<R>(es: Seq<Slot<R>>)
    requires
        distinct(es),
    ensures
        table(es).dom().finite(),
        table(es).dom().len() == es.len(),
    decreases es.len(),
{
    if es.len() == 0 {
        assert(table(es).dom() =~= Set::<Seq<char>>::empty());
    } else {
        let init = es.drop_last();
        let last = es.last();
        assert forall|i: int, j: int| 0 <= i < j < init.len() implies init[i].id@ != init[j].id@ by {
            assert(init[i] == es[i]);
            assert(init[j] == es[j]);
        }
        if holds(init, last.id@) {
            let i = place(init, last.id@);
            assert(init[i] == es[i]);
            assert(es[i].id@ != es[es.len() - 1].id@);
        }
        lemma_table_size(init);
        lemma_table_push(init, last);
        assert(init.push(last) =~= es);
        assert(table(es).dom() =~= table(init).dom().insert(last.id@));
    }
}

proof fn lemma_table_absent<R>(es: Seq<Slot<R>>, id: Seq<char>)
    requires
        forall|i: int| 0 <= i < es.len() ==> es[i].id@ != id,
    ensures
        !table(es).contains_key(id),
{
}

/// Where the entry for `id` stands among `es`, if it is there.
fn find<R>(es: &Vec<Slot<R>>, id: &str) -> (r: Option<usize>)
    requires
        distinct(es@),
    ensures
        match r {
            Some(i) => i < es@.len() && es@[i as int].id@ == id@ && table(es@).contains_key(id@)
                && table(es@)[id@] == es@[i as int].session@,
            None => !table(es@).contains_key(id@),
        },
{
    let mut i: usize = 0;
    while i < es.len()
        invariant
            distinct(es@),
            i <= es@.len(),
            forall|j: int| 0 <= j < i ==> es@[j].id@ != id@,
        decreases es@.len() - i,
    {
        if str_eq(es[i].id.as_str(), id) {
            proof {
                lemma_table_at(es@, i as int);
            }
            return Some(i);
        }
        i += 1;
    }
    proof {
        lemma_table_absent(es@, id@);
    }
    None
}

impl<R> View for Registry<R> {
    type V = Map<Seq<char>, SessionView<R>>;

    closed spec fn view(&self) -> Map<Seq<char>, SessionView<R>> {
        table(self.entries@)
    }
}

impl<R> Registry<R> {
    #[verifier::type_invariant]
    spec fn well_formed(self) -> bool {
        distinct(self.entries@)
    }

    /// Takes the entries out, leaving none, to work on them.
    fn take_entries(&mut self) -> (es: Vec<Slot<R>>)
        ensures
            es@ == old(self).entries@,
            distinct(es@),
            final(self).entries@.len() == 0,
    {
        proof {
            use_type_invariant(&*self);
        }
        let mut es: Vec<Slot<R>> = Vec::new();
        core::mem::swap(&mut self.entries, &mut es);
        es
    }

    /// Puts the entries back.
    fn put_entries(&mut self, es: Vec<Slot<R>>)
        requires
            distinct(es@),
        ensures
            final(self).entries@ == es@,
    {
        let mut es = es;
        core::mem::swap(&mut self.entries, &mut es);
    }

    /// A registry that tracks no session.
    pub fn new() -> (r: Self)
        ensures
            r@ == Map::<Seq<char>, SessionView<R>>::empty(),
    {
        let r = Registry { entries: Vec::new() };
        assert(r@ =~= Map::<Seq<char>, SessionView<R>>::empty());
        r
    }

    /// How many sessions are tracked.
    pub fn len(&self) -> (n: usize)
        ensures
            self@.dom().finite(),
            n == self@.len(),
    {
        proof {
            use_type_invariant(self);
            lemma_table_size(self.entries@);
        }
        self.entries.len()
    }

    /// Tells whether no session is tracked.
    pub fn is_empty(&self) -> (r: bool)
        ensures
            r == (self@ == Map::<Seq<char>, SessionView<R>>::empty()),
    {
        proof {
            use_type_invariant(self);
            lemma_table_size(self.entries@);
            if self.entries@.len() == 0 {
                assert(self@ =~= Map::<Seq<char>, SessionView<R>>::empty());
            }
        }
        self.entries.len() == 0
    }

    /// Tells whether `id` is tracked.
    pub fn contains(&self, id: &str) -> (r: bool)
        ensures
            r == self@.contains_key(id@),
    {
        proof {
            use_type_invariant(self);
        }
        find(&self.entries, id).is_some()
    }

    /// The session tracked under `id`, if there is one.
    pub fn get(&self, id: &str) -> (r: Option<&Session<R>>)
        ensures
            match r {
                Some(s) => self@.contains_key(id@) && s@ == self@[id@],
                None => !self@.contains_key(id@),
            },
    {
        proof {
            use_type_invariant(self);
        }
        match find(&self.entries, id) {
            Some(i) => Some(&self.entries[i].session),
            None => None,
        }
    }

    /// Tracks `session` under `id`. A session that was tracked under `id`
    /// before leaves the registry and is handed back.
    pub fn insert(&mut self, id: String, session: Session<R>) -> (previous: Option<Session<R>>)
        ensures
            final(self)@ == old(self)@.insert(id@, session@),
            match previous {
                Some(p) => old(self)@.contains_key(id@) && p@ == old(self)@[id@],
                None => !old(self)@.contains_key(id@),
            },
    {
        let mut es = self.take_entries();
        let previous = match find(&es, id.as_str()) {
            Some(i) => {
                proof {
                    lemma_table_remove(es@, i as int);
                }
                Some(es.remove(i).session)
            },
            None => None,
        };
        let entry = Slot { id, session };
        proof {
            lemma_table_push(es@, entry);
            assert(old(self)@.remove(id@).insert(id@, session@) =~= old(self)@.insert(
                id@,
                session@,
            ));
        }
        es.push(entry);
        self.put_entries(es);
        previous
    }

    /// Stops tracking `id` and hands its session back. Of any number of
    /// removals of one identifier, only the first finds it: the others get
    /// nothing and change nothing.
    pub fn remove(&mut self, id: &str) -> (r: Option<Session<R>>)
        ensures
            final(self)@ == old(self)@.remove(id@),
            match r {
                Some(s) => old(self)@.contains_key(id@) && s@ == old(self)@[id@],
                None => !old(self)@.contains_key(id@),
            },
    {
        let mut es = self.take_entries();
        let r = match find(&es, id) {
            Some(i) => {
                proof {
                    lemma_table_remove(es@, i as int);
                }
                Some(es.remove(i).session)
            },
            None => {
                assert(old(self)@.remove(id@) =~= old(self)@);
                None
            },
        };
        self.put_entries(es);
        r
    }

    /// Starts to track a session that was spawned from `spec` and owns
    /// `resources`, under a fresh identifier, which is handed back.
    ///
    /// The session's bookkeeping is that of `spec`: its kind, its tag, its
    /// opening size, no last command. Which identifier is drawn is left to
    /// chance; should it be one that is tracked already, the new session
    /// takes its place.
    pub fn register(&mut self, spec: &SpawnSpec, resources: R) -> (id: SessionId)
        ensures
            is_identifier(id.0@),
            final(self)@ == old(self)@.insert(id.0@, session_at_spawn(*spec, resources)),
            final(self)@ == step(
                old(self)@,
                (Op::Insert { id: id.0@, session: session_at_spawn(*spec, resources) }),
            ),
    {
        let id = fresh_identifier();
        let session = Session { meta: SessionMeta::at_spawn(spec), resources };
        self.insert(id.clone(), session);
        SessionId(id)
    }

    /// Settles a spawn attempt for `spec`. `outcome` is what the spawner
    /// reports: the resources of the new session, or its diagnostic.
    ///
    /// A successful spawn is tracked as `register` says and its identifier
    /// handed back. A failed spawn is answered with a `Backend` error that
    /// carries the diagnostic, and tracks nothing.
    pub fn complete_spawn(&mut self, spec: &SpawnSpec, outcome: Result<R, String>) -> (r: Result<
        SessionId,
        TerminalError,
    >)
        ensures
            match outcome {
                Ok(resources) => r matches Ok(id) && is_identifier(id.0@) && final(self)@ == old(
                    self,
                )@.insert(id.0@, session_at_spawn(*spec, resources)),
                Err(msg) => r == Err::<SessionId, TerminalError>(TerminalError::Backend(msg))
                    && final(self)@ == old(self)@,
            },
    {
        match outcome {
            Ok(resources) => Ok(self.register(spec, resources)),
            Err(msg) => Err(TerminalError::Backend(msg)),
        }
    }

    /// Takes note of a write of `data` to the session `id`, made at the caller's
    /// clock reading `now`.
    ///
    /// An untracked `id` is answered with `NotFound` and nothing changes.
    /// Otherwise the session's last command becomes what the write leaves to
    /// remember (the normalized data of a write tagged as a command run, if
    /// not empty), nothing else changes, and the caller gets the session's
    /// resources and the bytes to write to its input: those of `data`,
    /// unchanged.
    pub fn begin_write<'a, 'b>(
        &'a mut self,
        id: &str,
        data: &'b str,
        meta: &WriteMeta,
        now: u64,
    ) -> (r: Result<(&'a R, &'b [u8]), TerminalError>)
        ensures
            match r {
                Ok((resources, bytes)) => {
                    &&& old(self)@.contains_key(id@)
                    &&& final(self)@ == old(self)@.insert(
                        id@,
                        written(old(self)@[id@], data@, origin_of(*meta), now),
                    )
                    &&& *resources == old(self)@[id@].resources
                    &&& bytes@ == data.spec_bytes()
                },
                Err(e) => e is NotFound && !old(self)@.contains_key(id@) && final(self)@ == old(
                    self,
                )@,
            },
            final(self)@ == step(
                old(self)@,
                (Op::Write { id: id@, data: data@, origin: origin_of(*meta), at: now }),
            ),
            r is Ok <==> finds(
                old(self)@,
                (Op::Write { id: id@, data: data@, origin: origin_of(*meta), at: now }),
            ),
            r matches Ok((_, bytes)) ==> bytes@ == hands_on(
                old(self)@,
                (Op::Write { id: id@, data: data@, origin: origin_of(*meta), at: now }),
                id@,
            ),
    {
        let mut es = self.take_entries();
        match find(&es, id) {
            Some(i) => {
                let ghost before = es@;
                match remembered_command(data, meta) {
                    Some(command) => {
                        es[i].session.meta.last_command = Some(CommandRecord { command, at: now });
                        proof {
                            assert(es@ == before.update(i as int, es@[i as int]));
                            lemma_table_update(before, i as int, es@[i as int]);
                        }
                    },
                    None => {
                        assert(table(before).insert(id@, table(before)[id@]) =~= table(before));
                    },
                }
                self.put_entries(es);
                Ok((&self.entries[i].session.resources, data.as_bytes()))
            },
            None => {
                self.put_entries(es);
                Err(TerminalError::NotFound)
            },
        }
    }

    /// Records the size `cols` by `rows` for the session `id`.
    ///
    /// An untracked `id` is answered with `NotFound` and nothing changes.
    /// Otherwise the session's recorded size becomes `cols` by `rows`,
    /// nothing else changes, and the caller gets the session's resources, to
    /// apply the size to the pseudo-terminal.
    pub fn resize(&mut self, id: &str, cols: u16, rows: u16) -> (r: Result<&R, TerminalError>)
        ensures
            match r {
                Ok(resources) => {
                    &&& old(self)@.contains_key(id@)
                    &&& final(self)@ == old(self)@.insert(id@, resized(old(self)@[id@], cols, rows))
                    &&& final(self)@[id@].meta.cols == cols
                    &&& final(self)@[id@].meta.rows == rows
                    &&& *resources == old(self)@[id@].resources
                },
                Err(e) => e is NotFound && !old(self)@.contains_key(id@) && final(self)@ == old(
                    self,
                )@,
            },
            final(self)@ == step(old(self)@, (Op::Resize { id: id@, cols, rows })),
            r is Ok <==> finds(old(self)@, (Op::Resize { id: id@, cols, rows })),
    {
        let mut es = self.take_entries();
        match find(&es, id) {
            Some(i) => {
                let ghost before = es@;
                es[i].session.meta.cols = cols;
                es[i].session.meta.rows = rows;
                proof {
                    assert(es@ == before.update(i as int, es@[i as int]));
                    lemma_table_update(before, i as int, es@[i as int]);
                }
                self.put_entries(es);
                Ok(&self.entries[i].session.resources)
            },
            None => {
                self.put_entries(es);
                Err(TerminalError::NotFound)
            },
        }
    }

    /// Closes the session `id` at the caller's request.
    ///
    /// An untracked `id` is answered with `NotFound` and nothing changes.
    /// Otherwise the session stops being tracked, so that no later operation
    /// finds it and no exit notification is sent for it, and is handed to the
    /// caller, who signals its process to end without waiting for it.
    pub fn close(&mut self, id: &str) -> (r: Result<Session<R>, TerminalError>)
        ensures
            final(self)@ == old(self)@.remove(id@),
            match r {
                Ok(session) => old(self)@.contains_key(id@) && session@ == old(self)@[id@],
                Err(e) => e is NotFound && !old(self)@.contains_key(id@),
            },
            final(self)@ == step(old(self)@, (Op::Close { id: id@ })),
            r is Ok <==> finds(old(self)@, (Op::Close { id: id@ })),
    {
        match self.remove(id) {
            Some(session) => Ok(session),
            None => Err(TerminalError::NotFound),
        }
    }

    /// Finalizes the session `id` after one of its background loops has seen
    /// its process end.
    ///
    /// If the session is still tracked it stops being tracked, its resources
    /// are released, and the caller gets the exit notification to send.
    /// Otherwise another path has removed it before (the other loop, or a
    /// close): nothing changes and there is nothing to send.
    pub fn finalize(&mut self, id: &str) -> (r: Option<TerminalExitEvent>)
        ensures
            final(self)@ == old(self)@.remove(id@),
            match r {
                Some(event) => old(self)@.contains_key(id@) && event.session_id@ == id@,
                None => !old(self)@.contains_key(id@),
            },
            final(self)@ == step(old(self)@, (Op::Finalize { id: id@ })),
            r is Some <==> announces_exit(old(self)@, (Op::Finalize { id: id@ }), id@),
    {
        match self.remove(id) {
            Some(_) => Some(TerminalExitEvent { session_id: id.to_owned() }),
            None => None,
        }
    }
}

} // verus!
