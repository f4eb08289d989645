//! The table of sessions, and the three operations on it: create, write and
//! resize.
use vstd::prelude::*;
use vstd::hash_map::StringHashMap;
use vstd::utf8::encode_utf8;
use crate::command::{spawn_request, Platform, SpawnRequest};
use crate::geometry::Geometry;
use crate::notification::{Notification, NotificationView};
use crate::reader::{fresh, ReaderTask};

verus! {

/// The two capabilities of a live session. The table keeps them and never
/// looks inside: `C` resizes the pseudo-terminal, `W` sends bytes to its input.
pub struct Session<C, W> {
    /// The controlling endpoint of the pseudo-terminal.
    pub control: C,
    /// The write handle, taken from the controlling endpoint once.
    pub writer: W,
}

/// The sessions of a host, by identifier. A session is entered when its
/// process was spawned, and stays for the lifetime of the table.
pub struct SessionTable<C, W> {
    index: StringHashMap<usize>,
    slots: Vec<Session<C, W>>,
}

/// What became of a request to create a session.
#[derive(Debug)]
pub enum CreateOutcome {
    /// The identifier was in use: nothing was changed.
    Ignored,
    /// The session was entered; the host now runs this reader, its only one.
    Started(ReaderTask),
    /// The process could not be spawned: nothing was entered, and the host
    /// emits this exit.
    SpawnFailed(Notification),
}

/// Whether creating `id` spawns a process: only an unused identifier does.
pub open spec fn wants_spawn<S>(table: Map<Seq<char>, S>, id: Seq<char>) -> bool {
    !table.contains_key(id)
}

/// The table after `id` was created and the spawn gave `spawned` (`None` where
/// it failed): the session is entered under an unused identifier, and nothing
/// changes otherwise.
pub open spec fn after_create<S>(table: Map<Seq<char>, S>, id: Seq<char>, spawned: Option<S>) -> Map<
    Seq<char>,
    S,
> {
    if table.contains_key(id) {
        table
    } else {
        match spawned {
            Some(session) => table.insert(id, session),
            None => table,
        }
    }
}

/// The session that a spawn produced, if it succeeded.
pub open spec fn spawned_session<S, E>(spawned: Result<S, E>) -> Option<S> {
    match spawned {
        Ok(session) => Some(session),
        Err(_) => None,
    }
}

/// The table that a sequence of creates leaves, starting from none: each entry
/// is the identifier of one create and what its spawn gave.
pub open spec fn after_creates<S>(creates: Seq<(Seq<char>, Option<S>)>) -> Map<Seq<char>, S>
    decreases creates.len(),
{
    if creates.len() == 0 {
        Map::empty()
    } else {
        after_create(after_creates(creates.drop_last()), creates.last().0, creates.last().1)
    }
}

/// Whether the create at position `i` was for `id` and its spawn succeeded.
pub open spec fn created_at<S>(creates: Seq<(Seq<char>, Option<S>)>, i: int, id: Seq<char>) -> bool {
    0 <= i < creates.len() && creates[i].0 == id && creates[i].1 is Some
}

/// Creating a session twice under one identifier leaves exactly one session,
/// the first: after a create whose spawn succeeded the identifier is in use, a
/// further create of it asks for no spawn and changes nothing, whatever it
/// would have entered, and the session found under it is the first one's.
pub proof fn lemma_second_create_is_ignored<S>(
    table: Map<Seq<char>, S>,
    id: Seq<char>,
    first: S,
    second: Option<S>,
)
    ensures
        ({
            let once = after_create(table, id, Some(first));
            &&& once.contains_key(id)
            &&& !wants_spawn(once, id)
            &&& after_create(once, id, second) == once
            &&& wants_spawn(table, id) ==> once[id] == first
            &&& !wants_spawn(table, id) ==> once == table
        }),
{
}

/// A create whose spawn failed enters nothing: the table is as before, and an
/// identifier that was unknown stays unknown.
pub proof fn lemma_failed_spawn_enters_nothing<S>(table: Map<Seq<char>, S>, id: Seq<char>)
    ensures
        after_create(table, id, None::<S>) == table,
        wants_spawn(table, id) ==> !after_create(table, id, None::<S>).contains_key(id),
{
}

/// A create touches no session but its own, and removes none: every session
/// that was entered before is found unchanged afterwards, and the only
/// identifier that can be new is the one created.
pub proof fn lemma_create_keeps_sessions<S>(
    table: Map<Seq<char>, S>,
    id: Seq<char>,
    spawned: Option<S>,
    other: Seq<char>,
)
    ensures
        ({
            let after = after_create(table, id, spawned);
            &&& table.contains_key(other) ==> after.contains_key(other) && after[other]
                == table[other]
            &&& after.contains_key(other) && !table.contains_key(other) ==> other == id
                && spawned == Some(after[other])
        }),
{
}

/// In every state that creates can reach, an identifier is known exactly if
/// some create of it had a successful spawn, and the session found under it is
/// that of the earliest such create. So an identifier that was never created,
/// or whose every spawn failed, is unknown.
pub proof fn lemma_known_iff_created<S>(creates: Seq<(Seq<char>, Option<S>)>, id: Seq<char>)
    ensures
        after_creates(creates).contains_key(id) <==> exists|i: int|
            #[trigger] created_at(creates, i, id),
        forall|i: int|
            #[trigger] created_at(creates, i, id) && (forall|j: int|
                0 <= j < i ==> !#[trigger] created_at(creates, j, id)) ==> after_creates(
                creates,
            )[id] == creates[i].1->0,
    decreases creates.len(),
{
    if creates.len() > 0 {
        let before = creates.drop_last();
        let last = creates.len() - 1;
        lemma_known_iff_created(before, id);
        assert forall|i: int| created_at(before, i, id) == (i < last && created_at(
            creates,
            i,
            id,
        )) by {
            if 0 <= i < last {
                assert(before[i] == creates[i]);
            }
        }
        if after_creates(before).contains_key(id) {
            let w = choose|i: int| #[trigger] created_at(before, i, id);
            assert(created_at(creates, w, id));
        } else if created_at(creates, last, id) {
        } else {
            assert forall|i: int| !#[trigger] created_at(creates, i, id) by {
                if created_at(creates, i, id) {
                    assert(created_at(before, i, id));
                }
            }
        }
        assert forall|i: int|
            #[trigger] created_at(creates, i, id) && (forall|j: int|
                0 <= j < i ==> !#[trigger] created_at(creates, j, id)) implies after_creates(
            creates,
        )[id] == creates[i].1->0 by {
            if i < last {
                assert(created_at(before, i, id));
                assert forall|j: int| 0 <= j < i implies !#[trigger] created_at(before, j, id) by {
                    assert(!created_at(creates, j, id));
                }
            } else {
                assert forall|j: int| !#[trigger] created_at(before, j, id) by {
                    if created_at(before, j, id) {
                        assert(created_at(creates, j, id));
                    }
                }
            }
        }
    }
}

impl<C, W> View for SessionTable<C, W> {
    type V = Map<Seq<char>, Session<C, W>>;

    closed spec fn view(&self) -> Map<Seq<char>, Session<C, W>> {
        Map::new(
            |id: Seq<char>| self.index@.contains_key(id),
            |id: Seq<char>| self.slots@[self.index@[id] as int],
        )
    }
}

impl<C, W> SessionTable<C, W> {
    /// The table's invariant: every identifier has a slot of its own. A new
    /// table has it and every operation keeps it.
    pub closed spec fn well_formed(&self) -> bool {
        &&& forall|id: Seq<char>|
            self.index@.contains_key(id) ==> (#[trigger] self.index@[id]) < self.slots@.len()
        &&& forall|a: Seq<char>, b: Seq<char>|
            self.index@.contains_key(a) && self.index@.contains_key(b) && (
            #[trigger] self.index@[a]) == (#[trigger] self.index@[b]) ==> a == b
    }

    /// A table without sessions.
    pub fn new() -> (table: Self)
        ensures
            table.well_formed(),
            table@ == Map::<Seq<char>, Session<C, W>>::empty(),
    {
        let table = SessionTable { index: StringHashMap::new(), slots: Vec::new() };
        assert(table@ =~= Map::<Seq<char>, Session<C, W>>::empty());
        table
    }

    /// Whether a session is entered under `id`.
    pub fn contains(&self, id: &str) -> (known: bool)
        ensures
            known == self@.contains_key(id@),
    {
        self.index.contains_key(id)
    }

    /// First half of creating a session: what to spawn, or `None` where `id` is
    /// in use and the request is to be dropped without any effect.
    pub fn begin_create(
        &self,
        id: &str,
        command: Option<String>,
        args: Option<Vec<String>>,
        platform: Platform,
        shell: Option<String>,
    ) -> (request: Option<SpawnRequest>)
        ensures
            request is Some <==> wants_spawn(self@, id@),
            request matches Some(r) ==> r@ == spawn_request(
                command.deep_view(),
                args.deep_view(),
                platform,
                shell.deep_view(),
            ),
    {
        if self.index.contains_key(id) {
            None
        } else {
            Some(SpawnRequest::new(command, args, platform, shell))
        }
    }

    /// Second half of creating a session: enters what the spawn produced, or
    /// reports its failure.
    pub fn finish_create<E>(&mut self, id: String, spawned: Result<Session<C, W>, E>) -> (outcome:
        CreateOutcome)
        requires
            old(self).well_formed(),
        ensures
            final(self).well_formed(),
            final(self)@ == after_create(old(self)@, id@, spawned_session(spawned)),
            match outcome {
                CreateOutcome::Ignored => !wants_spawn(old(self)@, id@),
                CreateOutcome::Started(task) => wants_spawn(old(self)@, id@) && spawned is Ok
                    && task@ == fresh(id@),
                CreateOutcome::SpawnFailed(exit) => wants_spawn(old(self)@, id@) && spawned is Err
                    && exit@ == (NotificationView::Exit { session: id@ }),
            },
    {
        if self.index.contains_key(id.as_str()) {
            return CreateOutcome::Ignored;
        }
        match spawned {
            Ok(session) => {
                let slot = self.slots.len();
                self.slots.push(session);
                self.index.insert(id.clone(), slot);
                assert(final(self)@ =~= old(self)@.insert(id@, session));
                CreateOutcome::Started(ReaderTask::new(id))
            },
            Err(_) => CreateOutcome::SpawnFailed(Notification::Exit { session: id }),
        }
    }

    /// Where a write goes: the write handle of the session and the bytes to
    /// send, which are the text in UTF-8; `None` for an unknown identifier,
    /// for which nothing is to be done. The table keeps what the host leaves
    /// in the handle.
    pub fn write<'a>(&'a mut self, id: &str, data: &'a str) -> (target: Option<
        (&'a mut W, &'a [u8]),
    >)
        requires
            old(self).well_formed(),
        ensures
            final(self).well_formed(),
            target is Some <==> old(self)@.contains_key(id@),
            target is None ==> final(self)@ == old(self)@,
            target matches Some((writer, bytes)) ==> {
                &&& *writer == old(self)@[id@].writer
                &&& bytes@ == encode_utf8(data@)
                &&& final(self)@ == old(self)@.insert(
                    id@,
                    Session { control: old(self)@[id@].control, writer: *final(writer) },
                )
            },
    {
        let slot = match self.index.get(id) {
            Some(slot) => *slot,
            None => {
                return None;
            },
        };
        let writer = &mut self.slots[slot].writer;
        Some((writer, data.as_bytes()))
    }

    /// Where a resize goes: the controlling endpoint of the session and the
    /// geometry to set, which is `rows` by `cols` with the pixel sizes at 0;
    /// `None` for an unknown identifier, for which nothing is to be done.
    pub fn resize(&self, id: &str, rows: u16, cols: u16) -> (target: Option<(&C, Geometry)>)
        requires
            self.well_formed(),
        ensures
            target is Some <==> self@.contains_key(id@),
            target matches Some((control, geometry)) ==> {
                &&& *control == self@[id@].control
                &&& geometry == Geometry::cells(rows, cols)
            },
    {
        match self.index.get(id) {
            Some(slot) => Some((&self.slots[*slot].control, Geometry::of_cells(rows, cols))),
            None => None,
        }
    }
}

} // verus!
