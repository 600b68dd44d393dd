use vstd::prelude::*;
use core::marker::PhantomData;
use crate::data::{clone_row, ObjectId, Row, ValueView};
use crate::error::{
    references_schema_column, reports_schema_mismatch, Error, ErrorView, NotFoundError, Result,
};
use crate::object::{row_matches, Object, Schema, SchemaView};
use crate::storage::{is_general_error, Stmt, StorageTx};

verus! {

/// What has happened to a tracked record since it was loaded or created:
/// nothing, a mutation that commit must write back, or a removal that
/// commit must delete. Once removed, an entry can no longer be borrowed.
#[derive(Clone, Copy, PartialEq, Eq, Structural, Debug)]
pub enum ObjectState {
    Clean,
    Modified,
    Removed,
}

/// One tracked record: its key (type label and row id), its schema, the
/// current serialized form of the shared instance, its mutation state, and
/// the outstanding borrows on it.
struct Entry {
    type_label: String,
    id: ObjectId,
    schema: Schema,
    row: Row,
    state: ObjectState,
    shared: usize,
    excl: bool,
}

/// Mathematical form of one tracked record.
pub struct EntryView {
    pub type_label: Seq<char>,
    pub id: ObjectId,
    pub schema: SchemaView,
    pub row: Seq<ValueView>,
    pub state: ObjectState,
    pub shared: usize,
    pub excl: bool,
}

impl View for Entry {
    type V = EntryView;

    closed spec fn view(&self) -> EntryView {
        EntryView {
            type_label: self.type_label@,
            id: self.id,
            schema: self.schema@,
            row: self.row.deep_view(),
            state: self.state,
            shared: self.shared,
            excl: self.excl,
        }
    }
}

impl DeepView for Entry {
    type V = EntryView;

    open spec fn deep_view(&self) -> EntryView {
        self.view()
    }
}

/// Two entries track the same logical record.
pub open spec fn same_key(a: EntryView, b: EntryView) -> bool {
    a.type_label == b.type_label && a.id == b.id
}

/// The index of the first entry with this key, at or after `i`.
pub open spec fn spec_find(
    entries: Seq<EntryView>,
    label: Seq<char>,
    id: ObjectId,
    i: int,
) -> Option<int>
    decreases entries.len() - i,
{
    if i < 0 || i >= entries.len() {
        None
    } else if entries[i].type_label == label && entries[i].id == id {
        Some(i)
    } else {
        spec_find(entries, label, id, i + 1)
    }
}

/// Every entry tracking a record of this type carries this type's schema.
/// Two record types must not share a type label within one unit of work:
/// the label is the type's identity in the map.
pub open spec fn label_consistent<T: Object>(entries: Seq<EntryView>) -> bool {
    forall|i: int|
        0 <= i < entries.len() && (#[trigger] entries[i]).type_label == T::table().type_label
            ==> entries[i].schema == T::table()
}

/// The statements one entry contributes to a commit: a delete when removed,
/// an update when modified (none when its schema has no columns to set),
/// nothing when clean.
pub open spec fn flush_stmt(e: EntryView) -> Seq<Stmt> {
    match e.state {
        ObjectState::Removed => seq![
            Stmt::Delete { table: e.schema.table_name, id: e.id.spec_i64() },
        ],
        ObjectState::Modified => if e.schema.columns.len() == 0 {
            Seq::empty()
        } else {
            seq![
                Stmt::Update { table: e.schema.table_name, id: e.id.spec_i64(), row: e.row },
            ]
        },
        ObjectState::Clean => Seq::empty(),
    }
}

/// The statements a commit issues for these entries, in entry order.
pub open spec fn flush_stmts(entries: Seq<EntryView>) -> Seq<Stmt>
    decreases entries.len(),
{
    if entries.len() == 0 {
        Seq::empty()
    } else {
        flush_stmts(entries.drop_last()) + flush_stmt(entries.last())
    }
}

/// Ensuring a table issues its existence check, followed by its create
/// statement when the check did not find it.
pub open spec fn ensure_table_delta(pre: Seq<Stmt>, post: Seq<Stmt>, table: Seq<char>) -> bool {
    ||| post == pre.push(Stmt::TableCheck { table })
    ||| post == pre.push(Stmt::TableCheck { table }).push(Stmt::CreateTable { table })
}

/// An error a flush or commit can end with.
pub open spec fn is_flush_error(e: ErrorView) -> bool {
    ||| e matches ErrorView::NotFound(_)
    ||| e matches ErrorView::LockConflict
    ||| e matches ErrorView::Storage(_)
}

/// One unit of work: owns a storage transaction and tracks every record it
/// has created or loaded, keyed by (type label, row id), with at most one
/// entry per key. All handles to one key share the one tracked entry, so
/// every access within the unit of work sees the same instance.
pub struct Transaction<'a> {
    entries: Vec<Entry>,
    storage: StorageTx<'a>,
}

impl<'a> View for Transaction<'a> {
    type V = Seq<EntryView>;

    closed spec fn view(&self) -> Seq<EntryView> {
        self.entries.deep_view()
    }
}

impl<'a> Transaction<'a> {
    /// The statements issued to the engine through this unit of work.
    pub closed spec fn log(&self) -> Seq<Stmt> {
        self.storage.log()
    }

    /// At most one entry per key, and every entry's row fits its schema.
    pub open spec fn wf(&self) -> bool {
        &&& forall|i: int, j: int|
            #![trigger self@[i], self@[j]]
            0 <= i < j < self@.len() ==> !same_key(self@[i], self@[j])
        &&& forall|i: int|
            0 <= i < self@.len() ==> row_matches(
                (#[trigger] self@[i]).row,
                self@[i].schema.columns,
            )
    }

    /// Opens a unit of work over a storage transaction.
    pub fn new(storage: StorageTx<'a>) -> (r: Self)
        ensures
            r.wf(),
            r@ == Seq::<EntryView>::empty(),
            r.log() == storage.log(),
    {
        let r = Transaction { entries: Vec::new(), storage };
        proof {
            assert(r@ =~= Seq::<EntryView>::empty());
        }
        r
    }

    fn find_index(&self, label: &String, id: ObjectId) -> (r: Option<usize>)
        ensures
            match r {
                Some(j) => 0 <= j < self@.len() && self@[j as int].type_label == label@
                    && self@[j as int].id == id && spec_find(self@, label@, id, 0) == Some(j as int),
                None => spec_find(self@, label@, id, 0) is None && forall|k: int|
                    0 <= k < self@.len() ==> !((#[trigger] self@[k]).type_label == label@
                        && self@[k].id == id),
            },
    {
        let mut i: usize = 0;
        while i < self.entries.len()
            invariant
                i <= self.entries.len(),
                spec_find(self@, label@, id, 0) == spec_find(self@, label@, id, i as int),
                forall|k: int|
                    0 <= k < i ==> !((#[trigger] self@[k]).type_label == label@ && self@[k].id
                        == id),
            decreases self.entries.len() - i,
        {
            if self.entries[i].type_label == *label && self.entries[i].id == id {
                return Some(i);
            }
            i = i + 1;
        }
        None
    }

    /// Makes sure the record type's table exists, creating it when the
    /// engine's catalog does not know it yet.
    fn ensure_table<T: Object>(&mut self) -> (r: Result<()>)
        ensures
            final(self)@ == old(self)@,
            ensure_table_delta(old(self).log(), final(self).log(), T::table().table_name),
            r matches Err(e) ==> is_general_error(e@),
    {
        let schema = T::schema();
        match self.storage.table_exists(schema.table_name.as_str()) {
            Err(e) => Err(e),
            Ok(true) => Ok(()),
            Ok(false) => match self.storage.create_table(&schema) {
                Err(e) => Err(e),
                Ok(()) => Ok(()),
            },
        }
    }

    /// Makes sure the record's table exists, writes the record eagerly (the
    /// insert happens now, not at commit; only rolling back undoes it),
    /// registers a clean entry holding the instance under the id the engine
    /// assigned, and hands back a handle. A colliding key re-registers the
    /// entry with the new instance.
    pub fn create<T: Object>(&mut self, src_obj: T) -> (r: Result<Tx<T>>)
        requires
            old(self).wf(),
            label_consistent::<T>(old(self)@),
        ensures
            final(self).wf(),
            label_consistent::<T>(final(self)@),
            match r {
                Ok(h) => {
                    let e = EntryView {
                        type_label: T::table().type_label,
                        id: h.spec_id(),
                        schema: T::table(),
                        row: src_obj.serial(),
                        state: ObjectState::Clean,
                        shared: 0,
                        excl: false,
                    };
                    &&& h.valid(*final(self))
                    &&& final(self)@[h.spec_idx()] == e
                    &&& match spec_find(old(self)@, T::table().type_label, h.spec_id(), 0) {
                        Some(j) => final(self)@ == old(self)@.update(j, e) && h.spec_idx() == j,
                        None => final(self)@ == old(self)@.push(e) && h.spec_idx() == old(self)@.len(),
                    }
                    &&& exists|mid: Seq<Stmt>|
                        ensure_table_delta(old(self).log(), mid, T::table().table_name) && final(self).log() == mid.push(
                            Stmt::Insert { table: T::table().table_name, row: src_obj.serial() },
                        )
                },
                Err(e) => final(self)@ == old(self)@ && match e@ {
                    ErrorView::MissingColumn(m) => references_schema_column(m, T::table()),
                    ErrorView::LockConflict => true,
                    ErrorView::Storage(_) => true,
                    _ => false,
                },
            },
    {
        match self.ensure_table::<T>() {
            Err(e) => {
                return Err(e);
            },
            Ok(()) => {},
        }
        let ghost mid_log = self.log();
        let schema = T::schema();
        let row = src_obj.serialize();
        match self.storage.insert_row(&schema, &row) {
            Err(e) => Err(e),
            Ok(id) => {
                let found = self.find_index(&schema.type_label, id);
                let entry = Entry {
                    type_label: schema.type_label.clone(),
                    id,
                    schema,
                    row,
                    state: ObjectState::Clean,
                    shared: 0,
                    excl: false,
                };
                let ghost ev = entry@;
                proof {
                    assert(ensure_table_delta(old(self).log(), mid_log, T::table().table_name)
                        && self.log() == mid_log.push(
                        Stmt::Insert { table: T::table().table_name, row: src_obj.serial() },
                    ));
                }
                match found {
                    Some(j) => {
                        self.entries[j] = entry;
                        proof {
                            assert(self@ =~= old(self)@.update(j as int, ev));
                        }
                        Ok(Tx { idx: j, id, ob: PhantomData })
                    },
                    None => {
                        let j = self.entries.len();
                        self.entries.push(entry);
                        proof {
                            assert(self@ =~= old(self)@.push(ev));
                        }
                        Ok(Tx { idx: j, id, ob: PhantomData })
                    },
                }
            },
        }
    }

    /// Hands back a handle to the record with this id. A key already
    /// tracked is answered from the identity map alone — the same shared
    /// instance, no read from storage — unless it is removed, which is the
    /// not-found condition. An unknown key is read from storage,
    /// registered clean, and handed back.
    pub fn get<T: Object>(&mut self, id: ObjectId) -> (r: Result<Tx<T>>)
        requires
            old(self).wf(),
            label_consistent::<T>(old(self)@),
        ensures
            final(self).wf(),
            label_consistent::<T>(final(self)@),
            match spec_find(old(self)@, T::table().type_label, id, 0) {
                Some(j) => {
                    &&& ensure_table_delta(
                        old(self).log(),
                        final(self).log(),
                        T::table().table_name,
                    )
                    &&& final(self)@ == old(self)@
                    &&& old(self)@[j].state == ObjectState::Removed ==> (r matches Err(e) && ((
                    e@ matches ErrorView::NotFound(n) && n.object_id == id && n.type_label
                        == T::table().type_label) || is_general_error(e@)))
                    &&& old(self)@[j].state != ObjectState::Removed ==> match r {
                        Ok(h) => h.spec_idx() == j && h.spec_id() == id && h.valid(*final(self)),
                        Err(e) => is_general_error(e@),
                    }
                },
                None => match r {
                    Ok(h) => {
                        &&& final(self)@.len() == old(self)@.len() + 1
                        &&& final(self)@.subrange(0, old(self)@.len() as int) == old(self)@
                        &&& h.spec_idx() == old(self)@.len()
                        &&& h.spec_id() == id
                        &&& h.valid(*final(self))
                        &&& final(self)@.last() == (EntryView {
                            type_label: T::table().type_label,
                            id: id,
                            schema: T::table(),
                            row: final(self)@.last().row,
                            state: ObjectState::Clean,
                            shared: 0,
                            excl: false,
                        })
                        &&& row_matches(final(self)@.last().row, T::table().columns)
                        &&& exists|mid: Seq<Stmt>|
                            ensure_table_delta(old(self).log(), mid, T::table().table_name)
                                && final(self).log() == mid.push(
                                Stmt::Select { table: T::table().table_name, id: id.spec_i64() },
                            )
                    },
                    Err(e) => final(self)@ == old(self)@ && match e@ {
                        ErrorView::NotFound(n) => n.object_id == id && n.type_label
                            == T::table().type_label,
                        ErrorView::UnexpectedType(u) => reports_schema_mismatch(u, T::table()),
                        ErrorView::MissingColumn(m) => references_schema_column(m, T::table()),
                        ErrorView::LockConflict => true,
                        ErrorView::Storage(_) => true,
                    },
                },
            },
    {
        match self.ensure_table::<T>() {
            Err(e) => {
                return Err(e);
            },
            Ok(()) => {},
        }
        let ghost mid_log = self.log();
        let schema = T::schema();
        match self.find_index(&schema.type_label, id) {
            Some(j) => {
                if let ObjectState::Removed = self.entries[j].state {
                    Err(Error::NotFound(NotFoundError::new(id, schema.type_label)))
                } else {
                    Ok(Tx { idx: j, id, ob: PhantomData })
                }
            },
            None => {
                match self.storage.select_row(id, &schema) {
                    Err(e) => Err(e),
                    Ok(row) => {
                        proof {
                            assert(ensure_table_delta(
                                old(self).log(),
                                mid_log,
                                T::table().table_name,
                            ) && self.log() == mid_log.push(
                                Stmt::Select { table: T::table().table_name, id: id.spec_i64() },
                            ));
                        }
                        let j = self.entries.len();
                        let entry = Entry {
                            type_label: schema.type_label.clone(),
                            id,
                            schema,
                            row,
                            state: ObjectState::Clean,
                            shared: 0,
                            excl: false,
                        };
                        let ghost ev = entry@;
                        self.entries.push(entry);
                        proof {
                            assert(self@ =~= old(self)@.push(ev));
                            assert(final(self)@.subrange(0, old(self)@.len() as int) =~= old(self)@);
                        }
                        Ok(Tx { idx: j, id, ob: PhantomData })
                    },
                }
            },
        }
    }

    /// Walks every tracked entry in registration order and issues its
    /// pending work: a delete for each removed entry, an update with the
    /// entry's current serialized form for each modified one, nothing for
    /// clean ones. The first failure aborts the walk.
    pub fn try_apply(&mut self) -> (r: Result<()>)
        requires
            old(self).wf(),
        ensures
            final(self).wf(),
            final(self)@ == old(self)@,
            r is Ok ==> final(self).log() == old(self).log() + flush_stmts(old(self)@),
            r matches Err(e) ==> is_flush_error(e@) && exists|k: int|
                0 <= k <= old(self)@.len() && final(self).log() == old(self).log() + flush_stmts(
                    old(self)@.take(k),
                ),
    {
        let mut i: usize = 0;
        proof {
            assert(old(self)@.take(0) =~= Seq::<EntryView>::empty());
            assert(self.log() =~= old(self).log() + flush_stmts(old(self)@.take(0)));
        }
        while i < self.entries.len()
            invariant
                old(self).wf(),
                self.wf(),
                i <= self.entries@.len(),
                self@ == old(self)@,
                self.log() == old(self).log() + flush_stmts(old(self)@.take(i as int)),
            decreases self.entries.len() - i,
        {
            let ghost pre_log = self.log();
            let state = self.entries[i].state;
            let id = self.entries[i].id;
            let res: Result<()> = match state {
                ObjectState::Removed => self.storage.delete_row(id, &self.entries[i].schema),
                ObjectState::Modified => self.storage.update_row(
                    id,
                    &self.entries[i].schema,
                    &self.entries[i].row,
                ),
                ObjectState::Clean => Ok(()),
            };
            proof {
                assert(old(self)@.take(i + 1).drop_last() =~= old(self)@.take(i as int));
                assert(old(self)@.take(i + 1).last() == old(self)@[i as int]);
                assert(self.log() =~= old(self).log() + flush_stmts(old(self)@.take(i + 1)));
            }
            match res {
                Ok(()) => {},
                Err(e) => {
                    return Err(e);
                },
            }
            i = i + 1;
        }
        proof {
            assert(old(self)@.take(old(self)@.len() as int) =~= old(self)@);
        }
        Ok(())
    }

    /// Flushes every pending update and delete, then commits the engine
    /// transaction, consuming the unit of work. Any failure aborts the
    /// whole operation and leaves the engine transaction unresolved. The
    /// second component reports every statement the unit of work ever
    /// issued.
    pub fn commit(self) -> (r: (Result<()>, Ghost<Seq<Stmt>>))
        requires
            self.wf(),
        ensures
            r.0 is Ok ==> r.1@ == self.log() + flush_stmts(self@) + seq![Stmt::Commit],
            r.0 matches Err(e) ==> is_flush_error(e@) && ((exists|k: int|
                0 <= k <= self@.len() && r.1@ == self.log() + flush_stmts(self@.take(k))) || r.1@
                == self.log() + flush_stmts(self@) + seq![Stmt::Commit]),
    {
        let mut this = self;
        let ghost pre_log = this.log();
        let ghost pre_entries = this@;
        match this.try_apply() {
            Err(e) => {
                let ghost l = this.log();
                (Err(e), Ghost(l))
            },
            Ok(()) => {
                let res = this.storage.commit();
                let ghost l = this.log();
                proof {
                    assert(l =~= pre_log + flush_stmts(pre_entries) + seq![Stmt::Commit]);
                }
                match res {
                    Ok(()) => (Ok(()), Ghost(l)),
                    Err(e) => (Err(e), Ghost(l)),
                }
            },
        }
    }

    /// Rolls the engine transaction back and discards the unit of work; no
    /// pending change is flushed. The second component reports every
    /// statement the unit of work ever issued.
    pub fn rollback(self) -> (r: (Result<()>, Ghost<Seq<Stmt>>))
        ensures
            r.1@ == self.log().push(Stmt::Rollback),
            r.0 matches Err(e) ==> is_general_error(e@),
    {
        let mut this = self;
        let res = this.storage.rollback();
        let ghost l = this.log();
        match res {
            Ok(()) => (Ok(()), Ghost(l)),
            Err(e) => (Err(e), Ghost(l)),
        }
    }
}

/// A typed handle to one tracked record of a unit of work. Handles are
/// plain keys: any number may point at the same entry, and all observe the
/// same shared instance and mutation state.
pub struct Tx<T> {
    idx: usize,
    id: ObjectId,
    ob: PhantomData<T>,
}

/// Shared read access to one tracked record: the value read, tied to the
/// entry it came from. The borrow stays outstanding until released.
pub struct ReadGuard<T> {
    idx: usize,
    value: T,
}

/// Exclusive write access to one tracked record. Mutate `value`, then
/// release the guard to write it back into the shared entry.
pub struct WriteGuard<T> {
    idx: usize,
    value: T,
}

impl<T: Object> Tx<T> {
    /// The index of the tracked entry this handle points at.
    pub closed spec fn spec_idx(&self) -> int {
        self.idx as int
    }

    /// The row id this handle was issued for.
    pub closed spec fn spec_id(&self) -> ObjectId {
        self.id
    }

    /// The handle points at a live entry of its own type and id.
    pub open spec fn valid<'a>(&self, tr: Transaction<'a>) -> bool {
        &&& 0 <= self.spec_idx() < tr@.len()
        &&& tr@[self.spec_idx()].type_label == T::table().type_label
        &&& tr@[self.spec_idx()].id == self.spec_id()
        &&& tr@[self.spec_idx()].schema == T::table()
    }

    /// The storage id of the record this handle tracks.
    pub fn id(&self) -> (r: ObjectId)
        ensures
            r == self.spec_id(),
    {
        self.id
    }

    /// Another handle to the same tracked entry.
    pub fn duplicate(&self) -> (h: Tx<T>)
        ensures
            h.spec_idx() == self.spec_idx(),
            h.spec_id() == self.spec_id(),
    {
        Tx { idx: self.idx, id: self.id, ob: PhantomData }
    }

    /// The entry's mutation state, as every handle sharing the key sees it.
    pub fn state<'a>(&self, tr: &Transaction<'a>) -> (r: ObjectState)
        requires
            self.valid(*tr),
        ensures
            r == tr@[self.spec_idx()].state,
    {
        tr.entries[self.idx].state
    }

    /// Takes a shared borrow of the tracked record. Any number of shared
    /// borrows may be outstanding at once; a removed entry, or one under an
    /// exclusive borrow, cannot be borrowed at all.
    pub fn borrow<'a>(&self, tr: &mut Transaction<'a>) -> (g: ReadGuard<T>)
        requires
            old(tr).wf(),
            self.valid(*old(tr)),
            old(tr)@[self.spec_idx()].state != ObjectState::Removed,
            !old(tr)@[self.spec_idx()].excl,
            old(tr)@[self.spec_idx()].shared < usize::MAX,
        ensures
            final(tr).wf(),
            final(tr)@ == old(tr)@.update(
                self.spec_idx(),
                EntryView {
                    shared: (old(tr)@[self.spec_idx()].shared + 1) as usize,
                    ..old(tr)@[self.spec_idx()]
                },
            ),
            final(tr).log() == old(tr).log(),
            g.guard_idx() == self.spec_idx(),
            g.spec_value().serial() == old(tr)@[self.spec_idx()].row,
    {
        let row = clone_row(&tr.entries[self.idx].row);
        let value = T::deserialize(row);
        tr.entries[self.idx].shared = tr.entries[self.idx].shared + 1;
        proof {
            assert(tr@ =~= old(tr)@.update(
                self.spec_idx(),
                EntryView {
                    shared: (old(tr)@[self.spec_idx()].shared + 1) as usize,
                    ..old(tr)@[self.spec_idx()]
                },
            ));
        }
        ReadGuard { idx: self.idx, value }
    }

    /// Takes the exclusive borrow of the tracked record and marks the entry
    /// modified — the record counts as mutated from this call on, whether
    /// or not the caller writes anything. No other borrow, shared or
    /// exclusive, may be outstanding, and a removed entry cannot be
    /// borrowed.
    pub fn borrow_mut<'a>(&self, tr: &mut Transaction<'a>) -> (g: WriteGuard<T>)
        requires
            old(tr).wf(),
            self.valid(*old(tr)),
            old(tr)@[self.spec_idx()].state != ObjectState::Removed,
            old(tr)@[self.spec_idx()].shared == 0,
            !old(tr)@[self.spec_idx()].excl,
        ensures
            final(tr).wf(),
            final(tr)@ == old(tr)@.update(
                self.spec_idx(),
                EntryView {
                    state: ObjectState::Modified,
                    excl: true,
                    ..old(tr)@[self.spec_idx()]
                },
            ),
            final(tr).log() == old(tr).log(),
            g.guard_idx() == self.spec_idx(),
            g.spec_value().serial() == old(tr)@[self.spec_idx()].row,
    {
        let row = clone_row(&tr.entries[self.idx].row);
        let value = T::deserialize(row);
        tr.entries[self.idx].state = ObjectState::Modified;
        tr.entries[self.idx].excl = true;
        proof {
            assert(tr@ =~= old(tr)@.update(
                self.spec_idx(),
                EntryView {
                    state: ObjectState::Modified,
                    excl: true,
                    ..old(tr)@[self.spec_idx()]
                },
            ));
        }
        WriteGuard { idx: self.idx, value }
    }

    /// Marks the tracked record removed, consuming the handle. No borrow,
    /// shared or exclusive, may be outstanding. From here on every handle
    /// sharing the key observes the removed state, no borrow succeeds, and
    /// commit deletes the row.
    pub fn delete<'a>(self, tr: &mut Transaction<'a>)
        requires
            old(tr).wf(),
            self.valid(*old(tr)),
            old(tr)@[self.spec_idx()].shared == 0,
            !old(tr)@[self.spec_idx()].excl,
        ensures
            final(tr).wf(),
            final(tr)@ == old(tr)@.update(
                self.spec_idx(),
                EntryView { state: ObjectState::Removed, ..old(tr)@[self.spec_idx()] },
            ),
            final(tr).log() == old(tr).log(),
    {
        tr.entries[self.idx].state = ObjectState::Removed;
        proof {
            assert(tr@ =~= old(tr)@.update(
                self.spec_idx(),
                EntryView { state: ObjectState::Removed, ..old(tr)@[self.spec_idx()] },
            ));
        }
    }
}

impl<T: Object> ReadGuard<T> {
    /// The index of the tracked entry this borrow is charged against.
    pub closed spec fn guard_idx(&self) -> int {
        self.idx as int
    }

    /// The value read under this borrow.
    pub closed spec fn spec_value(&self) -> T {
        self.value
    }

    /// Reads the borrowed value.
    pub fn get(&self) -> (r: &T)
        ensures
            *r == self.spec_value(),
    {
        &self.value
    }

    /// Ends the shared borrow.
    pub fn release<'a>(self, tr: &mut Transaction<'a>)
        requires
            old(tr).wf(),
            0 <= self.guard_idx() < old(tr)@.len(),
            old(tr)@[self.guard_idx()].shared > 0,
        ensures
            final(tr).wf(),
            final(tr)@ == old(tr)@.update(
                self.guard_idx(),
                EntryView {
                    shared: (old(tr)@[self.guard_idx()].shared - 1) as usize,
                    ..old(tr)@[self.guard_idx()]
                },
            ),
            final(tr).log() == old(tr).log(),
    {
        tr.entries[self.idx].shared = tr.entries[self.idx].shared - 1;
        proof {
            assert(tr@ =~= old(tr)@.update(
                self.guard_idx(),
                EntryView {
                    shared: (old(tr)@[self.guard_idx()].shared - 1) as usize,
                    ..old(tr)@[self.guard_idx()]
                },
            ));
        }
    }
}

impl<T: Object> WriteGuard<T> {
    /// The index of the tracked entry this borrow is charged against.
    pub closed spec fn guard_idx(&self) -> int {
        self.idx as int
    }

    /// The value as this borrow will write it back.
    pub closed spec fn spec_value(&self) -> T {
        self.value
    }

    /// Reads the value as it stands under this borrow.
    pub fn get(&self) -> (r: &T)
        ensures
            *r == self.spec_value(),
    {
        &self.value
    }

    /// Replaces the value this borrow will write back.
    pub fn set(&mut self, v: T)
        ensures
            final(self).spec_value() == v,
            final(self).guard_idx() == old(self).guard_idx(),
    {
        self.value = v;
    }

    /// Ends the exclusive borrow, writing the guard's value back as the
    /// entry's shared instance: every handle sharing the key reads the
    /// mutated record from here on.
    pub fn release<'a>(self, tr: &mut Transaction<'a>)
        requires
            old(tr).wf(),
            0 <= self.guard_idx() < old(tr)@.len(),
            old(tr)@[self.guard_idx()].excl,
            old(tr)@[self.guard_idx()].schema == T::table(),
        ensures
            final(tr).wf(),
            final(tr)@ == old(tr)@.update(
                self.guard_idx(),
                EntryView {
                    row: self.spec_value().serial(),
                    excl: false,
                    ..old(tr)@[self.guard_idx()]
                },
            ),
            final(tr).log() == old(tr).log(),
    {
        let row = self.value.serialize();
        tr.entries[self.idx].row = row;
        tr.entries[self.idx].excl = false;
        proof {
            assert(tr@ =~= old(tr)@.update(
                self.guard_idx(),
                EntryView {
                    row: self.spec_value().serial(),
                    excl: false,
                    ..old(tr)@[self.guard_idx()]
                },
            ));
        }
    }
}

/// How many update statements a statement sequence holds.
pub open spec fn num_updates(s: Seq<Stmt>) -> nat
    decreases s.len(),
{
    if s.len() == 0 {
        0
    } else {
        num_updates(s.drop_last()) + (if s.last() matches Stmt::Update { .. } {
            1nat
        } else {
            0nat
        })
    }
}

/// How many delete statements a statement sequence holds.
pub open spec fn num_deletes(s: Seq<Stmt>) -> nat
    decreases s.len(),
{
    if s.len() == 0 {
        0
    } else {
        num_deletes(s.drop_last()) + (if s.last() matches Stmt::Delete { .. } {
            1nat
        } else {
            0nat
        })
    }
}

/// How many entries are in this mutation state.
pub open spec fn num_in_state(entries: Seq<EntryView>, st: ObjectState) -> nat
    decreases entries.len(),
{
    if entries.len() == 0 {
        0
    } else {
        num_in_state(entries.drop_last(), st) + (if entries.last().state == st {
            1nat
        } else {
            0nat
        })
    }
}

proof fn lemma_counts_concat_one(a: Seq<Stmt>, b: Seq<Stmt>)
    requires
        b.len() <= 1,
    ensures
        num_updates(a + b) == num_updates(a) + num_updates(b),
        num_deletes(a + b) == num_deletes(a) + num_deletes(b),
        (a + b).len() == a.len() + b.len(),
{
    if b.len() == 0 {
        assert(a + b =~= a);
        assert(num_updates(a + b) == num_updates(a));
        assert(num_updates(b) == 0);
        assert(num_deletes(a + b) == num_deletes(a));
        assert(num_deletes(b) == 0);
    } else {
        let c = a + b;
        assert(c.len() == a.len() + 1);
        assert(c.drop_last() =~= a);
        assert(c.last() == b.last());
        assert(b.drop_last() =~= Seq::<Stmt>::empty());
        assert(num_updates(b.drop_last()) == 0);
        assert(num_deletes(b.drop_last()) == 0);
        assert(num_updates(c) == num_updates(c.drop_last()) + (if c.last() matches Stmt::Update {
            ..
        } {
            1nat
        } else {
            0nat
        }));
        assert(num_deletes(c) == num_deletes(c.drop_last()) + (if c.last() matches Stmt::Delete {
            ..
        } {
            1nat
        } else {
            0nat
        }));
    }
}

/// Committing a unit of work issues exactly one update for each modified
/// entry whose schema has columns, exactly one delete for each removed
/// entry, and nothing at all for clean entries: with columns everywhere,
/// the flush holds as many updates as there are modified entries, as many
/// deletes as removed entries, and not one statement more.
pub proof fn lemma_flush_counts(entries: Seq<EntryView>)
    requires
        forall|i: int|
            0 <= i < entries.len() ==> (#[trigger] entries[i]).schema.columns.len() > 0,
    ensures
        num_updates(flush_stmts(entries)) == num_in_state(entries, ObjectState::Modified),
        num_deletes(flush_stmts(entries)) == num_in_state(entries, ObjectState::Removed),
        flush_stmts(entries).len() == num_in_state(entries, ObjectState::Modified) + num_in_state(
            entries,
            ObjectState::Removed,
        ),
    decreases entries.len(),
{
    if entries.len() == 0 {
    } else {
        let head = entries.drop_last();
        let last = entries.last();
        assert(forall|i: int|
            0 <= i < head.len() ==> (#[trigger] head[i]).schema.columns.len() > 0);
        lemma_flush_counts(head);
        let b = flush_stmt(last);
        lemma_counts_concat_one(flush_stmts(head), b);
        assert(entries[entries.len() - 1].schema.columns.len() > 0);
        match last.state {
            ObjectState::Removed => {
                assert(b.len() == 1);
                assert(b.drop_last() =~= Seq::<Stmt>::empty());
                assert(b.last() matches Stmt::Delete { .. });
                assert(num_updates(b.drop_last()) == 0);
                assert(num_deletes(b.drop_last()) == 0);
                assert(num_updates(b) == 0);
                assert(num_deletes(b) == 1);
            },
            ObjectState::Modified => {
                assert(b.len() == 1);
                assert(b.drop_last() =~= Seq::<Stmt>::empty());
                assert(b.last() matches Stmt::Update { .. });
                assert(num_updates(b.drop_last()) == 0);
                assert(num_deletes(b.drop_last()) == 0);
                assert(num_updates(b) == 1);
                assert(num_deletes(b) == 0);
            },
            ObjectState::Clean => {
                assert(b.len() == 0);
                assert(num_updates(b) == 0);
                assert(num_deletes(b) == 0);
            },
        }
    }
}

/// Two valid handles of one type for the same row id point at the same
/// tracked entry: within one unit of work there is one shared instance per
/// key, whichever handle it is reached through.
pub proof fn lemma_handles_share_entry<'a, T: Object>(tr: Transaction<'a>, a: Tx<T>, b: Tx<T>)
    requires
        tr.wf(),
        a.valid(tr),
        b.valid(tr),
        a.spec_id() == b.spec_id(),
    ensures
        a.spec_idx() == b.spec_idx(),
{
    let i = a.spec_idx();
    let j = b.spec_idx();
    if i < j {
        assert(!same_key(tr@[i], tr@[j]));
    } else if j < i {
        assert(!same_key(tr@[j], tr@[i]));
    }
}

/// With at most one entry per key, the entry that holds a key is the one
/// the search finds.
pub proof fn lemma_spec_find_unique(
    entries: Seq<EntryView>,
    label: Seq<char>,
    id: ObjectId,
    j: int,
    i: int,
)
    requires
        forall|a: int, b: int|
            #![trigger entries[a], entries[b]]
            0 <= a < b < entries.len() ==> !same_key(entries[a], entries[b]),
        0 <= i <= j < entries.len(),
        entries[j].type_label == label,
        entries[j].id == id,
    ensures
        spec_find(entries, label, id, i) == Some(j),
    decreases j - i,
{
    if i == j {
    } else {
        assert(!same_key(entries[i], entries[j]));
        lemma_spec_find_unique(entries, label, id, j, i + 1);
    }
}

/// For every record put into a unit of work by `create`, a `get` for the
/// handle's id within the same unit of work yields a handle to the
/// identical tracked entry — the same shared instance, still holding the
/// created record — and never touches storage for it.
pub fn get_after_create<'a, T: Object>(tr: &mut Transaction<'a>, src_obj: T) -> (r: Result<
    (Tx<T>, Tx<T>),
>)
    requires
        old(tr).wf(),
        label_consistent::<T>(old(tr)@),
    ensures
        final(tr).wf(),
        r matches Ok(p) ==> {
            &&& p.0.spec_idx() == p.1.spec_idx()
            &&& p.0.spec_id() == p.1.spec_id()
            &&& p.1.valid(*final(tr))
            &&& final(tr)@[p.1.spec_idx()].row == src_obj.serial()
            &&& final(tr)@[p.1.spec_idx()].state == ObjectState::Clean
        },
{
    let h1 = match tr.create(src_obj) {
        Ok(h) => h,
        Err(e) => {
            return Err(e);
        },
    };
    let id = h1.id();
    proof {
        lemma_spec_find_unique(tr@, T::table().type_label, id, h1.spec_idx(), 0);
    }
    match tr.get::<T>(id) {
        Ok(h2) => Ok((h1, h2)),
        Err(e) => Err(e),
    }
}

/// After `delete` on a handle, a `get` for the same key in the same unit
/// of work never hands out a handle: it fails, with the not-found
/// condition wherever the failure is the identity map's own.
pub fn get_after_delete<'a, T: Object>(tr: &mut Transaction<'a>, h: Tx<T>) -> (r: Result<Tx<T>>)
    requires
        old(tr).wf(),
        label_consistent::<T>(old(tr)@),
        h.valid(*old(tr)),
        old(tr)@[h.spec_idx()].shared == 0,
        !old(tr)@[h.spec_idx()].excl,
    ensures
        final(tr).wf(),
        r is Err,
        r matches Err(e) ==> ((e@ matches ErrorView::NotFound(n) && n.object_id == h.spec_id()
            && n.type_label == T::table().type_label) || is_general_error(e@)),
{
    let id = h.id();
    let ghost j = h.spec_idx();
    h.delete(tr);
    proof {
        lemma_spec_find_unique(tr@, T::table().type_label, id, j, 0);
    }
    match tr.get::<T>(id) {
        Ok(h2) => {
            proof {
                assert(false);
            }
            Ok(h2)
        },
        Err(e) => Err(e),
    }
}

/// Shared borrows coexist: while one shared borrow of a tracked record is
/// outstanding, another one succeeds, and both observe the same record.
/// (An exclusive borrow, by contrast, requires that no borrow of any kind
/// is outstanding.)
pub fn shared_borrows_coexist<'a, T: Object>(tr: &mut Transaction<'a>, h: &Tx<T>) -> (r: (
    ReadGuard<T>,
    ReadGuard<T>,
))
    requires
        old(tr).wf(),
        h.valid(*old(tr)),
        old(tr)@[h.spec_idx()].state != ObjectState::Removed,
        !old(tr)@[h.spec_idx()].excl,
        old(tr)@[h.spec_idx()].shared + 2 <= usize::MAX,
    ensures
        final(tr).wf(),
        r.0.spec_value().serial() == old(tr)@[h.spec_idx()].row,
        r.1.spec_value().serial() == old(tr)@[h.spec_idx()].row,
        final(tr)@[h.spec_idx()].shared == old(tr)@[h.spec_idx()].shared + 2,
{
    let g1 = h.borrow(tr);
    let g2 = h.borrow(tr);
    (g1, g2)
}

/// Supplies the schema of a record value: every mapped type reports its own
/// static schema.
pub trait Table {
    /// The schema this value is stored under.
    spec fn spec_table(&self) -> SchemaView;

    /// The schema this value is stored under, as a value.
    fn get_table(&self) -> (s: Schema)
        ensures
            s@ == self.spec_table(),
    ;
}

impl<T: Object> Table for T {
    open spec fn spec_table(&self) -> SchemaView {
        T::table()
    }

    fn get_table(&self) -> (s: Schema) {
        T::schema()
    }
}

} // verus!
