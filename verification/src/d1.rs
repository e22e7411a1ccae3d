//! The metadata store: what its table holds, what each statement does to
//! it, and how a batch is saved when the table may not exist yet.
//!
//! The table is one relation of records, keyed by content identifier, with
//! the alias as a second key. The store is given twice: as a table in memory
//! with verified operations, [`D1`], and as the statements and the steps that
//! drive a database, [`D1::save_statements`] and [`D1::save_step`] among
//! them. Nothing here holds a database to the statements' text.

use vstd::prelude::*;
use crate::error::{unexpected_event, Error, ErrorKind, ErrorView};
use crate::file::{File, FileView};
use crate::machine::{count, lemma_run_budget, lemma_run_push, run};
use crate::text::{contains, contains_seq};

verus! {

/// Mathematical view of the store: whether its table exists, and the rows
/// of the table in the order in which they were inserted.
pub struct D1View {
    pub created: bool,
    pub rows: Seq<FileView>,
}

/// Index of the first row whose content identifier is `id`, or `-1`.
pub open spec fn find_unique(rows: Seq<FileView>, id: Seq<char>) -> int
    decreases rows.len(),
{
    if rows.len() == 0 {
        -1
    } else {
        let i = find_unique(rows.drop_last(), id);
        if i >= 0 {
            i
        } else if rows.last().file_unique_id == id {
            rows.len() - 1
        } else {
            -1
        }
    }
}

/// Index of the first row whose alias is `alias`, or `-1`.
pub open spec fn find_alias(rows: Seq<FileView>, alias: Seq<char>) -> int
    decreases rows.len(),
{
    if rows.len() == 0 {
        -1
    } else {
        let i = find_alias(rows.drop_last(), alias);
        if i >= 0 {
            i
        } else if rows.last().file_id == alias {
            rows.len() - 1
        } else {
            -1
        }
    }
}

/// What a table guarantees: no two rows share a content identifier, and no
/// two rows share an alias unless it is empty, which stands for no alias.
pub open spec fn table_wf(rows: Seq<FileView>) -> bool {
    &&& forall|i: int, j: int|
        0 <= i < j < rows.len() ==> rows[i].file_unique_id != rows[j].file_unique_id
    &&& forall|i: int, j: int|
        0 <= i < j < rows.len() && rows[i].file_id.len() > 0 ==> rows[i].file_id
            != rows[j].file_id
}

/// The row that a lookup by `key` returns: the row whose content identifier
/// is `key` if there is one, otherwise the row whose alias is `key`, unless
/// `key` is empty.
pub open spec fn lookup(rows: Seq<FileView>, key: Seq<char>) -> Option<FileView> {
    let i = find_unique(rows, key);
    let j = find_alias(rows, key);
    if i >= 0 {
        Some(rows[i])
    } else if key.len() > 0 && j >= 0 {
        Some(rows[j])
    } else {
        None
    }
}

/// Whether the alias of `f` belongs to a row with other content.
pub open spec fn alias_taken(rows: Seq<FileView>, f: FileView) -> bool {
    let j = find_alias(rows, f.file_id);
    f.file_id.len() > 0 && j >= 0 && rows[j].file_unique_id != f.file_unique_id
}

/// The row that `f` becomes when it is inserted at time `now`, the time on
/// the clock of the store: whatever times `f` carries are not kept.
pub open spec fn inserted(f: FileView, now: i64) -> FileView {
    FileView { add_time: now, update_time: now, ..f }
}

/// The row that `old` becomes when `f`, with the same content identifier,
/// is written over it at time `now`: alias, preview, provenance and
/// description are those of `f`; the download path is that of `f` unless `f`
/// has none; the time of insertion stays.
pub open spec fn merged(old: FileView, f: FileView, now: i64) -> FileView {
    FileView {
        file_unique_id: old.file_unique_id,
        add_time: old.add_time,
        update_time: now,
        file_path: if f.file_path.len() > 0 {
            f.file_path
        } else {
            old.file_path
        },
        ..f
    }
}

/// The table after one record has been written at time `now`, or `None`
/// when the record's alias belongs to other content.
pub open spec fn upsert_row(rows: Seq<FileView>, f: FileView, now: i64) -> Option<Seq<FileView>> {
    let i = find_unique(rows, f.file_unique_id);
    if alias_taken(rows, f) {
        None
    } else if i >= 0 {
        Some(rows.update(i, merged(rows[i], f, now)))
    } else {
        Some(rows.push(inserted(f, now)))
    }
}

/// The table after a batch has been written at time `now`, record by record
/// in order, or `None` when one of the records cannot be written.
pub open spec fn upsert_all(rows: Seq<FileView>, files: Seq<FileView>, now: i64) -> Option<
    Seq<FileView>,
>
    decreases files.len(),
{
    if files.len() == 0 {
        Some(rows)
    } else {
        match upsert_all(rows, files.drop_last(), now) {
            Some(before) => upsert_row(before, files.last(), now),
            None => None,
        }
    }
}

/// The table after the download path of the content `id` has been set to
/// `path`: nothing changes when no row holds that content.
pub open spec fn with_path(rows: Seq<FileView>, id: Seq<char>, path: Seq<char>) -> Seq<FileView> {
    let i = find_unique(rows, id);
    if i >= 0 {
        rows.update(i, FileView { file_path: path, ..rows[i] })
    } else {
        rows
    }
}

/// What [`find_unique`] returns is the first index of a row with that
/// content identifier.
pub proof fn lemma_find_unique(rows: Seq<FileView>, id: Seq<char>)
    ensures
        -1 <= find_unique(rows, id) < rows.len(),
        find_unique(rows, id) >= 0 ==> rows[find_unique(rows, id)].file_unique_id == id,
        forall|j: int|
            0 <= j < rows.len() && (j < find_unique(rows, id) || find_unique(rows, id) < 0)
                ==> rows[j].file_unique_id != id,
    decreases rows.len(),
{
    if rows.len() > 0 {
        lemma_find_unique(rows.drop_last(), id);
        let i = find_unique(rows, id);
        assert forall|j: int| 0 <= j < rows.len() && (j < i || i < 0) implies rows[j].file_unique_id
            != id by {
            if j < rows.len() - 1 {
                assert(rows.drop_last()[j] == rows[j]);
            }
        }
    }
}

/// What [`find_alias`] returns is the first index of a row with that alias.
pub proof fn lemma_find_alias(rows: Seq<FileView>, alias: Seq<char>)
    ensures
        -1 <= find_alias(rows, alias) < rows.len(),
        find_alias(rows, alias) >= 0 ==> rows[find_alias(rows, alias)].file_id == alias,
        forall|j: int|
            0 <= j < rows.len() && (j < find_alias(rows, alias) || find_alias(rows, alias) < 0)
                ==> rows[j].file_id != alias,
    decreases rows.len(),
{
    if rows.len() > 0 {
        lemma_find_alias(rows.drop_last(), alias);
        let i = find_alias(rows, alias);
        assert forall|j: int| 0 <= j < rows.len() && (j < i || i < 0) implies rows[j].file_id
            != alias by {
            if j < rows.len() - 1 {
                assert(rows.drop_last()[j] == rows[j]);
            }
        }
    }
}

/// An index at which a row with content identifier `id` stands in a table
/// is the index that [`find_unique`] returns.
pub proof fn lemma_find_unique_at(rows: Seq<FileView>, id: Seq<char>, i: int)
    requires
        table_wf(rows),
        0 <= i < rows.len(),
        rows[i].file_unique_id == id,
    ensures
        find_unique(rows, id) == i,
{
    lemma_find_unique(rows, id);
}

/// An index at which a row with the alias `alias`, not empty, stands in a
/// table is the index that [`find_alias`] returns.
pub proof fn lemma_find_alias_at(rows: Seq<FileView>, alias: Seq<char>, i: int)
    requires
        table_wf(rows),
        0 <= i < rows.len(),
        rows[i].file_id == alias,
        alias.len() > 0,
    ensures
        find_alias(rows, alias) == i,
{
    lemma_find_alias(rows, alias);
}

/// Writing a record keeps a table a table.
pub proof fn lemma_upsert_row_wf(rows: Seq<FileView>, f: FileView, now: i64)
    requires
        table_wf(rows),
        upsert_row(rows, f, now) is Some,
    ensures
        table_wf(upsert_row(rows, f, now)->0),
{
    lemma_find_unique(rows, f.file_unique_id);
    lemma_find_alias(rows, f.file_id);
    let after = upsert_row(rows, f, now)->0;
    let i = find_unique(rows, f.file_unique_id);
    assert forall|a: int, b: int| 0 <= a < b < after.len() implies after[a].file_unique_id
        != after[b].file_unique_id by {}
    assert forall|a: int, b: int|
        0 <= a < b < after.len() && after[a].file_id.len() > 0 implies after[a].file_id
        != after[b].file_id by {
        if i >= 0 {
            if a == i && after[a].file_id == after[b].file_id {
                lemma_find_alias_at(rows, f.file_id, b);
            }
            if b == i && after[a].file_id == after[b].file_id {
                lemma_find_alias_at(rows, f.file_id, a);
            }
        } else {
            if b == rows.len() && after[a].file_id == after[b].file_id {
                lemma_find_alias_at(rows, f.file_id, a);
            }
        }
    }
}

/// Writing a batch keeps a table a table.
pub proof fn lemma_upsert_all_wf(rows: Seq<FileView>, files: Seq<FileView>, now: i64)
    requires
        table_wf(rows),
        upsert_all(rows, files, now) is Some,
    ensures
        table_wf(upsert_all(rows, files, now)->0),
    decreases files.len(),
{
    if files.len() > 0 {
        lemma_upsert_all_wf(rows, files.drop_last(), now);
        lemma_upsert_row_wf(upsert_all(rows, files.drop_last(), now)->0, files.last(), now);
    }
}

/// Setting a download path keeps a table a table.
pub proof fn lemma_with_path_wf(rows: Seq<FileView>, id: Seq<char>, path: Seq<char>)
    requires
        table_wf(rows),
    ensures
        table_wf(with_path(rows, id, path)),
{
    lemma_find_unique(rows, id);
}

/// What a store guarantees: its table is a table, and holds nothing while
/// it does not exist.
pub open spec fn store_wf(s: D1View) -> bool {
    table_wf(s.rows) && (!s.created ==> s.rows.len() == 0)
}

/// The failure of a statement on a table that does not exist.
pub open spec fn no_such_table() -> ErrorView {
    ErrorView { kind: ErrorKind::SchemaMissing, message: "no such table: files"@ }
}

/// The failure of a batch with a record whose alias belongs to other content.
pub open spec fn alias_conflict() -> ErrorView {
    ErrorView { kind: ErrorKind::Store, message: "UNIQUE constraint failed: files.file_id"@ }
}

/// The failure of a lookup that matches no row.
pub open spec fn file_not_found() -> ErrorView {
    ErrorView { kind: ErrorKind::NotFound, message: "File not found"@ }
}

/// The store after the statement that creates the table unless it exists.
pub open spec fn created(s: D1View) -> D1View {
    D1View { created: true, rows: s.rows }
}

/// The store after a batch of records has been written at time `now`, and
/// what the batch returns. A batch is written as a whole or not at all: it
/// fails on a table that does not exist, and when one of its records cannot
/// be written.
pub open spec fn batched(s: D1View, files: Seq<FileView>, now: i64) -> (
    D1View,
    Result<(), ErrorView>,
) {
    if !s.created {
        (s, Err(no_such_table()))
    } else {
        match upsert_all(s.rows, files, now) {
            Some(rows) => (D1View { created: true, rows }, Ok(())),
            None => (s, Err(alias_conflict())),
        }
    }
}

/// The store after a batch has been saved at time `now`, and what saving
/// returns: nothing happens for an empty batch; otherwise the batch is
/// written, after the table has been created if it did not exist.
pub open spec fn saved(s: D1View, files: Seq<FileView>, now: i64) -> (
    D1View,
    Result<(), ErrorView>,
) {
    if files.len() == 0 {
        (s, Ok(()))
    } else {
        batched(created(s), files, now)
    }
}

/// What a lookup by `key` returns.
pub open spec fn got(s: D1View, key: Seq<char>) -> Result<FileView, ErrorView> {
    if !s.created {
        Err(no_such_table())
    } else {
        match lookup(s.rows, key) {
            Some(row) => Ok(row),
            None => Err(file_not_found()),
        }
    }
}

/// The store after the download path of the content `id` has been set to
/// `path`, and what the statement returns: it fails only on a table that
/// does not exist.
pub open spec fn path_saved(s: D1View, id: Seq<char>, path: Seq<char>) -> (
    D1View,
    Result<(), ErrorView>,
) {
    if !s.created {
        (s, Err(no_such_table()))
    } else {
        (D1View { created: true, rows: with_path(s.rows, id, path) }, Ok(()))
    }
}

/// The view of the outcome of a statement that returns nothing.
pub open spec fn outcome_view(r: Result<(), Error>) -> Result<(), ErrorView> {
    match r {
        Ok(_) => Ok(()),
        Err(e) => Err(e@),
    }
}

/// The view of the outcome of a lookup.
pub open spec fn found_view(r: Result<File, Error>) -> Result<FileView, ErrorView> {
    match r {
        Ok(f) => Ok(f@),
        Err(e) => Err(e@),
    }
}

/// The characters of an optional text.
pub open spec fn cause_view(cause: Option<String>) -> Option<Seq<char>> {
    match cause {
        Some(c) => Some(c@),
        None => None,
    }
}

/// The failure that stands for a failure of the database: it says that the
/// table is missing when the database names that as the cause, and is an
/// unspecific failure of the store otherwise; its text is the database's.
pub open spec fn store_failure(cause: Option<Seq<char>>, text: Seq<char>) -> ErrorView {
    ErrorView {
        kind: if cause is Some && contains_seq(cause->0, "no such table"@) {
            ErrorKind::SchemaMissing
        } else {
            ErrorKind::Store
        },
        message: text,
    }
}

/// The metadata store, over a table held in memory.
///
/// The table exists only after it has been created. Its rows are kept in
/// the order of insertion. What the methods do to the table is what a
/// database is taken to do when it executes the statements of this module:
/// [`CREATE_TABLE`], [`INSERT_FILE`], [`SAVE_FILE_PATH`] and [`SELECT_FILE`].
#[derive(Debug, PartialEq, Eq)]
pub struct D1 {
    created: bool,
    rows: Vec<File>,
}

impl View for D1 {
    type V = D1View;

    closed spec fn view(&self) -> D1View {
        D1View { created: self.created, rows: self.rows.deep_view() }
    }
}

/// A copy of `rows`.
fn copy_rows(rows: &Vec<File>) -> (copy: Vec<File>)
    ensures
        copy.deep_view() == rows.deep_view(),
{
    let mut copy: Vec<File> = Vec::new();
    let mut i: usize = 0;
    while i < rows.len()
        invariant
            i <= rows.len(),
            copy.deep_view() == rows.deep_view().take(i as int),
        decreases rows.len() - i,
    {
        let ghost before = copy.deep_view();
        copy.push(rows[i].clone());
        i = i + 1;
        assert(rows.deep_view().take(i as int) =~= before.push(rows[i - 1]@));
    }
    copy
}

impl Clone for D1 {
    fn clone(&self) -> (res: Self)
        ensures
            res@ == self@,
    {
        proof {
            use_type_invariant(self);
        }
        D1 { created: self.created, rows: copy_rows(&self.rows) }
    }
}

/// Finds the first row whose content identifier is `id`.
fn position_unique(rows: &Vec<File>, id: &String) -> (r: Option<usize>)
    ensures
        match r {
            Some(i) => i < rows.len() && i as int == find_unique(rows.deep_view(), id@),
            None => find_unique(rows.deep_view(), id@) == -1,
        },
{
    let mut i: usize = 0;
    while i < rows.len()
        invariant
            i <= rows.len(),
            forall|j: int| 0 <= j < i ==> rows.deep_view()[j].file_unique_id != id@,
        decreases rows.len() - i,
    {
        if rows[i].file_unique_id == *id {
            proof {
                lemma_find_unique(rows.deep_view(), id@);
                assert(rows.deep_view()[i as int].file_unique_id == id@);
            }
            return Some(i);
        }
        i = i + 1;
    }
    proof {
        lemma_find_unique(rows.deep_view(), id@);
    }
    None
}

/// Finds the first row whose alias is `alias`.
fn position_alias(rows: &Vec<File>, alias: &String) -> (r: Option<usize>)
    ensures
        match r {
            Some(i) => i < rows.len() && i as int == find_alias(rows.deep_view(), alias@),
            None => find_alias(rows.deep_view(), alias@) == -1,
        },
{
    let mut i: usize = 0;
    while i < rows.len()
        invariant
            i <= rows.len(),
            forall|j: int| 0 <= j < i ==> rows.deep_view()[j].file_id != alias@,
        decreases rows.len() - i,
    {
        if rows[i].file_id == *alias {
            proof {
                lemma_find_alias(rows.deep_view(), alias@);
                assert(rows.deep_view()[i as int].file_id == alias@);
            }
            return Some(i);
        }
        i = i + 1;
    }
    proof {
        lemma_find_alias(rows.deep_view(), alias@);
    }
    None
}

/// Writes one record into `rows` at time `now`, unless its alias belongs to
/// other content.
fn write_row(rows: &mut Vec<File>, f: &File, now: i64) -> (written: bool)
    ensures
        match upsert_row(old(rows).deep_view(), f@, now) {
            Some(after) => written && final(rows).deep_view() == after,
            None => !written && final(rows).deep_view() == old(rows).deep_view(),
        },
{
    if !f.file_id.as_str().is_empty() {
        match position_alias(rows, &f.file_id) {
            Some(j) => {
                if rows[j].file_unique_id != f.file_unique_id {
                    return false;
                }
            },
            None => {},
        }
    }
    match position_unique(rows, &f.file_unique_id) {
        Some(i) => {
            let row = &rows[i];
            let file_path = if f.file_path.as_str().is_empty() {
                row.file_path.clone()
            } else {
                f.file_path.clone()
            };
            let merged_row = File {
                file_id: f.file_id.clone(),
                file_unique_id: row.file_unique_id.clone(),
                thumbnail_file_id: f.thumbnail_file_id.clone(),
                thumbnail_file_unique_id: f.thumbnail_file_unique_id.clone(),
                message_id: f.message_id,
                user_id: f.user_id,
                file_name: f.file_name.clone(),
                file_size: f.file_size,
                mime_type: f.mime_type.clone(),
                add_time: row.add_time,
                update_time: now,
                file_path,
            };
            rows.set(i, merged_row);
        },
        None => {
            let mut row = f.clone();
            row.add_time = now;
            row.update_time = now;
            rows.push(row);
        },
    }
    true
}

impl D1 {
    /// What every store satisfies: see [`store_wf`].
    #[verifier::type_invariant]
    spec fn well_formed(self) -> bool {
        store_wf(self@)
    }

    /// A store whose table does not exist yet.
    pub fn new() -> (d: D1)
        ensures
            d@ == (D1View { created: false, rows: Seq::empty() }),
            store_wf(d@),
    {
        let d = D1 { created: false, rows: Vec::new() };
        assert(d.rows.deep_view() =~= Seq::<FileView>::empty());
        d
    }

    /// Whether the table exists.
    pub fn is_created(&self) -> (b: bool)
        ensures
            b == self@.created,
            store_wf(self@),
    {
        proof {
            use_type_invariant(self);
        }
        self.created
    }

    /// The number of rows of the table.
    pub fn len(&self) -> (n: usize)
        ensures
            n == self@.rows.len(),
            store_wf(self@),
    {
        proof {
            use_type_invariant(self);
        }
        self.rows.len()
    }

    /// Creates the table unless it exists.
    pub fn init(&mut self) -> (r: Result<(), Error>)
        ensures
            r is Ok,
            final(self)@ == created(old(self)@),
            store_wf(final(self)@),
    {
        proof {
            use_type_invariant(&*self);
        }
        self.created = true;
        Ok(())
    }

    /// Writes a batch of records at time `now`, as a whole or not at all,
    /// see [`batched`].
    pub fn batch(&mut self, files: &Vec<File>, now: i64) -> (r: Result<(), Error>)
        ensures
            (final(self)@, outcome_view(r)) == batched(old(self)@, files.deep_view(), now),
            store_wf(final(self)@),
    {
        proof {
            use_type_invariant(&*self);
        }
        if !self.created {
            return Err(Error::new(ErrorKind::SchemaMissing, "no such table: files"));
        }
        let mut rows = copy_rows(&self.rows);
        let mut i: usize = 0;
        while i < files.len()
            invariant
                i <= files.len(),
                self@ == old(self)@,
                self@.created,
                store_wf(self@),
                upsert_all(self@.rows, files.deep_view().take(i as int), now) == Some(
                    rows.deep_view(),
                ),
            decreases files.len() - i,
        {
            proof {
                let views = files.deep_view();
                assert(views.take(i + 1).drop_last() == views.take(i as int));
            }
            if !write_row(&mut rows, &files[i], now) {
                proof {
                    lemma_upsert_all_prefix(self@.rows, files.deep_view(), i + 1, now);
                }
                return Err(
                    Error::new(ErrorKind::Store, "UNIQUE constraint failed: files.file_id"),
                );
            }
            i = i + 1;
        }
        proof {
            assert(files.deep_view().take(files.len() as int) == files.deep_view());
            lemma_upsert_all_wf(self@.rows, files.deep_view(), now);
        }
        self.rows = rows;
        Ok(())
    }

    /// Looks a record up by content identifier or alias, see [`lookup`].
    pub fn get(&self, key: &String) -> (r: Result<File, Error>)
        ensures
            found_view(r) == got(self@, key@),
            store_wf(self@),
    {
        proof {
            use_type_invariant(self);
        }
        if !self.created {
            return Err(Error::new(ErrorKind::SchemaMissing, "no such table: files"));
        }
        match position_unique(&self.rows, key) {
            Some(i) => Ok(self.rows[i].clone()),
            None => {
                if key.as_str().is_empty() {
                    return Err(Error::new(ErrorKind::NotFound, "File not found"));
                }
                match position_alias(&self.rows, key) {
                    Some(j) => Ok(self.rows[j].clone()),
                    None => Err(Error::new(ErrorKind::NotFound, "File not found")),
                }
            },
        }
    }

    /// Sets the download path of the content `file_unique_id`; a store that
    /// does not hold the content stays as it is.
    pub fn save_file_path(&mut self, file_unique_id: &String, file_path: &String) -> (r: Result<
        (),
        Error,
    >)
        ensures
            (final(self)@, outcome_view(r)) == path_saved(
                old(self)@,
                file_unique_id@,
                file_path@,
            ),
            store_wf(final(self)@),
    {
        proof {
            use_type_invariant(&*self);
        }
        if !self.created {
            return Err(Error::new(ErrorKind::SchemaMissing, "no such table: files"));
        }
        match position_unique(&self.rows, file_unique_id) {
            Some(i) => {
                let ghost before = self.rows.deep_view();
                let mut rows = copy_rows(&self.rows);
                let row = rows[i].clone().with_file_path(file_path.clone());
                rows.set(i, row);
                proof {
                    assert(rows.deep_view() =~= with_path(before, file_unique_id@, file_path@));
                    lemma_with_path_wf(before, file_unique_id@, file_path@);
                }
                self.rows = rows;
            },
            None => {},
        }
        Ok(())
    }
}

/// Where the saving of a batch stands.
#[derive(Clone, Copy, Debug, PartialEq, Eq, Structural)]
pub enum SaveState {
    /// The batch has not been seen yet.
    Start,
    /// The batch has been handed to the database, for the first time.
    Batch,
    /// The database has been asked to create the table.
    Init,
    /// The batch has been handed to the database again.
    Retry,
    /// Nothing is left to do.
    Done,
}

/// What the database reports back while a batch is saved.
#[derive(Debug, PartialEq, Eq)]
pub enum SaveEvent {
    /// A batch of `count` records is to be saved.
    Request { count: usize },
    /// The database's answer to the batch.
    Batch(Result<(), Error>),
    /// The database's answer to the creation of the table.
    Init(Result<(), Error>),
}

/// What is to be done next to save a batch.
#[derive(Debug, PartialEq, Eq)]
pub enum SaveAction {
    /// Hand the statements of the batch to the database, as one transaction.
    Batch,
    /// Create the table unless it exists.
    Init,
    /// Stop, with this outcome.
    Finish(Result<(), Error>),
}

/// Mathematical view of a [`SaveAction`].
pub enum SaveActionView {
    Batch,
    Init,
    Finish(Result<(), ErrorView>),
}

impl View for SaveAction {
    type V = SaveActionView;

    open spec fn view(&self) -> SaveActionView {
        match *self {
            SaveAction::Batch => SaveActionView::Batch,
            SaveAction::Init => SaveActionView::Init,
            SaveAction::Finish(r) => SaveActionView::Finish(outcome_view(r)),
        }
    }
}

/// One step of the saving of a batch.
///
/// An empty batch is saved without a word to the database. Any other batch
/// is handed over. When the database answers that the table is missing, the
/// table is created and the same batch is handed over once more; whatever
/// the database answers then is the outcome. Every other failure of the
/// database is the outcome as it is, and so is a failure to create the table
/// and an event that the pending request did not ask for.
pub open spec fn save_step(state: SaveState, event: SaveEvent) -> (SaveState, SaveActionView) {
    match (state, event) {
        (SaveState::Start, SaveEvent::Request { count }) => if count == 0 {
            (SaveState::Done, SaveActionView::Finish(Ok(())))
        } else {
            (SaveState::Batch, SaveActionView::Batch)
        },
        (SaveState::Batch, SaveEvent::Batch(Ok(_))) => (
            SaveState::Done,
            SaveActionView::Finish(Ok(())),
        ),
        (SaveState::Batch, SaveEvent::Batch(Err(e))) => if e.kind == ErrorKind::SchemaMissing {
            (SaveState::Init, SaveActionView::Init)
        } else {
            (SaveState::Done, SaveActionView::Finish(Err(e@)))
        },
        (SaveState::Init, SaveEvent::Init(Ok(_))) => (SaveState::Retry, SaveActionView::Batch),
        (SaveState::Init, SaveEvent::Init(Err(e))) => (
            SaveState::Done,
            SaveActionView::Finish(Err(e@)),
        ),
        (SaveState::Retry, SaveEvent::Batch(answer)) => (
            SaveState::Done,
            SaveActionView::Finish(outcome_view(answer)),
        ),
        _ => (SaveState::Done, SaveActionView::Finish(Err(unexpected_event()))),
    }
}

/// How many steps the saving of a batch can still take from `state`.
pub open spec fn save_rank(state: SaveState) -> nat {
    match state {
        SaveState::Start => 4,
        SaveState::Batch => 3,
        SaveState::Init => 2,
        SaveState::Retry => 1,
        SaveState::Done => 0,
    }
}

/// What holds while the store `now_store`, which was `before`, saves the
/// batch `files`: where the saving stands, what it asks for, and what the
/// store has become.
spec fn save_pending(
    before: D1View,
    now_store: D1View,
    files: Seq<FileView>,
    now: i64,
    state: SaveState,
    action: SaveActionView,
) -> bool {
    match state {
        SaveState::Start => false,
        SaveState::Batch => action is Batch && now_store == before && files.len() > 0,
        SaveState::Init => action is Init && now_store == before && !before.created && files.len()
            > 0,
        SaveState::Retry => action is Batch && now_store == created(before) && !before.created
            && files.len() > 0,
        SaveState::Done => action matches SaveActionView::Finish(r) && (now_store, r) == saved(
            before,
            files,
            now,
        ),
    }
}

impl D1 {
    /// One step of the saving of a batch, see [`save_step`].
    pub fn save_step(state: SaveState, event: SaveEvent) -> (r: (SaveState, SaveAction))
        ensures
            (r.0, r.1@) == save_step(state, event),
    {
        match (state, event) {
            (SaveState::Start, SaveEvent::Request { count }) => {
                if count == 0 {
                    (SaveState::Done, SaveAction::Finish(Ok(())))
                } else {
                    (SaveState::Batch, SaveAction::Batch)
                }
            },
            (SaveState::Batch, SaveEvent::Batch(Ok(_))) => (
                SaveState::Done,
                SaveAction::Finish(Ok(())),
            ),
            (SaveState::Batch, SaveEvent::Batch(Err(e))) => {
                if e.kind == ErrorKind::SchemaMissing {
                    (SaveState::Init, SaveAction::Init)
                } else {
                    (SaveState::Done, SaveAction::Finish(Err(e)))
                }
            },
            (SaveState::Init, SaveEvent::Init(Ok(_))) => (SaveState::Retry, SaveAction::Batch),
            (SaveState::Init, SaveEvent::Init(Err(e))) => (
                SaveState::Done,
                SaveAction::Finish(Err(e)),
            ),
            (SaveState::Retry, SaveEvent::Batch(answer)) => (
                SaveState::Done,
                SaveAction::Finish(answer),
            ),
            _ => (SaveState::Done, SaveAction::Finish(Err(Error::unexpected()))),
        }
    }

    /// Saves a batch of records at time `now`, see [`saved`]: an insert or,
    /// for content that the table holds already, an update. The table is
    /// created on the way if it does not exist.
    pub fn save(&mut self, files: &Vec<File>, now: i64) -> (r: Result<(), Error>)
        ensures
            (final(self)@, outcome_view(r)) == saved(old(self)@, files.deep_view(), now),
            store_wf(final(self)@),
    {
        proof {
            use_type_invariant(&*self);
        }
        let mut step = D1::save_step(SaveState::Start, SaveEvent::Request { count: files.len() });
        loop
            invariant
                store_wf(self@),
                save_pending(old(self)@, self@, files.deep_view(), now, step.0, step.1@),
            decreases save_rank(step.0),
        {
            let (state, action) = step;
            match action {
                SaveAction::Batch => {
                    let answer = self.batch(files, now);
                    step = D1::save_step(state, SaveEvent::Batch(answer));
                },
                SaveAction::Init => {
                    let answer = self.init();
                    step = D1::save_step(state, SaveEvent::Init(answer));
                },
                SaveAction::Finish(outcome) => {
                    return outcome;
                },
            }
        }
    }

    /// The outcome of a lookup that returned `row`, or no row at all.
    pub fn found(row: Option<File>) -> (r: Result<File, Error>)
        ensures
            match row {
                Some(f) => r == Ok::<File, Error>(f),
                None => found_view(r) == Err::<FileView, ErrorView>(file_not_found()),
            },
    {
        match row {
            Some(f) => Ok(f),
            None => Err(Error::new(ErrorKind::NotFound, "File not found")),
        }
    }

    /// The failure that stands for a failure of the database with the text
    /// `text`; `cause` is the cause that the database names, if it names one.
    pub fn failure(cause: Option<String>, text: String) -> (e: Error)
        ensures
            e@ == store_failure(cause_view(cause), text@),
    {
        let missing = match &cause {
            Some(c) => contains(c.as_str(), "no such table"),
            None => false,
        };
        let kind = if missing {
            ErrorKind::SchemaMissing
        } else {
            ErrorKind::Store
        };
        Error { kind, message: text }
    }
}

/// The statement that creates the table unless it exists.
pub const CREATE_TABLE: &'static str = "CREATE TABLE IF NOT EXISTS [files](
    \"file_unique_id\" TEXT PRIMARY KEY,
    \"file_id\" TEXT UNIQUE,
    \"thumbnail_file_id\" TEXT,
    \"thumbnail_file_unique_id\" TEXT,
    \"message_id\" INTEGER,
    \"user_id\" INTEGER,
    \"file_name\" TEXT,
    \"file_size\" INTEGER,
    \"mime_type\" TEXT,
    \"add_time\" INTEGER,
    \"update_time\" INTEGER,
    \"file_path\" TEXT
)";

/// The statement that writes one record: an insert, or an update of the row
/// with the same content identifier.
pub const INSERT_FILE: &'static str = "INSERT INTO files(
  file_id, file_unique_id, thumbnail_file_id,
  thumbnail_file_unique_id, message_id,
  user_id, file_name, file_size, mime_type,
  add_time, update_time, file_path
)
VALUES (?, ?, ?, ?, ?, ?, ?, ?, ?, strftime('%s', 'now'), strftime('%s', 'now'), ?)
ON CONFLICT(file_unique_id) DO UPDATE SET
  file_id = excluded.file_id,
  thumbnail_file_id = excluded.thumbnail_file_id,
  thumbnail_file_unique_id = excluded.thumbnail_file_unique_id,
  message_id = excluded.message_id,
  user_id = excluded.user_id,
  file_name = excluded.file_name,
  file_size = excluded.file_size,
  mime_type = excluded.mime_type,
  update_time = strftime('%s', 'now'),
  file_path = CASE WHEN excluded.file_path = '' THEN files.file_path ELSE excluded.file_path END";

/// The statement that sets the download path of one row.
pub const SAVE_FILE_PATH: &'static str = "UPDATE files SET file_path = ? WHERE file_unique_id = ?";

/// The statement that looks a row up by content identifier or alias; a row
/// found by content identifier comes first.
pub const SELECT_FILE: &'static str = "SELECT * FROM files
WHERE file_unique_id = ? OR file_id = ?
ORDER BY file_unique_id = ? DESC, rowid
LIMIT 1";

/// A value bound to a placeholder of a statement.
#[derive(Clone, Debug, PartialEq, Eq)]
pub enum SqlValue {
    Null,
    Text(String),
    Integer(i32),
    Unsigned(u64),
}

/// Mathematical view of a [`SqlValue`].
pub enum SqlValueView {
    Null,
    Text(Seq<char>),
    Integer(i32),
    Unsigned(u64),
}

impl View for SqlValue {
    type V = SqlValueView;

    open spec fn view(&self) -> SqlValueView {
        match *self {
            SqlValue::Null => SqlValueView::Null,
            SqlValue::Text(s) => SqlValueView::Text(s@),
            SqlValue::Integer(n) => SqlValueView::Integer(n),
            SqlValue::Unsigned(n) => SqlValueView::Unsigned(n),
        }
    }
}

impl DeepView for SqlValue {
    type V = SqlValueView;

    open spec fn deep_view(&self) -> SqlValueView {
        self@
    }
}

/// A statement with the values bound to its placeholders, in order.
#[derive(Clone, Debug, PartialEq, Eq)]
pub struct Statement {
    pub sql: &'static str,
    pub params: Vec<SqlValue>,
}

/// Mathematical view of a [`Statement`].
pub struct StatementView {
    pub sql: Seq<char>,
    pub params: Seq<SqlValueView>,
}

impl View for Statement {
    type V = StatementView;

    open spec fn view(&self) -> StatementView {
        StatementView { sql: self.sql@, params: self.params.deep_view() }
    }
}

impl DeepView for Statement {
    type V = StatementView;

    open spec fn deep_view(&self) -> StatementView {
        self@
    }
}

/// The value that stands for an alias: nothing when the alias is empty, so
/// that records without an alias never collide.
pub open spec fn alias_value(alias: Seq<char>) -> SqlValueView {
    if alias.len() == 0 {
        SqlValueView::Null
    } else {
        SqlValueView::Text(alias)
    }
}

/// The statement that writes the record `f`. The times of the row are not
/// bound: the database takes them from its clock.
pub open spec fn insert_statement(f: FileView) -> StatementView {
    StatementView {
        sql: INSERT_FILE@,
        params: seq![
            alias_value(f.file_id),
            SqlValueView::Text(f.file_unique_id),
            SqlValueView::Text(f.thumbnail_file_id),
            SqlValueView::Text(f.thumbnail_file_unique_id),
            SqlValueView::Integer(f.message_id),
            SqlValueView::Unsigned(f.user_id),
            SqlValueView::Text(f.file_name),
            SqlValueView::Unsigned(f.file_size),
            SqlValueView::Text(f.mime_type),
            SqlValueView::Text(f.file_path),
        ],
    }
}

/// The statement that sets the download path of the content `id` to `path`.
pub open spec fn path_statement(id: Seq<char>, path: Seq<char>) -> StatementView {
    StatementView {
        sql: SAVE_FILE_PATH@,
        params: seq![SqlValueView::Text(path), SqlValueView::Text(id)],
    }
}

/// The statement that looks a row up by `key`.
pub open spec fn select_statement(key: Seq<char>) -> StatementView {
    StatementView {
        sql: SELECT_FILE@,
        params: seq![
            SqlValueView::Text(key),
            SqlValueView::Text(key),
            SqlValueView::Text(key),
        ],
    }
}

impl D1 {
    /// The statement for [`D1::init`].
    pub fn init_statement() -> (s: Statement)
        ensures
            s@ == (StatementView { sql: CREATE_TABLE@, params: Seq::empty() }),
    {
        let s = Statement { sql: CREATE_TABLE, params: Vec::new() };
        assert(s.params.deep_view() =~= Seq::<SqlValueView>::empty());
        s
    }

    /// The statement that writes `f`.
    pub fn save_statement(f: &File) -> (s: Statement)
        ensures
            s@ == insert_statement(f@),
    {
        let alias = if f.file_id.as_str().is_empty() {
            SqlValue::Null
        } else {
            SqlValue::Text(f.file_id.clone())
        };
        let mut params: Vec<SqlValue> = Vec::new();
        params.push(alias);
        params.push(SqlValue::Text(f.file_unique_id.clone()));
        params.push(SqlValue::Text(f.thumbnail_file_id.clone()));
        params.push(SqlValue::Text(f.thumbnail_file_unique_id.clone()));
        params.push(SqlValue::Integer(f.message_id));
        params.push(SqlValue::Unsigned(f.user_id));
        params.push(SqlValue::Text(f.file_name.clone()));
        params.push(SqlValue::Unsigned(f.file_size));
        params.push(SqlValue::Text(f.mime_type.clone()));
        params.push(SqlValue::Text(f.file_path.clone()));
        assert(params.deep_view() =~= insert_statement(f@).params);
        Statement { sql: INSERT_FILE, params }
    }

    /// The statements of a batch: one for each record, in the order of the
    /// batch.
    pub fn save_statements(files: &Vec<File>) -> (batch: Vec<Statement>)
        ensures
            batch.deep_view() == files.deep_view().map_values(|f: FileView| insert_statement(f)),
    {
        let mut batch: Vec<Statement> = Vec::new();
        let mut i: usize = 0;
        while i < files.len()
            invariant
                i <= files.len(),
                batch.len() == i,
                forall|k: int| 0 <= k < i ==> batch[k]@ == insert_statement(files[k]@),
            decreases files.len() - i,
        {
            batch.push(D1::save_statement(&files[i]));
            i = i + 1;
        }
        assert(batch.deep_view() =~= files.deep_view().map_values(
            |f: FileView| insert_statement(f),
        ));
        batch
    }

    /// The statement for [`D1::save_file_path`].
    pub fn save_file_path_statement(file_unique_id: &String, file_path: &String) -> (s: Statement)
        ensures
            s@ == path_statement(file_unique_id@, file_path@),
    {
        let mut params: Vec<SqlValue> = Vec::new();
        params.push(SqlValue::Text(file_path.clone()));
        params.push(SqlValue::Text(file_unique_id.clone()));
        assert(params.deep_view() =~= path_statement(file_unique_id@, file_path@).params);
        Statement { sql: SAVE_FILE_PATH, params }
    }

    /// The statement for [`D1::get`].
    pub fn get_statement(key: &String) -> (s: Statement)
        ensures
            s@ == select_statement(key@),
    {
        let mut params: Vec<SqlValue> = Vec::new();
        params.push(SqlValue::Text(key.clone()));
        params.push(SqlValue::Text(key.clone()));
        params.push(SqlValue::Text(key.clone()));
        assert(params.deep_view() =~= select_statement(key@).params);
        Statement { sql: SELECT_FILE, params }
    }
}

/// A batch that can be written has a beginning that can be written.
pub proof fn lemma_upsert_all_prefix(rows: Seq<FileView>, files: Seq<FileView>, n: int, now: i64)
    requires
        0 <= n <= files.len(),
        upsert_all(rows, files.take(n), now) is None,
    ensures
        upsert_all(rows, files, now) is None,
    decreases files.len() - n,
{
    if n < files.len() {
        assert(files.take(n + 1).drop_last() == files.take(n));
        lemma_upsert_all_prefix(rows, files, n + 1, now);
    } else {
        assert(files.take(n) == files);
    }
}

/// Writing a record leaves every row in its place, under its content
/// identifier; the row with the record's content identifier, which comes
/// last if it is new, holds the record.
pub proof fn lemma_upsert_row_rows(rows: Seq<FileView>, f: FileView, now: i64)
    requires
        table_wf(rows),
        upsert_row(rows, f, now) is Some,
    ensures
        ({
            let after = upsert_row(rows, f, now)->0;
            let i = find_unique(after, f.file_unique_id);
            &&& table_wf(after)
            &&& rows.len() <= after.len() <= rows.len() + 1
            &&& 0 <= i < after.len()
            &&& after[i] == if find_unique(rows, f.file_unique_id) >= 0 {
                merged(rows[i], f, now)
            } else {
                inserted(f, now)
            }
            &&& after[i].file_unique_id == f.file_unique_id
            &&& after[i].file_id == f.file_id
            &&& find_unique(rows, f.file_unique_id) >= 0 ==> i == find_unique(
                rows,
                f.file_unique_id,
            ) && after.len() == rows.len()
            &&& find_unique(rows, f.file_unique_id) < 0 ==> i == rows.len()
            &&& forall|j: int|
                0 <= j < rows.len() ==> after[j].file_unique_id == rows[j].file_unique_id
            &&& forall|j: int| 0 <= j < rows.len() && j != i ==> after[j] == rows[j]
        }),
{
    lemma_upsert_row_wf(rows, f, now);
    lemma_find_unique(rows, f.file_unique_id);
    let after = upsert_row(rows, f, now)->0;
    let before = find_unique(rows, f.file_unique_id);
    if before >= 0 {
        lemma_find_unique_at(after, f.file_unique_id, before);
    } else {
        lemma_find_unique_at(after, f.file_unique_id, rows.len() as int);
    }
}

/// Writing a batch leaves every row in its place, under its content
/// identifier, and the table holds a row for each record of the batch.
pub proof fn lemma_upsert_all_rows(rows: Seq<FileView>, files: Seq<FileView>, now: i64)
    requires
        table_wf(rows),
        upsert_all(rows, files, now) is Some,
    ensures
        ({
            let after = upsert_all(rows, files, now)->0;
            &&& table_wf(after)
            &&& rows.len() <= after.len()
            &&& forall|j: int|
                0 <= j < rows.len() ==> after[j].file_unique_id == rows[j].file_unique_id
            &&& forall|k: int|
                0 <= k < files.len() ==> find_unique(after, #[trigger] files[k].file_unique_id)
                    >= 0
        }),
    decreases files.len(),
{
    if files.len() > 0 {
        let mid = upsert_all(rows, files.drop_last(), now)->0;
        let after = upsert_all(rows, files, now)->0;
        lemma_upsert_all_rows(rows, files.drop_last(), now);
        lemma_upsert_row_rows(mid, files.last(), now);
        assert forall|k: int| 0 <= k < files.len() implies find_unique(
            after,
            #[trigger] files[k].file_unique_id,
        ) >= 0 by {
            if k < files.len() - 1 {
                let id = files[k].file_unique_id;
                assert(files.drop_last()[k] == files[k]);
                let at = find_unique(mid, id);
                lemma_find_unique(mid, id);
                lemma_find_unique_at(after, id, at);
            }
        }
    }
}

/// Writing a batch of one record is writing the record.
pub proof fn lemma_upsert_one(rows: Seq<FileView>, f: FileView, now: i64)
    ensures
        upsert_all(rows, seq![f], now) == upsert_row(rows, f, now),
{
    assert(seq![f].drop_last() == Seq::<FileView>::empty());
    assert(upsert_all(rows, Seq::<FileView>::empty(), now) == Some(rows));
}

/// Writing a batch of two records is writing the first and then the second.
pub proof fn lemma_upsert_two(rows: Seq<FileView>, a: FileView, b: FileView, now: i64)
    ensures
        upsert_all(rows, seq![a, b], now) == match upsert_row(rows, a, now) {
            Some(mid) => upsert_row(mid, b, now),
            None => None,
        },
{
    assert(seq![a, b].drop_last() == seq![a]);
    lemma_upsert_one(rows, a, now);
}

/// Rows persist: whatever is saved, and whether saving succeeds or not,
/// every row stays in its place under its content identifier; a path that
/// is set moves no row either.
pub proof fn law_rows_persist(
    s: D1View,
    files: Seq<FileView>,
    now: i64,
    id: Seq<char>,
    path: Seq<char>,
)
    requires
        store_wf(s),
    ensures
        store_wf(saved(s, files, now).0),
        store_wf(path_saved(s, id, path).0),
        s.rows.len() <= saved(s, files, now).0.rows.len(),
        s.rows.len() == path_saved(s, id, path).0.rows.len(),
        forall|j: int|
            0 <= j < s.rows.len() ==> (#[trigger] saved(s, files, now).0.rows[j]).file_unique_id
                == s.rows[j].file_unique_id,
        forall|j: int|
            0 <= j < s.rows.len() ==> (#[trigger] path_saved(s, id, path).0.rows[j]).file_unique_id
                == s.rows[j].file_unique_id,
{
    lemma_with_path_wf(s.rows, id, path);
    lemma_find_unique(s.rows, id);
    if files.len() > 0 && upsert_all(s.rows, files, now) is Some {
        lemma_upsert_all_rows(s.rows, files, now);
    }
}

/// Creating the table a second time changes nothing, and creating it keeps
/// what it holds.
pub proof fn law_init_idempotent(s: D1View)
    ensures
        created(created(s)) == created(s),
        created(s).rows == s.rows,
        s.created ==> created(s) == s,
        store_wf(s) ==> store_wf(created(s)),
{
}

/// Idempotent upsert: saving a record and then a record with the same
/// content identifier leaves exactly one row with that identifier, adds no
/// row the second time and touches no other row. The row holds what the
/// second record says: its alias, preview, provenance and description, and
/// its download path if it has one; else the path stays. The row keeps the
/// time of the first insertion and carries the time of the second write.
pub proof fn law_upsert_idempotent(
    s: D1View,
    first: FileView,
    second: FileView,
    t1: i64,
    t2: i64,
)
    requires
        store_wf(s),
        first.file_unique_id == second.file_unique_id,
        saved(s, seq![first], t1).1 is Ok,
        saved(saved(s, seq![first], t1).0, seq![second], t2).1 is Ok,
    ensures
        ({
            let s1 = saved(s, seq![first], t1).0;
            let s2 = saved(s1, seq![second], t2).0;
            let i = find_unique(s2.rows, second.file_unique_id);
            &&& store_wf(s2)
            &&& s2.rows.len() == s1.rows.len()
            &&& 0 <= i < s2.rows.len()
            &&& i == find_unique(s1.rows, first.file_unique_id)
            &&& forall|j: int|
                0 <= j < s2.rows.len() && j != i ==> s2.rows[j].file_unique_id
                    != second.file_unique_id && s2.rows[j] == s1.rows[j]
            &&& s2.rows[i] == merged(s1.rows[i], second, t2)
            &&& s2.rows[i].file_id == second.file_id
            &&& s2.rows[i].file_path == if second.file_path.len() > 0 {
                second.file_path
            } else {
                s1.rows[i].file_path
            }
            &&& s2.rows[i].add_time == s1.rows[i].add_time
            &&& s2.rows[i].update_time == t2
            &&& lookup(s2.rows, second.file_unique_id) == Some(s2.rows[i])
        }),
{
    let s1 = saved(s, seq![first], t1).0;
    let s2 = saved(s1, seq![second], t2).0;
    lemma_upsert_one(s.rows, first, t1);
    lemma_upsert_row_rows(s.rows, first, t1);
    lemma_upsert_one(s1.rows, second, t2);
    lemma_upsert_row_rows(s1.rows, second, t2);
    lemma_find_unique(s2.rows, second.file_unique_id);
    let i = find_unique(s2.rows, second.file_unique_id);
    assert forall|j: int| 0 <= j < s2.rows.len() && j != i implies s2.rows[j].file_unique_id
        != second.file_unique_id && s2.rows[j] == s1.rows[j] by {
        if s2.rows[j].file_unique_id == second.file_unique_id {
            lemma_find_unique_at(s2.rows, second.file_unique_id, j);
        }
    }
}

/// Disjoint lookups: after two records with different content have been
/// saved, a lookup by the content identifier of either returns the row of
/// that record, with the record's alias; and so does a lookup by the alias
/// of either, provided the alias is not empty and is not the content
/// identifier of a row.
pub proof fn law_lookup_disjoint(s: D1View, a: FileView, b: FileView, now: i64)
    requires
        store_wf(s),
        a.file_unique_id != b.file_unique_id,
        saved(s, seq![a, b], now).1 is Ok,
    ensures
        ({
            let rows = saved(s, seq![a, b], now).0.rows;
            let row_a = lookup(rows, a.file_unique_id);
            let row_b = lookup(rows, b.file_unique_id);
            &&& row_a is Some && row_a->0.file_unique_id == a.file_unique_id && row_a->0.file_id
                == a.file_id
            &&& row_b is Some && row_b->0.file_unique_id == b.file_unique_id && row_b->0.file_id
                == b.file_id
            &&& row_a != row_b
            &&& a.file_id.len() > 0 && find_unique(rows, a.file_id) < 0 ==> lookup(
                rows,
                a.file_id,
            ) == row_a
            &&& b.file_id.len() > 0 && find_unique(rows, b.file_id) < 0 ==> lookup(
                rows,
                b.file_id,
            ) == row_b
        }),
{
    let start = created(s).rows;
    lemma_upsert_two(start, a, b, now);
    let mid = upsert_row(start, a, now)->0;
    lemma_upsert_row_rows(start, a, now);
    let rows = upsert_row(mid, b, now)->0;
    lemma_upsert_row_rows(mid, b, now);
    let ia = find_unique(mid, a.file_unique_id);
    let ib = find_unique(rows, b.file_unique_id);
    lemma_find_unique_at(rows, a.file_unique_id, ia);
    if a.file_id.len() > 0 {
        lemma_find_alias_at(rows, a.file_id, ia);
    }
    if b.file_id.len() > 0 {
        lemma_find_alias_at(rows, b.file_id, ib);
    }
}

/// Schema self-heal: saving a batch into a store whose table does not exist
/// succeeds whenever the batch can be written into an empty table; the table
/// exists afterwards and holds a row for every record of the batch.
pub proof fn law_schema_self_heal(files: Seq<FileView>, now: i64)
    requires
        files.len() > 0,
        upsert_all(Seq::empty(), files, now) is Some,
    ensures
        ({
            let fresh = D1View { created: false, rows: Seq::empty() };
            let after = saved(fresh, files, now);
            &&& after.1 is Ok
            &&& after.0.created
            &&& store_wf(after.0)
            &&& forall|k: int|
                0 <= k < files.len() ==> (#[trigger] lookup(
                    after.0.rows,
                    files[k].file_unique_id,
                )) is Some && lookup(after.0.rows, files[k].file_unique_id)->0.file_unique_id
                    == files[k].file_unique_id
        }),
{
    let none = Seq::<FileView>::empty();
    lemma_upsert_all_rows(none, files, now);
    let rows = upsert_all(none, files, now)->0;
    assert forall|k: int| 0 <= k < files.len() implies (#[trigger] lookup(
        rows,
        files[k].file_unique_id,
    )) is Some && lookup(rows, files[k].file_unique_id)->0.file_unique_id
        == files[k].file_unique_id by {
        lemma_find_unique(rows, files[k].file_unique_id);
    }
}

/// Saving one record into a store whose table does not exist always
/// succeeds, and leaves a table with the record as its only row.
pub proof fn law_first_record(f: FileView, now: i64)
    ensures
        saved(D1View { created: false, rows: Seq::empty() }, seq![f], now) == (
            D1View { created: true, rows: seq![inserted(f, now)] },
            Ok::<(), ErrorView>(()),
        ),
{
    let none = Seq::<FileView>::empty();
    lemma_upsert_one(none, f, now);
}

/// Tables that hold the same content identifiers and aliases, row by row,
/// find the same rows.
pub proof fn lemma_find_same_keys(a: Seq<FileView>, b: Seq<FileView>, key: Seq<char>)
    requires
        a.len() == b.len(),
        forall|j: int|
            0 <= j < a.len() ==> a[j].file_unique_id == b[j].file_unique_id && a[j].file_id
                == b[j].file_id,
    ensures
        find_unique(a, key) == find_unique(b, key),
        find_alias(a, key) == find_alias(b, key),
    decreases a.len(),
{
    if a.len() > 0 {
        lemma_find_same_keys(a.drop_last(), b.drop_last(), key);
    }
}

/// A path that has been handed to the store is the path that the next
/// lookup finds: after the download path of the content `id` has been set,
/// a lookup by any key returns the row that it returned before, with the new
/// path if the row holds the content `id`; and no other row has changed.
pub proof fn law_saved_path_is_found(s: D1View, id: Seq<char>, path: Seq<char>, key: Seq<char>)
    requires
        store_wf(s),
        s.created,
    ensures
        ({
            let after = path_saved(s, id, path).0;
            &&& path_saved(s, id, path).1 is Ok
            &&& store_wf(after)
            &&& after.rows.len() == s.rows.len()
            &&& got(after, key) == match got(s, key) {
                Ok(row) => if row.file_unique_id == id {
                    Ok::<FileView, ErrorView>(FileView { file_path: path, ..row })
                } else {
                    Ok(row)
                },
                Err(e) => Err(e),
            }
            &&& forall|j: int|
                0 <= j < s.rows.len() && s.rows[j].file_unique_id != id ==> after.rows[j]
                    == s.rows[j]
        }),
{
    let after = path_saved(s, id, path).0;
    lemma_with_path_wf(s.rows, id, path);
    lemma_find_unique(s.rows, id);
    lemma_find_same_keys(s.rows, after.rows, key);
    lemma_find_unique(s.rows, key);
    lemma_find_alias(s.rows, key);
    let i = find_unique(s.rows, id);
    if i >= 0 {
        assert forall|j: int| 0 <= j < s.rows.len() && j != i implies s.rows[j].file_unique_id
            != id by {
            if s.rows[j].file_unique_id == id {
                lemma_find_unique_at(s.rows, id, j);
            }
        }
    }
}

/// The step function of the saving of a batch.
pub open spec fn save_machine() -> spec_fn(SaveState, SaveEvent) -> (SaveState, SaveActionView) {
    |s: SaveState, e: SaveEvent| save_step(s, e)
}

/// Where the saving of a batch stands after `events`, from `start`, and what
/// it asked for on the way, in order.
pub open spec fn save_run(start: SaveState, events: Seq<SaveEvent>) -> (
    SaveState,
    Seq<SaveActionView>,
) {
    run(save_machine(), start, events)
}

/// How many times `actions` hand the batch to the database.
pub open spec fn batches(actions: Seq<SaveActionView>) -> nat {
    count(actions, |a: SaveActionView| a is Batch)
}

/// How many times `actions` create the table.
pub open spec fn inits(actions: Seq<SaveActionView>) -> nat {
    count(actions, |a: SaveActionView| a is Init)
}

/// How many times a saving that stands in `state` can have handed the batch
/// to the database.
pub open spec fn batch_budget(state: SaveState) -> nat {
    match state {
        SaveState::Start => 0,
        SaveState::Batch => 1,
        SaveState::Init => 1,
        SaveState::Retry => 2,
        SaveState::Done => 2,
    }
}

/// How many times a saving that stands in `state` can have created the table.
pub open spec fn init_budget(state: SaveState) -> nat {
    match state {
        SaveState::Start => 0,
        SaveState::Batch => 0,
        SaveState::Init => 1,
        SaveState::Retry => 1,
        SaveState::Done => 1,
    }
}

/// One repair only: whatever the database answers, in whatever order, the
/// saving of a batch creates the table at most once and hands the batch over
/// at most twice.
pub proof fn law_save_bounded(events: Seq<SaveEvent>)
    ensures
        batches(save_run(SaveState::Start, events).1) <= 2,
        inits(save_run(SaveState::Start, events).1) <= 1,
{
    let any = |s: SaveState| true;
    lemma_run_budget(
        save_machine(),
        SaveState::Start,
        events,
        any,
        |s: SaveState| batch_budget(s),
        |a: SaveActionView| a is Batch,
    );
    lemma_run_budget(
        save_machine(),
        SaveState::Start,
        events,
        any,
        |s: SaveState| init_budget(s),
        |a: SaveActionView| a is Init,
    );
}

/// Self-heal, step by step: when the database answers the first attempt
/// with a missing table, the table is created, the batch is handed over once
/// more, and the database's second answer is the outcome, a missing table
/// included.
pub proof fn law_save_heals_once(count: usize, missing: Error, second: Result<(), Error>)
    requires
        count > 0,
        missing.kind == ErrorKind::SchemaMissing,
    ensures
        save_run(
            SaveState::Start,
            seq![
                SaveEvent::Request { count },
                SaveEvent::Batch(Err(missing)),
                SaveEvent::Init(Ok(())),
                SaveEvent::Batch(second),
            ],
        ) == (
            SaveState::Done,
            seq![
                SaveActionView::Batch,
                SaveActionView::Init,
                SaveActionView::Batch,
                SaveActionView::Finish(outcome_view(second)),
            ],
        ),
{
    let step = save_machine();
    let e0 = SaveEvent::Request { count };
    let e1 = SaveEvent::Batch(Err(missing));
    let e2 = SaveEvent::Init(Ok(()));
    let e3 = SaveEvent::Batch(second);
    let none = Seq::<SaveEvent>::empty();
    lemma_run_push(step, SaveState::Start, none, e0);
    lemma_run_push(step, SaveState::Start, none.push(e0), e1);
    lemma_run_push(step, SaveState::Start, none.push(e0).push(e1), e2);
    lemma_run_push(step, SaveState::Start, none.push(e0).push(e1).push(e2), e3);
    assert(seq![e0, e1, e2, e3] == none.push(e0).push(e1).push(e2).push(e3));
    assert(run(step, SaveState::Start, seq![e0, e1, e2, e3]).1 == seq![
        SaveActionView::Batch,
        SaveActionView::Init,
        SaveActionView::Batch,
        SaveActionView::Finish(outcome_view(second)),
    ]);
}

} // verus!
