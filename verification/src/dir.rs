//! The directory source: migration scripts found under a root path.
//!
//! The driver validates nothing itself: it stats the root, walks it
//! recursively, and hands every file found to [`migrate`] as a
//! [`FileEntry`] — the file's path together with its id, the path relative
//! to the root. Everything that decides is here and verified: the root is
//! validated, entries without the `sql` extension are dropped, the rest are
//! sorted by id, and a fresh [`BatchRunner`] drives them in that order. The
//! script text of each file is read by the driver only when its turn comes.

use vstd::prelude::*;

use crate::batch::BatchItem;
use crate::batch::BatchRunner;
use crate::batch::sort_items;
use crate::batch::sorted_by_id;
use crate::errors::LibsqlDirMigratorError;
use crate::util::PathStatus;
use crate::util::acceptable_root;
use crate::util::has_sql_extension;
use crate::util::has_sql_extension_spec;
use crate::util::validate_migration_folder;

verus! {

/// One file found under the migration root.
#[derive(Debug)]
pub struct FileEntry {
    /// The file's full path, which the driver reads the script from.
    pub path: String,
    /// The migration id: the file's path relative to the root.
    pub id: String,
}

/// The batch item standing for one file.
pub open spec fn item_of(e: FileEntry) -> BatchItem {
    BatchItem { id: e.id, source: e.path }
}

/// The batch items of the entries whose path carries the `sql` extension,
/// in the order the entries came.
pub open spec fn sql_items(s: Seq<FileEntry>) -> Seq<BatchItem>
    decreases s.len(),
{
    if s.len() == 0 {
        Seq::empty()
    } else {
        let rest = sql_items(s.drop_last());
        if has_sql_extension_spec(s.last().path@) {
            rest.push(item_of(s.last()))
        } else {
            rest
        }
    }
}

/// Keeps the entries with the `sql` extension, as batch items.
fn collect_sql_items(entries: &Vec<FileEntry>) -> (r: Vec<BatchItem>)
    ensures
        r@ == sql_items(entries@),
{
    let mut acc: Vec<BatchItem> = Vec::new();
    let mut i: usize = 0;
    proof {
        assert(entries@.take(0) =~= Seq::<FileEntry>::empty());
    }
    while i < entries.len()
        invariant
            i <= entries@.len(),
            acc@ == sql_items(entries@.take(i as int)),
        decreases entries@.len() - i,
    {
        proof {
            assert(entries@.take(i as int + 1).drop_last() =~= entries@.take(i as int));
            assert(entries@.take(i as int + 1).last() == entries@[i as int]);
        }
        let e = &entries[i];
        if has_sql_extension(e.path.as_str()) {
            acc.push(BatchItem { id: e.id.clone(), source: e.path.clone() });
        }
        i = i + 1;
    }
    proof {
        assert(entries@.take(entries@.len() as int) =~= entries@);
    }
    acc
}

/// Begins a directory migration batch. The root must be acceptable — it
/// exists and is a directory or a single `sql` file — or the validation
/// error is returned and nothing else happens; a failed walk is surfaced
/// next; otherwise the runner holds exactly the `sql` files of the walk,
/// in lexicographic id order.
pub fn migrate(status: &PathStatus, listing: Result<Vec<FileEntry>, String>) -> (r: Result<
    BatchRunner,
    LibsqlDirMigratorError,
>)
    ensures
        !status.exists ==> (r matches Err(LibsqlDirMigratorError::MigrationDirNotFound(p))
            && p@ == status.path@),
        status.exists && !acceptable_root(*status) ==> (r matches Err(
            LibsqlDirMigratorError::InvalidMigrationPath(p),
        ) && p@ == status.path@),
        acceptable_root(*status) && listing is Err ==> (r matches Err(
            LibsqlDirMigratorError::ErrorWhileGettingSQLFiles(m),
        ) && m@ == listing->Err_0@),
        acceptable_root(*status) && listing is Ok ==> (r matches Ok(runner) && runner.wf()
            && runner.idx == 0 && !runner.schema_ensured && !runner.did_new && sorted_by_id(
            runner.items@,
        ) && runner.items@.to_multiset() == sql_items(listing->Ok_0@).to_multiset()),
{
    if let Err(e) = validate_migration_folder(status) {
        return Err(e);
    }
    let entries = match listing {
        Ok(v) => v,
        Err(m) => {
            return Err(LibsqlDirMigratorError::ErrorWhileGettingSQLFiles(m));
        },
    };
    let items = collect_sql_items(&entries);
    let sorted = sort_items(items);
    Ok(BatchRunner::new(sorted))
}

} // verus!
