//! The inline-content source: one caller-supplied `(id, script)` pair.
//!
//! The pair is validated before anything else happens: an empty id or an
//! empty script is rejected here, and the database is never touched for a
//! rejected pair. A valid pair yields a fresh [`Executor`] for the driver to
//! run.

use vstd::prelude::*;
use vstd::string::StringExecFns;

use crate::errors::LibsqlContentMigratorError;
use crate::util::Executor;

verus! {

/// Begins one inline migration. Rejects an empty id or an empty script with
/// `InvalidInput` — in that order — before any database interaction; for a
/// valid pair returns the executor that will apply it, poised to ensure the
/// tracking schema first.
pub fn migrate(migration_id: String, migration_script: String) -> (r: Result<
    Executor,
    LibsqlContentMigratorError,
>)
    ensures
        migration_id@.len() == 0 ==> (r matches Err(LibsqlContentMigratorError::InvalidInput(m))
            && m@ == "`migration_id` is empty"@),
        migration_id@.len() > 0 && migration_script@.len() == 0 ==> (r matches Err(
            LibsqlContentMigratorError::InvalidInput(m),
        ) && m@ == "`migration_script` is empty"@),
        migration_id@.len() > 0 && migration_script@.len() > 0 ==> (r matches Ok(e)
            && e.id@ == migration_id@ && e.script@ == migration_script@
            && e.phase is EnsuringSchema),
{
    if migration_id.as_str().is_empty() {
        return Err(
            LibsqlContentMigratorError::InvalidInput(String::from_str("`migration_id` is empty")),
        );
    }
    if migration_script.as_str().is_empty() {
        return Err(
            LibsqlContentMigratorError::InvalidInput(
                String::from_str("`migration_script` is empty"),
            ),
        );
    }
    Ok(Executor::new(migration_id, migration_script))
}

} // verus!
