//! The remote source: migration scripts listed by a manifest fetched over
//! HTTP.
//!
//! The driver fetches the manifest document and decodes it into one
//! [`ManifestEntry`] per migration — an id and the URL of its script — or
//! reports the failure that stopped it. Everything that decides is here and
//! verified: the entries are sorted by id and a fresh
//! [`crate::batch::BatchRunner`] drives them in that order. The script body
//! of each entry is fetched by the driver only when its turn comes.

use vstd::prelude::*;

use crate::batch::BatchItem;
use crate::batch::BatchRunner;
use crate::batch::sort_items;
use crate::batch::sorted_by_id;
use crate::errors::LibsqlRemoteMigratorError;

verus! {

/// What stopped the driver from producing manifest entries.
#[derive(Debug)]
pub enum RemoteFailure {
    /// The manifest URL could not be used at all; the payload is the URL.
    InvalidUrl(String),
    /// The fetch or the decode of the manifest failed; the payload is the
    /// HTTP client's or decoder's message.
    Fetch(String),
}

/// One entry of the remote manifest.
#[derive(Debug)]
pub struct ManifestEntry {
    /// The migration's stable identifier.
    pub id: String,
    /// The URL the script body is fetched from.
    pub url: String,
}

/// The batch item standing for one manifest entry.
pub open spec fn item_of(e: ManifestEntry) -> BatchItem {
    BatchItem { id: e.id, source: e.url }
}

/// The batch items of a manifest, in the order its entries came.
pub open spec fn manifest_items(s: Seq<ManifestEntry>) -> Seq<BatchItem> {
    s.map_values(|e: ManifestEntry| item_of(e))
}

/// Turns the manifest entries into batch items.
fn collect_manifest_items(entries: Vec<ManifestEntry>) -> (r: Vec<BatchItem>)
    ensures
        r@ == manifest_items(entries@),
{
    let mut acc: Vec<BatchItem> = Vec::new();
    let mut i: usize = 0;
    let mut src = entries;
    proof {
        assert(manifest_items(src@).take(0) =~= Seq::<BatchItem>::empty());
    }
    while i < src.len()
        invariant
            i <= src@.len(),
            acc@ == manifest_items(src@).take(i as int),
        decreases src@.len() - i,
    {
        let e = &src[i];
        acc.push(BatchItem { id: e.id.clone(), source: e.url.clone() });
        proof {
            assert(acc@ =~= manifest_items(src@).take(i as int + 1));
        }
        i = i + 1;
    }
    proof {
        assert(manifest_items(src@).take(src@.len() as int) =~= manifest_items(src@));
    }
    acc
}

/// Begins a remote migration batch. An unusable manifest URL is surfaced as
/// `MigrationUrlNotValid` and a fetch or decode failure as `ReqwestError`,
/// and nothing runs; a decoded manifest yields a runner holding exactly its
/// entries, in lexicographic id order.
pub fn migrate(manifest: Result<Vec<ManifestEntry>, RemoteFailure>) -> (r: Result<
    BatchRunner,
    LibsqlRemoteMigratorError,
>)
    ensures
        manifest matches Err(RemoteFailure::InvalidUrl(u)) ==> (r matches Err(
            LibsqlRemoteMigratorError::MigrationUrlNotValid(m),
        ) && m@ == u@),
        manifest matches Err(RemoteFailure::Fetch(f)) ==> (r matches Err(
            LibsqlRemoteMigratorError::ReqwestError(m),
        ) && m@ == f@),
        manifest is Ok ==> (r matches Ok(runner) && runner.wf() && runner.idx == 0
            && !runner.schema_ensured && !runner.did_new && sorted_by_id(runner.items@)
            && runner.items@.to_multiset() == manifest_items(manifest->Ok_0@).to_multiset()),
{
    let entries = match manifest {
        Ok(v) => v,
        Err(RemoteFailure::InvalidUrl(u)) => {
            return Err(LibsqlRemoteMigratorError::MigrationUrlNotValid(u));
        },
        Err(RemoteFailure::Fetch(m)) => {
            return Err(LibsqlRemoteMigratorError::ReqwestError(m));
        },
    };
    let items = collect_manifest_items(entries);
    let sorted = sort_items(items);
    Ok(BatchRunner::new(sorted))
}

} // verus!
