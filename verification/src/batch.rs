//! Batches: an ordered sequence of migrations and the runner that drives it.
//!
//! A source adapter produces one [`BatchItem`] per migration: the id that
//! the tracking table records, and the locator the driver resolves to the
//! script text (a file path for the directory source, a URL for the remote
//! source). [`sort_items`] puts a batch into lexicographic id order;
//! [`BatchRunner`] walks it strictly in sequence and aggregates whether any
//! migration was newly applied.

use vstd::prelude::*;

use crate::order::lemma_lex_le_antisymmetric;
use crate::order::lemma_lex_le_total;
use crate::order::lemma_lex_le_transitive;
use crate::order::lex_le;
use crate::order::lex_le_strings;
use crate::util::MigrationResult;

verus! {

/// One migration of a batch: its id and the locator of its script text.
#[derive(Debug)]
pub struct BatchItem {
    /// The migration's stable identifier, recorded in the tracking table.
    pub id: String,
    /// Where the driver finds the script: a file path, a URL, or the script
    /// itself, depending on the source.
    pub source: String,
}

/// The batch is in lexicographic id order.
pub open spec fn sorted_by_id(s: Seq<BatchItem>) -> bool {
    forall|i: int, j: int| 0 <= i < j < s.len() ==> lex_le(s[i].id@, s[j].id@)
}

/// Where `x` belongs in the sorted batch `out`: after everything at or
/// before it, before everything after it.
fn find_insert_pos(out: &Vec<BatchItem>, x: &BatchItem) -> (pos: usize)
    requires
        sorted_by_id(out@),
    ensures
        pos <= out@.len(),
        forall|p: int| 0 <= p < pos ==> lex_le(out@[p].id@, x.id@),
        forall|q: int| pos <= q < out@.len() ==> lex_le(x.id@, out@[q].id@),
{
    let len = out.len();
    let mut pos: usize = 0;
    while pos < len
        invariant
            pos <= len,
            len == out@.len(),
            sorted_by_id(out@),
            forall|p: int| 0 <= p < pos ==> lex_le(out@[p].id@, x.id@),
        decreases len - pos,
    {
        if !lex_le_strings(out[pos].id.as_str(), x.id.as_str()) {
            proof {
                lemma_lex_le_total(out@[pos as int].id@, x.id@);
                assert forall|q: int| pos <= q < out@.len() implies lex_le(
                    x.id@,
                    out@[q].id@,
                ) by {
                    if q > pos {
                        lemma_lex_le_transitive(x.id@, out@[pos as int].id@, out@[q].id@);
                    }
                }
            }
            return pos;
        }
        pos = pos + 1;
    }
    pos
}

/// Sorts a batch into lexicographic id order. The result is a permutation
/// of the input: the same migrations, whatever order the source enumerated
/// them in.
pub fn sort_items(items: Vec<BatchItem>) -> (r: Vec<BatchItem>)
    ensures
        sorted_by_id(r@),
        r@.to_multiset() == items@.to_multiset(),
{
    broadcast use vstd::seq_lib::group_to_multiset_ensures;

    let ghost all = items@;
    let mut src = items;
    let mut out: Vec<BatchItem> = Vec::new();
    proof {
        assert(out@.to_multiset().add(src@.to_multiset()) =~= all.to_multiset());
    }
    while src.len() > 0
        invariant
            sorted_by_id(out@),
            out@.to_multiset().add(src@.to_multiset()) == all.to_multiset(),
        decreases src.len(),
    {
        let ghost src_before = src@;
        let x = match src.pop() {
            Some(x) => x,
            None => {
                return out;
            },
        };
        let pos = find_insert_pos(&out, &x);
        let ghost out_before = out@;
        out.insert(pos, x);
        proof {
            assert(src@ =~= src_before.drop_last());
            assert(src_before.drop_last().push(x) =~= src_before);
            vstd::seq_lib::to_multiset_build(src_before.drop_last(), x);
            vstd::seq_lib::to_multiset_insert(out_before, pos as int, x);
            assert(out@.to_multiset().add(src@.to_multiset()) =~= all.to_multiset());
            assert forall|i: int, j: int| 0 <= i < j < out@.len() implies lex_le(
                out@[i].id@,
                out@[j].id@,
            ) by {
                assert(out@ == out_before.insert(pos as int, x));
                if j < pos {
                    assert(out@[i] == out_before[i] && out@[j] == out_before[j]);
                } else if i > pos {
                    assert(out@[i] == out_before[i - 1] && out@[j] == out_before[j - 1]);
                } else if i < pos && j == pos {
                    assert(out@[i] == out_before[i]);
                } else if i == pos && j > pos {
                    assert(out@[j] == out_before[j - 1]);
                } else if i < pos && j > pos {
                    assert(out@[i] == out_before[i] && out@[j] == out_before[j - 1]);
                }
            }
        }
    }
    out
}

/// Distinct sorted batches of the same migrations are identical: with no two
/// items sharing an id, the execution order of a batch is fully determined
/// by its contents, however the source enumerated them.
pub proof fn lemma_sorted_unique(a: Seq<BatchItem>, b: Seq<BatchItem>)
    requires
        sorted_by_id(a),
        sorted_by_id(b),
        a.to_multiset() == b.to_multiset(),
        forall|i: int, j: int| 0 <= i < j < a.len() ==> a[i].id@ != a[j].id@,
    ensures
        a == b,
    decreases a.len(),
{
    broadcast use vstd::seq_lib::group_to_multiset_ensures;

    a.to_multiset_ensures();
    b.to_multiset_ensures();
    if a.len() == 0 {
        assert(b.to_multiset().len() == 0);
        assert(a =~= b);
    } else {
        assert(a.to_multiset().len() == b.to_multiset().len());
        assert(b.len() == a.len());
        // the heads are equal: each is a least element of the same multiset
        let x = a[0];
        let y = b[0];
        assert(b.to_multiset().contains(x)) by {
            assert(a.to_multiset().count(x) > 0);
        }
        assert(a.to_multiset().contains(y)) by {
            assert(b.to_multiset().count(y) > 0);
        }
        let xi = choose|k: int| 0 <= k < b.len() && b[k] == x;
        assert(b.contains(x));
        assert(exists|k: int| 0 <= k < b.len() && b[k] == x);
        let yk = choose|k: int| 0 <= k < a.len() && a[k] == y;
        assert(a.contains(y));
        assert(exists|k: int| 0 <= k < a.len() && a[k] == y);
        assert(lex_le(y.id@, x.id@)) by {
            let k = choose|k: int| 0 <= k < b.len() && b[k] == x;
            if k > 0 {
                assert(lex_le(b[0].id@, b[k].id@));
            } else {
                lemma_lex_le_total(y.id@, x.id@);
            }
        }
        assert(lex_le(x.id@, y.id@)) by {
            let k = choose|k: int| 0 <= k < a.len() && a[k] == y;
            if k > 0 {
                assert(lex_le(a[0].id@, a[k].id@));
            } else {
                lemma_lex_le_total(x.id@, y.id@);
            }
        }
        lemma_lex_le_antisymmetric(x.id@, y.id@);
        // with distinct ids, equal ids pin the position: y can only be a[0]
        let k0 = choose|k: int| 0 <= k < a.len() && a[k] == y;
        assert(k0 == 0) by {
            if k0 > 0 {
                assert(a[0].id@ != a[k0].id@);
            }
        }
        assert(x == y);
        assert(a.drop_first() =~= a.remove(0));
        assert(b.drop_first() =~= b.remove(0));
        vstd::seq_lib::to_multiset_remove(a, 0);
        vstd::seq_lib::to_multiset_remove(b, 0);
        lemma_sorted_unique(a.drop_first(), b.drop_first());
        assert forall|i: int| 0 <= i < a.len() implies a[i] == b[i] by {
            if i > 0 {
                assert(a[i] == a.drop_first()[i - 1]);
                assert(b[i] == b.drop_first()[i - 1]);
            }
        }
        assert(a =~= b);
    }
}

/// Drives one batch: hands out the migrations strictly in sequence and
/// aggregates whether any of them was newly applied.
#[derive(Debug)]
pub struct BatchRunner {
    /// The batch, in execution order.
    pub items: Vec<BatchItem>,
    /// How many migrations have been completed so far.
    pub idx: usize,
    /// The driver has ensured the tracking schema exists.
    pub schema_ensured: bool,
    /// Some completed migration was newly applied.
    pub did_new: bool,
}

impl BatchRunner {
    /// The runner's bookkeeping is consistent with its batch.
    pub open spec fn wf(&self) -> bool {
        self.idx <= self.items@.len()
    }

    /// Begins a batch: nothing run yet, schema not yet ensured.
    pub fn new(items: Vec<BatchItem>) -> (r: BatchRunner)
        ensures
            r.wf(),
            r.items@ == items@,
            r.idx == 0,
            !r.schema_ensured,
            !r.did_new,
    {
        BatchRunner { items, idx: 0, schema_ensured: false, did_new: false }
    }

    /// The driver must first ensure the tracking schema exists — even for an
    /// empty batch — by running [`crate::util::create_migration_table_sql`].
    pub fn needs_schema(&self) -> (r: bool)
        ensures
            r == !self.schema_ensured,
    {
        !self.schema_ensured
    }

    /// The driver reports that the tracking schema exists.
    pub fn confirm_schema(&mut self)
        ensures
            final(self).items@ == old(self).items@,
            final(self).idx == old(self).idx,
            final(self).schema_ensured,
            final(self).did_new == old(self).did_new,
    {
        self.schema_ensured = true;
    }

    /// The migration to apply next, in batch order; `None` once the batch is
    /// exhausted.
    pub fn current(&self) -> (r: Option<&BatchItem>)
        requires
            self.wf(),
            self.schema_ensured,
        ensures
            self.idx < self.items@.len() ==> (r matches Some(item)
                && *item == self.items@[self.idx as int]),
            self.idx == self.items@.len() ==> r is None,
    {
        if self.idx < self.items.len() {
            Some(&self.items[self.idx])
        } else {
            None
        }
    }

    /// The driver reports the outcome of the current migration; the runner
    /// moves on and remembers whether anything new has been applied.
    pub fn record(&mut self, outcome: MigrationResult)
        requires
            old(self).wf(),
            old(self).schema_ensured,
            old(self).idx < old(self).items@.len(),
        ensures
            final(self).wf(),
            final(self).items@ == old(self).items@,
            final(self).idx == old(self).idx + 1,
            final(self).schema_ensured,
            final(self).did_new == (old(self).did_new || outcome == MigrationResult::Executed),
    {
        let len = self.items.len();
        assert(self.idx < len);
        self.idx = self.idx + 1;
        if matches!(outcome, MigrationResult::Executed) {
            self.did_new = true;
        }
    }

    /// Every migration of the batch has been completed.
    pub fn is_finished(&self) -> (r: bool)
        requires
            self.wf(),
        ensures
            r == (self.idx == self.items@.len()),
    {
        self.idx == self.items.len()
    }

    /// Whether at least one completed migration was newly applied: the value
    /// the batch operations return.
    pub fn did_new_migration(&self) -> (r: bool)
        ensures
            r == self.did_new,
    {
        self.did_new
    }
}

} // verus!
