use vstd::prelude::*;

verus! {

/// The name of the table that records the applied migrations of the schema.
pub const SCHEMA_HISTORY_TABLE: &'static str = "schema_history";

/// A migration by version number and name, mathematically.
pub type MigrationView = (u32, Seq<char>);

/// The views of migrations.
pub open spec fn migrations_view(ms: Seq<(u32, String)>) -> Seq<MigrationView> {
    ms.map_values(|m: (u32, String)| (m.0, m.1@))
}

/// Whether a migration of version `v` is still to be applied after `last_applied`.
pub open spec fn is_pending(v: u32, last_applied: Option<u32>) -> bool {
    match last_applied {
        None => true,
        Some(a) => v > a,
    }
}

/// The migrations, in order, that are still to be applied.
pub open spec fn pending_view(ms: Seq<MigrationView>, last_applied: Option<u32>) -> Seq<MigrationView>
    decreases ms.len(),
{
    if ms.len() == 0 {
        Seq::empty()
    } else {
        let rest = pending_view(ms.drop_last(), last_applied);
        if is_pending(ms.last().0, last_applied) {
            rest.push(ms.last())
        } else {
            rest
        }
    }
}

/// `s` with `x` put after the last item whose version is not greater than its own.
pub open spec fn insert_by_version(s: Seq<MigrationView>, x: MigrationView) -> Seq<MigrationView>
    decreases s.len(),
{
    if s.len() == 0 {
        seq![x]
    } else if s.last().0 <= x.0 {
        s.push(x)
    } else {
        insert_by_version(s.drop_last(), x).push(s.last())
    }
}

/// `s` sorted by version number, migrations of equal version in their order in `s`.
pub open spec fn sort_by_version(s: Seq<MigrationView>) -> Seq<MigrationView>
    decreases s.len(),
{
    if s.len() == 0 {
        Seq::empty()
    } else {
        insert_by_version(sort_by_version(s.drop_last()), s.last())
    }
}

/// Whether the migrations are in order of version number.
pub open spec fn sorted_by_version(s: Seq<MigrationView>) -> bool {
    forall|i: int, j: int| 0 <= i < j < s.len() ==> (#[trigger] s[i]).0 <= (#[trigger] s[j]).0
}

/// Inserting at the place that `insert_by_version` chooses is inserting at the first
/// place after which only greater versions follow.
pub proof fn lemma_insert_by_version_at(s: Seq<MigrationView>, x: MigrationView, j: int)
    requires
        0 <= j <= s.len(),
        forall|k: int| j <= k < s.len() ==> (#[trigger] s[k]).0 > x.0,
        j > 0 ==> s[j - 1].0 <= x.0,
    ensures
        insert_by_version(s, x) == s.insert(j, x),
    decreases s.len(),
{
    if s.len() == 0 {
        assert(s.insert(0, x) =~= seq![x]);
    } else if s.last().0 <= x.0 {
        if j < s.len() {
            assert(s[s.len() - 1].0 > x.0);
        }
        assert(s.insert(j, x) =~= s.push(x));
    } else {
        assert(j < s.len());
        let t = s.drop_last();
        assert forall|k: int| j <= k < t.len() implies (#[trigger] t[k]).0 > x.0 by {
            assert(t[k] == s[k]);
        }
        if j > 0 {
            assert(t[j - 1] == s[j - 1]);
        }
        lemma_insert_by_version_at(t, x, j);
        assert(s.insert(j, x) =~= t.insert(j, x).push(s.last()));
    }
}

/// Inserting into a sorted list keeps it sorted.
pub proof fn lemma_insert_by_version_sorted(s: Seq<MigrationView>, x: MigrationView)
    requires
        sorted_by_version(s),
    ensures
        sorted_by_version(insert_by_version(s, x)),
        insert_by_version(s, x).len() == s.len() + 1,
    decreases s.len(),
{
    if s.len() > 0 && s.last().0 > x.0 {
        let t = s.drop_last();
        assert(sorted_by_version(t)) by {
            assert forall|i: int, j: int| 0 <= i < j < t.len() implies (#[trigger] t[i]).0 <= (#[trigger] t[j]).0 by {
                assert(t[i] == s[i] && t[j] == s[j]);
            }
        }
        lemma_insert_by_version_sorted(t, x);
        lemma_insert_by_version_bound(t, x, s.last().0);
        let r = insert_by_version(t, x);
        assert forall|i: int, j: int| 0 <= i < j < r.len() + 1 implies (#[trigger] r.push(s.last())[i]).0
            <= (#[trigger] r.push(s.last())[j]).0 by {
            if j == r.len() {
                assert(r.push(s.last())[i] == r[i]);
            } else {
                assert(r.push(s.last())[i] == r[i] && r.push(s.last())[j] == r[j]);
            }
        }
    } else if s.len() > 0 {
        assert forall|i: int, j: int| 0 <= i < j < s.len() + 1 implies (#[trigger] s.push(x)[i]).0
            <= (#[trigger] s.push(x)[j]).0 by {
            if j == s.len() {
                assert(s.push(x)[i] == s[i]);
                assert(s[i].0 <= s[s.len() - 1].0);
            } else {
                assert(s.push(x)[i] == s[i] && s.push(x)[j] == s[j]);
            }
        }
    }
}

/// Inserting a version no greater than `bound` into a list of versions no greater than
/// `bound` gives versions no greater than `bound`.
pub proof fn lemma_insert_by_version_bound(s: Seq<MigrationView>, x: MigrationView, bound: u32)
    requires
        forall|i: int| 0 <= i < s.len() ==> (#[trigger] s[i]).0 <= bound,
        x.0 <= bound,
    ensures
        forall|i: int| 0 <= i < insert_by_version(s, x).len() ==> (#[trigger] insert_by_version(s, x)[i]).0 <= bound,
    decreases s.len(),
{
    if s.len() > 0 && s.last().0 > x.0 {
        let t = s.drop_last();
        assert forall|i: int| 0 <= i < t.len() implies (#[trigger] t[i]).0 <= bound by {
            assert(t[i] == s[i]);
        }
        lemma_insert_by_version_bound(t, x, bound);
        let r = insert_by_version(t, x);
        assert forall|i: int| 0 <= i < r.push(s.last()).len() implies (#[trigger] r.push(s.last())[i]).0 <= bound by {
            if i < r.len() {
                assert(r.push(s.last())[i] == r[i]);
            } else {
                assert(s[s.len() - 1] == s.last());
            }
        }
    } else if s.len() > 0 {
        assert forall|i: int| 0 <= i < s.push(x).len() implies (#[trigger] s.push(x)[i]).0 <= bound by {
            if i < s.len() {
                assert(s.push(x)[i] == s[i]);
            }
        }
    }
}

/// The migrations sorted by version are in order of version.
pub proof fn lemma_sort_by_version_sorted(s: Seq<MigrationView>)
    ensures
        sorted_by_version(sort_by_version(s)),
        sort_by_version(s).len() == s.len(),
    decreases s.len(),
{
    if s.len() > 0 {
        lemma_sort_by_version_sorted(s.drop_last());
        lemma_insert_by_version_sorted(sort_by_version(s.drop_last()), s.last());
    }
}

/// The migrations that are still to be applied after `last_applied` (all of them when
/// none was applied), sorted by version number; migrations of equal version keep their
/// order.
pub fn pending_migrations(migrations: &Vec<(u32, String)>, last_applied: Option<u32>) -> (r: Vec<(u32, String)>)
    ensures
        migrations_view(r@) == sort_by_version(pending_view(migrations_view(migrations@), last_applied)),
        sorted_by_version(migrations_view(r@)),
{
    let ghost all = migrations_view(migrations@);
    let mut r: Vec<(u32, String)> = Vec::new();
    let mut i: usize = 0;
    while i < migrations.len()
        invariant
            i <= migrations.len(),
            all == migrations_view(migrations@),
            migrations_view(r@) == sort_by_version(pending_view(all.take(i as int), last_applied)),
        decreases migrations.len() - i,
    {
        assert(all.take(i + 1).drop_last() =~= all.take(i as int));
        assert(all.take(i + 1).last() == (migrations@[i as int].0, migrations@[i as int].1@));
        let version = migrations[i].0;
        let pending = match last_applied {
            None => true,
            Some(a) => version > a,
        };
        if pending {
            let ghost s = migrations_view(r@);
            let ghost x = (version, migrations@[i as int].1@);
            let mut j: usize = r.len();
            while j > 0 && r[j - 1].0 > version
                invariant
                    j <= r.len(),
                    s == migrations_view(r@),
                    forall|k: int| j <= k < r.len() ==> (#[trigger] s[k]).0 > version,
                decreases j,
            {
                j = j - 1;
            }
            let ghost prev = r@;
            r.insert(j, (version, migrations[i].1.clone()));
            proof {
                let p = pending_view(all.take(i as int), last_applied);
                assert(pending_view(all.take(i + 1), last_applied) == p.push(x));
                assert(p.push(x).drop_last() =~= p);
                assert(sort_by_version(p.push(x)) == insert_by_version(sort_by_version(p), x));
                assert(j > 0 ==> s[j - 1].0 <= version);
                lemma_insert_by_version_at(s, x, j as int);
                assert(migrations_view(r@) =~= s.insert(j as int, x)) by {
                    assert forall|k: int| 0 <= k < r.len() implies migrations_view(r@)[k]
                        == s.insert(j as int, x)[k] by {
                        if k < j {
                            assert(r@[k] == prev[k]);
                        } else if k > j {
                            assert(r@[k] == prev[k - 1]);
                        }
                    }
                }
            }
        } else {
            assert(pending_view(all.take(i + 1), last_applied) == pending_view(all.take(i as int), last_applied));
        }
        i = i + 1;
    }
    assert(all.take(migrations.len() as int) =~= all);
    proof {
        lemma_sort_by_version_sorted(pending_view(all, last_applied));
    }
    r
}

} // verus!
