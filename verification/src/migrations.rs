//! The migration engine's plan: which of the compiled schema change-sets
//! are still unapplied, and in what order they must run.
use vstd::prelude::*;

verus! {

/// One schema change-set. The timestamp is its version identifier and
/// ordering key; the up and down scripts are whole SQL batches, and
/// neither may be empty.
#[derive(Debug, PartialEq)]
pub struct Migration {
    pub timestamp: u64,
    pub name: String,
    pub up: String,
    pub down: String,
}

impl Clone for Migration {
    fn clone(&self) -> (r: Self)
        ensures
            r == *self,
    {
        Migration {
            timestamp: self.timestamp,
            name: self.name.clone(),
            up: self.up.clone(),
            down: self.down.clone(),
        }
    }
}

/// One migration's own invariant: neither script is empty.
pub open spec fn migration_wf(m: Migration) -> bool {
    m.up@.len() > 0 && m.down@.len() > 0
}

/// The compiled set's invariant: every member well formed, and the
/// timestamps pairwise distinct, so that they define one application
/// order.
pub open spec fn migrations_wf(s: Seq<Migration>) -> bool {
    &&& forall|i: int| 0 <= i < s.len() ==> migration_wf(#[trigger] s[i])
    &&& forall|i: int, j: int| 0 <= i < j < s.len() ==> s[i].timestamp != s[j].timestamp
}

/// Strictly ascending by timestamp: the order in which migrations apply.
pub open spec fn strictly_ascending(s: Seq<Migration>) -> bool {
    forall|i: int, j: int| 0 <= i < j < s.len() ==> s[i].timestamp < s[j].timestamp
}

/// Checks the compiled set's invariant: every script non-empty and no
/// timestamp repeated.
pub fn validate_migrations(list: &Vec<Migration>) -> (b: bool)
    ensures
        b == migrations_wf(list@),
{
    let n = list.len();
    for i in 0..n
        invariant
            n == list@.len(),
            forall|k: int| 0 <= k < i ==> migration_wf(#[trigger] list@[k]),
            forall|k: int, l: int|
                0 <= k < l < list@.len() && l < i ==> list@[k].timestamp != list@[l].timestamp,
    {
        if list[i].up.as_str().is_empty() || list[i].down.as_str().is_empty() {
            return false;
        }
        for j in 0..i
            invariant
                i < n == list@.len(),
                forall|k: int| 0 <= k < j ==> list@[k].timestamp != list@[i as int].timestamp,
        {
            if list[j].timestamp == list[i].timestamp {
                return false;
            }
        }
    }
    true
}

/// The migrations still to apply: those of the compiled set with a
/// timestamp above the ledger's high-water mark, sorted ascending by
/// timestamp whatever order they were compiled in.
pub fn plan_run(compiled: Vec<Migration>, high_water: u64) -> (r: Vec<Migration>)
    requires
        migrations_wf(compiled@),
    ensures
        r@.len() <= compiled@.len(),
        strictly_ascending(r@),
        forall|m: Migration| #[trigger]
            r@.contains(m) <==> compiled@.contains(m) && m.timestamp > high_water,
{
    let ghost all = compiled@;
    let mut rest = compiled;
    let mut out: Vec<Migration> = Vec::new();
    proof {
        assert(all.take(all.len() as int) =~= all);
    }
    while rest.len() > 0
        invariant
            migrations_wf(all),
            rest@.len() <= all.len(),
            rest@ == all.take(rest@.len() as int),
            out@.len() + rest@.len() <= all.len(),
            strictly_ascending(out@),
            forall|m: Migration| #[trigger]
                out@.contains(m) <==> all.skip(rest@.len() as int).contains(m) && m.timestamp
                    > high_water,
        decreases rest@.len(),
    {
        let ghost k = rest@.len() as int;
        let m = rest.pop().unwrap();
        proof {
            assert(all.take(k).drop_last() =~= all.take(k - 1));
            assert(m == all[k - 1]);
        }
        if m.timestamp > high_water {
            sorted_insert(&mut out, m, Ghost(all), Ghost(k - 1));
        }
        proof {
            lemma_skip_one(all, k - 1, m, out@, high_water);
        }
    }
    proof {
        assert(all.skip(0) =~= all);
    }
    out
}

/// After processing `all[k]`, the processed suffix grows by that one
/// element, and the contains-equivalence carries over.
proof fn lemma_skip_one(
    all: Seq<Migration>,
    k: int,
    m: Migration,
    out: Seq<Migration>,
    high_water: u64,
)
    requires
        0 <= k < all.len(),
        m == all[k],
        forall|x: Migration| #[trigger]
            out.contains(x) <==> (all.skip(k + 1).contains(x) || (x == m && x.timestamp
                > high_water)) && x.timestamp > high_water,
    ensures
        forall|x: Migration| #[trigger]
            out.contains(x) <==> all.skip(k).contains(x) && x.timestamp > high_water,
{
    assert forall|x: Migration| #[trigger]
        all.skip(k).contains(x) <==> all.skip(k + 1).contains(x) || x == m by {
        if all.skip(k).contains(x) {
            let i = choose|i: int| 0 <= i < all.skip(k).len() && #[trigger] all.skip(k)[i] == x;
            if i == 0 {
                assert(x == m);
            } else {
                assert(all.skip(k + 1)[i - 1] == x);
            }
        }
        if all.skip(k + 1).contains(x) {
            let i = choose|i: int| 0 <= i < all.skip(k + 1).len() && #[trigger] all.skip(k + 1)[i] == x;
            assert(all.skip(k)[i + 1] == x);
        }
        if x == m {
            assert(all.skip(k)[0] == x);
        }
    }
}

/// Inserts one pending migration at its place in the sorted plan.
fn sorted_insert(
    out: &mut Vec<Migration>,
    m: Migration,
    Ghost(all): Ghost<Seq<Migration>>,
    Ghost(k): Ghost<int>,
)
    requires
        migrations_wf(all),
        0 <= k < all.len(),
        m == all[k],
        strictly_ascending(old(out)@),
        forall|x: Migration| #[trigger] old(out)@.contains(x) ==> all.skip(k + 1).contains(x),
    ensures
        final(out)@.len() == old(out)@.len() + 1,
        strictly_ascending(final(out)@),
        forall|x: Migration| #[trigger]
            final(out)@.contains(x) <==> old(out)@.contains(x) || x == m,
{
    let ghost prev = out@;
    proof {
        lemma_timestamp_fresh(prev, m, all, k);
    }
    let n = out.len();
    let mut pos: usize = 0;
    while pos < n && out[pos].timestamp < m.timestamp
        invariant
            n == out@.len(),
            out@ == prev,
            pos <= n,
            forall|j: int| 0 <= j < pos ==> prev[j].timestamp < m.timestamp,
        decreases n - pos,
    {
        pos = pos + 1;
    }
    proof {
        if pos < prev.len() {
            assert(prev.contains(prev[pos as int]));
            assert(prev[pos as int].timestamp > m.timestamp);
        }
    }
    out.insert(pos, m);
    proof {
        prev.insert_ensures(pos as int, m);
        assert forall|i: int, j: int| 0 <= i < j < out@.len() implies out@[i].timestamp
            < out@[j].timestamp by {
            assert(strictly_ascending(prev));
            if i < pos && j == pos {
            } else if i == pos && j > pos {
            } else if j < pos {
                assert(prev[i].timestamp < prev[j].timestamp);
            } else if i > pos {
                assert(prev[i - 1].timestamp < prev[j - 1].timestamp);
            } else if i < pos && j > pos {
                assert(prev[i].timestamp < prev[j - 1].timestamp);
            }
        }
        assert forall|x: Migration| #[trigger] out@.contains(x) <==> prev.contains(x) || x
            == m by {
            if out@.contains(x) {
                let i = choose|i: int| 0 <= i < out@.len() && #[trigger] out@[i] == x;
                if i < pos {
                    assert(prev[i] == x);
                    assert(prev.contains(x));
                } else if i == pos {
                    assert(x == m);
                } else {
                    assert(prev[i - 1] == x);
                    assert(prev.contains(x));
                }
            }
            if prev.contains(x) {
                let i = choose|i: int| 0 <= i < prev.len() && #[trigger] prev[i] == x;
                if i < pos {
                    assert(out@[i] == x);
                } else {
                    assert(out@[i + 1] == x);
                }
                assert(out@.contains(x));
            }
            if x == m {
                assert(out@[pos as int] == x);
                assert(out@.contains(x));
            }
        }
    }
}

/// No migration already planned shares `m`'s timestamp: the planned ones
/// come from other positions of a set with pairwise distinct timestamps.
proof fn lemma_timestamp_fresh(prev: Seq<Migration>, m: Migration, all: Seq<Migration>, k: int)
    requires
        migrations_wf(all),
        0 <= k < all.len(),
        m == all[k],
        forall|x: Migration| #[trigger] prev.contains(x) ==> all.skip(k + 1).contains(x),
    ensures
        forall|j: int| 0 <= j < prev.len() ==> (#[trigger] prev[j]).timestamp != m.timestamp,
{
    assert forall|j: int| 0 <= j < prev.len() implies (#[trigger] prev[j]).timestamp
        != m.timestamp by {
        assert(prev.contains(prev[j]));
        let i = choose|i: int| 0 <= i < all.skip(k + 1).len() && #[trigger] all.skip(k + 1)[i]
            == prev[j];
        assert(all[k + 1 + i] == prev[j]);
    }
}

/// Determinism of the plan: two strictly ascending sequences holding
/// the same migrations are the same sequence. The pending migrations
/// therefore apply in one and the same order whatever order they were
/// compiled in.
pub proof fn lemma_plan_deterministic(a: Seq<Migration>, b: Seq<Migration>)
    requires
        strictly_ascending(a),
        strictly_ascending(b),
        forall|m: Migration| #[trigger] a.contains(m) <==> #[trigger] b.contains(m),
    ensures
        a =~= b,
    decreases a.len(),
{
    if a.len() == 0 {
        if b.len() > 0 {
            assert(b.contains(b[0]));
            assert(a.contains(b[0]));
        }
    } else {
        assert(a.contains(a[0]));
        assert(b.contains(a[0]));
        let j = choose|j: int| 0 <= j < b.len() && #[trigger] b[j] == a[0];
        if j > 0 {
            assert(b[0].timestamp < b[j].timestamp);
            assert(b.contains(b[0]));
            assert(a.contains(b[0]));
            let i = choose|i: int| 0 <= i < a.len() && #[trigger] a[i] == b[0];
            if i == 0 {
                assert(a[0] == b[0]);
            } else {
                assert(a[0].timestamp < a[i].timestamp);
            }
            assert(false);
        }
        assert(b[0] == a[0]);
        let at = a.drop_first();
        let bt = b.drop_first();
        assert(strictly_ascending(at)) by {
            assert forall|p: int, q: int| 0 <= p < q < at.len() implies at[p].timestamp
                < at[q].timestamp by {
                assert(at[p] == a[p + 1] && at[q] == a[q + 1]);
            }
        }
        assert(strictly_ascending(bt)) by {
            assert forall|p: int, q: int| 0 <= p < q < bt.len() implies bt[p].timestamp
                < bt[q].timestamp by {
                assert(bt[p] == b[p + 1] && bt[q] == b[q + 1]);
            }
        }
        assert forall|m: Migration| #[trigger] at.contains(m) <==> #[trigger]
            bt.contains(m) by {
            lemma_tail_contains(a, b, m);
            lemma_tail_contains(b, a, m);
        }
        lemma_plan_deterministic(at, bt);
        assert forall|k: int| 0 <= k < a.len() implies a[k] == b[k] by {
            if k > 0 {
                assert(at[k - 1] == bt[k - 1]);
            }
        }
    }
}

/// In strictly ascending sequences with the same contents and the same
/// head, an element of one tail is an element of the other tail.
proof fn lemma_tail_contains(a: Seq<Migration>, b: Seq<Migration>, m: Migration)
    requires
        strictly_ascending(a),
        strictly_ascending(b),
        forall|x: Migration| #[trigger] a.contains(x) <==> #[trigger] b.contains(x),
        a.len() > 0,
        b.len() > 0,
        a[0] == b[0],
    ensures
        a.drop_first().contains(m) ==> b.drop_first().contains(m),
{
    if a.drop_first().contains(m) {
        let k = choose|k: int|
            0 <= k < a.drop_first().len() && #[trigger] a.drop_first()[k] == m;
        assert(a[k + 1] == m);
        assert(a.contains(m));
        assert(b.contains(m));
        let l = choose|l: int| 0 <= l < b.len() && #[trigger] b[l] == m;
        if l == 0 {
            assert(m == a[0]);
            assert(a[0].timestamp < a[k + 1].timestamp);
            assert(false);
        }
        assert(b.drop_first()[l - 1] == m);
        assert(b.drop_first().contains(m));
    }
}

/// Idempotence of the engine: a plan drawn after a completed run is
/// empty. `first` is what a run from high-water mark `hw` applied;
/// `hw2`, the ledger's mark after that run, is at least `hw` and at
/// least every applied timestamp; `second`, a plan drawn from `hw2` over
/// the same compiled set, holds nothing.
pub proof fn lemma_second_run_empty(
    first: Seq<Migration>,
    second: Seq<Migration>,
    compiled: Seq<Migration>,
    hw: u64,
    hw2: u64,
)
    requires
        forall|m: Migration| #[trigger]
            first.contains(m) <==> compiled.contains(m) && m.timestamp > hw,
        hw2 >= hw,
        forall|m: Migration| #[trigger] first.contains(m) ==> m.timestamp <= hw2,
        forall|m: Migration| #[trigger]
            second.contains(m) <==> compiled.contains(m) && m.timestamp > hw2,
    ensures
        second =~= Seq::<Migration>::empty(),
{
    if second.len() > 0 {
        let m = second[0];
        assert(second.contains(m));
        assert(first.contains(m));
    }
}

} // verus!
