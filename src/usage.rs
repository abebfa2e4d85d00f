//! Attribution of per-process CPU usage to users.
//!
//! CPU figures are fixed-point: one unit is a hundredth of a percent of one
//! core, so a process that keeps one core busy reports `10000`.
use vstd::prelude::*;
use vstd::string::StringExecFns;

verus! {

/// One running process as seen by the metrics source.
pub struct ProcessSample {
    /// The owning user's id, when the operating system reports one.
    pub user_id: Option<String>,
    /// Instantaneous CPU usage, in hundredths of a percent of one core.
    pub cpu_usage: u64,
}

/// The summed CPU usage of one user.
pub struct UserUsage {
    pub username: String,
    /// Summed CPU usage, in hundredths of a percent of one core.
    pub total_cpu: u64,
}

/// Known users, as pairs of user id and display name.
///
/// When an id is listed more than once, the entry added last wins.
pub struct UserDirectory {
    entries: Vec<(String, String)>,
}

pub open spec fn opt_view(s: Option<String>) -> Option<Seq<char>> {
    match s {
        Some(x) => Some(x@),
        None => None,
    }
}

/// The name the latest entry for `id` gives, if any.
pub open spec fn lookup_name(entries: Seq<(Seq<char>, Seq<char>)>, id: Seq<char>) -> Option<
    Seq<char>,
>
    decreases entries.len(),
{
    if entries.len() == 0 {
        None
    } else if entries.last().0 == id {
        Some(entries.last().1)
    } else {
        lookup_name(entries.drop_last(), id)
    }
}

/// The name used for a user the directory does not know.
pub open spec fn fallback_name(id: Option<Seq<char>>) -> Seq<char> {
    match id {
        Some(i) => "UID:"@ + i,
        None => "UID:Unknown"@,
    }
}

/// The name a process's usage is attributed to.
pub open spec fn display_name(dir: Seq<(Seq<char>, Seq<char>)>, id: Option<Seq<char>>) -> Seq<
    char,
> {
    match id {
        Some(i) => match lookup_name(dir, i) {
            Some(n) => n,
            None => fallback_name(id),
        },
        None => fallback_name(id),
    }
}

pub open spec fn sample_name(dir: Seq<(Seq<char>, Seq<char>)>, s: ProcessSample) -> Seq<char> {
    display_name(dir, opt_view(s.user_id))
}

/// Total CPU usage of all samples.
pub open spec fn cpu_sum(samples: Seq<ProcessSample>) -> nat
    decreases samples.len(),
{
    if samples.len() == 0 {
        0
    } else {
        cpu_sum(samples.drop_last()) + samples.last().cpu_usage as nat
    }
}

/// Total CPU usage of the samples attributed to `name`.
pub open spec fn total_for(
    dir: Seq<(Seq<char>, Seq<char>)>,
    samples: Seq<ProcessSample>,
    name: Seq<char>,
) -> nat
    decreases samples.len(),
{
    if samples.len() == 0 {
        0
    } else {
        total_for(dir, samples.drop_last(), name) + if sample_name(dir, samples.last()) == name {
            samples.last().cpu_usage as nat
        } else {
            0
        }
    }
}

/// Total CPU usage over a list of users.
pub open spec fn usage_sum(us: Seq<UserUsage>) -> nat
    decreases us.len(),
{
    if us.len() == 0 {
        0
    } else {
        usage_sum(us.drop_last()) + us.last().total_cpu as nat
    }
}

pub open spec fn sorted_descending(us: Seq<UserUsage>) -> bool {
    forall|i: int, j: int| 0 <= i < j < us.len() ==> us[i].total_cpu >= us[j].total_cpu
}

pub open spec fn names_distinct(us: Seq<UserUsage>) -> bool {
    forall|i: int, j: int|
        0 <= i < us.len() && 0 <= j < us.len() && i != j ==> us[i].username@ != us[j].username@
}

/// `us` is the usage table of `samples`: one entry per user with a nonzero
/// total, each holding the sum over that user's processes, in descending
/// order of total, and together accounting for all the usage sampled.
pub open spec fn is_usage_table(
    dir: Seq<(Seq<char>, Seq<char>)>,
    samples: Seq<ProcessSample>,
    us: Seq<UserUsage>,
) -> bool {
    &&& sorted_descending(us)
    &&& forall|i: int| 0 <= i < us.len() ==> (#[trigger] us[i]).total_cpu > 0
    &&& forall|i: int|
        0 <= i < us.len() ==> (#[trigger] us[i]).total_cpu == total_for(
            dir,
            samples,
            us[i].username@,
        )
    &&& names_distinct(us)
    &&& forall|k: int|
        0 <= k < samples.len() && total_for(dir, samples, sample_name(dir, #[trigger] samples[k]))
            > 0 ==> exists|i: int| 0 <= i < us.len() && us[i].username@ == sample_name(dir, samples[k])
    &&& usage_sum(us) == cpu_sum(samples)
}

impl View for UserDirectory {
    type V = Seq<(Seq<char>, Seq<char>)>;

    closed spec fn view(&self) -> Seq<(Seq<char>, Seq<char>)> {
        self.entries@.map_values(|e: (String, String)| (e.0@, e.1@))
    }
}

impl UserDirectory {
    pub fn new() -> (r: UserDirectory)
        ensures
            r@ == Seq::<(Seq<char>, Seq<char>)>::empty(),
    {
        let r = UserDirectory { entries: Vec::new() };
        assert(r@ =~= Seq::<(Seq<char>, Seq<char>)>::empty());
        r
    }

    /// Records `name` as the display name of `id`.
    pub fn insert(&mut self, id: String, name: String)
        ensures
            final(self)@ == old(self)@.push((id@, name@)),
    {
        self.entries.push((id, name));
        assert(self@ =~= old(self)@.push((id@, name@)));
    }

    pub fn len(&self) -> (r: usize)
        ensures
            r == self@.len(),
    {
        self.entries.len()
    }

    /// The display name of `id`, if the directory knows it.
    pub fn lookup(&self, id: &String) -> (r: Option<String>)
        ensures
            opt_view(r) == lookup_name(self@, id@),
    {
        let mut i: usize = self.entries.len();
        assert(self@.subrange(0, i as int) =~= self@);
        while i > 0
            invariant
                i <= self.entries.len(),
                lookup_name(self@, id@) == lookup_name(self@.subrange(0, i as int), id@),
            decreases i,
        {
            let ghost pre = self@.subrange(0, i as int);
            assert(pre.drop_last() =~= self@.subrange(0, i - 1));
            if self.entries[i - 1].0 == *id {
                return Some(self.entries[i - 1].1.clone());
            }
            i = i - 1;
        }
        None
    }
}

/// The name a process's usage is attributed to: the directory's name for its
/// user, else `UID:<id>`, else `UID:Unknown`.
pub fn resolve_name(directory: &UserDirectory, user_id: &Option<String>) -> (r: String)
    ensures
        r@ == display_name(directory@, opt_view(*user_id)),
{
    match user_id {
        Some(id) => match directory.lookup(id) {
            Some(name) => name,
            None => {
                let mut s = "UID:".to_owned();
                s.append(id.as_str());
                s
            },
        },
        None => "UID:Unknown".to_owned(),
    }
}

proof fn lemma_cpu_sum_prefix_step(samples: Seq<ProcessSample>, i: int)
    requires
        0 <= i < samples.len(),
    ensures
        cpu_sum(samples.subrange(0, i + 1)) == cpu_sum(samples.subrange(0, i))
            + samples[i].cpu_usage,
{
    assert(samples.subrange(0, i + 1).drop_last() =~= samples.subrange(0, i));
}

pub(crate) proof fn lemma_cpu_sum_prefix_bound(samples: Seq<ProcessSample>, i: int)
    requires
        0 <= i <= samples.len(),
    ensures
        cpu_sum(samples.subrange(0, i)) <= cpu_sum(samples),
    decreases samples.len() - i,
{
    if i < samples.len() {
        lemma_cpu_sum_prefix_step(samples, i);
        lemma_cpu_sum_prefix_bound(samples, i + 1);
    } else {
        assert(samples.subrange(0, i) =~= samples);
    }
}

proof fn lemma_total_for_prefix_step(
    dir: Seq<(Seq<char>, Seq<char>)>,
    samples: Seq<ProcessSample>,
    i: int,
    name: Seq<char>,
)
    requires
        0 <= i < samples.len(),
    ensures
        total_for(dir, samples.subrange(0, i + 1), name) == total_for(
            dir,
            samples.subrange(0, i),
            name,
        ) + if sample_name(dir, samples[i]) == name {
            samples[i].cpu_usage as nat
        } else {
            0
        },
{
    assert(samples.subrange(0, i + 1).drop_last() =~= samples.subrange(0, i));
}

proof fn lemma_total_for_le_sum(
    dir: Seq<(Seq<char>, Seq<char>)>,
    samples: Seq<ProcessSample>,
    name: Seq<char>,
)
    ensures
        total_for(dir, samples, name) <= cpu_sum(samples),
    decreases samples.len(),
{
    if samples.len() > 0 {
        lemma_total_for_le_sum(dir, samples.drop_last(), name);
    }
}

proof fn lemma_total_for_absent(
    dir: Seq<(Seq<char>, Seq<char>)>,
    samples: Seq<ProcessSample>,
    name: Seq<char>,
)
    requires
        forall|k: int| 0 <= k < samples.len() ==> sample_name(dir, #[trigger] samples[k]) != name,
    ensures
        total_for(dir, samples, name) == 0,
    decreases samples.len(),
{
    if samples.len() > 0 {
        let rest = samples.drop_last();
        assert forall|k: int| 0 <= k < rest.len() implies sample_name(dir, #[trigger] rest[k])
            != name by {
            assert(rest[k] == samples[k]);
        }
        lemma_total_for_absent(dir, rest, name);
    }
}

proof fn lemma_usage_sum_update(us: Seq<UserUsage>, j: int, u: UserUsage)
    requires
        0 <= j < us.len(),
    ensures
        usage_sum(us.update(j, u)) + us[j].total_cpu == usage_sum(us) + u.total_cpu,
    decreases us.len(),
{
    if j < us.len() - 1 {
        assert(us.update(j, u).drop_last() =~= us.drop_last().update(j, u));
        lemma_usage_sum_update(us.drop_last(), j, u);
    } else {
        assert(us.update(j, u).drop_last() =~= us.drop_last());
    }
}

proof fn lemma_usage_sum_insert(us: Seq<UserUsage>, p: int, u: UserUsage)
    requires
        0 <= p <= us.len(),
    ensures
        usage_sum(us.insert(p, u)) == usage_sum(us) + u.total_cpu,
    decreases us.len(),
{
    if p < us.len() {
        assert(us.insert(p, u).drop_last() =~= us.drop_last().insert(p, u));
        lemma_usage_sum_insert(us.drop_last(), p, u);
    } else {
        assert(us.insert(p, u) =~= us.push(u));
        assert(us.push(u).drop_last() =~= us);
    }
}

proof fn lemma_usage_sum_prefix_step(us: Seq<UserUsage>, i: int)
    requires
        0 <= i < us.len(),
    ensures
        usage_sum(us.subrange(0, i + 1)) == usage_sum(us.subrange(0, i)) + us[i].total_cpu,
{
    assert(us.subrange(0, i + 1).drop_last() =~= us.subrange(0, i));
}

/// The index of the entry named `name`, if there is one.
fn position_of(us: &Vec<UserUsage>, name: &String) -> (r: Option<usize>)
    ensures
        match r {
            Some(j) => j < us.len() && us@[j as int].username@ == name@,
            None => forall|j: int| 0 <= j < us.len() ==> us@[j].username@ != name@,
        },
{
    let mut j: usize = 0;
    while j < us.len()
        invariant
            j <= us.len(),
            forall|m: int| 0 <= m < j ==> us@[m].username@ != name@,
        decreases us.len() - j,
    {
        if us[j].username == *name {
            return Some(j);
        }
        j = j + 1;
    }
    None
}

/// Inserts `u` after every entry whose total is at least `u`'s, which keeps
/// a descending list descending.
fn insert_descending(us: &mut Vec<UserUsage>, u: UserUsage)
    requires
        sorted_descending(old(us)@),
    ensures
        exists|p: int| 0 <= p <= old(us)@.len() && final(us)@ == old(us)@.insert(p, u),
        sorted_descending(final(us)@),
{
    let mut p: usize = 0;
    while p < us.len() && us[p].total_cpu >= u.total_cpu
        invariant
            p <= us.len(),
            forall|m: int| 0 <= m < p ==> us@[m].total_cpu >= u.total_cpu,
        decreases us.len() - p,
    {
        p = p + 1;
    }
    let ghost before = us@;
    us.insert(p, u);
    proof {
        before.insert_ensures(p as int, u);
        assert forall|i: int, j: int| 0 <= i < j < us@.len() implies us@[i].total_cpu
            >= us@[j].total_cpu by {
            if j < p {
            } else if j == p {
            } else if i < p {
                assert(us@[j] == before[j - 1]);
            } else if i == p {
                assert(us@[j] == before[j - 1]);
                assert(before[p as int].total_cpu < u.total_cpu);
            } else {
                assert(us@[j] == before[j - 1]);
                assert(us@[i] == before[i - 1]);
            }
        }
    }
}

proof fn lemma_insert_keeps_distinct(
    acc: Seq<UserUsage>,
    k: int,
    before: Seq<UserUsage>,
    p: int,
    after: Seq<UserUsage>,
)
    requires
        0 <= k < acc.len(),
        0 <= p <= before.len(),
        after == before.insert(p, acc[k]),
        names_distinct(acc),
        names_distinct(before),
        forall|m: int| 0 <= m < before.len() ==> exists|a: int| 0 <= a < k && #[trigger] before[m] == acc[a],
    ensures
        names_distinct(after),
{
    before.insert_ensures(p, acc[k]);
    assert forall|m1: int, m2: int|
        0 <= m1 < after.len() && 0 <= m2 < after.len() && m1 != m2 implies after[m1].username@
        != after[m2].username@ by {
        if m1 != p && m2 != p {
            let b1 = if m1 < p { m1 } else { m1 - 1 };
            let b2 = if m2 < p { m2 } else { m2 - 1 };
            assert(after[m1] == before[b1]);
            assert(after[m2] == before[b2]);
        } else if m1 == p {
            let b2 = if m2 < p { m2 } else { m2 - 1 };
            assert(after[m2] == before[b2]);
            let a = choose|a: int| 0 <= a < k && before[b2] == acc[a];
            assert(acc[a].username@ != acc[k].username@);
        } else {
            let b1 = if m1 < p { m1 } else { m1 - 1 };
            assert(after[m1] == before[b1]);
            let a = choose|a: int| 0 <= a < k && before[b1] == acc[a];
            assert(acc[a].username@ != acc[k].username@);
        }
    }
}

/// The entries of `acc` with a nonzero total, in descending order of total.
#[verifier::rlimit(60)]
fn keep_nonzero_descending(acc: &Vec<UserUsage>) -> (out: Vec<UserUsage>)
    requires
        names_distinct(acc@),
    ensures
        sorted_descending(out@),
        forall|m: int| 0 <= m < out@.len() ==> (#[trigger] out@[m]).total_cpu > 0,
        forall|m: int|
            0 <= m < out@.len() ==> exists|a: int| 0 <= a < acc@.len() && #[trigger] out@[m] == acc@[a],
        forall|a: int|
            0 <= a < acc@.len() && (#[trigger] acc@[a]).total_cpu > 0 ==> exists|m: int|
                0 <= m < out@.len() && out@[m].username@ == acc@[a].username@,
        names_distinct(out@),
        usage_sum(out@) == usage_sum(acc@),
{
    let mut out: Vec<UserUsage> = Vec::new();
    let mut k: usize = 0;
    while k < acc.len()
        invariant
            k <= acc.len(),
            names_distinct(acc@),
            sorted_descending(out@),
            forall|m: int| 0 <= m < out@.len() ==> (#[trigger] out@[m]).total_cpu > 0,
            forall|m: int|
                0 <= m < out@.len() ==> exists|a: int|
                    0 <= a < k && #[trigger] out@[m] == acc@[a],
            forall|a: int|
                0 <= a < k && (#[trigger] acc@[a]).total_cpu > 0 ==> exists|m: int|
                    0 <= m < out@.len() && out@[m].username@ == acc@[a].username@,
            names_distinct(out@),
            usage_sum(out@) == usage_sum(acc@.subrange(0, k as int)),
        decreases acc.len() - k,
    {
        proof {
            lemma_usage_sum_prefix_step(acc@, k as int);
        }
        if acc[k].total_cpu > 0 {
            let u = UserUsage { username: acc[k].username.clone(), total_cpu: acc[k].total_cpu };
            assert(u == acc@[k as int]);
            let ghost before = out@;
            insert_descending(&mut out, u);
            proof {
                let p = choose|p: int| 0 <= p <= before.len() && out@ == before.insert(p, u);
                before.insert_ensures(p, u);
                lemma_usage_sum_insert(before, p, u);
                assert forall|m: int| 0 <= m < out@.len() implies exists|a: int|
                    0 <= a < k + 1 && #[trigger] out@[m] == acc@[a] by {
                    if m < p {
                        assert(out@[m] == before[m]);
                    } else if m > p {
                        assert(out@[m] == before[m - 1]);
                    } else {
                        assert(out@[m] == acc@[k as int]);
                    }
                }
                assert forall|m: int| 0 <= m < out@.len() implies (#[trigger] out@[m]).total_cpu
                    > 0 by {
                    if m < p {
                        assert(out@[m] == before[m]);
                    } else if m > p {
                        assert(out@[m] == before[m - 1]);
                    }
                }
                assert forall|a: int|
                    0 <= a < k + 1 && (#[trigger] acc@[a]).total_cpu > 0 implies exists|m: int|
                    0 <= m < out@.len() && out@[m].username@ == acc@[a].username@ by {
                    if a < k {
                        let m = choose|m: int|
                            0 <= m < before.len() && before[m].username@ == acc@[a].username@;
                        if m < p {
                            assert(out@[m] == before[m]);
                        } else {
                            assert(out@[m + 1] == before[m]);
                        }
                    } else {
                        assert(out@[p] == acc@[a]);
                    }
                }
                lemma_insert_keeps_distinct(acc@, k as int, before, p, out@);
            }
        }
        k = k + 1;
    }
    assert(acc@.subrange(0, k as int) =~= acc@);
    out
}

/// Sums CPU usage per display name.
///
/// The result holds one entry per user with a nonzero total, each total being
/// the sum over that user's processes, in descending order of total.
pub fn aggregate(samples: &Vec<ProcessSample>, directory: &UserDirectory) -> (r: Vec<UserUsage>)
    requires
        cpu_sum(samples@) <= u64::MAX,
    ensures
        is_usage_table(directory@, samples@, r@),
{
    let ghost dir = directory@;
    let mut acc: Vec<UserUsage> = Vec::new();
    let mut i: usize = 0;
    while i < samples.len()
        invariant
            i <= samples.len(),
            dir == directory@,
            cpu_sum(samples@) <= u64::MAX,
            names_distinct(acc@),
            forall|a: int|
                0 <= a < acc@.len() ==> (#[trigger] acc@[a]).total_cpu == total_for(
                    dir,
                    samples@.subrange(0, i as int),
                    acc@[a].username@,
                ),
            forall|k: int|
                0 <= k < i ==> exists|a: int|
                    0 <= a < acc@.len() && acc@[a].username@ == sample_name(
                        dir,
                        #[trigger] samples@[k],
                    ),
            usage_sum(acc@) == cpu_sum(samples@.subrange(0, i as int)),
        decreases samples.len() - i,
    {
        let name = resolve_name(directory, &samples[i].user_id);
        let cpu = samples[i].cpu_usage;
        let ghost old_acc = acc@;
        proof {
            lemma_cpu_sum_prefix_step(samples@, i as int);
            lemma_cpu_sum_prefix_bound(samples@, i as int + 1);
            lemma_total_for_le_sum(dir, samples@.subrange(0, i as int + 1), name@);
            lemma_total_for_prefix_step(dir, samples@, i as int, name@);
        }
        match position_of(&acc, &name) {
            Some(j) => {
                proof {
                    lemma_total_for_le_sum(dir, samples@.subrange(0, i as int), name@);
                }
                let total = acc[j].total_cpu + cpu;
                let entry = UserUsage { username: name, total_cpu: total };
                acc.set(j, entry);
                proof {
                    lemma_usage_sum_update(old_acc, j as int, entry);
                    assert forall|a: int| 0 <= a < acc@.len() implies (#[trigger] acc@[a]).total_cpu
                        == total_for(dir, samples@.subrange(0, i + 1), acc@[a].username@) by {
                        lemma_total_for_prefix_step(dir, samples@, i as int, acc@[a].username@);
                    }
                    assert forall|k: int| 0 <= k < i + 1 implies exists|a: int|
                        0 <= a < acc@.len() && acc@[a].username@ == sample_name(
                            dir,
                            #[trigger] samples@[k],
                        ) by {
                        if k < i {
                            let a = choose|a: int|
                                0 <= a < old_acc.len() && old_acc[a].username@ == sample_name(
                                    dir,
                                    samples@[k],
                                );
                            assert(acc@[a].username@ == old_acc[a].username@);
                        } else {
                            assert(acc@[j as int].username@ == sample_name(dir, samples@[k]));
                        }
                    }
                }
            },
            None => {
                proof {
                    assert forall|k: int| 0 <= k < i implies sample_name(
                        dir,
                        #[trigger] samples@.subrange(0, i as int)[k],
                    ) != name@ by {
                        assert(samples@.subrange(0, i as int)[k] == samples@[k]);
                    }
                    lemma_total_for_absent(dir, samples@.subrange(0, i as int), name@);
                }
                let entry = UserUsage { username: name, total_cpu: cpu };
                acc.push(entry);
                proof {
                    assert(acc@.drop_last() =~= old_acc);
                    assert forall|a: int| 0 <= a < acc@.len() implies (#[trigger] acc@[a]).total_cpu
                        == total_for(dir, samples@.subrange(0, i + 1), acc@[a].username@) by {
                        lemma_total_for_prefix_step(dir, samples@, i as int, acc@[a].username@);
                    }
                    assert forall|k: int| 0 <= k < i + 1 implies exists|a: int|
                        0 <= a < acc@.len() && acc@[a].username@ == sample_name(
                            dir,
                            #[trigger] samples@[k],
                        ) by {
                        if k < i {
                            let a = choose|a: int|
                                0 <= a < old_acc.len() && old_acc[a].username@ == sample_name(
                                    dir,
                                    samples@[k],
                                );
                            assert(acc@[a] == old_acc[a]);
                        } else {
                            assert(acc@[old_acc.len() as int] == entry);
                        }
                    }
                }
            },
        }
        i = i + 1;
    }
    assert(samples@.subrange(0, i as int) =~= samples@);

    let out = keep_nonzero_descending(&acc);
    proof {
        assert forall|kk: int|
            0 <= kk < samples@.len() && total_for(
                dir,
                samples@,
                sample_name(dir, #[trigger] samples@[kk]),
            ) > 0 implies exists|m: int|
            0 <= m < out@.len() && out@[m].username@ == sample_name(dir, samples@[kk]) by {
            let a = choose|a: int|
                0 <= a < acc@.len() && acc@[a].username@ == sample_name(dir, samples@[kk]);
            assert(acc@[a].total_cpu > 0);
        }
        assert forall|m: int| 0 <= m < out@.len() implies (#[trigger] out@[m]).total_cpu
            == total_for(dir, samples@, out@[m].username@) by {
            let a = choose|a: int| 0 <= a < acc@.len() && out@[m] == acc@[a];
        }
    }
    out
}

} // verus!
