//! The orchestrator: pairing and fan-in.
//!
//! The full job list is the cross product of the command list and the
//! repository list, outer loop over commands and inner loop over
//! repositories, in declaration order — this spawn order also fixes the
//! report order. Each pair becomes one job with a fresh workspace
//! identifier. The driver spawns one concurrent pipeline per job; however
//! the pipelines finish, their results are put back into spawn order
//! before reporting, so the report does not depend on completion order.

use vstd::prelude::*;

use crate::command::{CommandDetail, CommandSpec};
use crate::job::{initial_machine, ExecutionReference, JobResult};

verus! {

/// Relies on `uuid::Uuid::new_v4` and `Uuid`'s `Display` impl: a fresh
/// random version-4 identifier rendered in the hyphenated form, which has
/// exactly 36 characters. The value itself is random, so nothing more is
/// promised of it.
#[verifier::external_body]
fn fresh_workspace_id() -> (r: String)
    ensures
        r@.len() == 36,
{
    uuid::Uuid::new_v4().to_string()
}

/// A copy of a list of strings, equal under the view.
fn clone_strings(v: &Vec<String>) -> (r: Vec<String>)
    ensures
        r.deep_view() == v.deep_view(),
{
    let mut r: Vec<String> = Vec::new();
    let mut i: usize = 0;
    while i < v.len()
        invariant
            i <= v@.len(),
            r@.len() == i,
            forall|k: int| 0 <= k < i ==> r@[k]@ == v@[k]@,
        decreases v@.len() - i,
    {
        r.push(v[i].clone());
        i = i + 1;
    }
    proof {
        assert(r.deep_view() =~= v.deep_view());
    }
    r
}

/// A copy of a list of argument lists, equal under the view.
fn clone_argv_lists(v: &Vec<Vec<String>>) -> (r: Vec<Vec<String>>)
    ensures
        r.deep_view() == v.deep_view(),
{
    let mut r: Vec<Vec<String>> = Vec::new();
    let mut i: usize = 0;
    while i < v.len()
        invariant
            i <= v@.len(),
            r@.len() == i,
            forall|k: int| 0 <= k < i ==> (#[trigger] r@[k]).deep_view() == v@[k].deep_view(),
        decreases v@.len() - i,
    {
        r.push(clone_strings(&v[i]));
        i = i + 1;
    }
    proof {
        assert(r.deep_view() =~= v.deep_view());
    }
    r
}

/// A copy of an optional list of preparation invocations, equal under the
/// view.
fn clone_opt_argv_lists(v: &Option<Vec<Vec<String>>>) -> (r: Option<Vec<Vec<String>>>)
    ensures
        r.deep_view() == v.deep_view(),
{
    match v {
        Option::None => None,
        Option::Some(steps) => Some(clone_argv_lists(steps)),
    }
}

/// A copy of an optional string, equal under the view.
fn clone_opt_string(v: &Option<String>) -> (r: Option<String>)
    ensures
        r.deep_view() == v.deep_view(),
{
    match v {
        Option::None => None,
        Option::Some(s) => Some(s.clone()),
    }
}

/// A copy of a job description, equal under the view.
fn clone_detail(d: &CommandDetail) -> (r: CommandDetail)
    ensures
        r.label@ == d.label@,
        r.prepare.deep_view() == d.prepare.deep_view(),
        r.repository@ == d.repository@,
        r.command.deep_view() == d.command.deep_view(),
{
    CommandDetail {
        label: d.label.clone(),
        prepare: clone_opt_argv_lists(&d.prepare),
        repository: d.repository.clone(),
        command: clone_strings(&d.command),
    }
}

/// Whether job description `d` pairs command `c` with repository url `u`.
pub open spec fn pairs(d: CommandDetail, c: CommandSpec, u: String) -> bool {
    &&& d.label@ == c.label@
    &&& d.command.deep_view() == c.run.deep_view()
    &&& d.repository@ == u@
    &&& d.prepare.deep_view() == c.prepare.deep_view()
}

/// The cross product of the command list and the repository list: exactly
/// one job description per (command, repository) pair, commands outer and
/// repositories inner, in declaration order.
pub fn build_job_list(commands: &Vec<CommandSpec>, repositories: &Vec<String>) -> (r: Vec<
    CommandDetail,
>)
    ensures
        r@.len() == commands@.len() * repositories@.len(),
        forall|i: int, j: int|
            0 <= i < commands@.len() && 0 <= j < repositories@.len() ==> pairs(
                #[trigger] r@[i * repositories@.len() + j],
                commands@[i],
                repositories@[j],
            ),
{
    let n = repositories.len();
    let mut r: Vec<CommandDetail> = Vec::new();
    let mut i: usize = 0;
    while i < commands.len()
        invariant
            i <= commands@.len(),
            n == repositories@.len(),
            r@.len() == i * n,
            forall|a: int, b: int|
                0 <= a < i && 0 <= b < n ==> pairs(
                    #[trigger] r@[a * n + b],
                    commands@[a],
                    repositories@[b],
                ),
        decreases commands@.len() - i,
    {
        let mut j: usize = 0;
        while j < n
            invariant
                i < commands@.len(),
                j <= n,
                n == repositories@.len(),
                r@.len() == i * n + j,
                forall|a: int, b: int|
                    0 <= a < i && 0 <= b < n ==> pairs(
                        #[trigger] r@[a * n + b],
                        commands@[a],
                        repositories@[b],
                    ),
                forall|b: int|
                    0 <= b < j ==> pairs(
                        #[trigger] r@[i * n + b],
                        commands@[i as int],
                        repositories@[b],
                    ),
            decreases n - j,
        {
            let ghost old_r = r@;
            r.push(
                CommandDetail {
                    label: commands[i].label.clone(),
                    prepare: clone_opt_argv_lists(&commands[i].prepare),
                    repository: repositories[j].clone(),
                    command: clone_strings(&commands[i].run),
                },
            );
            j = j + 1;
            proof {
                assert forall|a: int, b: int| 0 <= a < i && 0 <= b < n implies pairs(
                    #[trigger] r@[a * n + b],
                    commands@[a],
                    repositories@[b],
                ) by {
                    assert(0 <= a * n + b && a * n + b < i * n + (j - 1)) by (nonlinear_arith)
                        requires 0 <= a < i, 0 <= b < n, 0 <= j - 1;
                    assert(r@[a * n + b] == old_r[a * n + b]);
                }
                assert forall|b: int| 0 <= b < j implies pairs(
                    #[trigger] r@[i * n + b],
                    commands@[i as int],
                    repositories@[b],
                ) by {
                    assert(0 <= i * n + b && i * n + b <= i * n + (j - 1)) by (nonlinear_arith)
                        requires 0 <= i, 0 <= b <= j - 1;
                    if b < j - 1 {
                        assert(r@[i * n + b] == old_r[i * n + b]);
                    } else {
                        assert(i * n + b == old_r.len());
                    }
                }
            }
        }
        proof {
            assert(i * n + n == (i + 1) * n) by (nonlinear_arith);
        }
        i = i + 1;
    }
    r
}

/// Whether `job` is a freshly planned job for description `d` under
/// working directory `cwd` with credential `credential`.
pub open spec fn planned_for(
    job: ExecutionReference,
    d: CommandDetail,
    cwd: Seq<char>,
    credential: Option<String>,
) -> bool {
    &&& job.execution.label@ == d.label@
    &&& job.execution.command.deep_view() == d.command.deep_view()
    &&& job.execution.repository@ == d.repository@
    &&& job.execution.prepare.deep_view() == d.prepare.deep_view()
    &&& job.machine() == initial_machine()
    &&& job.wf()
    &&& job.folder@.len() == 36
    &&& job.path@ == cwd + seq!['/'] + job.folder@
    &&& job.credential.deep_view() == credential.deep_view()
}

/// One fresh job per description, in the same order, each owning a newly
/// named workspace folder under `cwd` and carrying the shared credential
/// reference.
pub fn plan_jobs(cwd: &str, details: &Vec<CommandDetail>, credential: &Option<String>) -> (r: Vec<
    ExecutionReference,
>)
    ensures
        r@.len() == details@.len(),
        forall|k: int|
            0 <= k < details@.len() ==> planned_for(
                #[trigger] r@[k],
                details@[k],
                cwd@,
                *credential,
            ),
{
    let mut r: Vec<ExecutionReference> = Vec::new();
    let mut k: usize = 0;
    while k < details.len()
        invariant
            k <= details@.len(),
            r@.len() == k,
            forall|k0: int|
                0 <= k0 < k ==> planned_for(#[trigger] r@[k0], details@[k0], cwd@, *credential),
        decreases details@.len() - k,
    {
        let folder = fresh_workspace_id();
        let job = ExecutionReference::new(cwd, folder.as_str(), clone_detail(&details[k]));
        r.push(job.with_credential(clone_opt_string(credential)));
        k = k + 1;
    }
    r
}

/// The full plan of a run: the cross product of commands and repositories,
/// in spawn order, one fresh job per pair.
pub fn plan_all(
    cwd: &str,
    commands: &Vec<CommandSpec>,
    repositories: &Vec<String>,
    credential: &Option<String>,
) -> (r: Vec<ExecutionReference>)
    ensures
        r@.len() == commands@.len() * repositories@.len(),
        forall|i: int, j: int|
            0 <= i < commands@.len() && 0 <= j < repositories@.len() ==> {
                let job = #[trigger] r@[i * repositories@.len() + j];
                &&& job.execution.label@ == commands@[i].label@
                &&& job.execution.command.deep_view() == commands@[i].run.deep_view()
                &&& job.execution.repository@ == repositories@[j]@
                &&& job.execution.prepare.deep_view() == commands@[i].prepare.deep_view()
                &&& job.machine() == initial_machine()
                &&& job.wf()
                &&& job.folder@.len() == 36
                &&& job.path@ == cwd@ + seq!['/'] + job.folder@
                &&& job.credential.deep_view() == credential.deep_view()
            },
{
    let details = build_job_list(commands, repositories);
    let jobs = plan_jobs(cwd, &details, credential);
    proof {
        let m = commands@.len() as int;
        let n = repositories@.len() as int;
        assert forall|i: int, j: int| 0 <= i < m && 0 <= j < n implies {
            let job = #[trigger] jobs@[i * n + j];
            &&& job.execution.label@ == commands@[i].label@
            &&& job.execution.command.deep_view() == commands@[i].run.deep_view()
            &&& job.execution.repository@ == repositories@[j]@
            &&& job.execution.prepare.deep_view() == commands@[i].prepare.deep_view()
            &&& job.machine() == initial_machine()
            &&& job.wf()
            &&& job.folder@.len() == 36
            &&& job.path@ == cwd@ + seq!['/'] + job.folder@
            &&& job.credential.deep_view() == credential.deep_view()
        } by {
            assert(0 <= i * n + j < m * n) by (nonlinear_arith)
                requires 0 <= i < m, 0 <= j < n;
            assert(pairs(details@[i * n + j], commands@[i], repositories@[j]));
            assert(planned_for(jobs@[i * n + j], details@[i * n + j], cwd@, *credential));
        }
    }
    jobs
}

/// Whether some pair in `s` carries spawn index `i`.
pub open spec fn has_index(s: Seq<(usize, JobResult)>, i: int) -> bool {
    exists|k: int| 0 <= k < s.len() && s[k].0 == i
}

/// Whether no spawn index occurs twice in `s`.
pub open spec fn distinct_indices(s: Seq<(usize, JobResult)>) -> bool {
    forall|k1: int, k2: int| 0 <= k1 < k2 < s.len() ==> s[k1].0 != s[k2].0
}

/// Whether the pair `p` occurs somewhere in `sup`.
pub open spec fn occurs_in(p: (usize, JobResult), sup: Seq<(usize, JobResult)>) -> bool {
    exists|k0: int| 0 <= k0 < sup.len() && sup[k0] == p
}

/// Whether every pair of `sub` also occurs in `sup`.
pub open spec fn drawn_from(sub: Seq<(usize, JobResult)>, sup: Seq<(usize, JobResult)>) -> bool {
    forall|k: int| 0 <= k < sub.len() ==> #[trigger] occurs_in(sub[k], sup)
}

/// Whether position `i` of `out` holds the result that was delivered in
/// `d` under spawn index `i`.
pub open spec fn result_at(out: Seq<JobResult>, d: Seq<(usize, JobResult)>, i: int) -> bool {
    exists|k: int| 0 <= k < d.len() && (#[trigger] d[k]).0 == i && out[i] == d[k].1
}

/// Whether `out` lists the results delivered in `d`, each at its spawn
/// index.
pub open spec fn ordered_from(out: Seq<JobResult>, d: Seq<(usize, JobResult)>) -> bool {
    forall|i: int| 0 <= i < out.len() ==> #[trigger] result_at(out, d, i)
}

/// Every sequence of pairs is drawn from itself.
proof fn lemma_drawn_from_refl(s: Seq<(usize, JobResult)>)
    ensures
        drawn_from(s, s),
{
    assert forall|k: int| 0 <= k < s.len() implies #[trigger] occurs_in(s[k], s) by {
        assert(0 <= k < s.len() && s[k] == s[k]);
        assert(occurs_in(s[k], s));
    }
}

/// Put delivered results back into spawn order: `delivered` holds one
/// `(spawn index, result)` pair per job, in whatever order the pipelines
/// finished; the returned vector holds each result at its spawn index.
pub fn collect_in_spawn_order(n: usize, delivered: Vec<(usize, JobResult)>) -> (r: Vec<JobResult>)
    requires
        delivered@.len() == n,
        distinct_indices(delivered@),
        forall|i: int| 0 <= i < n ==> has_index(delivered@, i),
    ensures
        r@.len() == n,
        ordered_from(r@, delivered@),
{
    let ghost orig = delivered@;
    let mut rem = delivered;
    let mut out: Vec<JobResult> = Vec::new();
    let mut i: usize = 0;
    proof {
        lemma_drawn_from_refl(rem@);
    }
    while i < n
        invariant
            i <= n,
            out@.len() == i,
            rem@.len() == n - i,
            orig.len() == n,
            drawn_from(rem@, orig),
            forall|j: int| i <= j < n ==> has_index(rem@, j),
            distinct_indices(rem@),
            ordered_from(out@, orig),
        decreases n - i,
    {
        let mut k: usize = 0;
        while k < rem.len() && rem[k].0 != i
            invariant
                k <= rem@.len(),
                forall|k2: int| 0 <= k2 < k ==> rem@[k2].0 != i,
            decreases rem@.len() - k,
        {
            k = k + 1;
        }
        if k == rem.len() {
            proof {
                assert(has_index(rem@, i as int));
                let kw = choose|kw: int| 0 <= kw < rem@.len() && rem@[kw].0 == i;
                assert(false);
            }
        }
        let ghost pre = rem@;
        let ghost old_out = out@;
        let (idx, res) = rem.remove(k);
        out.push(res);
        proof {
            pre.remove_ensures(k as int);
            assert(idx == pre[k as int].0 && idx == i);
            assert forall|k2: int| 0 <= k2 < rem@.len() implies #[trigger] occurs_in(
                rem@[k2],
                orig,
            ) by {
                if k2 < k {
                    assert(pre.remove(k as int)[k2] == pre[k2]);
                    assert(rem@[k2] == pre[k2]);
                } else {
                    assert(pre.remove(k as int)[k2] == pre[k2 + 1]);
                    assert(rem@[k2] == pre[k2 + 1]);
                }
                assert(occurs_in(rem@[k2], pre));
                let kp = choose|kp: int| 0 <= kp < pre.len() && pre[kp] == rem@[k2];
                assert(occurs_in(pre[kp], orig));
            }
            assert forall|j: int| i + 1 <= j < n implies has_index(rem@, j) by {
                assert(has_index(pre, j));
                let k0 = choose|k0: int| 0 <= k0 < pre.len() && pre[k0].0 == j;
                if k0 < k {
                    assert(pre.remove(k as int)[k0] == pre[k0]);
                    assert(rem@[k0].0 == j);
                } else {
                    assert(pre[k as int].0 == i);
                    assert(k0 != k);
                    assert(pre.remove(k as int)[k0 - 1] == pre[k0]);
                    assert(rem@[k0 - 1].0 == j);
                }
            }
            assert forall|k1: int, k2: int| 0 <= k1 < k2 < rem@.len() implies rem@[k1].0
                != rem@[k2].0 by {
                let a1: int = if k1 < k { k1 } else { k1 + 1 };
                let a2: int = if k2 < k { k2 } else { k2 + 1 };
                assert(pre.remove(k as int)[k1] == pre[a1]);
                assert(pre.remove(k as int)[k2] == pre[a2]);
                assert(rem@[k1] == pre[a1]);
                assert(rem@[k2] == pre[a2]);
            }
            assert forall|i0: int| 0 <= i0 < i + 1 implies #[trigger] result_at(out@, orig, i0) by {
                if i0 < i {
                    assert(result_at(old_out, orig, i0));
                    let kw = choose|kw: int|
                        0 <= kw < orig.len() && (#[trigger] orig[kw]).0 == i0 && old_out[i0]
                            == orig[kw].1;
                    assert(out@[i0] == old_out[i0]);
                    assert(orig[kw].0 == i0 && out@[i0] == orig[kw].1);
                } else {
                    assert(occurs_in(pre[k as int], orig));
                    let k0 = choose|k0: int| 0 <= k0 < orig.len() && orig[k0] == pre[k as int];
                    assert(out@[i as int] == res);
                    assert(orig[k0].0 == i0 && out@[i0] == orig[k0].1);
                }
            }
        }
        i = i + 1;
    }
    out
}

/// The report order is independent of completion order: two deliveries of
/// the same `(spawn index, result)` pairs — however the per-job pipelines'
/// completion was delayed or interleaved — collect to the same
/// spawn-ordered result list.
pub proof fn lemma_collect_order_independent(
    n: int,
    d1: Seq<(usize, JobResult)>,
    d2: Seq<(usize, JobResult)>,
    out1: Seq<JobResult>,
    out2: Seq<JobResult>,
)
    requires
        d1.len() == n,
        d2.len() == n,
        distinct_indices(d1),
        drawn_from(d2, d1),
        out1.len() == n,
        out2.len() == n,
        ordered_from(out1, d1),
        ordered_from(out2, d2),
    ensures
        out1 =~= out2,
{
    assert forall|i: int| 0 <= i < n implies out1[i] == out2[i] by {
        assert(result_at(out1, d1, i));
        assert(result_at(out2, d2, i));
        let k1 = choose|k: int| 0 <= k < d1.len() && (#[trigger] d1[k]).0 == i && out1[i] == d1[k].1;
        let k2 = choose|k: int| 0 <= k < d2.len() && (#[trigger] d2[k]).0 == i && out2[i] == d2[k].1;
        assert(occurs_in(d2[k2], d1));
        let k0 = choose|k0: int| 0 <= k0 < d1.len() && d1[k0] == d2[k2];
        assert(d1[k0].0 == i);
        if k0 != k1 {
            assert(d1[k0].0 != d1[k1].0);
        }
        assert(out2[i] == d1[k1].1);
    }
}

} // verus!
