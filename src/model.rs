//! A model of the filesystem as a map from path to content, what each pipeline
//! operation does to it, and what a file's pipeline guarantees about its data.
use vstd::prelude::*;
use crate::paths::temp_path_of;
use crate::pipeline::{Failure, Op, RunResult, Stage, is_terminal, next_stage, op_for, result_of};

verus! {

/// The regular files of a filesystem: each path with its bytes.
pub type Files = Map<Seq<char>, Seq<u8>>;

/// `after` is a state the filesystem can be in once `op` was performed on
/// `before` and succeeded (`ok`) or failed. A failed duplication may leave
/// anything at its destination and touches nothing else; a failed removal or
/// rename changes nothing. The helper's rename moves: the source is gone after.
pub open spec fn effect(before: Files, op: Op, ok: bool, after: Files) -> bool {
    match op {
        Op::Duplicate { source, dest } => if ok {
            before.contains_key(source) && after == before.insert(dest, before[source])
        } else {
            after.remove(dest) == before.remove(dest)
        },
        Op::Remove { path } => if ok {
            before.contains_key(path) && after == before.remove(path)
        } else {
            after == before
        },
        Op::Rename { source, dest } => if ok {
            before.contains_key(source) && after == before.remove(source).insert(
                dest,
                before[source],
            )
        } else {
            after == before
        },
    }
}

/// The stage a task reaches from `Pending` through the given step outcomes.
pub open spec fn stage_after(outcomes: Seq<bool>) -> Stage
    decreases outcomes.len(),
{
    if outcomes.len() == 0 {
        Stage::Pending
    } else {
        next_stage(stage_after(outcomes.drop_last()), outcomes.last())
    }
}

/// A complete pipeline of the file at `path`: step `i` performs the operation
/// owed at the stage reached so far, with outcome `outcomes[i]`, taking the
/// filesystem from `states[i]` to `states[i + 1]`; the last stage is terminal.
pub open spec fn is_task_run(path: Seq<char>, states: Seq<Files>, outcomes: Seq<bool>) -> bool {
    &&& states.len() == outcomes.len() + 1
    &&& is_terminal(stage_after(outcomes))
    &&& forall|i: int|
        0 <= i < outcomes.len() ==> {
            let st = #[trigger] stage_after(outcomes.take(i));
            &&& !is_terminal(st)
            &&& op_for(path, st) matches Some(op) && effect(states[i], op, outcomes[i], states[i + 1])
        }
}

proof fn lemma_stage_step(outcomes: Seq<bool>, k: int)
    requires
        0 <= k < outcomes.len(),
    ensures
        stage_after(outcomes.take(k + 1)) == next_stage(stage_after(outcomes.take(k)), outcomes[k]),
{
    assert(outcomes.take(k + 1).drop_last() =~= outcomes.take(k));
}

/// What a task run leaves behind, by how it ended.
proof fn lemma_task_run_end(path: Seq<char>, states: Seq<Files>, outcomes: Seq<bool>)
    requires
        is_task_run(path, states, outcomes),
        states[0].contains_key(path),
    ensures
        ({
            let c = states[0][path];
            let t = temp_path_of(path);
            let last = states.last();
            match result_of(stage_after(outcomes)) {
                RunResult::Success => last.contains_key(path) && last[path] == c
                    && !last.contains_key(t) && last == states[0].remove(t),
                RunResult::Failed(Failure::CopyFailed) => last.contains_key(path) && last[path]
                    == c,
                RunResult::Failed(Failure::RemoveFailed) => last.contains_key(path) && last[path]
                    == c && last.contains_key(t) && last[t] == c,
                RunResult::Failed(Failure::RenameFailed) => !last.contains_key(path)
                    && last.contains_key(t) && last[t] == c,
            }
        }),
{
    let c = states[0][path];
    let t = temp_path_of(path);
    assert(t.len() > path.len());
    assert(t != path);
    assert(outcomes.take(0) =~= Seq::<bool>::empty());
    let s0 = stage_after(outcomes.take(0));
    assert(s0 == Stage::Pending);
    if outcomes.len() == 0 {
        assert(outcomes =~= outcomes.take(0));
        assert(false);
    }
    assert(effect(states[0], Op::Duplicate { source: path, dest: t }, outcomes[0], states[1]));
    lemma_stage_step(outcomes, 0);
    let s1 = stage_after(outcomes.take(1));
    if !outcomes[0] {
        if outcomes.len() > 1 {
            assert(!is_terminal(stage_after(outcomes.take(1))));
        }
        assert(outcomes =~= outcomes.take(1));
        assert(states.last() == states[1]);
        assert(states[0].remove(t).contains_key(path));
        assert(states[0].remove(t)[path] == c);
        assert(states[1].remove(t).contains_key(path));
        assert(stage_after(outcomes) == Stage::Failed(Failure::CopyFailed));
        assert(states[1].remove(t)[path] == states[1][path]);
        return;
    }
    assert(states[1] == states[0].insert(t, c));
    if outcomes.len() == 1 {
        assert(outcomes =~= outcomes.take(1));
        assert(false);
    }
    assert(!is_terminal(stage_after(outcomes.take(1))));
    lemma_stage_step(outcomes, 1);
    if !outcomes[1] {
        if outcomes.len() > 2 {
            assert(!is_terminal(stage_after(outcomes.take(2))));
        }
        assert(outcomes =~= outcomes.take(2));
        return;
    }
    assert(states[2] == states[1].remove(path));
    if outcomes.len() == 2 {
        assert(outcomes =~= outcomes.take(2));
        assert(false);
    }
    assert(!is_terminal(stage_after(outcomes.take(2))));
    lemma_stage_step(outcomes, 2);
    if outcomes.len() > 3 {
        assert(!is_terminal(stage_after(outcomes.take(3))));
    }
    assert(outcomes =~= outcomes.take(3));
    if outcomes[2] {
        assert(states[3] =~= states[0].remove(t));
    }
}

/// A file whose pipeline succeeded holds, at its original path, the content it
/// held before, and no temporary duplicate is left.
pub proof fn lemma_success_preserves_content(
    path: Seq<char>,
    states: Seq<Files>,
    outcomes: Seq<bool>,
)
    requires
        is_task_run(path, states, outcomes),
        states[0].contains_key(path),
        result_of(stage_after(outcomes)) == RunResult::Success,
    ensures
        states.last().contains_key(path),
        states.last()[path] == states[0][path],
        !states.last().contains_key(temp_path_of(path)),
{
    lemma_task_run_end(path, states, outcomes);
}

/// A file whose duplication failed still exists at its path, unmodified.
pub proof fn lemma_copy_failure_keeps_original(
    path: Seq<char>,
    states: Seq<Files>,
    outcomes: Seq<bool>,
)
    requires
        is_task_run(path, states, outcomes),
        states[0].contains_key(path),
        result_of(stage_after(outcomes)) == RunResult::Failed(Failure::CopyFailed),
    ensures
        states.last().contains_key(path),
        states.last()[path] == states[0][path],
{
    lemma_task_run_end(path, states, outcomes);
}

/// A file whose removal failed exists unchanged, and so does its duplicate.
pub proof fn lemma_remove_failure_keeps_both(
    path: Seq<char>,
    states: Seq<Files>,
    outcomes: Seq<bool>,
)
    requires
        is_task_run(path, states, outcomes),
        states[0].contains_key(path),
        result_of(stage_after(outcomes)) == RunResult::Failed(Failure::RemoveFailed),
    ensures
        states.last().contains_key(path),
        states.last()[path] == states[0][path],
        states.last().contains_key(temp_path_of(path)),
        states.last()[temp_path_of(path)] == states[0][path],
{
    lemma_task_run_end(path, states, outcomes);
}

/// A file whose delegated rename failed is gone from its path, and its
/// duplicate holds its content. That is the only ending in which the content
/// is not at the original path.
pub proof fn lemma_rename_failure_leaves_duplicate(
    path: Seq<char>,
    states: Seq<Files>,
    outcomes: Seq<bool>,
)
    requires
        is_task_run(path, states, outcomes),
        states[0].contains_key(path),
    ensures
        result_of(stage_after(outcomes)) == RunResult::Failed(Failure::RenameFailed) ==> {
            &&& !states.last().contains_key(path)
            &&& states.last().contains_key(temp_path_of(path))
            &&& states.last()[temp_path_of(path)] == states[0][path]
        },
        result_of(stage_after(outcomes)) != RunResult::Failed(Failure::RenameFailed) ==> {
            &&& states.last().contains_key(path)
            &&& states.last()[path] == states[0][path]
        },
{
    lemma_task_run_end(path, states, outcomes);
}

/// A successful direct rename of an existing `source` to an absent `dest`
/// leaves exactly the source's bytes at `dest`, and nothing at `source`.
pub proof fn lemma_direct_rename_moves(source: Seq<char>, dest: Seq<char>, before: Files, after: Files)
    requires
        before.contains_key(source),
        !before.contains_key(dest),
        effect(before, Op::Rename { source, dest }, true, after),
    ensures
        after.contains_key(dest),
        after[dest] == before[source],
        !after.contains_key(source),
{
}


/// A batch over `paths`: file `k` goes through a complete pipeline with step
/// outcomes `outcomes[k]` and filesystem states `traces[k]`, starting where the
/// previous file's pipeline left the filesystem.
pub open spec fn is_batch_run(
    paths: Seq<Seq<char>>,
    traces: Seq<Seq<Files>>,
    outcomes: Seq<Seq<bool>>,
) -> bool {
    &&& traces.len() == paths.len()
    &&& outcomes.len() == paths.len()
    &&& forall|k: int| 0 <= k < paths.len() ==> #[trigger] is_task_run(paths[k], traces[k], outcomes[k])
    &&& forall|k: int| 0 < k < paths.len() ==> #[trigger] traces[k][0] == traces[k - 1].last()
}

/// No path of the list is the temporary duplicate's path of another.
pub open spec fn no_temp_clash(paths: Seq<Seq<char>>) -> bool {
    forall|i: int, j: int|
        #![trigger paths[i], paths[j]]
        0 <= i < paths.len() && 0 <= j < paths.len() ==> paths[i] != temp_path_of(paths[j])
}

/// `p` is the temporary duplicate's path of one of the first `k` files.
pub open spec fn is_temp_of_prefix(paths: Seq<Seq<char>>, k: int, p: Seq<char>) -> bool {
    exists|j: int| 0 <= j < k && p == #[trigger] temp_path_of(paths[j])
}

/// `a` and `b` hold the same thing at `p`: either nothing or the same bytes.
pub open spec fn agrees_at(a: Files, b: Files, p: Seq<char>) -> bool {
    &&& a.contains_key(p) == b.contains_key(p)
    &&& b.contains_key(p) ==> a[p] == b[p]
}

/// After the first `k` files of a successful batch, every path that is not a
/// temporary duplicate of those files is as it was.
proof fn lemma_batch_prefix(
    paths: Seq<Seq<char>>,
    traces: Seq<Seq<Files>>,
    outcomes: Seq<Seq<bool>>,
    k: int,
)
    requires
        is_batch_run(paths, traces, outcomes),
        no_temp_clash(paths),
        1 <= k <= paths.len(),
        forall|i: int| 0 <= i < paths.len() ==> traces[0][0].contains_key(#[trigger] paths[i]),
        forall|i: int|
            0 <= i < paths.len() ==> result_of(stage_after(#[trigger] outcomes[i]))
                == RunResult::Success,
    ensures
        traces[k - 1].len() > 0,
        forall|p: Seq<char>|
            !is_temp_of_prefix(paths, k, p) ==> #[trigger] agrees_at(
                traces[k - 1].last(),
                traces[0][0],
                p,
            ),
    decreases k,
{
    assert(is_task_run(paths[k - 1], traces[k - 1], outcomes[k - 1]));
    assert(result_of(stage_after(outcomes[k - 1])) == RunResult::Success);
    let start = traces[k - 1][0];
    let t = temp_path_of(paths[k - 1]);
    let init = traces[0][0];
    if k > 1 {
        lemma_batch_prefix(paths, traces, outcomes, k - 1);
        assert(start == traces[k - 2].last());
        if is_temp_of_prefix(paths, k - 1, paths[k - 1]) {
            let j = choose|j: int| 0 <= j < k - 1 && paths[k - 1] == #[trigger] temp_path_of(paths[j]);
            assert(paths[k - 1] != temp_path_of(paths[j]));
        }
        assert(agrees_at(start, init, paths[k - 1]));
        assert(init.contains_key(paths[k - 1]));
    }
    assert(start.contains_key(paths[k - 1]));
    lemma_task_run_end(paths[k - 1], traces[k - 1], outcomes[k - 1]);
    let last = traces[k - 1].last();
    assert(last == start.remove(t));
    assert forall|p: Seq<char>| !is_temp_of_prefix(paths, k, p) implies #[trigger] agrees_at(
        last,
        init,
        p,
    ) by {
        assert(p != t);
        if k > 1 {
            assert(!is_temp_of_prefix(paths, k - 1, p));
            assert(agrees_at(traces[k - 2].last(), init, p));
        }
    }
}

/// After a batch in which every file's pipeline succeeded, every file of the
/// list holds at its path the content it held before the batch, provided no
/// file of the list is another's temporary duplicate.
pub proof fn lemma_successful_batch_preserves_content(
    paths: Seq<Seq<char>>,
    traces: Seq<Seq<Files>>,
    outcomes: Seq<Seq<bool>>,
)
    requires
        is_batch_run(paths, traces, outcomes),
        no_temp_clash(paths),
        paths.len() > 0,
        forall|i: int| 0 <= i < paths.len() ==> traces[0][0].contains_key(#[trigger] paths[i]),
        forall|i: int|
            0 <= i < paths.len() ==> result_of(stage_after(#[trigger] outcomes[i]))
                == RunResult::Success,
    ensures
        forall|i: int|
            0 <= i < paths.len() ==> {
                &&& traces.last().last().contains_key(#[trigger] paths[i])
                &&& traces.last().last()[paths[i]] == traces[0][0][paths[i]]
            },
{
    let n = paths.len() as int;
    lemma_batch_prefix(paths, traces, outcomes, n);
    assert(traces.last() == traces[n - 1]);
    assert forall|i: int| 0 <= i < paths.len() implies {
        &&& traces.last().last().contains_key(#[trigger] paths[i])
        &&& traces.last().last()[paths[i]] == traces[0][0][paths[i]]
    } by {
        if is_temp_of_prefix(paths, n, paths[i]) {
            let j = choose|j: int| 0 <= j < n && paths[i] == #[trigger] temp_path_of(paths[j]);
            assert(paths[i] != temp_path_of(paths[j]));
        }
        assert(agrees_at(traces[n - 1].last(), traces[0][0], paths[i]));
    }
}

} // verus!
