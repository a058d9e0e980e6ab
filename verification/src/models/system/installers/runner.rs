use vstd::prelude::*;
use crate::common::text::{has_prefix, starts_with};
use super::manager::{InstallStep, StepView};

verus! {

/// What performing one step of a plan gave.
pub enum StepOutcome {
    /// The work was done.
    Done,
    /// The command ran and exited, successfully or not.
    Exited { success: bool },
    /// The directory held no entry to move.
    NothingToMove,
    /// The work failed with this error.
    Failed(String),
}

/// Whether a step goes on whatever its work gave.
pub open spec fn ignores_errors(step: StepView) -> bool {
    step is RunQuietly || step is RemoveDirQuietly || step is RemoveFileQuietly
}

/// Whether a plan goes on after `step` gave `outcome` (`Ok`), or stops
/// with an error message (`Err`): a `Fail` step always stops with its
/// message; the quiet steps never stop; another step stops where its work
/// failed, where a command with a failure message exited unsuccessfully, or
/// where no extracted directory was found to move.
pub open spec fn step_verdict(step: StepView, outcome: StepOutcome) -> Result<(), Seq<char>> {
    if let StepView::Fail(m) = step {
        Err(m)
    } else if ignores_errors(step) {
        Ok(())
    } else {
        match outcome {
            StepOutcome::Failed(e) => Err(e@),
            StepOutcome::Exited { success } => match step {
                StepView::Run { on_failure: Some(m), .. } => if success { Ok(()) } else { Err(m) },
                _ => Ok(()),
            },
            StepOutcome::NothingToMove => match step {
                StepView::MoveExtracted { missing, .. } => Err(missing),
                _ => Ok(()),
            },
            StepOutcome::Done => Ok(()),
        }
    }
}

/// Decides, after `step` was performed with `outcome`, whether the plan goes
/// on (`Ok`) or stops with an error (`Err`), by the rule of `step_verdict`.
pub fn step_result(step: &InstallStep, outcome: StepOutcome) -> (r: Result<(), String>)
    ensures
        match step_verdict(step@, outcome) {
            Ok(_) => r is Ok,
            Err(m) => r matches Err(e) && e@ == m,
        },
{
    match step {
        InstallStep::Fail(m) => return Err(m.clone()),
        InstallStep::RunQuietly { .. } | InstallStep::RemoveDirQuietly(_) | InstallStep::RemoveFileQuietly(_) => return Ok(()),
        _ => {},
    }
    match outcome {
        StepOutcome::Failed(e) => Err(e),
        StepOutcome::Exited { success } => match step {
            InstallStep::Run { on_failure: Some(m), .. } => if success { Ok(()) } else { Err(m.clone()) },
            _ => Ok(()),
        },
        StepOutcome::NothingToMove => match step {
            InstallStep::MoveExtracted { missing, .. } => Err(missing.clone()),
            _ => Ok(()),
        },
        StepOutcome::Done => Ok(()),
    }
}

/// An entry of a directory listing: its name and whether it is a directory
/// or a regular file.
pub struct ListedEntry {
    pub name: String,
    pub is_dir: bool,
    pub is_file: bool,
}

/// Whether `e` is the directory that an archive extracted to: a directory
/// whose name starts with `prefix`.
pub open spec fn is_extracted(e: ListedEntry, prefix: Seq<char>) -> bool {
    e.is_dir && has_prefix(e.name@, prefix)
}

/// The position of the first entry that is a directory whose name starts
/// with `prefix`, the one that a `MoveExtracted` step moves; none if there
/// is no such entry.
pub fn extracted_entry(entries: &Vec<ListedEntry>, prefix: &str) -> (r: Option<usize>)
    ensures
        match r {
            Some(i) => {
                &&& i < entries.len()
                &&& is_extracted(entries@[i as int], prefix@)
                &&& forall|j: int| 0 <= j < i ==> !is_extracted(#[trigger] entries@[j], prefix@)
            },
            None => forall|j: int| 0 <= j < entries.len() ==> !is_extracted(#[trigger] entries@[j], prefix@),
        },
{
    let mut i: usize = 0;
    while i < entries.len()
        invariant
            i <= entries.len(),
            forall|j: int| 0 <= j < i ==> !is_extracted(#[trigger] entries@[j], prefix@),
        decreases entries.len() - i,
    {
        if entries[i].is_dir && starts_with(entries[i].name.as_str(), prefix) {
            return Some(i);
        }
        i = i + 1;
    }
    None
}

/// The positions, in order, of the entries among the first `n` that are
/// regular files.
pub open spec fn file_positions(entries: Seq<ListedEntry>, n: int) -> Seq<usize>
    decreases n,
{
    if n <= 0 {
        seq![]
    } else if entries[n - 1].is_file {
        file_positions(entries, n - 1).push((n - 1) as usize)
    } else {
        file_positions(entries, n - 1)
    }
}

/// The positions, in order, of the regular files of a listing: the entries
/// that a `MoveFiles` step moves.
pub fn regular_files(entries: &Vec<ListedEntry>) -> (r: Vec<usize>)
    ensures
        r@ == file_positions(entries@, entries.len() as int),
{
    let mut out: Vec<usize> = Vec::new();
    let mut i: usize = 0;
    while i < entries.len()
        invariant
            i <= entries.len(),
            out@ == file_positions(entries@, i as int),
        decreases entries.len() - i,
    {
        if entries[i].is_file {
            out.push(i);
        }
        i = i + 1;
    }
    out
}

/// How a plan stops: a `Fail` step always stops it with its message; the
/// quiet steps never stop it; any other step stops it with the error of
/// failed work; a command with a failure message stops it with that
/// message when it exits unsuccessfully and lets it go on otherwise; a
/// command without one lets it go on however it exits; a step whose work
/// was done lets it go on; and a `MoveExtracted` step that found nothing
/// stops it with its `missing` message.
pub proof fn lemma_how_plans_stop(step: StepView, outcome: StepOutcome)
    ensures
        step matches StepView::Fail(m) ==> step_verdict(step, outcome) == Err::<(), Seq<char>>(m),
        (step is RunQuietly || step is RemoveDirQuietly || step is RemoveFileQuietly) ==> step_verdict(step, outcome) is Ok,
        (step !is Fail && step !is RunQuietly && step !is RemoveDirQuietly && step !is RemoveFileQuietly
            && outcome matches StepOutcome::Failed(e)) ==> step_verdict(step, outcome) == Err::<(), Seq<char>>(outcome->0@),
        step matches StepView::Run { on_failure: Some(m), .. } ==> (outcome matches StepOutcome::Exited { success }
            ==> step_verdict(step, outcome) == if success { Ok::<(), Seq<char>>(()) } else { Err(m) }),
        (step matches StepView::Run { on_failure: None, .. } && outcome is Exited) ==> step_verdict(step, outcome) is Ok,
        (step !is Fail && outcome is Done) ==> step_verdict(step, outcome) is Ok,
        (step matches StepView::MoveExtracted { missing, .. } && outcome is NothingToMove)
            ==> step_verdict(step, outcome) == Err::<(), Seq<char>>(step->missing),
{
}

/// The regular files of a listing are picked without loss: among the first
/// `n` entries, every picked position is one of a regular file, the
/// positions increase, and there are as many as there are regular files.
pub proof fn lemma_file_positions_exact(entries: Seq<ListedEntry>, n: int)
    requires
        0 <= n <= entries.len(),
        entries.len() <= usize::MAX,
    ensures
        forall|k: int| 0 <= k < file_positions(entries, n).len()
            ==> #[trigger] file_positions(entries, n)[k] < n && entries[file_positions(entries, n)[k] as int].is_file,
        forall|k: int, l: int|
            0 <= k < l < file_positions(entries, n).len() ==> #[trigger] file_positions(entries, n)[k] < #[trigger] file_positions(entries, n)[l],
        file_positions(entries, n).len() == entries.take(n).filter(|e: ListedEntry| e.is_file).len(),
    decreases n,
{
    reveal(Seq::filter);
    if n == 0 {
        assert(entries.take(0) =~= Seq::<ListedEntry>::empty());
    } else {
        lemma_file_positions_exact(entries, n - 1);
        let before = file_positions(entries, n - 1);
        let now = file_positions(entries, n);
        assert(entries.take(n).drop_last() =~= entries.take(n - 1));
        assert(entries.take(n).last() == entries[n - 1]);
        if entries[n - 1].is_file {
            assert((n - 1) as usize == n - 1);
            assert(now == before.push((n - 1) as usize));
            assert forall|k: int| 0 <= k < now.len() implies #[trigger] now[k] < n && entries[now[k] as int].is_file by {
                if k < before.len() {
                    assert(now[k] == before[k]);
                }
            }
            assert forall|k: int, l: int| 0 <= k < l < now.len() implies #[trigger] now[k] < #[trigger] now[l] by {
                assert(now[k] == before[k]);
                if l < before.len() {
                    assert(now[l] == before[l]);
                }
            }
        } else {
            assert(now == before);
        }
    }
}

} // verus!
