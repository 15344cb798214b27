//! Persistence jobs: where the two files of a record go, and the steps by
//! which a job writes them.
//!
//! A job writes the record, captures the screen, and writes the image, in
//! that order. A step that fails ends the job, and only that job.

use crate::text::{decimal, decimal_text, lemma_decimal_injective};
use vstd::prelude::*;
use vstd::string::*;

verus! {

/// What both files of a record are named by: the directory, a slash and the
/// timestamp in decimal.
pub open spec fn artifact_stem(directory: Seq<char>, timestamp: u128) -> Seq<char> {
    directory + "/"@ + decimal(timestamp as nat)
}

/// The paths of the two files of one record.
#[derive(Clone, Debug)]
pub struct ArtifactPaths {
    /// The JSON document.
    pub record: String,
    /// The screen capture.
    pub image: String,
}

/// The paths of the record's two files under `directory`: they share their
/// stem and differ in the extension only.
pub fn artifact_paths(directory: &str, timestamp: u128) -> (paths: ArtifactPaths)
    ensures
        paths.record@ == artifact_stem(directory@, timestamp) + ".json"@,
        paths.image@ == artifact_stem(directory@, timestamp) + ".jpg"@,
{
    let mut stem = String::from_str(directory);
    stem.append("/");
    stem.append(decimal_text(timestamp).as_str());
    let record = stem.clone().concat(".json");
    let image = stem.concat(".jpg");
    ArtifactPaths { record, image }
}

/// Two texts that are equal once the same ending is put behind them are
/// equal.
proof fn lemma_same_ending(first: Seq<char>, second: Seq<char>, ending: Seq<char>)
    requires
        first + ending == second + ending,
    ensures
        first == second,
{
    assert((first + ending).len() == first.len() + ending.len());
    assert((second + ending).len() == second.len() + ending.len());
    assert(first =~= (first + ending).subrange(0, first.len() as int));
    assert(second =~= (second + ending).subrange(0, second.len() as int));
}

/// Records with different timestamps never share a file: in one directory
/// their stems differ, and so do their record paths and their image paths.
pub proof fn lemma_distinct_timestamps_distinct_paths(
    directory: Seq<char>,
    first: u128,
    second: u128,
)
    requires
        first != second,
    ensures
        artifact_stem(directory, first) != artifact_stem(directory, second),
        artifact_stem(directory, first) + ".json"@ != artifact_stem(directory, second) + ".json"@,
        artifact_stem(directory, first) + ".jpg"@ != artifact_stem(directory, second) + ".jpg"@,
{
    let front = directory + "/"@;
    let one = artifact_stem(directory, first);
    let other = artifact_stem(directory, second);
    if one == other {
        assert(decimal(first as nat) =~= one.subrange(front.len() as int, one.len() as int));
        assert(decimal(second as nat) =~= other.subrange(front.len() as int, other.len() as int));
        lemma_decimal_injective(first as nat, second as nat);
    }
    if one + ".json"@ == other + ".json"@ {
        lemma_same_ending(one, other, ".json"@);
    }
    if one + ".jpg"@ == other + ".jpg"@ {
        lemma_same_ending(one, other, ".jpg"@);
    }
}

/// One step of a persistence job.
#[derive(Clone, Copy, Debug, PartialEq, Eq, Structural)]
pub enum JobAction {
    WriteRecord,
    CaptureScreen,
    WriteImage,
}

/// Where a persistence job stands.
#[derive(Clone, Copy, Debug, PartialEq, Eq, Structural)]
pub enum JobStage {
    /// The step to take next.
    Next(JobAction),
    /// Both files are written.
    Done,
    /// The job ended at the step that failed.
    Failed(JobAction),
}

/// The stage after the pending step has been tried; a job that has ended
/// stays where it is.
pub open spec fn job_step(stage: JobStage, succeeded: bool) -> JobStage {
    match stage {
        JobStage::Next(action) => if !succeeded {
            JobStage::Failed(action)
        } else {
            match action {
                JobAction::WriteRecord => JobStage::Next(JobAction::CaptureScreen),
                JobAction::CaptureScreen => JobStage::Next(JobAction::WriteImage),
                JobAction::WriteImage => JobStage::Done,
            }
        },
        _ => stage,
    }
}

/// The stage of a new job after its steps have had the outcomes `outcomes`.
pub open spec fn job_run(outcomes: Seq<bool>) -> JobStage
    decreases outcomes.len(),
{
    if outcomes.len() == 0 {
        JobStage::Next(JobAction::WriteRecord)
    } else {
        job_step(job_run(outcomes.drop_last()), outcomes.last())
    }
}

/// The steps of a new job that succeeded, in order, given the outcomes
/// `outcomes`.
pub open spec fn job_done_steps(outcomes: Seq<bool>) -> Seq<JobAction>
    decreases outcomes.len(),
{
    if outcomes.len() == 0 {
        Seq::empty()
    } else {
        let earlier = job_done_steps(outcomes.drop_last());
        match job_run(outcomes.drop_last()) {
            JobStage::Next(action) => if outcomes.last() {
                earlier.push(action)
            } else {
                earlier
            },
            _ => earlier,
        }
    }
}

/// The steps that have succeeded once a job stands at `stage`.
pub open spec fn steps_before(stage: JobStage) -> Seq<JobAction> {
    match stage {
        JobStage::Next(JobAction::WriteRecord) | JobStage::Failed(JobAction::WriteRecord) => seq![],
        JobStage::Next(JobAction::CaptureScreen) | JobStage::Failed(JobAction::CaptureScreen) => seq![
            JobAction::WriteRecord,
        ],
        JobStage::Next(JobAction::WriteImage) | JobStage::Failed(JobAction::WriteImage) => seq![
            JobAction::WriteRecord,
            JobAction::CaptureScreen,
        ],
        JobStage::Done => seq![
            JobAction::WriteRecord,
            JobAction::CaptureScreen,
            JobAction::WriteImage,
        ],
    }
}

/// Whatever the outcomes, a job takes its steps in order and none twice; a
/// job that is done has written the record once and the image once.
pub proof fn lemma_job_steps_in_order(outcomes: Seq<bool>)
    ensures
        job_done_steps(outcomes) == steps_before(job_run(outcomes)),
        job_run(outcomes) is Done ==> job_done_steps(outcomes) == seq![
            JobAction::WriteRecord,
            JobAction::CaptureScreen,
            JobAction::WriteImage,
        ],
    decreases outcomes.len(),
{
    if outcomes.len() > 0 {
        lemma_job_steps_in_order(outcomes.drop_last());
    }
    assert(job_done_steps(outcomes) =~= steps_before(job_run(outcomes)));
}

/// The stage of a job that has not started.
pub fn first_stage() -> (stage: JobStage)
    ensures
        stage == job_run(Seq::empty()),
{
    JobStage::Next(JobAction::WriteRecord)
}

/// The stage after the pending step has been tried, with `succeeded` telling
/// how it went.
pub fn advance(stage: JobStage, succeeded: bool) -> (next: JobStage)
    ensures
        next == job_step(stage, succeeded),
{
    match stage {
        JobStage::Next(action) => {
            if !succeeded {
                JobStage::Failed(action)
            } else {
                match action {
                    JobAction::WriteRecord => JobStage::Next(JobAction::CaptureScreen),
                    JobAction::CaptureScreen => JobStage::Next(JobAction::WriteImage),
                    JobAction::WriteImage => JobStage::Done,
                }
            }
        },
        JobStage::Done => JobStage::Done,
        JobStage::Failed(action) => JobStage::Failed(action),
    }
}

/// Calls `num_cpus::get`: the number of logical processors that this process
/// may use. It depends on the machine, and nothing is claimed of it.
#[verifier::external_body]
fn processing_units() -> (units: usize) {
    num_cpus::get()
}

/// The number of workers for `units` processing units: one for each, and one
/// where none is reported, since a pool needs a worker.
pub fn workers_for(units: usize) -> (workers: usize)
    ensures
        workers == if units == 0 {
            1
        } else {
            units
        },
{
    if units == 0 {
        1
    } else {
        units
    }
}

/// The size of the persistence pool on this machine: one worker for each
/// processing unit, and never none.
pub fn pool_size() -> (workers: usize)
    ensures
        workers >= 1,
{
    workers_for(processing_units())
}

} // verus!
