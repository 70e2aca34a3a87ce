use vstd::prelude::*;

use crate::watch::{name_view, should_process, spec_should_process};

verus! {

/// How the processing of one path ended.
#[derive(Clone, Copy, Debug, PartialEq, Eq)]
pub enum Outcome {
    /// The path was not eligible; nothing was done.
    Skipped,
    /// No artifact was produced; the original is untouched.
    EncryptionFailed,
    /// Every upload attempt failed; the artifact stays on disk and the original is kept.
    UploadFailed,
    /// The artifact was uploaded and the original deleted.
    Delivered,
    /// The artifact was uploaded but the original could not be deleted.
    DeliveredOriginalKept,
}

/// What the pipeline coordinator asks its driver to do next for one path.
#[derive(Clone, Copy, Debug, PartialEq, Eq)]
pub enum PipelineStep {
    /// Produce the artifact.
    Encrypt,
    /// Upload the artifact, with retries.
    Upload,
    /// Delete the plaintext original.
    DeleteOriginal,
    /// Stop with the given outcome.
    Finished(Outcome),
}

/// The first step for a path whose file name is `file_name`.
pub open spec fn spec_start(file_name: Option<Seq<char>>) -> PipelineStep {
    if spec_should_process(file_name) {
        PipelineStep::Encrypt
    } else {
        PipelineStep::Finished(Outcome::Skipped)
    }
}

/// The step after `step` succeeded or failed.
pub open spec fn spec_next_step(step: PipelineStep, succeeded: bool) -> PipelineStep {
    match step {
        PipelineStep::Encrypt => if succeeded {
            PipelineStep::Upload
        } else {
            PipelineStep::Finished(Outcome::EncryptionFailed)
        },
        PipelineStep::Upload => if succeeded {
            PipelineStep::DeleteOriginal
        } else {
            PipelineStep::Finished(Outcome::UploadFailed)
        },
        PipelineStep::DeleteOriginal => if succeeded {
            PipelineStep::Finished(Outcome::Delivered)
        } else {
            PipelineStep::Finished(Outcome::DeliveredOriginalKept)
        },
        PipelineStep::Finished(o) => PipelineStep::Finished(o),
    }
}

/// The first step for a path whose file name is `file_name`: encrypt it, unless it is not
/// eligible.
pub fn start_pipeline(file_name: Option<&str>) -> (r: PipelineStep)
    ensures
        r == spec_start(name_view(file_name)),
{
    if should_process(file_name) {
        PipelineStep::Encrypt
    } else {
        PipelineStep::Finished(Outcome::Skipped)
    }
}

/// The step after `step` succeeded or failed: encrypt, then upload, then delete the original,
/// stopping at the first failure.
pub fn next_step(step: PipelineStep, succeeded: bool) -> (r: PipelineStep)
    ensures
        r == spec_next_step(step, succeeded),
{
    match step {
        PipelineStep::Encrypt => if succeeded {
            PipelineStep::Upload
        } else {
            PipelineStep::Finished(Outcome::EncryptionFailed)
        },
        PipelineStep::Upload => if succeeded {
            PipelineStep::DeleteOriginal
        } else {
            PipelineStep::Finished(Outcome::UploadFailed)
        },
        PipelineStep::DeleteOriginal => if succeeded {
            PipelineStep::Finished(Outcome::Delivered)
        } else {
            PipelineStep::Finished(Outcome::DeliveredOriginalKept)
        },
        PipelineStep::Finished(o) => PipelineStep::Finished(o),
    }
}

/// The steps that a run visits from `step` when the steps report `outcomes` in turn.
pub open spec fn pipeline_run(step: PipelineStep, outcomes: Seq<bool>) -> Seq<PipelineStep>
    decreases outcomes.len(),
{
    if step is Finished || outcomes.len() == 0 {
        seq![step]
    } else {
        seq![step] + pipeline_run(spec_next_step(step, outcomes[0]), outcomes.drop_first())
    }
}

/// Cleanup waits for delivery: a run for an eligible path reaches the deletion of the
/// original exactly when encryption and then the upload reported success, and a failed
/// upload ends the run with the original kept.
pub proof fn lemma_delete_only_after_upload(outcomes: Seq<bool>)
    ensures
        pipeline_run(PipelineStep::Encrypt, outcomes).contains(PipelineStep::DeleteOriginal)
            <==> (outcomes.len() >= 2 && outcomes[0] && outcomes[1]),
        outcomes.len() >= 2 && outcomes[0] && !outcomes[1] ==> pipeline_run(PipelineStep::Encrypt, outcomes)
            == seq![PipelineStep::Encrypt, PipelineStep::Upload, PipelineStep::Finished(Outcome::UploadFailed)],
{
    let run = pipeline_run(PipelineStep::Encrypt, outcomes);
    if outcomes.len() == 0 {
        assert(run =~= seq![PipelineStep::Encrypt]);
    } else if !outcomes[0] {
        let r1 = pipeline_run(PipelineStep::Finished(Outcome::EncryptionFailed), outcomes.drop_first());
        assert(r1 =~= seq![PipelineStep::Finished(Outcome::EncryptionFailed)]);
        assert(run =~= seq![PipelineStep::Encrypt, PipelineStep::Finished(Outcome::EncryptionFailed)]);
        assert(run[0] != PipelineStep::DeleteOriginal && run[1] != PipelineStep::DeleteOriginal);
    } else {
        let o1 = outcomes.drop_first();
        let r1 = pipeline_run(PipelineStep::Upload, o1);
        if o1.len() == 0 {
            assert(r1 =~= seq![PipelineStep::Upload]);
            assert(run =~= seq![PipelineStep::Encrypt, PipelineStep::Upload]);
            assert(run[0] != PipelineStep::DeleteOriginal && run[1] != PipelineStep::DeleteOriginal);
        } else if !o1[0] {
            let r2 = pipeline_run(PipelineStep::Finished(Outcome::UploadFailed), o1.drop_first());
            assert(r2 =~= seq![PipelineStep::Finished(Outcome::UploadFailed)]);
            assert(run =~= seq![PipelineStep::Encrypt, PipelineStep::Upload, PipelineStep::Finished(Outcome::UploadFailed)]);
            assert(run[0] != PipelineStep::DeleteOriginal && run[1] != PipelineStep::DeleteOriginal
                && run[2] != PipelineStep::DeleteOriginal);
        } else {
            let r2 = pipeline_run(PipelineStep::DeleteOriginal, o1.drop_first());
            assert(r2[0] == PipelineStep::DeleteOriginal);
            assert(run[2] == PipelineStep::DeleteOriginal);
        }
    }
}

} // verus!
