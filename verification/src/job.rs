//! The background transcription job as a state machine: each event the outside world
//! reports (a file created, a command run, a service answered) yields the next stage and
//! the next action to perform, down to the single status update the job publishes.

use vstd::prelude::*;
use crate::text::str_eq;
use crate::transcription::{TranscriptionResult, TranscriptionStatusUpdate};

verus! {

/// Where a job stands. `temp` is the uploaded audio written to a temporary file, `audio`
/// the file that is transcribed (the cleaned file when noise removal succeeded).
pub enum JobStage {
    Created,
    CreatingTempFile,
    WritingFile { temp: String },
    RemovingNoise { temp: String },
    Transcribing { temp: String, audio: String },
    Publishing { cleanup: Option<String> },
    RemovingCleaned,
    Finished,
}

/// A transcription job of one upload.
pub struct TranscriptionJob {
    pub uuid: String,
    pub apply_noise_removal: bool,
    pub model_type: Option<String>,
    pub stage: JobStage,
}

/// What the outside world reports back to the job.
pub enum JobEvent {
    /// The job is started.
    Begin,
    /// The temporary file was created (its path) or could not be (the error).
    TempFileCreated(Result<String, String>),
    /// The upload was written to the temporary file, or could not be.
    FileWritten(Result<(), String>),
    /// Noise removal produced a cleaned file (its path), or failed.
    NoiseRemoved(Result<String, String>),
    /// The transcription finished or failed.
    Transcribed(Result<TranscriptionResult, String>),
    /// The status update was published.
    Published,
    /// The cleaned file was removed.
    FileRemoved,
}

/// What the job asks the outside world to do next.
pub enum JobAction {
    CreateTempFile,
    WriteFile(String),
    RemoveNoise(String),
    Transcribe { audio_path: String, model_type: Option<String> },
    Publish(TranscriptionStatusUpdate),
    RemoveFile(String),
    Finish,
}

/// The event that a job in `stage` waits for.
pub open spec fn expects(stage: JobStage, event: JobEvent) -> bool {
    match (stage, event) {
        (JobStage::Created, JobEvent::Begin) => true,
        (JobStage::CreatingTempFile, JobEvent::TempFileCreated(_)) => true,
        (JobStage::WritingFile { .. }, JobEvent::FileWritten(_)) => true,
        (JobStage::RemovingNoise { .. }, JobEvent::NoiseRemoved(_)) => true,
        (JobStage::Transcribing { .. }, JobEvent::Transcribed(_)) => true,
        (JobStage::Publishing { .. }, JobEvent::Published) => true,
        (JobStage::RemovingCleaned, JobEvent::FileRemoved) => true,
        _ => false,
    }
}

/// `event` reports the outcome of the work that `action` asks for.
pub open spec fn reports_on(action: JobAction, event: JobEvent) -> bool {
    match (action, event) {
        (JobAction::CreateTempFile, JobEvent::TempFileCreated(_)) => true,
        (JobAction::WriteFile(_), JobEvent::FileWritten(_)) => true,
        (JobAction::RemoveNoise(_), JobEvent::NoiseRemoved(_)) => true,
        (JobAction::Transcribe { .. }, JobEvent::Transcribed(_)) => true,
        (JobAction::Publish(_), JobEvent::Published) => true,
        (JobAction::RemoveFile(_), JobEvent::FileRemoved) => true,
        _ => false,
    }
}

/// The stage a job reaches when `event` arrives.
pub open spec fn stage_after(job: TranscriptionJob, event: JobEvent) -> JobStage {
    match (job.stage, event) {
        (JobStage::Created, JobEvent::Begin) => JobStage::CreatingTempFile,
        (JobStage::CreatingTempFile, JobEvent::TempFileCreated(Ok(p))) => JobStage::WritingFile {
            temp: p,
        },
        (JobStage::CreatingTempFile, JobEvent::TempFileCreated(Err(_))) => JobStage::Publishing {
            cleanup: None,
        },
        (JobStage::WritingFile { temp }, JobEvent::FileWritten(Ok(_))) => if job.apply_noise_removal {
            JobStage::RemovingNoise { temp }
        } else {
            JobStage::Transcribing { temp, audio: temp }
        },
        (JobStage::WritingFile { .. }, JobEvent::FileWritten(Err(_))) => JobStage::Publishing {
            cleanup: None,
        },
        (JobStage::RemovingNoise { temp }, JobEvent::NoiseRemoved(Ok(p))) => JobStage::Transcribing {
            temp,
            audio: p,
        },
        (JobStage::RemovingNoise { temp }, JobEvent::NoiseRemoved(Err(_))) => JobStage::Transcribing {
            temp,
            audio: temp,
        },
        (JobStage::Transcribing { temp, audio }, JobEvent::Transcribed(_)) => JobStage::Publishing {
            cleanup: if audio@ != temp@ {
                Some(audio)
            } else {
                None
            },
        },
        (JobStage::Publishing { cleanup: Some(_) }, JobEvent::Published) => JobStage::RemovingCleaned,
        (JobStage::Publishing { cleanup: None }, JobEvent::Published) => JobStage::Finished,
        (JobStage::RemovingCleaned, JobEvent::FileRemoved) => JobStage::Finished,
        (s, _) => s,
    }
}

/// The steps on which the job publishes its status update.
pub open spec fn step_publishes(stage: JobStage, event: JobEvent) -> bool {
    match (stage, event) {
        (JobStage::CreatingTempFile, JobEvent::TempFileCreated(Err(_))) => true,
        (JobStage::WritingFile { .. }, JobEvent::FileWritten(Err(_))) => true,
        (JobStage::Transcribing { .. }, JobEvent::Transcribed(_)) => true,
        _ => false,
    }
}

/// `a` publishes a failure update of job `uuid` with `message` and `error`.
pub open spec fn is_failure_update(a: JobAction, uuid: String, message: Seq<char>, error: String)
    -> bool {
    a matches JobAction::Publish(u) && u.uuid == uuid && u.status@ == "failed"@ && u.progress == 0
        && u.message@ == message && u.result is None && u.error == Some(error)
}

/// `a` publishes the completion of job `uuid` with `result`.
pub open spec fn is_completion_update(a: JobAction, uuid: String, result: TranscriptionResult)
    -> bool {
    a matches JobAction::Publish(u) && u.uuid == uuid && u.status@ == "completed"@ && u.progress
        == 100 && u.message@ == "Similarity completed successfully"@ && u.result == Some(result)
        && u.error is None
}

/// The update that reports a failed job.
pub fn failed_update(uuid: String, message: &str, error: String) -> (r: TranscriptionStatusUpdate)
    ensures
        r.uuid == uuid,
        r.status@ == "failed"@,
        r.progress == 0,
        r.message@ == message@,
        r.result is None,
        r.error == Some(error),
{
    TranscriptionStatusUpdate {
        uuid,
        status: String::from_str("failed"),
        progress: 0,
        message: String::from_str(message),
        result: None,
        error: Some(error),
    }
}

/// The update that reports a finished job.
pub fn completed_update(uuid: String, result: TranscriptionResult) -> (r:
    TranscriptionStatusUpdate)
    ensures
        r.uuid == uuid,
        r.status@ == "completed"@,
        r.progress == 100,
        r.message@ == "Similarity completed successfully"@,
        r.result == Some(result),
        r.error is None,
{
    TranscriptionStatusUpdate {
        uuid,
        status: String::from_str("completed"),
        progress: 100,
        message: String::from_str("Similarity completed successfully"),
        result: Some(result),
        error: None,
    }
}

fn clone_option_string(o: &Option<String>) -> (r: Option<String>)
    ensures
        r == *o,
{
    match o {
        Some(s) => Some(s.clone()),
        None => None,
    }
}

impl TranscriptionJob {
    /// A job for an accepted upload, not yet started.
    pub fn new(uuid: String, apply_noise_removal: bool, model_type: Option<String>) -> (r: Self)
        ensures
            r.uuid == uuid,
            r.apply_noise_removal == apply_noise_removal,
            r.model_type == model_type,
            r.stage is Created,
    {
        TranscriptionJob { uuid, apply_noise_removal, model_type, stage: JobStage::Created }
    }

    /// Whether the job waits for `event`.
    pub fn accepts(&self, event: &JobEvent) -> (r: bool)
        ensures
            r == expects(self.stage, *event),
    {
        match (&self.stage, event) {
            (JobStage::Created, JobEvent::Begin) => true,
            (JobStage::CreatingTempFile, JobEvent::TempFileCreated(_)) => true,
            (JobStage::WritingFile { .. }, JobEvent::FileWritten(_)) => true,
            (JobStage::RemovingNoise { .. }, JobEvent::NoiseRemoved(_)) => true,
            (JobStage::Transcribing { .. }, JobEvent::Transcribed(_)) => true,
            (JobStage::Publishing { .. }, JobEvent::Published) => true,
            (JobStage::RemovingCleaned, JobEvent::FileRemoved) => true,
            _ => false,
        }
    }

    /// Takes in the event the job waits for and gives the job's next state and action.
    pub fn step(self, event: JobEvent) -> (r: (TranscriptionJob, JobAction))
        requires
            expects(self.stage, event),
        ensures
            r.0.uuid == self.uuid,
            r.0.apply_noise_removal == self.apply_noise_removal,
            r.0.model_type == self.model_type,
            r.0.stage == stage_after(self, event),
            (r.1 is Publish) == step_publishes(self.stage, event),
            (r.1 is Finish) == (r.0.stage is Finished),
            forall|e: JobEvent| #[trigger] reports_on(r.1, e) ==> expects(r.0.stage, e),
            match (self.stage, event) {
                (JobStage::Created, JobEvent::Begin) => r.1 is CreateTempFile,
                (JobStage::CreatingTempFile, JobEvent::TempFileCreated(Ok(p))) => r.1
                    == JobAction::WriteFile(p),
                (JobStage::CreatingTempFile, JobEvent::TempFileCreated(Err(e))) => is_failure_update(
                    r.1,
                    self.uuid,
                    "Failed to create temporary file"@,
                    e,
                ),
                (JobStage::WritingFile { temp }, JobEvent::FileWritten(Ok(_))) => if self.apply_noise_removal {
                    r.1 == JobAction::RemoveNoise(temp)
                } else {
                    r.1 == JobAction::Transcribe { audio_path: temp, model_type: self.model_type }
                },
                (JobStage::WritingFile { .. }, JobEvent::FileWritten(Err(e))) => is_failure_update(
                    r.1,
                    self.uuid,
                    "Failed to write file"@,
                    e,
                ),
                (JobStage::RemovingNoise { .. }, JobEvent::NoiseRemoved(Ok(p))) => r.1
                    == JobAction::Transcribe { audio_path: p, model_type: self.model_type },
                (JobStage::RemovingNoise { temp }, JobEvent::NoiseRemoved(Err(_))) => r.1
                    == JobAction::Transcribe { audio_path: temp, model_type: self.model_type },
                (JobStage::Transcribing { .. }, JobEvent::Transcribed(Ok(res))) => is_completion_update(
                    r.1,
                    self.uuid,
                    res,
                ),
                (JobStage::Transcribing { .. }, JobEvent::Transcribed(Err(e))) => is_failure_update(
                    r.1,
                    self.uuid,
                    "Transcription failed"@,
                    e,
                ),
                (JobStage::Publishing { cleanup: Some(p) }, JobEvent::Published) => r.1
                    == JobAction::RemoveFile(p),
                (JobStage::Publishing { cleanup: None }, JobEvent::Published) => r.1 is Finish,
                (JobStage::RemovingCleaned, JobEvent::FileRemoved) => r.1 is Finish,
                _ => false,
            },
    {
        let TranscriptionJob { uuid, apply_noise_removal, model_type, stage } = self;
        let (stage, action) = match (stage, event) {
            (JobStage::Created, JobEvent::Begin) => (
                JobStage::CreatingTempFile,
                JobAction::CreateTempFile,
            ),
            (JobStage::CreatingTempFile, JobEvent::TempFileCreated(Ok(p))) => (
                JobStage::WritingFile { temp: p.clone() },
                JobAction::WriteFile(p),
            ),
            (JobStage::CreatingTempFile, JobEvent::TempFileCreated(Err(e))) => (
                JobStage::Publishing { cleanup: None },
                JobAction::Publish(
                    failed_update(uuid.clone(), "Failed to create temporary file", e),
                ),
            ),
            (JobStage::WritingFile { temp }, JobEvent::FileWritten(Ok(_))) => {
                if apply_noise_removal {
                    (JobStage::RemovingNoise { temp: temp.clone() }, JobAction::RemoveNoise(temp))
                } else {
                    (
                        JobStage::Transcribing { temp: temp.clone(), audio: temp.clone() },
                        JobAction::Transcribe {
                            audio_path: temp,
                            model_type: clone_option_string(&model_type),
                        },
                    )
                }
            },
            (JobStage::WritingFile { .. }, JobEvent::FileWritten(Err(e))) => (
                JobStage::Publishing { cleanup: None },
                JobAction::Publish(failed_update(uuid.clone(), "Failed to write file", e)),
            ),
            (JobStage::RemovingNoise { temp }, JobEvent::NoiseRemoved(Ok(p))) => (
                JobStage::Transcribing { temp, audio: p.clone() },
                JobAction::Transcribe {
                    audio_path: p,
                    model_type: clone_option_string(&model_type),
                },
            ),
            (JobStage::RemovingNoise { temp }, JobEvent::NoiseRemoved(Err(_))) => (
                JobStage::Transcribing { temp: temp.clone(), audio: temp.clone() },
                JobAction::Transcribe {
                    audio_path: temp,
                    model_type: clone_option_string(&model_type),
                },
            ),
            (JobStage::Transcribing { temp, audio }, JobEvent::Transcribed(outcome)) => {
                let cleanup = if !str_eq(audio.as_str(), temp.as_str()) {
                    Some(audio)
                } else {
                    None
                };
                let update = match outcome {
                    Ok(res) => completed_update(uuid.clone(), res),
                    Err(e) => failed_update(uuid.clone(), "Transcription failed", e),
                };
                (JobStage::Publishing { cleanup }, JobAction::Publish(update))
            },
            (JobStage::Publishing { cleanup: Some(p) }, JobEvent::Published) => (
                JobStage::RemovingCleaned,
                JobAction::RemoveFile(p),
            ),
            (JobStage::Publishing { cleanup: None }, JobEvent::Published) => (
                JobStage::Finished,
                JobAction::Finish,
            ),
            (JobStage::RemovingCleaned, JobEvent::FileRemoved) => (
                JobStage::Finished,
                JobAction::Finish,
            ),
            (s, _) => (s, JobAction::Finish),
        };
        proof {
            reveal_strlit("Failed to create temporary file");
            reveal_strlit("Failed to write file");
            reveal_strlit("Transcription failed");
        }
        (TranscriptionJob { uuid, apply_noise_removal, model_type, stage }, action)
    }
}

// ---------------------------------------------------------------------------
// Runs of a job
// ---------------------------------------------------------------------------

/// The job after `event`.
pub open spec fn job_after(job: TranscriptionJob, event: JobEvent) -> TranscriptionJob {
    TranscriptionJob { stage: stage_after(job, event), ..job }
}

/// Every event of `events` is the one the job waits for when it arrives.
pub open spec fn accepts_all(job: TranscriptionJob, events: Seq<JobEvent>) -> bool
    decreases events.len(),
{
    events.len() == 0 || (expects(job.stage, events[0]) && accepts_all(
        job_after(job, events[0]),
        events.drop_first(),
    ))
}

/// The job after all of `events`.
pub open spec fn job_after_all(job: TranscriptionJob, events: Seq<JobEvent>) -> TranscriptionJob
    decreases events.len(),
{
    if events.len() == 0 {
        job
    } else {
        job_after_all(job_after(job, events[0]), events.drop_first())
    }
}

/// How many status updates the job publishes while `events` arrive.
pub open spec fn updates_published(job: TranscriptionJob, events: Seq<JobEvent>) -> nat
    decreases events.len(),
{
    if events.len() == 0 {
        0
    } else {
        (if step_publishes(job.stage, events[0]) {
            1nat
        } else {
            0nat
        }) + updates_published(job_after(job, events[0]), events.drop_first())
    }
}

/// The stages in which the job's update is already out.
pub open spec fn has_published(stage: JobStage) -> bool {
    stage is Publishing || stage is RemovingCleaned || stage is Finished
}

proof fn lemma_updates_track_stage(job: TranscriptionJob, events: Seq<JobEvent>)
    requires
        accepts_all(job, events),
    ensures
        updates_published(job, events) + (if has_published(job.stage) {
            1nat
        } else {
            0nat
        }) == (if has_published(job_after_all(job, events).stage) {
            1nat
        } else {
            0nat
        }),
    decreases events.len(),
{
    if events.len() > 0 {
        lemma_updates_track_stage(job_after(job, events[0]), events.drop_first());
    }
}

/// Each job publishes at most one status update, and a job that has finished has published
/// exactly one: whatever fails along the way, the client hears of the job once.
pub proof fn lemma_one_update_per_job(job: TranscriptionJob, events: Seq<JobEvent>)
    requires
        job.stage is Created,
        accepts_all(job, events),
    ensures
        updates_published(job, events) <= 1,
        job_after_all(job, events).stage is Finished ==> updates_published(job, events) == 1,
{
    lemma_updates_track_stage(job, events);
}

/// A job without noise removal transcribes its written file and, whatever the
/// transcription gives, publishes its update at the next step: the temporary file is what
/// is transcribed, and nothing is left to clean up.
pub proof fn lemma_written_file_is_transcribed_then_published(
    job: TranscriptionJob,
    written: Result<(), String>,
    outcome: Result<TranscriptionResult, String>,
)
    requires
        job.stage is WritingFile,
        !job.apply_noise_removal,
        written is Ok,
    ensures
        expects(stage_after(job, JobEvent::FileWritten(written)), JobEvent::Transcribed(outcome)),
        step_publishes(
            stage_after(job, JobEvent::FileWritten(written)),
            JobEvent::Transcribed(outcome),
        ),
        stage_after(job_after(job, JobEvent::FileWritten(written)), JobEvent::Transcribed(outcome))
            == (JobStage::Publishing { cleanup: None }),
{
}

/// A job whose noise removal gave a separate cleaned file transcribes that file, and once
/// its update is published removes it before finishing; the uploaded temporary file is
/// never the one removed.
pub proof fn lemma_cleaned_file_is_removed_after_publishing(
    job: TranscriptionJob,
    cleaned: String,
    outcome: Result<TranscriptionResult, String>,
)
    requires
        job.stage matches JobStage::RemovingNoise { temp } && cleaned@ != temp@,
    ensures
        ({
            let transcribing = job_after(job, JobEvent::NoiseRemoved(Ok(cleaned)));
            let publishing = job_after(transcribing, JobEvent::Transcribed(outcome));
            &&& transcribing.stage matches JobStage::Transcribing { audio, .. } && audio == cleaned
            &&& publishing.stage == (JobStage::Publishing { cleanup: Some(cleaned) })
            &&& stage_after(publishing, JobEvent::Published) is RemovingCleaned
        }),
{
}

} // verus!
