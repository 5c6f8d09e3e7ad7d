use dejavu_similarity_api::job::{JobAction, JobEvent, JobStage, TranscriptionJob};
use dejavu_similarity_api::transcription::{assemble_transcription, TranscriptionResult};

fn result() -> TranscriptionResult {
    assemble_transcription("j", " ok ", String::new(), String::new(), String::new(), String::new(), 1, 0, None)
}

/// Drives a job through `events`, returning the actions and counting published updates.
fn run(mut job: TranscriptionJob, events: Vec<JobEvent>) -> (TranscriptionJob, Vec<JobAction>) {
    let mut actions = Vec::new();
    for e in events {
        assert!(job.accepts(&e));
        let (next, action) = job.step(e);
        job = next;
        actions.push(action);
    }
    (job, actions)
}

fn publishes(actions: &[JobAction]) -> usize {
    actions.iter().filter(|a| matches!(a, JobAction::Publish(_))).count()
}

#[test]
fn successful_job_with_noise_removal() {
    let job = TranscriptionJob::new("j".to_string(), true, Some("large".to_string()));
    let (job, actions) = run(
        job,
        vec![
            JobEvent::Begin,
            JobEvent::TempFileCreated(Ok("/tmp/up".to_string())),
            JobEvent::FileWritten(Ok(())),
            JobEvent::NoiseRemoved(Ok("/tmp/up_cleaned_1.wav".to_string())),
            JobEvent::Transcribed(Ok(result())),
            JobEvent::Published,
            JobEvent::FileRemoved,
        ],
    );
    assert!(matches!(job.stage, JobStage::Finished));
    assert!(matches!(actions[0], JobAction::CreateTempFile));
    assert!(matches!(&actions[1], JobAction::WriteFile(p) if p == "/tmp/up"));
    assert!(matches!(&actions[2], JobAction::RemoveNoise(p) if p == "/tmp/up"));
    match &actions[3] {
        JobAction::Transcribe { audio_path, model_type } => {
            assert_eq!(audio_path, "/tmp/up_cleaned_1.wav");
            assert_eq!(model_type.as_deref(), Some("large"));
        }
        _ => panic!(),
    }
    match &actions[4] {
        JobAction::Publish(u) => {
            assert_eq!(u.uuid, "j");
            assert_eq!(u.status, "completed");
            assert_eq!(u.progress, 100);
            assert_eq!(u.message, "Similarity completed successfully");
            assert_eq!(u.result.as_ref().unwrap().transcription, "ok");
            assert_eq!(u.error, None);
        }
        _ => panic!(),
    }
    assert!(matches!(&actions[5], JobAction::RemoveFile(p) if p == "/tmp/up_cleaned_1.wav"));
    assert!(matches!(actions[6], JobAction::Finish));
    assert_eq!(publishes(&actions), 1);
}

#[test]
fn noise_removal_failure_falls_back() {
    let job = TranscriptionJob::new("j".to_string(), true, None);
    let (job, actions) = run(
        job,
        vec![
            JobEvent::Begin,
            JobEvent::TempFileCreated(Ok("/tmp/up".to_string())),
            JobEvent::FileWritten(Ok(())),
            JobEvent::NoiseRemoved(Err("ffmpeg missing".to_string())),
            JobEvent::Transcribed(Err("WhisperX down".to_string())),
            JobEvent::Published,
        ],
    );
    assert!(matches!(job.stage, JobStage::Finished));
    assert!(matches!(&actions[3], JobAction::Transcribe { audio_path, .. } if audio_path == "/tmp/up"));
    match &actions[4] {
        JobAction::Publish(u) => {
            assert_eq!(u.status, "failed");
            assert_eq!(u.progress, 0);
            assert_eq!(u.message, "Transcription failed");
            assert_eq!(u.error.as_deref(), Some("WhisperX down"));
            assert!(u.result.is_none());
        }
        _ => panic!(),
    }
    assert!(matches!(actions[5], JobAction::Finish));
    assert_eq!(publishes(&actions), 1);
}

#[test]
fn job_without_noise_removal() {
    let job = TranscriptionJob::new("j".to_string(), false, None);
    let (_, actions) = run(
        job,
        vec![JobEvent::Begin, JobEvent::TempFileCreated(Ok("/tmp/up".to_string())), JobEvent::FileWritten(Ok(()))],
    );
    assert!(matches!(&actions[2], JobAction::Transcribe { audio_path, .. } if audio_path == "/tmp/up"));
}

#[test]
fn early_failures() {
    let (job, actions) = run(
        TranscriptionJob::new("j".to_string(), true, None),
        vec![JobEvent::Begin, JobEvent::TempFileCreated(Err("no space".to_string())), JobEvent::Published],
    );
    assert!(matches!(job.stage, JobStage::Finished));
    match &actions[1] {
        JobAction::Publish(u) => {
            assert_eq!(u.message, "Failed to create temporary file");
            assert_eq!(u.error.as_deref(), Some("no space"));
        }
        _ => panic!(),
    }
    let (_, actions) = run(
        TranscriptionJob::new("j".to_string(), true, None),
        vec![
            JobEvent::Begin,
            JobEvent::TempFileCreated(Ok("/tmp/up".to_string())),
            JobEvent::FileWritten(Err("io".to_string())),
            JobEvent::Published,
        ],
    );
    match &actions[2] {
        JobAction::Publish(u) => assert_eq!(u.message, "Failed to write file"),
        _ => panic!(),
    }
    assert_eq!(publishes(&actions), 1);
}

#[test]
fn unexpected_events_are_refused() {
    let job = TranscriptionJob::new("j".to_string(), true, None);
    assert!(!job.accepts(&JobEvent::Published));
    assert!(job.accepts(&JobEvent::Begin));
}
