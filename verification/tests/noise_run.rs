use dejavu_similarity_api::noise_removal::{
    FfmpegExit, NoiseRemovalAction, NoiseRemovalConfig, NoiseRemovalEvent, NoiseRemovalRun, NoiseRemovalService,
    NoiseRemovalStage,
};

fn advance(run: NoiseRemovalRun, service: &NoiseRemovalService, event: NoiseRemovalEvent) -> (NoiseRemovalRun, NoiseRemovalAction) {
    assert!(run.accepts(&event));
    run.step(service, event)
}

fn finished(action: NoiseRemovalAction) -> Result<String, String> {
    match action {
        NoiseRemovalAction::Finish(r) => r.map_err(|e| e.message()),
        _ => panic!("the run should have ended"),
    }
}

fn ffmpeg_args(action: NoiseRemovalAction) -> Vec<String> {
    match action {
        NoiseRemovalAction::RunFfmpeg(args) => args,
        _ => panic!("the run should start FFmpeg"),
    }
}

fn exit(success: bool, stderr: &str) -> NoiseRemovalEvent {
    NoiseRemovalEvent::FfmpegRan(Ok(FfmpegExit { success, stderr: stderr.to_string() }))
}

/// Runs a basic cleaning of `/in/a.wav` up to the FFmpeg command.
fn basic_to_cleaning(service: &NoiseRemovalService) -> (NoiseRemovalRun, String, Vec<String>) {
    let (run, first) = NoiseRemovalRun::basic("/in/a.wav".to_string(), None, false);
    assert!(matches!(first, NoiseRemovalAction::CheckInput(ref p) if p == "/in/a.wav"));
    let (run, action) = advance(run, service, NoiseRemovalEvent::InputChecked(true));
    assert!(matches!(action, NoiseRemovalAction::CreateDir(ref d) if d == "/tmp"));
    let output = match &run.stage {
        NoiseRemovalStage::CreatingDir { output, profile: None } => output.clone(),
        _ => panic!("the run should wait for the directory"),
    };
    let (run, action) = advance(run, service, NoiseRemovalEvent::DirCreated(Ok(())));
    (run, output, ffmpeg_args(action))
}

#[test]
fn basic_run_missing_input() {
    let service = NoiseRemovalService::new(None, None);
    let (run, _) = NoiseRemovalRun::basic("/nope/a.wav".to_string(), None, false);
    let (run, action) = advance(run, &service, NoiseRemovalEvent::InputChecked(false));
    assert_eq!(finished(action), Err("Input file not found: /nope/a.wav".to_string()));
    assert!(matches!(run.stage, NoiseRemovalStage::Done));
    assert!(!run.accepts(&NoiseRemovalEvent::FileRemoved));
}

#[test]
fn basic_run_succeeds() {
    let service = NoiseRemovalService::new(None, None);
    let (run, output, args) = basic_to_cleaning(&service);
    assert!(output.starts_with("/tmp/a_cleaned_"));
    assert!(output.ends_with(".wav"));
    assert_eq!(
        args,
        vec!["-i", "/in/a.wav", "-af", "highpass=f=200,lowpass=f=3000,afftdn=nf=-21,volume=2.0", "-ar", "16000", "-ac", "1", "-y", output.as_str()]
    );
    let (_, action) = advance(run, &service, exit(true, ""));
    assert_eq!(finished(action), Ok(output));
}

#[test]
fn basic_run_uses_given_settings() {
    let service = NoiseRemovalService::new(None, None);
    let config = NoiseRemovalConfig { noise_reduction_percent: 30, sample_rate: 8000, highpass_freq: 100, lowpass_freq: 4000 };
    let (run, _) = NoiseRemovalRun::basic("/in/a.wav".to_string(), Some(config), true);
    let (run, _) = advance(run, &service, NoiseRemovalEvent::InputChecked(true));
    let (_, action) = advance(run, &service, NoiseRemovalEvent::DirCreated(Ok(())));
    let args = ffmpeg_args(action);
    assert_eq!(args[3], "highpass=f=100,lowpass=f=4000,afftdn=nf=-30,volume=1.5,loudnorm=I=-16:TP=-1.5:LRA=11");
    assert_eq!(args[5], "8000");
}

#[test]
fn basic_run_failures() {
    let service = NoiseRemovalService::new(None, None);
    let (run, _, _) = basic_to_cleaning(&service);
    let (_, action) = advance(run, &service, exit(false, "bad input"));
    assert_eq!(finished(action), Err("Noise removal failed: bad input".to_string()));

    let (run, _, _) = basic_to_cleaning(&service);
    let (_, action) = advance(run, &service, NoiseRemovalEvent::FfmpegRan(Err("not found".to_string())));
    assert_eq!(finished(action), Err("Failed to execute FFmpeg: not found. Make sure FFmpeg is installed.".to_string()));

    let (run, _) = NoiseRemovalRun::basic("/in/a.wav".to_string(), None, false);
    let (run, _) = advance(run, &service, NoiseRemovalEvent::InputChecked(true));
    let (_, action) = advance(run, &service, NoiseRemovalEvent::DirCreated(Err("Permission denied".to_string())));
    assert_eq!(finished(action), Err("Permission denied".to_string()));

    let (run, _) = NoiseRemovalRun::basic("/".to_string(), None, false);
    let (_, action) = advance(run, &service, NoiseRemovalEvent::InputChecked(true));
    assert_eq!(finished(action), Err("Invalid filename".to_string()));
}

/// Runs an advanced cleaning of `/in/b.mp3` up to the cleaning command.
fn advanced_to_cleaning(service: &NoiseRemovalService) -> (NoiseRemovalRun, String, String) {
    let (run, first) = NoiseRemovalRun::advanced("/in/b.mp3".to_string(), "5".to_string(), false);
    assert!(matches!(first, NoiseRemovalAction::CheckInput(ref p) if p == "/in/b.mp3"));
    let (run, action) = advance(run, service, NoiseRemovalEvent::InputChecked(true));
    assert!(matches!(action, NoiseRemovalAction::CreateDir(ref d) if d == "/tmp"));
    let (output, profile) = match &run.stage {
        NoiseRemovalStage::CreatingDir { output, profile: Some(p) } => (output.clone(), p.clone()),
        _ => panic!("the run should wait for the directory"),
    };
    assert!(output.starts_with("/tmp/b_cleaned_") && output.ends_with(".mp3"));
    assert!(profile.starts_with("/tmp/b_noise_profile_") && profile.ends_with(".prof"));
    let (run, action) = advance(run, service, NoiseRemovalEvent::DirCreated(Ok(())));
    assert_eq!(
        ffmpeg_args(action),
        vec!["-i", "/in/b.mp3", "-t", "5", "-af", "arnndn=m=/usr/local/share/rnnoise/rnnoise.rnnn", "-f", "null", "-"]
    );
    // What became of the profile command does not matter.
    let (run, action) = advance(run, service, NoiseRemovalEvent::FfmpegRan(Err("gone".to_string())));
    let args = ffmpeg_args(action);
    assert_eq!(args[3], "highpass=f=200,lowpass=f=3000,afftdn=nf=-25,arnndn=m=/usr/local/share/rnnoise/rnnoise.rnnn:mix=0.8,volume=2.0,loudnorm=I=-16:TP=-1.5:LRA=11");
    assert_eq!(args[9], output);
    (run, output, profile)
}

#[test]
fn advanced_run_succeeds_and_removes_profile() {
    let service = NoiseRemovalService::new(None, None);
    let (run, output, profile) = advanced_to_cleaning(&service);
    let (run, action) = advance(run, &service, exit(true, ""));
    assert!(matches!(action, NoiseRemovalAction::RemoveFile(ref p) if *p == profile));
    let (_, action) = advance(run, &service, NoiseRemovalEvent::FileRemoved);
    assert_eq!(finished(action), Ok(output));
}

#[test]
fn advanced_run_falls_back_to_basic() {
    let service = NoiseRemovalService::new(None, None);
    let (run, _, _) = advanced_to_cleaning(&service);
    let (run, action) = advance(run, &service, exit(false, "no model"));
    assert!(matches!(action, NoiseRemovalAction::CheckInput(ref p) if p == "/in/b.mp3"));
    assert!(run.profile_seconds.is_none());
    assert_eq!(run.config.noise_reduction_percent, 21);
    let (run, _) = advance(run, &service, NoiseRemovalEvent::InputChecked(true));
    assert!(matches!(run.stage, NoiseRemovalStage::CreatingDir { profile: None, .. }));
    let (run, action) = advance(run, &service, NoiseRemovalEvent::DirCreated(Ok(())));
    assert_eq!(ffmpeg_args(action)[3], "highpass=f=200,lowpass=f=3000,afftdn=nf=-21,volume=2.0");
    // A failing basic chain ends the run: it falls back only once.
    let (_, action) = advance(run, &service, exit(false, "still bad"));
    assert_eq!(finished(action), Err("Noise removal failed: still bad".to_string()));
}

#[test]
fn advanced_run_that_cannot_start_stops() {
    let service = NoiseRemovalService::new(None, None);
    let (run, _, _) = advanced_to_cleaning(&service);
    let (_, action) = advance(run, &service, NoiseRemovalEvent::FfmpegRan(Err("not found".to_string())));
    assert_eq!(finished(action), Err("Failed to execute FFmpeg: not found".to_string()));
}
