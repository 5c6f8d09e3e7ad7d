use dejavu_similarity_api::noise_removal::{loudnorm_requested, NoiseRemovalConfig, NoiseRemovalError, NoiseRemovalService};

#[test]
fn test_default_config() {
    let config = NoiseRemovalConfig::default();
    // The noise reduction level 0.21 reaches FFmpeg as a noise floor of 21 dB.
    assert_eq!(config.noise_reduction_percent, 21);
    assert_eq!(config.sample_rate, 16000);
    assert_eq!(config.highpass_freq, 200);
    assert_eq!(config.lowpass_freq, 3000);
}

#[test]
fn test_filter_chain_generation() {
    let service = NoiseRemovalService::new(None, None);
    let config = NoiseRemovalConfig::default();
    let filter = service.build_filter_chain(&config, false);

    assert!(filter.contains("highpass=f=200"));
    assert!(filter.contains("lowpass=f=3000"));
    assert!(filter.contains("afftdn"));
}

#[test]
fn filter_chain_exact_fast() {
    let service = NoiseRemovalService::new(None, None);
    let config = NoiseRemovalConfig::default();
    assert_eq!(
        service.build_filter_chain(&config, false),
        "highpass=f=200,lowpass=f=3000,afftdn=nf=-21,volume=2.0"
    );
}

#[test]
fn filter_chain_exact_loudnorm() {
    let service = NoiseRemovalService::new(None, None);
    let config = NoiseRemovalConfig {
        noise_reduction_percent: 35,
        sample_rate: 8000,
        highpass_freq: 100,
        lowpass_freq: 4000,
    };
    assert_eq!(
        service.build_filter_chain(&config, true),
        "highpass=f=100,lowpass=f=4000,afftdn=nf=-35,volume=1.5,loudnorm=I=-16:TP=-1.5:LRA=11"
    );
}

#[test]
fn filter_chain_negative_floor() {
    let service = NoiseRemovalService::new(None, None);
    let config = NoiseRemovalConfig {
        noise_reduction_percent: -5,
        sample_rate: 16000,
        highpass_freq: 200,
        lowpass_freq: 3000,
    };
    assert!(service.build_filter_chain(&config, false).contains("afftdn=nf=--5,"));
}

#[test]
fn service_defaults_and_overrides() {
    let service = NoiseRemovalService::new(None, None);
    assert_eq!(service.ffmpeg_path(), "ffmpeg");
    assert_eq!(service.temp_dir(), "/tmp");
    let custom = NoiseRemovalService::new(Some("/usr/bin/ffmpeg".to_string()), Some("/var/tmp".to_string()));
    assert_eq!(custom.ffmpeg_path(), "/usr/bin/ffmpeg");
    assert_eq!(custom.temp_dir(), "/var/tmp");
}

#[test]
fn cleaning_command_arguments() {
    let service = NoiseRemovalService::new(None, None);
    let config = NoiseRemovalConfig::default();
    let args = service.cleaning_command_args("/in/a.mp3", &config, false, "/tmp/a_cleaned_1.mp3");
    assert_eq!(
        args,
        vec![
            "-i",
            "/in/a.mp3",
            "-af",
            "highpass=f=200,lowpass=f=3000,afftdn=nf=-21,volume=2.0",
            "-ar",
            "16000",
            "-ac",
            "1",
            "-y",
            "/tmp/a_cleaned_1.mp3"
        ]
    );
}

#[test]
fn advanced_command_arguments() {
    let service = NoiseRemovalService::new(None, None);
    let args = service.advanced_command_args("in.wav", "out.wav");
    assert_eq!(args.len(), 10);
    assert_eq!(args[3], "highpass=f=200,lowpass=f=3000,afftdn=nf=-25,arnndn=m=/usr/local/share/rnnoise/rnnoise.rnnn:mix=0.8,volume=2.0,loudnorm=I=-16:TP=-1.5:LRA=11");
    assert_eq!(args[5], "16000");
}

#[test]
fn loudnorm_setting_is_case_insensitive() {
    assert!(!loudnorm_requested(None));
    assert!(loudnorm_requested(Some("true".to_string())));
    assert!(loudnorm_requested(Some("TRUE".to_string())));
    assert!(loudnorm_requested(Some("True".to_string())));
    assert!(!loudnorm_requested(Some("yes".to_string())));
    assert!(!loudnorm_requested(Some(" true".to_string())));
}

#[test]
fn temp_path_prefix() {
    let service = NoiseRemovalService::new(None, None);
    assert!(service.is_temp_path("/tmp/a_cleaned_1.wav"));
    assert!(service.is_temp_path("/tmp"));
    assert!(!service.is_temp_path("/var/tmp/a.wav"));
    assert!(!service.is_temp_path("/tm"));
}

#[test]
fn output_path_from_input_name() {
    let service = NoiseRemovalService::new(None, None);
    assert_eq!(service.output_path_at("/data/song.mp3", 1700000000123).ok().unwrap(), "/tmp/song_cleaned_1700000000123.mp3");
    assert_eq!(service.output_path_at("/data/voice", 7).ok().unwrap(), "/tmp/voice_cleaned_7.wav");
    assert_eq!(service.output_path_at("archive.tar.gz", -3).ok().unwrap(), "/tmp/archive.tar_cleaned_-3.gz");
    let custom = NoiseRemovalService::new(None, Some("/work/".to_string()));
    assert_eq!(custom.output_path_at("x.ogg", 0).ok().unwrap(), "/work/x_cleaned_0.ogg");
}

#[test]
fn output_path_without_file_name() {
    let service = NoiseRemovalService::new(None, None);
    match service.output_path_at("/", 1) {
        Err(e) => assert_eq!(e.message(), "Invalid filename"),
        Ok(_) => panic!("a root path names no file"),
    }
    match service.output_path_at("/data/..", 1) {
        Err(e) => assert_eq!(e.message(), "Invalid filename"),
        Ok(_) => panic!("a parent reference names no file"),
    }
}

#[test]
fn profile_path_from_input_name() {
    let service = NoiseRemovalService::new(None, None);
    assert_eq!(service.profile_path_at("/data/song.mp3", 42).ok().unwrap(), "/tmp/song_noise_profile_42.prof");
}

#[test]
fn generated_paths_use_current_time() {
    let service = NoiseRemovalService::new(None, None);
    let p = service.generate_output_path("/data/clip.flac").ok().unwrap();
    assert!(p.starts_with("/tmp/clip_cleaned_"));
    assert!(p.ends_with(".flac"));
    let q = service.generate_noise_profile_path("/data/clip.flac").ok().unwrap();
    assert!(q.starts_with("/tmp/clip_noise_profile_"));
    assert!(q.ends_with(".prof"));
}

#[test]
fn noise_removal_error_messages() {
    assert_eq!(NoiseRemovalError::InputNotFound("/x.wav".to_string()).message(), "Input file not found: /x.wav");
    assert_eq!(NoiseRemovalError::InvalidFilename.message(), "Invalid filename");
    assert_eq!(NoiseRemovalError::OutputPath.message(), "Failed to create output path");
    assert_eq!(NoiseRemovalError::ProfilePath.message(), "Failed to create profile path");
    assert_eq!(
        NoiseRemovalError::Launch("No such file or directory".to_string()).message(),
        "Failed to execute FFmpeg: No such file or directory. Make sure FFmpeg is installed."
    );
    assert_eq!(NoiseRemovalError::Failed("bad input".to_string()).message(), "Noise removal failed: bad input");
    assert_eq!(NoiseRemovalError::Io("disk full".to_string()).message(), "disk full");
}

#[test]
fn clock_out_of_range_message() {
    assert_eq!(NoiseRemovalError::ClockOutOfRange.message(), "System time out of range");
}
