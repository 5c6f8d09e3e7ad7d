//! Noise removal with FFmpeg: the filter chain, the command line, the names of the files
//! it writes, the messages of its errors, and the course of a cleaning run. Checking files,
//! creating directories and running FFmpeg are left to the caller, who drives the run.

use vstd::prelude::*;
use crate::clock::{epoch_millis, millis_since_epoch, read_clock, ClockReading};
use crate::text::{concatenate, decimal, signed_decimal, i64_to_decimal, u64_to_decimal, starts_with, str_eq, to_lowercase, unicode_lowercase};

verus! {

/// Where FFmpeg is found and where cleaned files are written.
pub struct NoiseRemovalService {
    ffmpeg_path: String,
    temp_dir: String,
}

/// Filter settings. `noise_reduction_percent` is the noise floor that FFmpeg's `afftdn`
/// filter gets, in dB below zero.
pub struct NoiseRemovalConfig {
    pub noise_reduction_percent: i32,
    pub sample_rate: u32,
    pub highpass_freq: u32,
    pub lowpass_freq: u32,
}

impl Default for NoiseRemovalConfig {
    /// A noise floor of 21, 16 kHz output, and a 200–3000 Hz band.
    fn default() -> (r: Self)
        ensures
            r.noise_reduction_percent == 21,
            r.sample_rate == 16000,
            r.highpass_freq == 200,
            r.lowpass_freq == 3000,
    {
        NoiseRemovalConfig {
            noise_reduction_percent: 21,
            sample_rate: 16000,
            highpass_freq: 200,
            lowpass_freq: 3000,
        }
    }
}

/// What can go wrong while removing noise.
pub enum NoiseRemovalError {
    /// The input file does not exist.
    InputNotFound(String),
    /// The input path names no file.
    InvalidFilename,
    /// The cleaned file's path could not be formed.
    OutputPath,
    /// The noise profile's path could not be formed.
    ProfilePath,
    /// FFmpeg could not be started.
    Launch(String),
    /// FFmpeg could not be started for the advanced chain.
    Spawn(String),
    /// FFmpeg ran and failed; its error output.
    Failed(String),
    /// A file system operation failed.
    Io(String),
    /// The system clock reads a time whose milliseconds since the epoch do not fit in an
    /// `i64`, so no time stamp can be formed.
    ClockOutOfRange,
}

impl NoiseRemovalError {
    /// The text of the error.
    pub open spec fn text(&self) -> Seq<char> {
        match self {
            NoiseRemovalError::InputNotFound(p) => "Input file not found: "@ + p@,
            NoiseRemovalError::InvalidFilename => "Invalid filename"@,
            NoiseRemovalError::OutputPath => "Failed to create output path"@,
            NoiseRemovalError::ProfilePath => "Failed to create profile path"@,
            NoiseRemovalError::Launch(e) => "Failed to execute FFmpeg: "@ + e@
                + ". Make sure FFmpeg is installed."@,
            NoiseRemovalError::Spawn(e) => "Failed to execute FFmpeg: "@ + e@,
            NoiseRemovalError::Failed(e) => "Noise removal failed: "@ + e@,
            NoiseRemovalError::Io(e) => e@,
            NoiseRemovalError::ClockOutOfRange => "System time out of range"@,
        }
    }

    /// The error as text.
    pub fn message(&self) -> (r: String)
        ensures
            r@ == self.text(),
    {
        match self {
            NoiseRemovalError::InputNotFound(p) => concatenate("Input file not found: ", p.as_str()),
            NoiseRemovalError::InvalidFilename => String::from_str("Invalid filename"),
            NoiseRemovalError::OutputPath => String::from_str("Failed to create output path"),
            NoiseRemovalError::ProfilePath => String::from_str("Failed to create profile path"),
            NoiseRemovalError::Launch(e) => {
                let m = concatenate("Failed to execute FFmpeg: ", e.as_str());
                concatenate(m.as_str(), ". Make sure FFmpeg is installed.")
            },
            NoiseRemovalError::Spawn(e) => concatenate("Failed to execute FFmpeg: ", e.as_str()),
            NoiseRemovalError::Failed(e) => concatenate("Noise removal failed: ", e.as_str()),
            NoiseRemovalError::Io(e) => e.clone(),
            NoiseRemovalError::ClockOutOfRange => String::from_str("System time out of range"),
        }
    }
}

/// The filter chain for a configuration: a band-pass, FFT denoising at the configured
/// noise floor, then either a fixed gain of 2.0 or a gain of 1.5 with loudness normalization.
pub open spec fn filter_chain(config: NoiseRemovalConfig, use_loudnorm: bool) -> Seq<char> {
    let head = "highpass=f="@ + decimal(config.highpass_freq as nat) + ",lowpass=f="@ + decimal(
        config.lowpass_freq as nat,
    ) + ",afftdn=nf=-"@ + signed_decimal(config.noise_reduction_percent as int);
    if use_loudnorm {
        head + ",volume=1.5,loudnorm=I=-16:TP=-1.5:LRA=11"@
    } else {
        head + ",volume=2.0"@
    }
}

/// The value of the loudness setting, `"false"` when unset.
pub open spec fn loudnorm_setting(setting: Option<String>) -> Seq<char> {
    match setting {
        Some(s) => s@,
        None => "false"@,
    }
}

/// Whether the loudness-normalizing chain is wanted: the setting, lowercased, reads `true`.
pub fn loudnorm_requested(setting: Option<String>) -> (r: bool)
    ensures
        r == (unicode_lowercase(loudnorm_setting(setting)) == "true"@),
{
    let value = match setting {
        Some(s) => s,
        None => String::from_str("false"),
    };
    let lower = to_lowercase(value.as_str());
    str_eq(lower.as_str(), "true")
}

/// The arguments of the FFmpeg command that cleans `input_path` into `output_path`.
pub open spec fn cleaning_args(
    input_path: Seq<char>,
    filter: Seq<char>,
    sample_rate: u32,
    output_path: Seq<char>,
) -> Seq<Seq<char>> {
    seq![
        "-i"@,
        input_path,
        "-af"@,
        filter,
        "-ar"@,
        decimal(sample_rate as nat),
        "-ac"@,
        "1"@,
        "-y"@,
        output_path,
    ]
}

/// The characters of each string.
pub open spec fn strings_view(v: Seq<String>) -> Seq<Seq<char>> {
    v.map_values(|s: String| s@)
}

/// The filter chain of the advanced cleaning command.
pub open spec fn advanced_filter() -> Seq<char> {
    "highpass=f=200,lowpass=f=3000,afftdn=nf=-25,arnndn=m=/usr/local/share/rnnoise/rnnoise.rnnn:mix=0.8,volume=2.0,loudnorm=I=-16:TP=-1.5:LRA=11"@
}

/// The arguments of the noise-profile command for the first `seconds` of `input_path`.
pub open spec fn profile_args(input_path: Seq<char>, seconds: Seq<char>) -> Seq<Seq<char>> {
    seq![
        "-i"@,
        input_path,
        "-t"@,
        seconds,
        "-af"@,
        "arnndn=m=/usr/local/share/rnnoise/rnnoise.rnnn"@,
        "-f"@,
        "null"@,
        "-"@,
    ]
}

/// The name of what std's `Path::file_stem` gives for a path: the file name without its
/// extension, `None` when the path names no file.
pub uninterp spec fn file_stem_of(path: Seq<char>) -> Option<Seq<char>>;

/// The name of what std's `Path::extension` gives for a path.
pub uninterp spec fn extension_of(path: Seq<char>) -> Option<Seq<char>>;

/// The name of what std's `Path::join` gives for a directory and a file name, as text.
pub uninterp spec fn joined_path(dir: Seq<char>, name: Seq<char>) -> Option<Seq<char>>;

/// An optional string as optional characters.
pub open spec fn opt_view(o: Option<String>) -> Option<Seq<char>> {
    match o {
        Some(s) => Some(s@),
        None => None,
    }
}

/// The file name of `path` without its extension (std `Path::file_stem`, as UTF-8).
/// Trusted: a function of the path alone, named `file_stem_of`.
#[verifier::external_body]
fn path_file_stem(path: &str) -> (r: Option<String>)
    ensures
        opt_view(r) == file_stem_of(path@),
{
    let stem = std::path::Path::new(path).file_stem()?;
    Some(stem.to_str()?.to_string())
}

/// The extension of `path` (std `Path::extension`, as UTF-8).
/// Trusted: a function of the path alone, named `extension_of`.
#[verifier::external_body]
fn path_extension(path: &str) -> (r: Option<String>)
    ensures
        opt_view(r) == extension_of(path@),
{
    let extension = std::path::Path::new(path).extension()?;
    Some(extension.to_str()?.to_string())
}

/// `name` inside `dir` (std `PathBuf::join`, as UTF-8).
/// Trusted: a function of its arguments alone, named `joined_path`.
#[verifier::external_body]
fn path_join(dir: &str, name: &str) -> (r: Option<String>)
    ensures
        opt_view(r) == joined_path(dir@, name@),
{
    let joined = std::path::PathBuf::from(dir).join(name);
    Some(joined.to_str()?.to_string())
}

/// The name of a cleaned file: the input's stem, `_cleaned_`, the time stamp, and the
/// input's extension (`wav` when it has none).
pub open spec fn cleaned_name(stem: Seq<char>, timestamp: i64, extension: Option<Seq<char>>) -> Seq<
    char,
> {
    stem + "_cleaned_"@ + signed_decimal(timestamp as int) + "."@ + match extension {
        Some(e) => e,
        None => "wav"@,
    }
}

/// The name of a noise profile: the input's stem, `_noise_profile_`, the time stamp, `.prof`.
pub open spec fn profile_name(stem: Seq<char>, timestamp: i64) -> Seq<char> {
    stem + "_noise_profile_"@ + signed_decimal(timestamp as int) + ".prof"@
}

/// A path outcome with the path as characters.
pub open spec fn path_view(r: Result<String, NoiseRemovalError>) -> Result<
    Seq<char>,
    NoiseRemovalError,
> {
    match r {
        Ok(p) => Ok(p@),
        Err(e) => Err(e),
    }
}

impl NoiseRemovalService {
    /// The FFmpeg command.
    pub closed spec fn ffmpeg(&self) -> Seq<char> {
        self.ffmpeg_path@
    }

    /// The directory of temporary files.
    pub closed spec fn temp(&self) -> Seq<char> {
        self.temp_dir@
    }

    /// A service using the given FFmpeg command (default `ffmpeg`) and temporary directory
    /// (default `/tmp`).
    pub fn new(ffmpeg_path: Option<String>, temp_dir: Option<String>) -> (r: Self)
        ensures
            r.ffmpeg() == (match ffmpeg_path {
                Some(p) => p@,
                None => "ffmpeg"@,
            }),
            r.temp() == (match temp_dir {
                Some(d) => d@,
                None => "/tmp"@,
            }),
    {
        let ffmpeg_path = match ffmpeg_path {
            Some(p) => p,
            None => String::from_str("ffmpeg"),
        };
        let temp_dir = match temp_dir {
            Some(d) => d,
            None => String::from_str("/tmp"),
        };
        NoiseRemovalService { ffmpeg_path, temp_dir }
    }

    /// The FFmpeg command this service runs.
    pub fn ffmpeg_path(&self) -> (r: &str)
        ensures
            r@ == self.ffmpeg(),
    {
        self.ffmpeg_path.as_str()
    }

    /// The directory where this service writes its files.
    pub fn temp_dir(&self) -> (r: &str)
        ensures
            r@ == self.temp(),
    {
        self.temp_dir.as_str()
    }

    /// The FFmpeg filter chain for `config`; `use_loudnorm` selects the slower chain with
    /// loudness normalization.
    pub fn build_filter_chain(&self, config: &NoiseRemovalConfig, use_loudnorm: bool) -> (r: String)
        ensures
            r@ == filter_chain(*config, use_loudnorm),
    {
        let high = u64_to_decimal(config.highpass_freq as u64);
        let low = u64_to_decimal(config.lowpass_freq as u64);
        let floor = i64_to_decimal(config.noise_reduction_percent as i64);
        let s = concatenate("highpass=f=", high.as_str());
        let s = concatenate(s.as_str(), ",lowpass=f=");
        let s = concatenate(s.as_str(), low.as_str());
        let s = concatenate(s.as_str(), ",afftdn=nf=-");
        let s = concatenate(s.as_str(), floor.as_str());
        if use_loudnorm {
            concatenate(s.as_str(), ",volume=1.5,loudnorm=I=-16:TP=-1.5:LRA=11")
        } else {
            concatenate(s.as_str(), ",volume=2.0")
        }
    }

    /// The arguments of the FFmpeg command that cleans `input_path` into `output_path`:
    /// the filter chain, the configured sample rate, one channel, overwriting the output.
    pub fn cleaning_command_args(
        &self,
        input_path: &str,
        config: &NoiseRemovalConfig,
        use_loudnorm: bool,
        output_path: &str,
    ) -> (r: Vec<String>)
        ensures
            strings_view(r@) == cleaning_args(
                input_path@,
                filter_chain(*config, use_loudnorm),
                config.sample_rate,
                output_path@,
            ),
    {
        let filter = self.build_filter_chain(config, use_loudnorm);
        let rate = u64_to_decimal(config.sample_rate as u64);
        let mut r: Vec<String> = Vec::new();
        r.push(String::from_str("-i"));
        r.push(String::from_str(input_path));
        r.push(String::from_str("-af"));
        r.push(filter);
        r.push(String::from_str("-ar"));
        r.push(rate);
        r.push(String::from_str("-ac"));
        r.push(String::from_str("1"));
        r.push(String::from_str("-y"));
        r.push(String::from_str(output_path));
        assert(strings_view(r@) =~= cleaning_args(
            input_path@,
            filter_chain(*config, use_loudnorm),
            config.sample_rate,
            output_path@,
        ));
        r
    }

    /// The arguments of the advanced cleaning command: band-pass, FFT and RNN denoising,
    /// loudness normalization, 16 kHz, one channel, overwriting the output.
    pub fn advanced_command_args(&self, input_path: &str, output_path: &str) -> (r: Vec<String>)
        ensures
            strings_view(r@) == cleaning_args(input_path@, advanced_filter(), 16000, output_path@),
    {
        let mut r: Vec<String> = Vec::new();
        r.push(String::from_str("-i"));
        r.push(String::from_str(input_path));
        r.push(String::from_str("-af"));
        r.push(
            String::from_str(
                "highpass=f=200,lowpass=f=3000,afftdn=nf=-25,arnndn=m=/usr/local/share/rnnoise/rnnoise.rnnn:mix=0.8,volume=2.0,loudnorm=I=-16:TP=-1.5:LRA=11",
            ),
        );
        r.push(String::from_str("-ar"));
        r.push(u64_to_decimal(16000));
        r.push(String::from_str("-ac"));
        r.push(String::from_str("1"));
        r.push(String::from_str("-y"));
        r.push(String::from_str(output_path));
        assert(strings_view(r@) =~= cleaning_args(
            input_path@,
            advanced_filter(),
            16000,
            output_path@,
        ));
        r
    }

    /// The arguments of the command that gathers a noise profile from the first `seconds`
    /// of `input_path` with the RNN denoiser, writing nothing.
    pub fn profile_command_args(&self, input_path: &str, seconds: &str) -> (r: Vec<String>)
        ensures
            strings_view(r@) == profile_args(input_path@, seconds@),
    {
        let mut r: Vec<String> = Vec::new();
        r.push(String::from_str("-i"));
        r.push(String::from_str(input_path));
        r.push(String::from_str("-t"));
        r.push(String::from_str(seconds));
        r.push(String::from_str("-af"));
        r.push(String::from_str("arnndn=m=/usr/local/share/rnnoise/rnnoise.rnnn"));
        r.push(String::from_str("-f"));
        r.push(String::from_str("null"));
        r.push(String::from_str("-"));
        assert(strings_view(r@) =~= profile_args(input_path@, seconds@));
        r
    }

    /// Whether a file lies under this service's temporary directory, by its path's prefix;
    /// only such files are cleaned up.
    pub fn is_temp_path(&self, file_path: &str) -> (r: bool)
        ensures
            r == self.temp().is_prefix_of(file_path@),
    {
        starts_with(file_path, self.temp_dir.as_str())
    }

    /// Where the cleaned version of `input_path`, made at `timestamp` (ms since the epoch),
    /// is written.
    pub open spec fn output_path_for(&self, input_path: Seq<char>, timestamp: i64) -> Result<
        Seq<char>,
        NoiseRemovalError,
    > {
        match file_stem_of(input_path) {
            None => Err(NoiseRemovalError::InvalidFilename),
            Some(stem) => match joined_path(
                self.temp(),
                cleaned_name(stem, timestamp, extension_of(input_path)),
            ) {
                None => Err(NoiseRemovalError::OutputPath),
                Some(p) => Ok(p),
            },
        }
    }

    /// Where the noise profile of `input_path`, made at `timestamp`, is written.
    pub open spec fn profile_path_for(&self, input_path: Seq<char>, timestamp: i64) -> Result<
        Seq<char>,
        NoiseRemovalError,
    > {
        match file_stem_of(input_path) {
            None => Err(NoiseRemovalError::InvalidFilename),
            Some(stem) => match joined_path(self.temp(), profile_name(stem, timestamp)) {
                None => Err(NoiseRemovalError::ProfilePath),
                Some(p) => Ok(p),
            },
        }
    }

    /// Where the cleaned version of `input_path` goes when the clock reads `reading`.
    pub open spec fn output_path_when(&self, input_path: Seq<char>, reading: ClockReading) -> Result<
        Seq<char>,
        NoiseRemovalError,
    > {
        match epoch_millis(reading) {
            Some(timestamp) => self.output_path_for(input_path, timestamp),
            None => Err(NoiseRemovalError::ClockOutOfRange),
        }
    }

    /// Where the noise profile of `input_path` goes when the clock reads `reading`.
    pub open spec fn profile_path_when(&self, input_path: Seq<char>, reading: ClockReading) -> Result<
        Seq<char>,
        NoiseRemovalError,
    > {
        match epoch_millis(reading) {
            Some(timestamp) => self.profile_path_for(input_path, timestamp),
            None => Err(NoiseRemovalError::ClockOutOfRange),
        }
    }

    /// The name of a cleaned file from its parts.
    pub fn cleaned_file_name(stem: &str, timestamp: i64, extension: &Option<String>) -> (r: String)
        ensures
            r@ == cleaned_name(stem@, timestamp, opt_view(*extension)),
    {
        let ts = i64_to_decimal(timestamp);
        let s = concatenate(stem, "_cleaned_");
        let s = concatenate(s.as_str(), ts.as_str());
        let s = concatenate(s.as_str(), ".");
        match extension {
            Some(e) => concatenate(s.as_str(), e.as_str()),
            None => concatenate(s.as_str(), "wav"),
        }
    }

    /// The name of a noise profile from its parts.
    pub fn profile_file_name(stem: &str, timestamp: i64) -> (r: String)
        ensures
            r@ == profile_name(stem@, timestamp),
    {
        let ts = i64_to_decimal(timestamp);
        let s = concatenate(stem, "_noise_profile_");
        let s = concatenate(s.as_str(), ts.as_str());
        concatenate(s.as_str(), ".prof")
    }

    /// Where the cleaned version of `input_path` goes when made at `timestamp`.
    pub fn output_path_at(&self, input_path: &str, timestamp: i64) -> (r: Result<
        String,
        NoiseRemovalError,
    >)
        ensures
            path_view(r) == self.output_path_for(input_path@, timestamp),
    {
        match path_file_stem(input_path) {
            None => Err(NoiseRemovalError::InvalidFilename),
            Some(stem) => {
                let extension = path_extension(input_path);
                let name = Self::cleaned_file_name(stem.as_str(), timestamp, &extension);
                match path_join(self.temp_dir.as_str(), name.as_str()) {
                    None => Err(NoiseRemovalError::OutputPath),
                    Some(p) => Ok(p),
                }
            },
        }
    }

    /// Where the noise profile of `input_path` goes when made at `timestamp`.
    pub fn profile_path_at(&self, input_path: &str, timestamp: i64) -> (r: Result<
        String,
        NoiseRemovalError,
    >)
        ensures
            path_view(r) == self.profile_path_for(input_path@, timestamp),
    {
        match path_file_stem(input_path) {
            None => Err(NoiseRemovalError::InvalidFilename),
            Some(stem) => {
                let name = Self::profile_file_name(stem.as_str(), timestamp);
                match path_join(self.temp_dir.as_str(), name.as_str()) {
                    None => Err(NoiseRemovalError::ProfilePath),
                    Some(p) => Ok(p),
                }
            },
        }
    }

    /// Where the cleaned version of `input_path` goes, stamped with the milliseconds since the
    /// epoch that the clock reads (negative before it); an error when they do not fit an `i64`.
    pub fn generate_output_path(&self, input_path: &str) -> (r: Result<String, NoiseRemovalError>)
        ensures
            exists|reading: ClockReading|
                reading.wf() && path_view(r) == self.output_path_when(input_path@, reading),
    {
        let reading = read_clock();
        match millis_since_epoch(&reading) {
            Some(timestamp) => self.output_path_at(input_path, timestamp),
            None => Err(NoiseRemovalError::ClockOutOfRange),
        }
    }

    /// Where the noise profile of `input_path` goes, stamped as `generate_output_path` does.
    pub fn generate_noise_profile_path(&self, input_path: &str) -> (r: Result<
        String,
        NoiseRemovalError,
    >)
        ensures
            exists|reading: ClockReading|
                reading.wf() && path_view(r) == self.profile_path_when(input_path@, reading),
    {
        let reading = read_clock();
        match millis_since_epoch(&reading) {
            Some(timestamp) => self.profile_path_at(input_path, timestamp),
            None => Err(NoiseRemovalError::ClockOutOfRange),
        }
    }
}

/// The default filter settings, as `NoiseRemovalConfig::default` gives them.
pub open spec fn default_config() -> NoiseRemovalConfig {
    NoiseRemovalConfig {
        noise_reduction_percent: 21,
        sample_rate: 16000,
        highpass_freq: 200,
        lowpass_freq: 3000,
    }
}

/// How an FFmpeg process ended.
pub struct FfmpegExit {
    /// It exited with status zero.
    pub success: bool,
    /// Its error output.
    pub stderr: String,
}

/// Where a cleaning run stands.
pub enum NoiseRemovalStage {
    /// Waiting to learn whether the input file exists.
    CheckingInput,
    /// Waiting for the temporary directory to be created; `profile` is the noise profile's
    /// path when the advanced chain runs.
    CreatingDir { output: String, profile: Option<String> },
    /// Waiting for the noise-profile command to end.
    Profiling { output: String, profile: String },
    /// Waiting for the cleaning command to end; `profile` as above.
    Cleaning { output: String, profile: Option<String> },
    /// Waiting for the noise profile to be removed.
    RemovingProfile { output: String },
    /// The run has ended.
    Done,
}

/// What the caller reports back after performing an action.
pub enum NoiseRemovalEvent {
    /// Whether the input file exists.
    InputChecked(bool),
    /// The directory was created, or the error that creating it gave.
    DirCreated(Result<(), String>),
    /// FFmpeg ended, or the error that starting it gave.
    FfmpegRan(Result<FfmpegExit, String>),
    /// The removal of a file was attempted; its outcome does not matter.
    FileRemoved,
}

/// What the caller is to do next.
pub enum NoiseRemovalAction {
    /// Check whether this file exists.
    CheckInput(String),
    /// Create this directory and its parents.
    CreateDir(String),
    /// Run the service's FFmpeg command with these arguments.
    RunFfmpeg(Vec<String>),
    /// Remove this file.
    RemoveFile(String),
    /// The run has ended with this cleaned file or error.
    Finish(Result<String, NoiseRemovalError>),
}

/// One cleaning of an input file, basic or advanced, driven by its caller: each step takes
/// what the last action brought and says what to do next.
pub struct NoiseRemovalRun {
    pub input: String,
    pub config: NoiseRemovalConfig,
    pub use_loudnorm: bool,
    /// The length of the noise profile, as FFmpeg reads it, when the advanced chain runs.
    pub profile_seconds: Option<String>,
    pub stage: NoiseRemovalStage,
}

/// `next` is `run` in `stage`, with the same input and settings.
pub open spec fn moved_to(run: NoiseRemovalRun, next: NoiseRemovalRun, stage: NoiseRemovalStage) -> bool {
    next == NoiseRemovalRun { stage, ..run }
}

/// `next` is `run` ended, and `action` hands back `outcome`.
pub open spec fn finished(
    run: NoiseRemovalRun,
    next: NoiseRemovalRun,
    action: NoiseRemovalAction,
    outcome: Result<Seq<char>, NoiseRemovalError>,
) -> bool {
    &&& moved_to(run, next, NoiseRemovalStage::Done)
    &&& (action matches NoiseRemovalAction::Finish(r) && path_view(r) == outcome)
}

/// `action` runs FFmpeg with `args`.
pub open spec fn runs_ffmpeg(action: NoiseRemovalAction, args: Seq<Seq<char>>) -> bool {
    action matches NoiseRemovalAction::RunFfmpeg(a) && strings_view(a@) == args
}

/// `next` waits for the directory of `service` to be created before writing `output`.
pub open spec fn creating_dir(
    run: NoiseRemovalRun,
    next: NoiseRemovalRun,
    action: NoiseRemovalAction,
    service: NoiseRemovalService,
    output: Seq<char>,
    profile: Option<Seq<char>>,
) -> bool {
    &&& (next.stage matches NoiseRemovalStage::CreatingDir { output: o, profile: p } && o@ == output
        && opt_view(p) == profile)
    &&& next == NoiseRemovalRun { stage: next.stage, ..run }
    &&& (action matches NoiseRemovalAction::CreateDir(d) && d@ == service.temp())
}

impl NoiseRemovalRun {
    /// The noise profile appears in the stage exactly when the advanced chain runs.
    pub open spec fn wf(&self) -> bool {
        match self.stage {
            NoiseRemovalStage::CreatingDir { profile, .. } => (profile is Some
                <==> self.profile_seconds is Some),
            NoiseRemovalStage::Profiling { .. } => self.profile_seconds is Some,
            NoiseRemovalStage::Cleaning { profile, .. } => (profile is Some
                <==> self.profile_seconds is Some),
            NoiseRemovalStage::RemovingProfile { .. } => self.profile_seconds is Some,
            _ => true,
        }
    }

    /// Which event the run waits for.
    pub open spec fn expects(&self, event: NoiseRemovalEvent) -> bool {
        match self.stage {
            NoiseRemovalStage::CheckingInput => event is InputChecked,
            NoiseRemovalStage::CreatingDir { .. } => event is DirCreated,
            NoiseRemovalStage::Profiling { .. } => event is FfmpegRan,
            NoiseRemovalStage::Cleaning { .. } => event is FfmpegRan,
            NoiseRemovalStage::RemovingProfile { .. } => event is FileRemoved,
            NoiseRemovalStage::Done => false,
        }
    }

    /// One step of a run, the paths stamped with the clock readings `t_profile` and `t_output`:
    /// a missing input ends it; the profile's and the output's paths are formed (an error
    /// ends it) and the directory is created (an error ends it); the advanced chain gathers
    /// a noise profile, whatever comes of that, then cleans; the basic chain cleans with the
    /// run's settings. A cleaning that cannot start ends the run; a basic cleaning that fails
    /// ends it with FFmpeg's error output; an advanced one that fails starts over as a basic
    /// run with the default settings; one that succeeds removes the profile, then ends with
    /// the cleaned file.
    pub open spec fn transition(
        self,
        service: NoiseRemovalService,
        event: NoiseRemovalEvent,
        next: NoiseRemovalRun,
        action: NoiseRemovalAction,
        t_profile: ClockReading,
        t_output: ClockReading,
    ) -> bool {
        match self.stage {
            NoiseRemovalStage::CheckingInput => match event {
                NoiseRemovalEvent::InputChecked(false) => finished(
                    self,
                    next,
                    action,
                    Err(NoiseRemovalError::InputNotFound(self.input)),
                ),
                NoiseRemovalEvent::InputChecked(true) => match self.profile_seconds {
                    None => match service.output_path_when(self.input@, t_output) {
                        Err(e) => finished(self, next, action, Err(e)),
                        Ok(o) => creating_dir(self, next, action, service, o, None),
                    },
                    Some(_) => match service.profile_path_when(self.input@, t_profile) {
                        Err(e) => finished(self, next, action, Err(e)),
                        Ok(p) => match service.output_path_when(self.input@, t_output) {
                            Err(e) => finished(self, next, action, Err(e)),
                            Ok(o) => creating_dir(self, next, action, service, o, Some(p)),
                        },
                    },
                },
                _ => false,
            },
            NoiseRemovalStage::CreatingDir { output, profile } => match event {
                NoiseRemovalEvent::DirCreated(Err(e)) => finished(
                    self,
                    next,
                    action,
                    Err(NoiseRemovalError::Io(e)),
                ),
                NoiseRemovalEvent::DirCreated(Ok(())) => match profile {
                    None => {
                        &&& moved_to(
                            self,
                            next,
                            NoiseRemovalStage::Cleaning { output, profile: None },
                        )
                        &&& runs_ffmpeg(
                            action,
                            cleaning_args(
                                self.input@,
                                filter_chain(self.config, self.use_loudnorm),
                                self.config.sample_rate,
                                output@,
                            ),
                        )
                    },
                    Some(p) => {
                        &&& moved_to(
                            self,
                            next,
                            NoiseRemovalStage::Profiling { output, profile: p },
                        )
                        &&& runs_ffmpeg(
                            action,
                            profile_args(self.input@, self.profile_seconds.unwrap()@),
                        )
                    },
                },
                _ => false,
            },
            NoiseRemovalStage::Profiling { output, profile } => match event {
                NoiseRemovalEvent::FfmpegRan(_) => {
                    &&& moved_to(
                        self,
                        next,
                        NoiseRemovalStage::Cleaning { output, profile: Some(profile) },
                    )
                    &&& runs_ffmpeg(action, cleaning_args(self.input@, advanced_filter(), 16000, output@))
                },
                _ => false,
            },
            NoiseRemovalStage::Cleaning { output, profile } => match event {
                NoiseRemovalEvent::FfmpegRan(Err(e)) => match profile {
                    None => finished(self, next, action, Err(NoiseRemovalError::Launch(e))),
                    Some(_) => finished(self, next, action, Err(NoiseRemovalError::Spawn(e))),
                },
                NoiseRemovalEvent::FfmpegRan(Ok(exit)) => match profile {
                    None => if exit.success {
                        finished(self, next, action, Ok(output@))
                    } else {
                        finished(self, next, action, Err(NoiseRemovalError::Failed(exit.stderr)))
                    },
                    Some(p) => if exit.success {
                        &&& moved_to(self, next, NoiseRemovalStage::RemovingProfile { output })
                        &&& action == NoiseRemovalAction::RemoveFile(p)
                    } else {
                        &&& next == NoiseRemovalRun {
                            input: self.input,
                            config: default_config(),
                            use_loudnorm: self.use_loudnorm,
                            profile_seconds: None,
                            stage: NoiseRemovalStage::CheckingInput,
                        }
                        &&& action == NoiseRemovalAction::CheckInput(self.input)
                    },
                },
                _ => false,
            },
            NoiseRemovalStage::RemovingProfile { output } => match event {
                NoiseRemovalEvent::FileRemoved => finished(self, next, action, Ok(output@)),
                _ => false,
            },
            NoiseRemovalStage::Done => false,
        }
    }

    /// Starts the basic cleaning of `input` with `config` (the default settings when
    /// `None`); the first action checks that the input exists.
    pub fn basic(input: String, config: Option<NoiseRemovalConfig>, use_loudnorm: bool) -> (r: (
        NoiseRemovalRun,
        NoiseRemovalAction,
    ))
        ensures
            r.0.wf(),
            r.0.stage is CheckingInput,
            r.0.input == input,
            r.0.config == (match config {
                Some(c) => c,
                None => default_config(),
            }),
            r.0.use_loudnorm == use_loudnorm,
            r.0.profile_seconds is None,
            r.1 == NoiseRemovalAction::CheckInput(input),
    {
        let config = match config {
            Some(c) => c,
            None => NoiseRemovalConfig::default(),
        };
        let first = NoiseRemovalAction::CheckInput(input.clone());
        (
            NoiseRemovalRun {
                input,
                config,
                use_loudnorm,
                profile_seconds: None,
                stage: NoiseRemovalStage::CheckingInput,
            },
            first,
        )
    }

    /// Starts the advanced cleaning of `input`, whose noise profile covers the first
    /// `profile_seconds` (as FFmpeg reads them); the first action checks that the input
    /// exists. Should the advanced chain fail, the basic one with the default settings and
    /// `use_loudnorm` follows.
    pub fn advanced(input: String, profile_seconds: String, use_loudnorm: bool) -> (r: (
        NoiseRemovalRun,
        NoiseRemovalAction,
    ))
        ensures
            r.0.wf(),
            r.0.stage is CheckingInput,
            r.0.input == input,
            r.0.config == default_config(),
            r.0.use_loudnorm == use_loudnorm,
            r.0.profile_seconds == Some(profile_seconds),
            r.1 == NoiseRemovalAction::CheckInput(input),
    {
        let first = NoiseRemovalAction::CheckInput(input.clone());
        (
            NoiseRemovalRun {
                input,
                config: NoiseRemovalConfig::default(),
                use_loudnorm,
                profile_seconds: Some(profile_seconds),
                stage: NoiseRemovalStage::CheckingInput,
            },
            first,
        )
    }

    /// Takes what the last action brought and gives the run's next state and the next
    /// action, as `transition` says, the paths stamped with the times read on the way.
    pub fn step(self, service: &NoiseRemovalService, event: NoiseRemovalEvent) -> (r: (
        NoiseRemovalRun,
        NoiseRemovalAction,
    ))
        requires
            self.wf(),
            self.expects(event),
        ensures
            r.0.wf(),
            exists|t_profile: ClockReading, t_output: ClockReading|
                self.transition(*service, event, r.0, r.1, t_profile, t_output),
    {
        let ghost old_run = self;
        let ghost mut t_profile = ClockReading::After { secs: 0, nanos: 0 };
        let ghost mut t_output = ClockReading::After { secs: 0, nanos: 0 };
        let NoiseRemovalRun { input, config, use_loudnorm, profile_seconds, stage } = self;
        let r: (NoiseRemovalRun, NoiseRemovalAction) = match stage {
            NoiseRemovalStage::CheckingInput => {
                let ok = match event {
                    NoiseRemovalEvent::InputChecked(b) => b,
                    _ => false,
                };
                if !ok {
                    let e = NoiseRemovalError::InputNotFound(input.clone());
                    (
                        NoiseRemovalRun {
                            input,
                            config,
                            use_loudnorm,
                            profile_seconds,
                            stage: NoiseRemovalStage::Done,
                        },
                        NoiseRemovalAction::Finish(Err(e)),
                    )
                } else {
                    let profile: Result<Option<String>, NoiseRemovalError> =
                        match &profile_seconds {
                        None => Ok(None),
                        Some(_) => {
                            let p = service.generate_noise_profile_path(input.as_str());
                            proof {
                                t_profile = choose|t: ClockReading|
                                    t.wf() && path_view(p) == service.profile_path_when(input@, t);
                            }
                            match p {
                                Ok(p) => Ok(Some(p)),
                                Err(e) => Err(e),
                            }
                        },
                    };
                    match profile {
                        Err(e) => (
                            NoiseRemovalRun {
                                input,
                                config,
                                use_loudnorm,
                                profile_seconds,
                                stage: NoiseRemovalStage::Done,
                            },
                            NoiseRemovalAction::Finish(Err(e)),
                        ),
                        Ok(profile) => {
                            let o = service.generate_output_path(input.as_str());
                            proof {
                                t_output = choose|t: ClockReading|
                                    t.wf() && path_view(o) == service.output_path_when(input@, t);
                            }
                            match o {
                                Err(e) => (
                                    NoiseRemovalRun {
                                        input,
                                        config,
                                        use_loudnorm,
                                        profile_seconds,
                                        stage: NoiseRemovalStage::Done,
                                    },
                                    NoiseRemovalAction::Finish(Err(e)),
                                ),
                                Ok(output) => (
                                    NoiseRemovalRun {
                                        input,
                                        config,
                                        use_loudnorm,
                                        profile_seconds,
                                        stage: NoiseRemovalStage::CreatingDir { output, profile },
                                    },
                                    NoiseRemovalAction::CreateDir(
                                        String::from_str(service.temp_dir()),
                                    ),
                                ),
                            }
                        },
                    }
                }
            },
            NoiseRemovalStage::CreatingDir { output, profile } => {
                let created: Result<(), String> = match event {
                    NoiseRemovalEvent::DirCreated(c) => c,
                    _ => Ok(()),
                };
                match created {
                    Err(e) => (
                        NoiseRemovalRun {
                            input,
                            config,
                            use_loudnorm,
                            profile_seconds,
                            stage: NoiseRemovalStage::Done,
                        },
                        NoiseRemovalAction::Finish(Err(NoiseRemovalError::Io(e))),
                    ),
                    Ok(()) => match profile {
                        None => {
                            let args = service.cleaning_command_args(
                                input.as_str(),
                                &config,
                                use_loudnorm,
                                output.as_str(),
                            );
                            (
                                NoiseRemovalRun {
                                    input,
                                    config,
                                    use_loudnorm,
                                    profile_seconds,
                                    stage: NoiseRemovalStage::Cleaning { output, profile: None },
                                },
                                NoiseRemovalAction::RunFfmpeg(args),
                            )
                        },
                        Some(p) => {
                            let args = match &profile_seconds {
                                Some(seconds) => service.profile_command_args(
                                    input.as_str(),
                                    seconds.as_str(),
                                ),
                                None => Vec::new(),
                            };
                            (
                                NoiseRemovalRun {
                                    input,
                                    config,
                                    use_loudnorm,
                                    profile_seconds,
                                    stage: NoiseRemovalStage::Profiling { output, profile: p },
                                },
                                NoiseRemovalAction::RunFfmpeg(args),
                            )
                        },
                    },
                }
            },
            NoiseRemovalStage::Profiling { output, profile } => {
                let args = service.advanced_command_args(input.as_str(), output.as_str());
                (
                    NoiseRemovalRun {
                        input,
                        config,
                        use_loudnorm,
                        profile_seconds,
                        stage: NoiseRemovalStage::Cleaning { output, profile: Some(profile) },
                    },
                    NoiseRemovalAction::RunFfmpeg(args),
                )
            },
            NoiseRemovalStage::Cleaning { output, profile } => {
                let ran: Result<FfmpegExit, String> = match event {
                    NoiseRemovalEvent::FfmpegRan(x) => x,
                    _ => Err(String::new()),
                };
                match ran {
                    Err(e) => {
                        let error = match profile {
                            None => NoiseRemovalError::Launch(e),
                            Some(_) => NoiseRemovalError::Spawn(e),
                        };
                        (
                            NoiseRemovalRun {
                                input,
                                config,
                                use_loudnorm,
                                profile_seconds,
                                stage: NoiseRemovalStage::Done,
                            },
                            NoiseRemovalAction::Finish(Err(error)),
                        )
                    },
                    Ok(exit) => match profile {
                        None => {
                            let outcome = if exit.success {
                                Ok(output)
                            } else {
                                Err(NoiseRemovalError::Failed(exit.stderr))
                            };
                            (
                                NoiseRemovalRun {
                                    input,
                                    config,
                                    use_loudnorm,
                                    profile_seconds,
                                    stage: NoiseRemovalStage::Done,
                                },
                                NoiseRemovalAction::Finish(outcome),
                            )
                        },
                        Some(p) => if exit.success {
                            (
                                NoiseRemovalRun {
                                    input,
                                    config,
                                    use_loudnorm,
                                    profile_seconds,
                                    stage: NoiseRemovalStage::RemovingProfile { output },
                                },
                                NoiseRemovalAction::RemoveFile(p),
                            )
                        } else {
                            let first = NoiseRemovalAction::CheckInput(input.clone());
                            (
                                NoiseRemovalRun {
                                    input,
                                    config: NoiseRemovalConfig::default(),
                                    use_loudnorm,
                                    profile_seconds: None,
                                    stage: NoiseRemovalStage::CheckingInput,
                                },
                                first,
                            )
                        },
                    },
                }
            },
            NoiseRemovalStage::RemovingProfile { output } => (
                NoiseRemovalRun {
                    input,
                    config,
                    use_loudnorm,
                    profile_seconds,
                    stage: NoiseRemovalStage::Done,
                },
                NoiseRemovalAction::Finish(Ok(output)),
            ),
            NoiseRemovalStage::Done => (
                NoiseRemovalRun {
                    input,
                    config,
                    use_loudnorm,
                    profile_seconds,
                    stage: NoiseRemovalStage::Done,
                },
                NoiseRemovalAction::Finish(Err(NoiseRemovalError::OutputPath)),
            ),
        };
        assert(old_run.transition(*service, event, r.0, r.1, t_profile, t_output));
        r
    }

    /// Whether the run waits for `event`.
    pub fn accepts(&self, event: &NoiseRemovalEvent) -> (r: bool)
        ensures
            r == self.expects(*event),
    {
        match self.stage {
            NoiseRemovalStage::CheckingInput => matches!(event, NoiseRemovalEvent::InputChecked(_)),
            NoiseRemovalStage::CreatingDir { .. } => matches!(event, NoiseRemovalEvent::DirCreated(_)),
            NoiseRemovalStage::Profiling { .. } => matches!(event, NoiseRemovalEvent::FfmpegRan(_)),
            NoiseRemovalStage::Cleaning { .. } => matches!(event, NoiseRemovalEvent::FfmpegRan(_)),
            NoiseRemovalStage::RemovingProfile { .. } => matches!(event, NoiseRemovalEvent::FileRemoved),
            NoiseRemovalStage::Done => false,
        }
    }
}

/// A step never takes up the advanced chain: it keeps the run's profile length or drops it
/// when falling back to the basic chain, so a run falls back at most once; it keeps the
/// input; and the run ends exactly when the step hands back its outcome.
pub proof fn lemma_step_keeps_course(
    run: NoiseRemovalRun,
    service: NoiseRemovalService,
    event: NoiseRemovalEvent,
    next: NoiseRemovalRun,
    action: NoiseRemovalAction,
    t_profile: ClockReading,
    t_output: ClockReading,
)
    requires
        run.transition(service, event, next, action, t_profile, t_output),
    ensures
        next.profile_seconds is Some ==> next.profile_seconds == run.profile_seconds,
        next.input == run.input,
        next.stage is Done <==> action is Finish,
{
}

/// A basic cleaning ends when FFmpeg does, and only its exit status decides how: an exit
/// with status zero ends the run with the cleaned file, whatever FFmpeg wrote to its error
/// output; any other exit ends it with that error output.
pub proof fn lemma_basic_cleaning_outcome_follows_exit_status(
    run: NoiseRemovalRun,
    service: NoiseRemovalService,
    exit: FfmpegExit,
    next: NoiseRemovalRun,
    action: NoiseRemovalAction,
    t_profile: ClockReading,
    t_output: ClockReading,
)
    requires
        run.stage matches NoiseRemovalStage::Cleaning { profile: None, .. },
        run.transition(
            service,
            NoiseRemovalEvent::FfmpegRan(Ok(exit)),
            next,
            action,
            t_profile,
            t_output,
        ),
    ensures
        next.stage is Done,
        exit.success ==> (action matches NoiseRemovalAction::Finish(Ok(p)) && (run.stage matches NoiseRemovalStage::Cleaning { output, .. } && p@ == output@)),
        !exit.success ==> (action matches NoiseRemovalAction::Finish(Err(e)) && e == NoiseRemovalError::Failed(exit.stderr)),
{
}

/// Two basic cleanings that reach the same point and whose FFmpeg runs both exit with
/// status zero end alike, however their error output differs.
pub proof fn lemma_basic_cleaning_ignores_ffmpeg_log(
    run: NoiseRemovalRun,
    service: NoiseRemovalService,
    first: FfmpegExit,
    second: FfmpegExit,
    next1: NoiseRemovalRun,
    action1: NoiseRemovalAction,
    next2: NoiseRemovalRun,
    action2: NoiseRemovalAction,
    t_profile: ClockReading,
    t_output: ClockReading,
)
    requires
        run.stage matches NoiseRemovalStage::Cleaning { profile: None, .. },
        first.success,
        second.success,
        run.transition(service, NoiseRemovalEvent::FfmpegRan(Ok(first)), next1, action1, t_profile, t_output),
        run.transition(service, NoiseRemovalEvent::FfmpegRan(Ok(second)), next2, action2, t_profile, t_output),
    ensures
        next1 == next2,
        action1 matches NoiseRemovalAction::Finish(r1) && action2 matches NoiseRemovalAction::Finish(
            r2,
        ) && path_view(r1) == path_view(r2),
{
    lemma_basic_cleaning_outcome_follows_exit_status(run, service, first, next1, action1, t_profile, t_output);
    lemma_basic_cleaning_outcome_follows_exit_status(run, service, second, next2, action2, t_profile, t_output);
}

/// An advanced cleaning that FFmpeg runs but fails starts over as a basic run of the same
/// input with the default settings; one that cannot start ends the run with that error; one
/// that succeeds removes the noise profile before ending.
pub proof fn lemma_advanced_cleaning_outcomes(
    run: NoiseRemovalRun,
    service: NoiseRemovalService,
    ran: Result<FfmpegExit, String>,
    next: NoiseRemovalRun,
    action: NoiseRemovalAction,
    t_profile: ClockReading,
    t_output: ClockReading,
)
    requires
        run.stage matches NoiseRemovalStage::Cleaning { profile: Some(_), .. },
        run.transition(service, NoiseRemovalEvent::FfmpegRan(ran), next, action, t_profile, t_output),
    ensures
        ran matches Ok(exit) && !exit.success ==> {
            &&& next.stage is CheckingInput
            &&& next.profile_seconds is None
            &&& next.config == default_config()
            &&& next.input == run.input
            &&& next.use_loudnorm == run.use_loudnorm
            &&& action == NoiseRemovalAction::CheckInput(run.input)
        },
        ran matches Err(e) ==> next.stage is Done && action == NoiseRemovalAction::Finish(
            Err(NoiseRemovalError::Spawn(e)),
        ),
        ran matches Ok(exit) && exit.success ==> next.stage is RemovingProfile && (
        run.stage matches NoiseRemovalStage::Cleaning { profile: Some(p), .. }
            && action == NoiseRemovalAction::RemoveFile(p)),
{
}

/// A cleaned file is named after its input: its name begins with the input's stem and ends
/// with the input's extension, `wav` when the input has none.
pub proof fn lemma_cleaned_name_keeps_stem_and_extension(
    stem: Seq<char>,
    timestamp: i64,
    extension: Option<Seq<char>>,
)
    ensures
        cleaned_name(stem, timestamp, extension).subrange(0, stem.len() as int) == stem,
        ({
            let name = cleaned_name(stem, timestamp, extension);
            let ext = match extension {
                Some(e) => e,
                None => "wav"@,
            };
            &&& name.len() > ext.len()
            &&& name.subrange(name.len() - ext.len(), name.len() as int) == ext
            &&& name[name.len() - ext.len() - 1] == '.'
        }),
{
    let ext = match extension {
        Some(e) => e,
        None => "wav"@,
    };
    let mid = "_cleaned_"@ + signed_decimal(timestamp as int) + "."@;
    reveal_strlit(".");
    assert(cleaned_name(stem, timestamp, extension) =~= stem + mid + ext);
    assert((stem + mid + ext).subrange(0, stem.len() as int) =~= stem);
    let name = stem + mid + ext;
    assert(name.subrange(name.len() - ext.len(), name.len() as int) =~= ext);
    assert(mid[mid.len() - 1] == '.');
    assert(name[name.len() - ext.len() - 1] == mid[mid.len() - 1]);
}

/// Both filter chains pass the configured band and denoise at the configured floor, in
/// that order; the fast chain then doubles the volume, the other raises it by half and
/// normalizes loudness.
pub proof fn lemma_filter_chains_share_their_head(config: NoiseRemovalConfig)
    ensures
        ({
            let head = "highpass=f="@ + decimal(config.highpass_freq as nat) + ",lowpass=f="@
                + decimal(config.lowpass_freq as nat) + ",afftdn=nf=-"@ + signed_decimal(
                config.noise_reduction_percent as int,
            );
            &&& filter_chain(config, false) == head + ",volume=2.0"@
            &&& filter_chain(config, true) == head + ",volume=1.5,loudnorm=I=-16:TP=-1.5:LRA=11"@
        }),
{
}

} // verus!
