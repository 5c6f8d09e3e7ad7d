//! Transcription: the upload form and its checks, the WhisperX service exchange and the
//! result that a finished transcription produces.

use vstd::prelude::*;
use crate::detection::{is_success_status, status_is_success, status_line, HttpReply, body_or_unknown};
use crate::similarity::{http_error, HttpError};
use crate::text::{concatenate, str_eq, trim, trimmed};

verus! {

/// A finished transcription in every format the service produces; the time it took is
/// kept as whole seconds and the nanoseconds beyond them.
pub struct TranscriptionResult {
    pub uuid: String,
    pub transcription: String,
    pub vtt: String,
    pub srt: String,
    pub json_file: String,
    pub tsv: String,
    pub duration_secs: u64,
    pub duration_subsec_nanos: u32,
    pub language: Option<String>,
}

/// The immediate answer to an accepted upload.
pub struct TranscriptionUploadResponse {
    pub uuid: String,
    pub status: String,
    pub message: String,
}

/// A status update published to the status WebSocket; `progress` is a percentage.
pub struct TranscriptionStatusUpdate {
    pub uuid: String,
    pub status: String,
    pub progress: u8,
    pub message: String,
    pub result: Option<TranscriptionResult>,
    pub error: Option<String>,
}

/// Query parameters of a status WebSocket connection request.
pub struct AuthParams {
    pub token: Option<String>,
}

// ---------------------------------------------------------------------------
// The upload form
// ---------------------------------------------------------------------------

/// The fields of the upload form that the handler reads.
#[derive(PartialEq, Eq, Structural)]
pub enum UploadField {
    Token,
    File,
    Model,
    Priority,
    ApplyNoiseRemoval,
    ModelType,
    Other,
}

/// Which field a multipart part fills, by its name.
pub open spec fn field_of(name: Seq<char>) -> UploadField {
    if name == "token"@ {
        UploadField::Token
    } else if name == "file"@ {
        UploadField::File
    } else if name == "model"@ {
        UploadField::Model
    } else if name == "priority"@ {
        UploadField::Priority
    } else if name == "apply_noise_removal"@ {
        UploadField::ApplyNoiseRemoval
    } else if name == "model_type"@ {
        UploadField::ModelType
    } else {
        UploadField::Other
    }
}

/// The field that a part named `name` fills (`""` for a part without a name).
pub fn classify_field(name: &str) -> (r: UploadField)
    ensures
        r == field_of(name@),
{
    if str_eq(name, "token") {
        UploadField::Token
    } else if str_eq(name, "file") {
        UploadField::File
    } else if str_eq(name, "model") {
        UploadField::Model
    } else if str_eq(name, "priority") {
        UploadField::Priority
    } else if str_eq(name, "apply_noise_removal") {
        UploadField::ApplyNoiseRemoval
    } else if str_eq(name, "model_type") {
        UploadField::ModelType
    } else {
        UploadField::Other
    }
}

/// The field's content is read as text (the file is read as bytes, other parts are skipped).
pub open spec fn is_text_field(field: UploadField) -> bool {
    field != UploadField::File && field != UploadField::Other
}

/// Whether the handler reads a field's content as text.
pub fn reads_text(field: &UploadField) -> (r: bool)
    ensures
        r == is_text_field(*field),
{
    match field {
        UploadField::File => false,
        UploadField::Other => false,
        _ => true,
    }
}

/// How the form names a field in its error messages.
pub open spec fn field_label(field: UploadField) -> Seq<char> {
    match field {
        UploadField::Token => "token"@,
        UploadField::File => "file"@,
        UploadField::Model => "model"@,
        UploadField::Priority => "priority"@,
        UploadField::ApplyNoiseRemoval => "apply_noise_removal"@,
        UploadField::ModelType => "model_type"@,
        UploadField::Other => "field"@,
    }
}

/// The answer when reading a field's content failed with `detail`.
pub fn field_read_error(field: &UploadField, detail: &str) -> (r: HttpError)
    ensures
        http_error(r, 400, "Failed to read "@ + field_label(*field) + ": "@ + detail@),
{
    let label = match field {
        UploadField::Token => "token",
        UploadField::File => "file",
        UploadField::Model => "model",
        UploadField::Priority => "priority",
        UploadField::ApplyNoiseRemoval => "apply_noise_removal",
        UploadField::ModelType => "model_type",
        UploadField::Other => "field",
    };
    let m = concatenate("Failed to read ", label);
    let m = concatenate(m.as_str(), ": ");
    HttpError { status: 400, message: concatenate(m.as_str(), detail) }
}

/// The answer when the next multipart part could not be read.
pub fn multipart_error(detail: &str) -> (r: HttpError)
    ensures
        http_error(r, 400, "Failed to read multipart field: "@ + detail@),
{
    HttpError { status: 400, message: concatenate("Failed to read multipart field: ", detail) }
}

/// The upload form as read so far. Noise removal is on unless the form says otherwise.
pub struct UploadForm {
    pub token: Option<String>,
    pub file: Option<Vec<u8>>,
    pub apply_noise_removal: bool,
    pub model_type: Option<String>,
}

/// A text value that switches noise removal on.
pub open spec fn enables(value: Seq<char>) -> bool {
    value == "true"@ || value == "1"@
}

/// The noise-removal field reads as the documentation gives it: `true` switches noise
/// removal on, as does `1`; `false` switches it off.
pub proof fn lemma_noise_field_words(value: Seq<char>)
    ensures
        value == "true"@ ==> enables(value),
        value == "1"@ ==> enables(value),
        value == "false"@ ==> !enables(value),
{
    reveal_strlit("true");
    reveal_strlit("false");
    reveal_strlit("1");
    assert("false"@.len() == 5 && "true"@.len() == 4 && "1"@.len() == 1);
}

impl UploadForm {
    /// The form before any part is read.
    pub fn new() -> (r: Self)
        ensures
            r.token is None,
            r.file is None,
            r.apply_noise_removal,
            r.model_type is None,
    {
        UploadForm { token: None, file: None, apply_noise_removal: true, model_type: None }
    }

    /// Records the text content of a field; a later value of a field replaces an earlier
    /// one, and the model and priority fields are read but not kept.
    pub fn accept_text(&mut self, field: &UploadField, value: String)
        ensures
            final(self).token == (if *field == UploadField::Token {
                Some(value)
            } else {
                old(self).token
            }),
            final(self).file == old(self).file,
            final(self).apply_noise_removal == (if *field == UploadField::ApplyNoiseRemoval {
                enables(value@)
            } else {
                old(self).apply_noise_removal
            }),
            final(self).model_type == (if *field == UploadField::ModelType {
                Some(value)
            } else {
                old(self).model_type
            }),
            *field == UploadField::ApplyNoiseRemoval && value@ == "true"@
                ==> final(self).apply_noise_removal,
            *field == UploadField::ApplyNoiseRemoval && value@ == "false"@
                ==> !final(self).apply_noise_removal,
    {
        proof {
            lemma_noise_field_words(value@);
        }
        match field {
            UploadField::Token => {
                self.token = Some(value);
            },
            UploadField::ApplyNoiseRemoval => {
                self.apply_noise_removal = str_eq(value.as_str(), "true") || str_eq(
                    value.as_str(),
                    "1",
                );
            },
            UploadField::ModelType => {
                self.model_type = Some(value);
            },
            _ => {},
        }
    }

    /// Records the uploaded file's bytes; a later file replaces an earlier one.
    pub fn accept_file(&mut self, data: Vec<u8>)
        ensures
            final(self).token == old(self).token,
            final(self).file == Some(data),
            final(self).apply_noise_removal == old(self).apply_noise_removal,
            final(self).model_type == old(self).model_type,
    {
        self.file = Some(data);
    }
}

/// What an accepted upload goes on with.
pub struct AcceptedUpload {
    pub job_id: String,
    pub file: Vec<u8>,
    pub apply_noise_removal: bool,
    pub model_type: Option<String>,
}

/// The token the form carried, or the empty string.
pub open spec fn form_token(token: Option<String>) -> Seq<char> {
    match token {
        Some(t) => t@,
        None => Seq::empty(),
    }
}

/// An upload is authorized when a token is configured and the form carried exactly it.
pub open spec fn upload_token_accepted(expected: Seq<char>, token: Option<String>) -> bool {
    expected.len() > 0 && form_token(token) == expected
}

/// The upload form and the WebSocket connections let in exactly the same clients: those
/// that offer the configured token, when one is configured.
pub proof fn lemma_upload_and_socket_tokens_agree(expected: Seq<char>, token: Option<String>)
    ensures
        upload_token_accepted(expected, token) == crate::similarity::token_accepted(
            expected,
            token,
        ),
{
}

/// An upload passes the checks when it is authorized and carries a non-empty file.
pub open spec fn upload_acceptable(form: UploadForm, expected: Seq<char>) -> bool {
    &&& upload_token_accepted(expected, form.token)
    &&& form.file matches Some(f) && f@.len() > 0
}

/// Why an upload is refused, checked in this order: no token configured, wrong token,
/// no file, empty file.
pub open spec fn upload_refusal(form: UploadForm, expected: Seq<char>) -> (u16, Seq<char>) {
    if expected.len() == 0 {
        (500, "Authentication not configured"@)
    } else if form_token(form.token) != expected {
        (401, "Invalid authentication token"@)
    } else if form.file is None {
        (400, "No file provided"@)
    } else {
        (400, "Empty file provided"@)
    }
}

/// Checks a complete form: the configured token (empty when none is configured) must be
/// set and match the form's, and a non-empty file must be present.
pub fn check_upload(form: &UploadForm, expected_token: &str) -> (r: Result<(), HttpError>)
    ensures
        r is Ok <==> upload_acceptable(*form, expected_token@),
        r matches Err(e) ==> http_error(
            e,
            upload_refusal(*form, expected_token@).0,
            upload_refusal(*form, expected_token@).1,
        ),
{
    if expected_token.unicode_len() == 0 {
        return Err(
            HttpError { status: 500, message: String::from_str("Authentication not configured") },
        );
    }
    let provided = match &form.token {
        Some(t) => t.as_str(),
        None => "",
    };
    proof {
        reveal_strlit("");
    }
    if !str_eq(provided, expected_token) {
        return Err(
            HttpError { status: 401, message: String::from_str("Invalid authentication token") },
        );
    }
    match &form.file {
        None => Err(HttpError { status: 400, message: String::from_str("No file provided") }),
        Some(f) => if f.len() == 0 {
            Err(HttpError { status: 400, message: String::from_str("Empty file provided") })
        } else {
            Ok(())
        },
    }
}

/// A lowercase hexadecimal digit.
pub open spec fn is_lower_hex(c: char) -> bool {
    ('0' <= c && c <= '9') || ('a' <= c && c <= 'f')
}

/// The hyphenated lowercase text of a random (version 4, RFC 4122 variant) UUID,
/// e.g. `"67e55044-10b1-426f-9247-bb680e5fe0c8"`.
pub open spec fn is_v4_uuid_text(s: Seq<char>) -> bool {
    &&& s.len() == 36
    &&& forall|i: int|
        0 <= i < 36 ==> if i == 8 || i == 13 || i == 18 || i == 23 {
            #[trigger] s[i] == '-'
        } else {
            is_lower_hex(s[i])
        }
    &&& s[14] == '4'
    &&& (s[19] == '8' || s[19] == '9' || s[19] == 'a' || s[19] == 'b')
}

/// A fresh job id (uuid `Uuid::new_v4().to_string()`).
/// Trusted: the id is random; uuid's source sets the version nibble to 4 and the variant
/// bits to `10`, and `Display` writes the hyphenated lowercase form.
#[verifier::external_body]
fn new_job_id() -> (r: String)
    ensures
        is_v4_uuid_text(r@),
{
    uuid::Uuid::new_v4().to_string()
}

/// The answer that tells the client its job has started.
pub open spec fn started_message() -> Seq<char> {
    "Similarity job started. Connect to WebSocket for updates."@
}

/// The immediate answer to an accepted upload whose job is `job_id`.
pub fn upload_response(job_id: String) -> (r: TranscriptionUploadResponse)
    ensures
        r.uuid == job_id,
        r.status@ == "processing"@,
        r.message@ == started_message(),
{
    TranscriptionUploadResponse {
        uuid: job_id,
        status: String::from_str("processing"),
        message: String::from_str("Similarity job started. Connect to WebSocket for updates."),
    }
}

/// Checks a complete form and, when it passes, gives the job a fresh id and answers with it.
pub fn start_upload(form: UploadForm, expected_token: &str) -> (r: Result<
    (AcceptedUpload, TranscriptionUploadResponse),
    HttpError,
>)
    ensures
        r is Ok <==> upload_acceptable(form, expected_token@),
        r matches Err(e) ==> http_error(
            e,
            upload_refusal(form, expected_token@).0,
            upload_refusal(form, expected_token@).1,
        ),
        r matches Ok((job, answer)) ==> {
            &&& is_v4_uuid_text(job.job_id@)
            &&& form.file == Some(job.file)
            &&& job.apply_noise_removal == form.apply_noise_removal
            &&& job.model_type == form.model_type
            &&& answer.uuid == job.job_id
            &&& answer.status@ == "processing"@
            &&& answer.message@ == started_message()
        },
{
    match check_upload(&form, expected_token) {
        Err(e) => Err(e),
        Ok(()) => {
            let file = match form.file {
                Some(f) => f,
                None => Vec::new(),
            };
            let job_id = new_job_id();
            let answer = upload_response(job_id.clone());
            Ok(
                (
                    AcceptedUpload {
                        job_id,
                        file,
                        apply_noise_removal: form.apply_noise_removal,
                        model_type: form.model_type,
                    },
                    answer,
                ),
            )
        },
    }
}

// ---------------------------------------------------------------------------
// The WhisperX service exchange
// ---------------------------------------------------------------------------

/// Seconds the WhisperX client waits for a reply.
pub const WHISPERX_SERVICE_TIMEOUT_SECS: u64 = 300;

/// The base URL of the WhisperX service: the configured URL, or the local default.
pub fn whisperx_service_url(setting: Option<String>) -> (r: String)
    ensures
        r@ == (match setting {
            Some(s) => s@,
            None => "http://127.0.0.1:8001"@,
        }),
{
    match setting {
        Some(s) => s,
        None => String::from_str("http://127.0.0.1:8001"),
    }
}

/// The transcription endpoint under the WhisperX service's base URL.
pub fn transcribe_endpoint(base: &str) -> (r: String)
    ensures
        r@ == base@ + "/transcribe"@,
{
    concatenate(base, "/transcribe")
}

/// The fields of a transcription request: the audio file, the job id, where the service
/// writes its output and which formats it writes (all of them).
pub fn whisperx_payload(audio_path: &str, uuid: &str) -> (r: Vec<(String, String)>)
    ensures
        r@.len() == 4,
        r@[0].0@ == "audio_file"@ && r@[0].1@ == audio_path@,
        r@[1].0@ == "uuid"@ && r@[1].1@ == uuid@,
        r@[2].0@ == "output_dir"@ && r@[2].1@ == "/tmp"@,
        r@[3].0@ == "output_format"@ && r@[3].1@ == "all"@,
{
    let mut r: Vec<(String, String)> = Vec::new();
    r.push((String::from_str("audio_file"), String::from_str(audio_path)));
    r.push((String::from_str("uuid"), String::from_str(uuid)));
    r.push((String::from_str("output_dir"), String::from_str("/tmp")));
    r.push((String::from_str("output_format"), String::from_str("all")));
    r
}

/// The WhisperX reply body. `output_files` holds the entries of the JSON object that maps
/// each format to its file, so no two entries share a key (see `wf`).
pub struct WhisperXReply {
    pub success: bool,
    pub output_files: Option<Vec<(String, String)>>,
    pub language: Option<String>,
    pub error: Option<String>,
}

/// No two entries share a key.
pub open spec fn distinct_keys(files: Seq<(String, String)>) -> bool {
    forall|i: int, j: int| 0 <= i < j < files.len() ==> #[trigger] files[i].0@ != #[trigger] files[j].0@
}

impl WhisperXReply {
    /// The output files are keyed by format, each format once, as in a JSON object.
    pub open spec fn wf(&self) -> bool {
        match self.output_files {
            Some(files) => distinct_keys(files@),
            None => true,
        }
    }

    /// Whether no two output files share a format.
    pub fn has_distinct_keys(&self) -> (r: bool)
        ensures
            r == self.wf(),
    {
        match &self.output_files {
            Some(files) => keys_distinct(files),
            None => true,
        }
    }
}

fn keys_distinct(files: &Vec<(String, String)>) -> (r: bool)
    ensures
        r == distinct_keys(files@),
{
    let mut j: usize = 0;
    while j < files.len()
        invariant
            j <= files@.len(),
            forall|a: int, b: int|
                0 <= a < b < j ==> #[trigger] files@[a].0@ != #[trigger] files@[b].0@,
        decreases files.len() - j,
    {
        let mut i: usize = 0;
        while i < j
            invariant
                i <= j < files@.len(),
                forall|a: int, b: int|
                    0 <= a < b < j ==> #[trigger] files@[a].0@ != #[trigger] files@[b].0@,
                forall|a: int| 0 <= a < i ==> #[trigger] files@[a].0@ != files@[j as int].0@,
            decreases j - i,
        {
            if str_eq(files[i].0.as_str(), files[j].0.as_str()) {
                assert(files@[i as int].0@ == files@[j as int].0@);
                return false;
            }
            i = i + 1;
        }
        j = j + 1;
    }
    true
}

/// With no key twice, what `lookup` finds for an entry's key is that entry's value,
/// wherever the entry stands.
pub proof fn lemma_lookup_finds_the_entry(files: Seq<(String, String)>, i: int)
    requires
        distinct_keys(files),
        0 <= i < files.len(),
    ensures
        lookup(files, files[i].0@) == Some(files[i].1),
    decreases files.len(),
{
    if i > 0 {
        assert(files[0].0@ != files[i].0@);
        let rest = files.drop_first();
        assert forall|a: int, b: int| 0 <= a < b < rest.len() implies #[trigger] rest[a].0@
            != #[trigger] rest[b].0@ by {
            assert(rest[a] == files[a + 1]);
            assert(rest[b] == files[b + 1]);
        }
        assert(rest[i - 1] == files[i]);
        lemma_lookup_finds_the_entry(rest, i - 1);
    }
}

/// The paths of the five files a transcription writes.
pub struct OutputFiles {
    pub txt: String,
    pub vtt: String,
    pub srt: String,
    pub json: String,
    pub tsv: String,
}

/// The value of the first entry with key `key`.
pub open spec fn lookup(files: Seq<(String, String)>, key: Seq<char>) -> Option<String>
    decreases files.len(),
{
    if files.len() == 0 {
        None
    } else if files[0].0@ == key {
        Some(files[0].1)
    } else {
        lookup(files.drop_first(), key)
    }
}

/// The path that `files` gives for `key`.
pub fn find_output(files: &Vec<(String, String)>, key: &str) -> (r: Option<String>)
    ensures
        r == lookup(files@, key@),
{
    let mut i: usize = 0;
    assert(files@.skip(0) =~= files@);
    while i < files.len()
        invariant
            i <= files@.len(),
            lookup(files@, key@) == lookup(files@.skip(i as int), key@),
        decreases files.len() - i,
    {
        assert(files@.skip(i as int).drop_first() =~= files@.skip(i + 1));
        assert(files@.skip(i as int)[0] == files@[i as int]);
        if str_eq(files[i].0.as_str(), key) {
            return Some(files[i].1.clone());
        }
        i = i + 1;
    }
    None
}

/// The reply text or `"Unknown error"`.
pub open spec fn error_or_unknown(e: Option<String>) -> Seq<char> {
    match e {
        Some(m) => m@,
        None => "Unknown error"@,
    }
}

/// What a parsed WhisperX reply yields: the five output paths, or the first thing missing.
pub open spec fn reply_files(reply: WhisperXReply) -> Result<OutputFiles, Seq<char>> {
    if !reply.success {
        Err("WhisperX transcription failed: "@ + error_or_unknown(reply.error))
    } else {
        match reply.output_files {
            None => Err("WhisperX response missing output_files"@),
            Some(files) => match (
                lookup(files@, "txt"@),
                lookup(files@, "vtt"@),
                lookup(files@, "srt"@),
                lookup(files@, "json"@),
                lookup(files@, "tsv"@),
            ) {
                (None, _, _, _, _) => Err("Missing txt file in WhisperX response"@),
                (_, None, _, _, _) => Err("Missing vtt file in WhisperX response"@),
                (_, _, None, _, _) => Err("Missing srt file in WhisperX response"@),
                (_, _, _, None, _) => Err("Missing json file in WhisperX response"@),
                (_, _, _, _, None) => Err("Missing tsv file in WhisperX response"@),
                (Some(txt), Some(vtt), Some(srt), Some(json), Some(tsv)) => Ok(
                    OutputFiles { txt, vtt, srt, json, tsv },
                ),
            },
        }
    }
}

/// What `lookup` finds is an entry under the key looked up.
pub proof fn lemma_lookup_is_an_entry(files: Seq<(String, String)>, key: Seq<char>)
    requires
        lookup(files, key) is Some,
    ensures
        exists|i: int|
            0 <= i < files.len() && #[trigger] files[i].0@ == key && files[i].1 == lookup(
                files,
                key,
            ).unwrap(),
    decreases files.len(),
{
    if files[0].0@ == key {
        assert(files[0].0@ == key);
    } else {
        let rest = files.drop_first();
        lemma_lookup_is_an_entry(rest, key);
        let j = choose|j: int|
            0 <= j < rest.len() && #[trigger] rest[j].0@ == key && rest[j].1 == lookup(
                rest,
                key,
            ).unwrap();
        assert(files[j + 1] == rest[j]);
    }
}

/// An entry of `entries` stands under `key` with value `path`.
pub open spec fn has_entry(entries: Seq<(String, String)>, key: Seq<char>, path: String) -> bool {
    exists|i: int| 0 <= i < entries.len() && #[trigger] entries[i].0@ == key && entries[i].1 == path
}

/// The outputs of a usable reply come from its entries, each under the key of its own
/// format: the text file under `txt`, the WebVTT file under `vtt`, the SubRip file under
/// `srt`, the JSON file under `json` and the TSV file under `tsv`.
pub proof fn lemma_outputs_are_entries_under_their_keys(reply: WhisperXReply, files: OutputFiles)
    requires
        reply_files(reply) == Ok::<OutputFiles, Seq<char>>(files),
    ensures
        reply.success,
        reply.output_files is Some,
        has_entry(reply.output_files.unwrap()@, "txt"@, files.txt),
        has_entry(reply.output_files.unwrap()@, "vtt"@, files.vtt),
        has_entry(reply.output_files.unwrap()@, "srt"@, files.srt),
        has_entry(reply.output_files.unwrap()@, "json"@, files.json),
        has_entry(reply.output_files.unwrap()@, "tsv"@, files.tsv),
{
    let entries = reply.output_files.unwrap()@;
    lemma_lookup_is_an_entry(entries, "txt"@);
    lemma_lookup_is_an_entry(entries, "vtt"@);
    lemma_lookup_is_an_entry(entries, "srt"@);
    lemma_lookup_is_an_entry(entries, "json"@);
    lemma_lookup_is_an_entry(entries, "tsv"@);
}

/// With each format keyed once, each output path of a usable reply is the reply's one
/// entry under that format's key, wherever it stands.
pub proof fn lemma_outputs_follow_their_keys(reply: WhisperXReply, files: OutputFiles, i: int)
    requires
        reply.wf(),
        reply_files(reply) == Ok::<OutputFiles, Seq<char>>(files),
        reply.output_files is Some,
        0 <= i < reply.output_files.unwrap()@.len(),
    ensures
        reply.output_files.unwrap()@[i].0@ == "txt"@ ==> files.txt == reply.output_files.unwrap()@[i].1,
        reply.output_files.unwrap()@[i].0@ == "vtt"@ ==> files.vtt == reply.output_files.unwrap()@[i].1,
        reply.output_files.unwrap()@[i].0@ == "srt"@ ==> files.srt == reply.output_files.unwrap()@[i].1,
        reply.output_files.unwrap()@[i].0@ == "json"@ ==> files.json == reply.output_files.unwrap()@[i].1,
        reply.output_files.unwrap()@[i].0@ == "tsv"@ ==> files.tsv == reply.output_files.unwrap()@[i].1,
{
    lemma_lookup_finds_the_entry(reply.output_files.unwrap()@, i);
}

/// An outcome with the error message as a string's characters.
pub open spec fn files_view(r: Result<OutputFiles, String>) -> Result<OutputFiles, Seq<char>> {
    match r {
        Ok(f) => Ok(f),
        Err(e) => Err(e@),
    }
}

/// Reads the output paths out of a parsed WhisperX reply.
pub fn whisperx_reply_files(reply: &WhisperXReply) -> (r: Result<OutputFiles, String>)
    requires
        reply.wf(),
    ensures
        files_view(r) == reply_files(*reply),
        r matches Ok(f) ==> {
            &&& reply.output_files is Some
            &&& has_entry(reply.output_files.unwrap()@, "txt"@, f.txt)
            &&& has_entry(reply.output_files.unwrap()@, "vtt"@, f.vtt)
            &&& has_entry(reply.output_files.unwrap()@, "srt"@, f.srt)
            &&& has_entry(reply.output_files.unwrap()@, "json"@, f.json)
            &&& has_entry(reply.output_files.unwrap()@, "tsv"@, f.tsv)
        },
{
    if !reply.success {
        let e = match &reply.error {
            Some(m) => m.clone(),
            None => String::from_str("Unknown error"),
        };
        return Err(concatenate("WhisperX transcription failed: ", e.as_str()));
    }
    let r = match &reply.output_files {
        None => Err(String::from_str("WhisperX response missing output_files")),
        Some(files) => {
            let txt = find_output(files, "txt");
            let vtt = find_output(files, "vtt");
            let srt = find_output(files, "srt");
            let json = find_output(files, "json");
            let tsv = find_output(files, "tsv");
            match txt {
                None => Err(String::from_str("Missing txt file in WhisperX response")),
                Some(txt) => match vtt {
                    None => Err(String::from_str("Missing vtt file in WhisperX response")),
                    Some(vtt) => match srt {
                        None => Err(String::from_str("Missing srt file in WhisperX response")),
                        Some(srt) => match json {
                            None => Err(String::from_str("Missing json file in WhisperX response")),
                            Some(json) => match tsv {
                                None => Err(
                                    String::from_str("Missing tsv file in WhisperX response"),
                                ),
                                Some(tsv) => Ok(OutputFiles { txt, vtt, srt, json, tsv }),
                            },
                        },
                    },
                },
            }
        },
    };
    proof {
        if r is Ok {
            lemma_outputs_are_entries_under_their_keys(*reply, r->Ok_0);
        }
    }
    r
}

/// The WhisperX client's message for a reply whose status is not a success, given the status
/// as text and the reply body.
pub fn whisperx_status_error(status: &str, body: &Option<String>) -> (r: String)
    ensures
        r@ == "WhisperX service error: "@ + status@ + " - "@ + body_or_unknown(*body),
{
    let b = match body {
        Some(b) => b.clone(),
        None => String::from_str("Unknown error"),
    };
    let m = concatenate("WhisperX service error: ", status);
    let m = concatenate(m.as_str(), " - ");
    concatenate(m.as_str(), b.as_str())
}

/// What a transcription request to WhisperX yields: `reply` is `None` when the request
/// could not be sent, `parsed` the reply body read as a WhisperX reply.
pub open spec fn whisperx_result(reply: Option<HttpReply>, parsed: Option<WhisperXReply>)
    -> Result<OutputFiles, Seq<char>> {
    match reply {
        None => Err("Failed to send request to WhisperX service"@),
        Some(r) => if !is_success_status(r.status) {
            Err("WhisperX service error: "@ + crate::detection::status_text(r.status) + " - "@
                + body_or_unknown(r.body))
        } else {
            match parsed {
                None => Err("Failed to parse WhisperX response"@),
                Some(p) => reply_files(p),
            }
        },
    }
}

/// Decides what a WhisperX reply yields.
pub fn whisperx_outcome(reply: Option<HttpReply>, parsed: Option<WhisperXReply>) -> (r: Result<
    OutputFiles,
    String,
>)
    requires
        crate::detection::valid_reply(reply),
        parsed matches Some(p) ==> p.wf(),
    ensures
        files_view(r) == whisperx_result(reply, parsed),
        r matches Ok(f) ==> {
            &&& reply matches Some(rep) && is_success_status(rep.status)
            &&& parsed matches Some(p) && p.success && p.output_files is Some
            &&& has_entry(parsed.unwrap().output_files.unwrap()@, "txt"@, f.txt)
            &&& has_entry(parsed.unwrap().output_files.unwrap()@, "vtt"@, f.vtt)
            &&& has_entry(parsed.unwrap().output_files.unwrap()@, "srt"@, f.srt)
            &&& has_entry(parsed.unwrap().output_files.unwrap()@, "json"@, f.json)
            &&& has_entry(parsed.unwrap().output_files.unwrap()@, "tsv"@, f.tsv)
        },
{
    match reply {
        None => Err(String::from_str("Failed to send request to WhisperX service")),
        Some(rep) => {
            if !status_is_success(rep.status) {
                let status = status_line(rep.status);
                assert(status@ == crate::detection::status_text(rep.status));
                Err(whisperx_status_error(status.as_str(), &rep.body))
            } else {
                match parsed {
                    None => Err(String::from_str("Failed to parse WhisperX response")),
                    Some(p) => whisperx_reply_files(&p),
                }
            }
        },
    }
}

/// A WhisperX exchange yields files only from a reply with a success status whose body
/// reads as a successful transcription; then the files are those the body lists under
/// their formats' keys.
pub proof fn lemma_whisperx_files_come_from_a_good_reply(
    reply: Option<HttpReply>,
    parsed: Option<WhisperXReply>,
    files: OutputFiles,
)
    requires
        whisperx_result(reply, parsed) == Ok::<OutputFiles, Seq<char>>(files),
    ensures
        reply matches Some(r) && is_success_status(r.status),
        parsed matches Some(p) && p.success && p.output_files is Some,
        has_entry(parsed.unwrap().output_files.unwrap()@, "txt"@, files.txt),
        has_entry(parsed.unwrap().output_files.unwrap()@, "vtt"@, files.vtt),
        has_entry(parsed.unwrap().output_files.unwrap()@, "srt"@, files.srt),
        has_entry(parsed.unwrap().output_files.unwrap()@, "json"@, files.json),
        has_entry(parsed.unwrap().output_files.unwrap()@, "tsv"@, files.tsv),
{
    lemma_outputs_are_entries_under_their_keys(parsed.unwrap(), files);
}

/// Each field a part can fill is filled by the part named with the field's label, and only
/// by it: reading a part's name and naming a field are inverse.
pub proof fn lemma_field_names_round_trip(field: UploadField, name: Seq<char>)
    ensures
        field != UploadField::Other ==> field_of(field_label(field)) == field,
        field_of(name) != UploadField::Other ==> name == field_label(field_of(name)),
{
    reveal_strlit("token");
    reveal_strlit("file");
    reveal_strlit("model");
    reveal_strlit("priority");
    reveal_strlit("apply_noise_removal");
    reveal_strlit("model_type");
    assert("token"@.len() == 5 && "file"@.len() == 4 && "model"@.len() == 5 && "priority"@.len()
        == 8 && "apply_noise_removal"@.len() == 19 && "model_type"@.len() == 10);
    assert("token"@[0] != "model"@[0]);
}

/// Who may upload: with a token configured, a form that carries it and a non-empty file is
/// accepted; a form with another token, or none, is refused as unauthorized whatever its
/// file; without a configured token every upload is refused as a server error.
pub proof fn lemma_upload_gate(form: UploadForm, expected: Seq<char>)
    ensures
        expected.len() > 0 && (form.token matches Some(t) && t@ == expected) && (
        form.file matches Some(f) && f@.len() > 0) ==> upload_acceptable(form, expected),
        expected.len() > 0 && !(form.token matches Some(t) && t@ == expected) ==> !upload_acceptable(
            form,
            expected,
        ) && upload_refusal(form, expected).0 == 401,
        expected.len() == 0 ==> !upload_acceptable(form, expected) && upload_refusal(
            form,
            expected,
        ).0 == 500,
        upload_token_accepted(expected, form.token) && form.file is None ==> upload_refusal(
            form,
            expected,
        ).0 == 400,
{
}

/// The five output files, in the order they are read.
pub enum OutputKind {
    Text,
    Vtt,
    Srt,
    Json,
    Tsv,
}

/// The message when an output file could not be read.
pub open spec fn read_failure_message(kind: OutputKind) -> Seq<char> {
    match kind {
        OutputKind::Text => "Failed to read transcription text file"@,
        OutputKind::Vtt => "Failed to read VTT file"@,
        OutputKind::Srt => "Failed to read SRT file"@,
        OutputKind::Json => "Failed to read JSON file"@,
        OutputKind::Tsv => "Failed to read TSV file"@,
    }
}

/// The message when the output file of `kind` could not be read.
pub fn read_failure(kind: OutputKind) -> (r: String)
    ensures
        r@ == read_failure_message(kind),
{
    match kind {
        OutputKind::Text => String::from_str("Failed to read transcription text file"),
        OutputKind::Vtt => String::from_str("Failed to read VTT file"),
        OutputKind::Srt => String::from_str("Failed to read SRT file"),
        OutputKind::Json => String::from_str("Failed to read JSON file"),
        OutputKind::Tsv => String::from_str("Failed to read TSV file"),
    }
}

/// The result of a finished transcription from the contents of its output files: the
/// plain text loses its surrounding white space, the other formats are kept as read.
pub fn assemble_transcription(
    uuid: &str,
    text: &str,
    vtt: String,
    srt: String,
    json_file: String,
    tsv: String,
    duration_secs: u64,
    duration_subsec_nanos: u32,
    language: Option<String>,
) -> (r: TranscriptionResult)
    ensures
        r.uuid@ == uuid@,
        r.transcription@ == trimmed(text@),
        r.vtt == vtt,
        r.srt == srt,
        r.json_file == json_file,
        r.tsv == tsv,
        r.duration_secs == duration_secs,
        r.duration_subsec_nanos == duration_subsec_nanos,
        r.language == language,
{
    TranscriptionResult {
        uuid: String::from_str(uuid),
        transcription: trim(text),
        vtt,
        srt,
        json_file,
        tsv,
        duration_secs,
        duration_subsec_nanos,
        language,
    }
}

} // verus!
