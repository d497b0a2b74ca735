//! # Files API Models
//!
//! Files uploaded for fine-tuning, the Assistants API, batch processing, vision
//! and general storage; their purposes, upload validation and listing parameters.

use vstd::prelude::*;
use crate::text::{
    pairs_view,
    chars_of, decimal, digit_char, ends_with, has_suffix, lowercase, push_char, push_decimal,
    str_eq, to_lowercase, u64_to_string, unit_result_view, push_opt, opt_chars, lemma_push_opt_contains,
};

verus! {

broadcast use vstd::string::group_string_axioms;

/// Largest file the API accepts, in bytes (200 MiB).
pub const MAX_FILE_SIZE: usize = 209715200;

// ─── Human-readable sizes ────────────────────────────────────────────────────

/// `n / d` rounded to the nearest integer, ties to the even one.
pub open spec fn round_half_even(n: nat, d: nat) -> nat
    recommends
        d > 0,
{
    let q = n / d;
    let r = n % d;
    if 2 * r > d || (2 * r == d && q % 2 == 1) {
        (q + 1) as nat
    } else {
        q
    }
}

/// `2^n`.
pub open spec fn two_pow(n: nat) -> nat
    decreases n,
{
    if n == 0 {
        1
    } else {
        2 * two_pow((n - 1) as nat)
    }
}

/// The number of low bits that an `f64` drops from `b`: the least `s` with
/// `b < 2^(53 + s)`, searched from `s` upward (a `u64` needs at most 11).
pub open spec fn f64_shift_from(b: nat, s: nat) -> nat
    decreases 11 - s,
{
    if s >= 11 || b < two_pow(53 + s) {
        s
    } else {
        f64_shift_from(b, s + 1)
    }
}

/// The value of `b as f64`: `b` rounded to 53 significant bits, ties to even.
pub open spec fn as_f64_value(b: nat) -> nat {
    let s = f64_shift_from(b, 0);
    round_half_even(b, two_pow(s)) * two_pow(s)
}

/// `x / d` written with one decimal, as `format!("{:.1}", ..)` writes the exact quotient.
pub open spec fn one_decimal(x: nat, d: nat) -> Seq<char> {
    let t = round_half_even(10 * x, d);
    decimal(t / 10) + seq!['.'] + seq![digit_char(t % 10)]
}

/// What `bytes_to_human_readable` writes for `b` bytes.
pub open spec fn human_readable(b: nat) -> Seq<char> {
    let x = as_f64_value(b);
    if x < 1024 {
        decimal(x) + " B"@
    } else if x < 1048576 {
        one_decimal(x, 1024) + " KB"@
    } else if x < 1073741824 {
        one_decimal(x, 1048576) + " MB"@
    } else {
        one_decimal(x, 1073741824) + " GB"@
    }
}

proof fn lemma_two_pow_step(n: nat)
    ensures
        two_pow(n + 1) == 2 * two_pow(n),
{
    reveal_with_fuel(two_pow, 2);
}

proof fn lemma_two_pow_53()
    ensures
        two_pow(53) == 0x20000000000000,
{
    reveal_with_fuel(two_pow, 54);
}

proof fn lemma_two_pow_pos(n: nat)
    ensures
        two_pow(n) >= 1,
    decreases n,
{
    if n > 0 {
        lemma_two_pow_pos((n - 1) as nat);
    }
}

/// `n / d` rounded to the nearest integer, ties to even.
fn round_half_even_exec(n: u128, d: u128) -> (r: u128)
    requires
        d > 0,
        n < u128::MAX / 2,
    ensures
        r == round_half_even(n as nat, d as nat),
{
    let q = n / d;
    let rem = n % d;
    if rem > d - rem || (rem == d - rem && q % 2 == 1) {
        q + 1
    } else {
        q
    }
}

/// The value of `b as f64`, exactly, as an integer.
fn as_f64_exec(b: u64) -> (x: u128)
    ensures
        x == as_f64_value(b as nat),
        x <= 0x1_0000_0000_0000_0000 * 2048 + 2048,
{
    let mut s: u32 = 0;
    let mut p: u128 = 1;
    let mut lim: u128 = 0x20000000000000;
    proof {
        lemma_two_pow_53();
        reveal_with_fuel(two_pow, 1);
    }
    while s < 11 && (b as u128) >= lim
        invariant
            s <= 11,
            p == two_pow(s as nat),
            lim == two_pow(53 + s as nat),
            1 <= p <= 2048,
            lim == 0x20000000000000 * p,
            f64_shift_from(b as nat, 0) == f64_shift_from(b as nat, s as nat),
        decreases 11 - s,
    {
        proof {
            lemma_two_pow_step(s as nat);
            lemma_two_pow_step(53 + s as nat);
            assert(p <= 1024) by {
                if s <= 10 {
                    reveal_with_fuel(two_pow, 12);
                    assert(two_pow(10) == 1024);
                    lemma_two_pow_mono(s as nat, 10);
                }
            }
        }
        p = p * 2;
        lim = lim * 2;
        s = s + 1;
    }
    let q = round_half_even_exec(b as u128, p);
    proof {
        assert(q <= b as u128 + 1) by (nonlinear_arith)
            requires
                q == round_half_even(b as nat, p as nat),
                p >= 1,
        {}
        assert(q * p <= (0x1_0000_0000_0000_0000 + 1) * 2048) by (nonlinear_arith)
            requires
                q <= 0x1_0000_0000_0000_0000,
                p <= 2048,
        {}
    }
    q * p
}

proof fn lemma_two_pow_mono(a: nat, b: nat)
    requires
        a <= b,
    ensures
        two_pow(a) <= two_pow(b),
    decreases b - a,
{
    if a < b {
        lemma_two_pow_mono(a, (b - 1) as nat);
        lemma_two_pow_step((b - 1) as nat);
        lemma_two_pow_pos((b - 1) as nat);
    }
}

/// Appends `x / d` with one decimal.
fn push_one_decimal(out: &mut String, x: u128, d: u128)
    requires
        d >= 1024,
        x <= 0x1_0000_0000_0000_0000 * 2048 + 2048,
    ensures
        final(out)@ == old(out)@ + one_decimal(x as nat, d as nat),
{
    let t = round_half_even_exec(10 * x, d);
    push_decimal(out, t / 10);
    push_char(out, '.');
    let last: char = digit_of(t % 10);
    push_char(out, last);
}

fn digit_of(d: u128) -> (c: char)
    requires
        d < 10,
    ensures
        c == digit_char(d as nat),
{
    let b: u8 = 48u8 + (d as u8);
    b as char
}

/// Convert bytes to human-readable format ("300 B", "1.0 KB", "2.5 MB", "1.0 GB").
///
/// The size is taken as an `f64`, so above 2^53 bytes it is first rounded to 53
/// significant bits; the quotient is written with one decimal, ties to even.
pub fn bytes_to_human_readable(bytes: u64) -> (r: String)
    ensures
        r@ == human_readable(bytes as nat),
{
    let x = as_f64_exec(bytes);
    let mut r = String::new();
    if x < 1024 {
        push_decimal(&mut r, x);
        r.append(" B");
    } else if x < 1048576 {
        push_one_decimal(&mut r, x, 1024);
        r.append(" KB");
    } else if x < 1073741824 {
        push_one_decimal(&mut r, x, 1048576);
        r.append(" MB");
    } else {
        push_one_decimal(&mut r, x, 1073741824);
        r.append(" GB");
    }
    r
}


// ─── Purposes and statuses ───────────────────────────────────────────────────

/// Purpose for which a file is being uploaded
#[derive(Debug, Clone, PartialEq, Eq, Structural)]
pub enum FilePurpose {
    /// Fine-tuning training data
    FineTune,
    /// Files for Assistants API (retrieval, knowledge base)
    Assistants,
    /// Batch processing input files
    Batch,
    /// General user data storage
    UserData,
    /// API response storage
    Responses,
    /// Vision/image analysis files
    Vision,
    /// Fine-tuning results and outputs
    FineTuneResults,
    /// Assistants retrieval files
    AssistantsOutput,
}

/// The name under which the API knows a purpose.
pub open spec fn purpose_name(p: FilePurpose) -> Seq<char> {
    match p {
        FilePurpose::FineTune => "fine-tune"@,
        FilePurpose::Assistants => "assistants"@,
        FilePurpose::Batch => "batch"@,
        FilePurpose::UserData => "user_data"@,
        FilePurpose::Responses => "responses"@,
        FilePurpose::Vision => "vision"@,
        FilePurpose::FineTuneResults => "fine-tune-results"@,
        FilePurpose::AssistantsOutput => "assistants_output"@,
    }
}

/// The purpose whose name is `s`, if any.
pub open spec fn purpose_from_name(s: Seq<char>) -> Option<FilePurpose> {
    if s == "fine-tune"@ {
        Some(FilePurpose::FineTune)
    } else if s == "assistants"@ {
        Some(FilePurpose::Assistants)
    } else if s == "batch"@ {
        Some(FilePurpose::Batch)
    } else if s == "user_data"@ {
        Some(FilePurpose::UserData)
    } else if s == "responses"@ {
        Some(FilePurpose::Responses)
    } else if s == "vision"@ {
        Some(FilePurpose::Vision)
    } else if s == "fine-tune-results"@ {
        Some(FilePurpose::FineTuneResults)
    } else if s == "assistants_output"@ {
        Some(FilePurpose::AssistantsOutput)
    } else {
        None
    }
}

impl FilePurpose {
    /// The purpose's name, as `Display` writes it.
    pub fn as_str(&self) -> (r: &'static str)
        ensures
            r@ == purpose_name(*self),
    {
        match self {
            FilePurpose::FineTune => "fine-tune",
            FilePurpose::Assistants => "assistants",
            FilePurpose::Batch => "batch",
            FilePurpose::UserData => "user_data",
            FilePurpose::Responses => "responses",
            FilePurpose::Vision => "vision",
            FilePurpose::FineTuneResults => "fine-tune-results",
            FilePurpose::AssistantsOutput => "assistants_output",
        }
    }

    /// The purpose's name as an owned string.
    pub fn to_string(&self) -> (r: String)
        ensures
            r@ == purpose_name(*self),
    {
        String::from_str(self.as_str())
    }

    /// Parse a purpose from its name.
    pub fn from_str(s: &str) -> (r: Result<FilePurpose, String>)
        ensures
            match r {
                Ok(p) => purpose_from_name(s@) == Some(p),
                Err(e) => purpose_from_name(s@) is None && e@ == "Unknown file purpose: "@ + s@,
            },
    {
        if str_eq(s, "fine-tune") {
            Ok(FilePurpose::FineTune)
        } else if str_eq(s, "assistants") {
            Ok(FilePurpose::Assistants)
        } else if str_eq(s, "batch") {
            Ok(FilePurpose::Batch)
        } else if str_eq(s, "user_data") {
            Ok(FilePurpose::UserData)
        } else if str_eq(s, "responses") {
            Ok(FilePurpose::Responses)
        } else if str_eq(s, "vision") {
            Ok(FilePurpose::Vision)
        } else if str_eq(s, "fine-tune-results") {
            Ok(FilePurpose::FineTuneResults)
        } else if str_eq(s, "assistants_output") {
            Ok(FilePurpose::AssistantsOutput)
        } else {
            let mut e = String::from_str("Unknown file purpose: ");
            e.append(s);
            Err(e)
        }
    }

    /// Returns all valid file purposes
    pub fn all() -> (r: Vec<FilePurpose>)
        ensures
            r@ == seq![
                FilePurpose::FineTune,
                FilePurpose::Assistants,
                FilePurpose::Batch,
                FilePurpose::UserData,
                FilePurpose::Responses,
                FilePurpose::Vision,
                FilePurpose::FineTuneResults,
                FilePurpose::AssistantsOutput,
            ],
    {
        let mut r = Vec::new();
        r.push(FilePurpose::FineTune);
        r.push(FilePurpose::Assistants);
        r.push(FilePurpose::Batch);
        r.push(FilePurpose::UserData);
        r.push(FilePurpose::Responses);
        r.push(FilePurpose::Vision);
        r.push(FilePurpose::FineTuneResults);
        r.push(FilePurpose::AssistantsOutput);
        r
    }

    /// Check if this purpose supports text files
    pub fn supports_text(&self) -> (r: bool)
        ensures
            r == (*self is FineTune || *self is Assistants || *self is Batch || *self is UserData
                || *self is Responses),
    {
        match self {
            FilePurpose::FineTune | FilePurpose::Assistants | FilePurpose::Batch
            | FilePurpose::UserData | FilePurpose::Responses => true,
            _ => false,
        }
    }

    /// Check if this purpose supports image files
    pub fn supports_images(&self) -> (r: bool)
        ensures
            r == (*self is Vision || *self is UserData),
    {
        match self {
            FilePurpose::Vision | FilePurpose::UserData => true,
            _ => false,
        }
    }
}

/// Every purpose's name parses back to the purpose.
pub proof fn lemma_purpose_name_round_trip(p: FilePurpose)
    ensures
        purpose_from_name(purpose_name(p)) == Some(p),
{
    reveal_strlit("fine-tune");
    reveal_strlit("assistants");
    reveal_strlit("batch");
    reveal_strlit("user_data");
    reveal_strlit("responses");
    reveal_strlit("vision");
    reveal_strlit("fine-tune-results");
    reveal_strlit("assistants_output");
    match p {
        FilePurpose::FineTune => {

        },
        FilePurpose::Assistants => {
            assert("assistants"@.len() != "fine-tune"@.len());
        },
        FilePurpose::Batch => {
            assert("batch"@.len() != "fine-tune"@.len());
            assert("batch"@.len() != "assistants"@.len());
        },
        FilePurpose::UserData => {
            assert("user_data"@[0] != "fine-tune"@[0]);
            assert("user_data"@.len() != "assistants"@.len());
            assert("user_data"@.len() != "batch"@.len());
        },
        FilePurpose::Responses => {
            assert("responses"@[0] != "fine-tune"@[0]);
            assert("responses"@.len() != "assistants"@.len());
            assert("responses"@.len() != "batch"@.len());
            assert("responses"@[0] != "user_data"@[0]);
        },
        FilePurpose::Vision => {
            assert("vision"@.len() != "fine-tune"@.len());
            assert("vision"@.len() != "assistants"@.len());
            assert("vision"@.len() != "batch"@.len());
            assert("vision"@.len() != "user_data"@.len());
            assert("vision"@.len() != "responses"@.len());
        },
        FilePurpose::FineTuneResults => {
            assert("fine-tune-results"@.len() != "fine-tune"@.len());
            assert("fine-tune-results"@.len() != "assistants"@.len());
            assert("fine-tune-results"@.len() != "batch"@.len());
            assert("fine-tune-results"@.len() != "user_data"@.len());
            assert("fine-tune-results"@.len() != "responses"@.len());
            assert("fine-tune-results"@.len() != "vision"@.len());
        },
        FilePurpose::AssistantsOutput => {
            assert("assistants_output"@.len() != "fine-tune"@.len());
            assert("assistants_output"@.len() != "assistants"@.len());
            assert("assistants_output"@.len() != "batch"@.len());
            assert("assistants_output"@.len() != "user_data"@.len());
            assert("assistants_output"@.len() != "responses"@.len());
            assert("assistants_output"@.len() != "vision"@.len());
            assert("assistants_output"@[0] != "fine-tune-results"@[0]);
        },
    }
}

/// Status of a file upload or processing
#[derive(Debug, Clone, PartialEq, Eq, Structural)]
pub enum FileStatus {
    /// File has been uploaded successfully
    Uploaded,
    /// File is being processed
    Processed,
    /// File processing failed
    Error,
    /// File has been deleted
    Deleted,
}

impl FileStatus {
    /// The status's name, as `Display` writes it.
    pub fn to_string(&self) -> (r: String)
        ensures
            r@ == match *self {
                FileStatus::Uploaded => "uploaded"@,
                FileStatus::Processed => "processed"@,
                FileStatus::Error => "error"@,
                FileStatus::Deleted => "deleted"@,
            },
    {
        match self {
            FileStatus::Uploaded => String::from_str("uploaded"),
            FileStatus::Processed => String::from_str("processed"),
            FileStatus::Error => String::from_str("error"),
            FileStatus::Deleted => String::from_str("deleted"),
        }
    }
}

// ─── File objects ────────────────────────────────────────────────────────────

/// Represents a file object in `OpenAI`'s system
#[derive(Debug, Clone)]
pub struct File {
    /// Unique identifier for the file
    pub id: String,
    /// The object type, which is always "file"
    pub object: String,
    /// The size of the file, in bytes
    pub bytes: u64,
    /// The Unix timestamp (in seconds) for when the file was created
    pub created_at: u64,
    /// The name of the file
    pub filename: String,
    /// The intended purpose of the file
    pub purpose: String,
    /// The current status of the file ("uploaded" when the API leaves it out)
    pub status: String,
    /// Additional details about the file's status, if available
    pub status_details: Option<String>,
}

impl File {
    /// Get the file purpose as a typed enum
    pub fn purpose_enum(&self) -> (r: Option<FilePurpose>)
        ensures
            r == purpose_from_name(self.purpose@),
    {
        match FilePurpose::from_str(self.purpose.as_str()) {
            Ok(p) => Some(p),
            Err(_) => None,
        }
    }

    /// Check if this file can be used for fine-tuning
    pub fn is_fine_tune_file(&self) -> (r: bool)
        ensures
            r == (self.purpose@ == "fine-tune"@),
    {
        str_eq(self.purpose.as_str(), "fine-tune")
    }

    /// Check if this file can be used with Assistants
    pub fn is_assistants_file(&self) -> (r: bool)
        ensures
            r == (self.purpose@ == "assistants"@),
    {
        str_eq(self.purpose.as_str(), "assistants")
    }

    /// Check if this file can be used for batch processing
    pub fn is_batch_file(&self) -> (r: bool)
        ensures
            r == (self.purpose@ == "batch"@),
    {
        str_eq(self.purpose.as_str(), "batch")
    }

    /// Get human-readable file size
    pub fn size_human_readable(&self) -> (r: String)
        ensures
            r@ == human_readable(self.bytes as nat),
    {
        bytes_to_human_readable(self.bytes)
    }

    /// Get the creation date as a formatted string: the platform's debug form of
    /// the time `created_at` seconds after the Unix epoch, or an empty string where
    /// the platform cannot represent that time
    pub fn created_at_formatted(&self) -> (r: String) {
        match unix_time(self.created_at) {
            Some(t) => debug_time(&t),
            None => String::new(),
        }
    }
}

/// A point in time, `std::time::SystemTime`, carried through unchanged
#[verifier::external_type_specification]
#[verifier::external_body]
pub struct ExSystemTime(std::time::SystemTime);

/// Calls `std::time::SystemTime::checked_add` on the Unix epoch with `secs`
/// seconds. Nothing is claimed of the result: the range of times that can be
/// represented depends on the platform.
#[verifier::external_body]
fn unix_time(secs: u64) -> (r: Option<std::time::SystemTime>) {
    std::time::UNIX_EPOCH.checked_add(std::time::Duration::from_secs(secs))
}

/// Formats a `std::time::SystemTime` with its `Debug` impl. Nothing is claimed of
/// the text: its form depends on the platform.
#[verifier::external_body]
fn debug_time(t: &std::time::SystemTime) -> (r: String) {
    format!("{t:?}")
}

// ─── Uploads ─────────────────────────────────────────────────────────────────

/// Request structure for uploading a file
#[derive(Debug, Clone)]
pub struct FileUploadRequest {
    /// The file content as bytes
    pub file: Vec<u8>,
    /// The name of the file being uploaded
    pub filename: String,
    /// The intended purpose of the file
    pub purpose: FilePurpose,
}

/// The extensions that vision uploads may carry (compared in lower case).
pub open spec fn is_image_name(lower: Seq<char>) -> bool {
    has_suffix(lower, ".png"@) || has_suffix(lower, ".jpg"@) || has_suffix(lower, ".jpeg"@)
        || has_suffix(lower, ".gif"@) || has_suffix(lower, ".webp"@)
}

/// What `FileUploadRequest::validate` decides for a file of `len` bytes named `name`.
pub open spec fn upload_check(len: nat, name: Seq<char>, purpose: FilePurpose) -> Result<(), Seq<char>> {
    if len == 0 {
        Err("File cannot be empty"@)
    } else if name.len() == 0 {
        Err("Filename cannot be empty"@)
    } else if len > MAX_FILE_SIZE {
        Err("File size "@ + decimal(len) + " exceeds maximum limit of "@ + decimal(
            MAX_FILE_SIZE as nat,
        ) + " bytes"@)
    } else {
        match purpose {
            FilePurpose::FineTune => if has_suffix(name, ".jsonl"@) {
                Ok(())
            } else {
                Err("Fine-tuning files must be in JSONL format"@)
            },
            FilePurpose::Batch => if has_suffix(name, ".jsonl"@) {
                Ok(())
            } else {
                Err("Batch files must be in JSONL format"@)
            },
            FilePurpose::Vision => if is_image_name(lowercase(name)) {
                Ok(())
            } else {
                Err("Vision files must be images (PNG, JPG, JPEG, GIF, WebP)"@)
            },
            _ => Ok(()),
        }
    }
}

/// The MIME type for a file whose lower-cased name is `lower`.
pub open spec fn mime_for(lower: Seq<char>) -> Seq<char> {
    if has_suffix(lower, ".jsonl"@) {
        "application/jsonl"@
    } else if has_suffix(lower, ".json"@) {
        "application/json"@
    } else if has_suffix(lower, ".txt"@) {
        "text/plain"@
    } else if has_suffix(lower, ".csv"@) {
        "text/csv"@
    } else if has_suffix(lower, ".png"@) {
        "image/png"@
    } else if has_suffix(lower, ".jpg"@) || has_suffix(lower, ".jpeg"@) {
        "image/jpeg"@
    } else if has_suffix(lower, ".gif"@) {
        "image/gif"@
    } else if has_suffix(lower, ".webp"@) {
        "image/webp"@
    } else if has_suffix(lower, ".pdf"@) {
        "application/pdf"@
    } else {
        "application/octet-stream"@
    }
}

/// The MIME type for a file name that is already in lower case.
pub fn mime_type_for_lowercase(lower: &str) -> (r: &'static str)
    ensures
        r@ == mime_for(lower@),
{
    if ends_with(lower, ".jsonl") {
        "application/jsonl"
    } else if ends_with(lower, ".json") {
        "application/json"
    } else if ends_with(lower, ".txt") {
        "text/plain"
    } else if ends_with(lower, ".csv") {
        "text/csv"
    } else if ends_with(lower, ".png") {
        "image/png"
    } else if ends_with(lower, ".jpg") || ends_with(lower, ".jpeg") {
        "image/jpeg"
    } else if ends_with(lower, ".gif") {
        "image/gif"
    } else if ends_with(lower, ".webp") {
        "image/webp"
    } else if ends_with(lower, ".pdf") {
        "application/pdf"
    } else {
        "application/octet-stream"
    }
}

/// Whether a lower-cased file name carries one of the image extensions.
pub fn is_image_file_name(lower: &str) -> (r: bool)
    ensures
        r == is_image_name(lower@),
{
    ends_with(lower, ".png") || ends_with(lower, ".jpg") || ends_with(lower, ".jpeg")
        || ends_with(lower, ".gif") || ends_with(lower, ".webp")
}

impl FileUploadRequest {
    /// Create a new file upload request
    pub fn new(file: Vec<u8>, filename: String, purpose: FilePurpose) -> (r: Self)
        ensures
            r.file == file,
            r.filename == filename,
            r.purpose == purpose,
    {
        Self { file, filename, purpose }
    }

    /// Validate the file upload request: the file and its name must not be empty, the
    /// file must not exceed 200 MiB, and fine-tuning, batch and vision files must carry
    /// the extensions those purposes accept.
    pub fn validate(&self) -> (r: Result<(), String>)
        ensures
            unit_result_view(r) == upload_check(
                self.file@.len(),
                self.filename@,
                self.purpose,
            ),
    {
        if self.file.len() == 0 {
            return Err(String::from_str("File cannot be empty"));
        }
        if self.filename.as_str().is_empty() {
            return Err(String::from_str("Filename cannot be empty"));
        }
        if self.file.len() > MAX_FILE_SIZE {
            let mut e = String::from_str("File size ");
            push_decimal(&mut e, self.file.len() as u128);
            e.append(" exceeds maximum limit of ");
            push_decimal(&mut e, MAX_FILE_SIZE as u128);
            e.append(" bytes");
            return Err(e);
        }
        match self.purpose {
            FilePurpose::FineTune => {
                if !ends_with(self.filename.as_str(), ".jsonl") {
                    return Err(String::from_str("Fine-tuning files must be in JSONL format"));
                }
            },
            FilePurpose::Batch => {
                if !ends_with(self.filename.as_str(), ".jsonl") {
                    return Err(String::from_str("Batch files must be in JSONL format"));
                }
            },
            FilePurpose::Vision => {
                let lower = to_lowercase(self.filename.as_str());
                if !is_image_file_name(lower.as_str()) {
                    return Err(
                        String::from_str("Vision files must be images (PNG, JPG, JPEG, GIF, WebP)"),
                    );
                }
            },
            _ => {},
        }
        Ok(())
    }

    /// Get the MIME type for the file based on its extension, ignoring case
    pub fn mime_type(&self) -> (r: &'static str)
        ensures
            r@ == mime_for(lowercase(self.filename@)),
    {
        let lower = to_lowercase(self.filename.as_str());
        mime_type_for_lowercase(lower.as_str())
    }
}

// ─── Listing ─────────────────────────────────────────────────────────────────

/// Response from the list files API endpoint
#[derive(Debug, Clone)]
pub struct ListFilesResponse {
    /// The object type, which is always "list"
    pub object: String,
    /// The list of files
    pub data: Vec<File>,
    /// Whether there are more results available
    pub has_more: bool,
    /// Cursor for the first item in the list (for pagination)
    pub first_id: Option<String>,
    /// Cursor for the last item in the list (for pagination)
    pub last_id: Option<String>,
}

/// Sum of the sizes of `files`.
pub open spec fn total_bytes(files: Seq<File>) -> nat
    decreases files.len(),
{
    if files.len() == 0 {
        0
    } else {
        total_bytes(files.drop_last()) + files.last().bytes as nat
    }
}

impl ListFilesResponse {
    /// Create a new empty list response
    pub fn empty() -> (r: Self)
        ensures
            r.object@ == "list"@,
            r.data@.len() == 0,
            !r.has_more,
            r.first_id is None,
            r.last_id is None,
    {
        Self {
            object: String::from_str("list"),
            data: Vec::new(),
            has_more: false,
            first_id: None,
            last_id: None,
        }
    }

    /// Get files by purpose, in their order in the list
    pub fn files_by_purpose(&self, purpose: &FilePurpose) -> (r: Vec<&File>)
        ensures
            r@.map_values(|f: &File| *f) == self.data@.filter(
                |f: File| f.purpose@ == purpose_name(*purpose),
            ),
    {
        let name = purpose.as_str();
        let ghost pred = |f: File| f.purpose@ == purpose_name(*purpose);
        let mut r: Vec<&File> = Vec::new();
        let mut i: usize = 0;
        while i < self.data.len()
            invariant
                i <= self.data@.len(),
                name@ == purpose_name(*purpose),
                pred == (|f: File| f.purpose@ == purpose_name(*purpose)),
                r@.map_values(|f: &File| *f) == self.data@.take(i as int).filter(pred),
            decreases self.data.len() - i,
        {
            proof {
                reveal_with_fuel(Seq::<File>::filter, 1);
                assert(self.data@.take(i + 1).drop_last() =~= self.data@.take(i as int));
            }
            let ghost before = r@;
            if str_eq(self.data[i].purpose.as_str(), name) {
                r.push(&self.data[i]);
                assert(r@.map_values(|f: &File| *f) =~= before.map_values(|f: &File| *f).push(
                    self.data@[i as int],
                ));
            }
            i += 1;
        }
        proof {
            assert(self.data@.take(i as int) =~= self.data@);
        }
        r
    }

    /// Get total size of all files in bytes
    pub fn total_size(&self) -> (r: u64)
        requires
            total_bytes(self.data@) <= u64::MAX,
        ensures
            r == total_bytes(self.data@),
    {
        let mut sum: u64 = 0;
        let mut i: usize = 0;
        while i < self.data.len()
            invariant
                i <= self.data@.len(),
                total_bytes(self.data@) <= u64::MAX,
                sum == total_bytes(self.data@.take(i as int)),
            decreases self.data.len() - i,
        {
            proof {
                assert(self.data@.take(i + 1).drop_last() =~= self.data@.take(i as int));
                lemma_total_bytes_prefix(self.data@, i + 1);
            }
            sum = sum + self.data[i].bytes;
            i += 1;
        }
        proof {
            assert(self.data@.take(i as int) =~= self.data@);
        }
        sum
    }

    /// Get total size in human-readable format
    pub fn total_size_human_readable(&self) -> (r: String)
        requires
            total_bytes(self.data@) <= u64::MAX,
        ensures
            r@ == human_readable(total_bytes(self.data@)),
    {
        bytes_to_human_readable(self.total_size())
    }
}

/// The sum over a prefix never exceeds the sum over the whole list.
proof fn lemma_total_bytes_prefix(files: Seq<File>, n: int)
    requires
        0 <= n <= files.len(),
    ensures
        total_bytes(files.take(n)) <= total_bytes(files),
    decreases files.len(),
{
    if n < files.len() {
        assert(files.drop_last().take(n) =~= files.take(n));
        lemma_total_bytes_prefix(files.drop_last(), n);
    } else {
        assert(files.take(n) =~= files);
    }
}

/// Response from deleting a file
#[derive(Debug, Clone)]
pub struct FileDeleteResponse {
    /// Unique identifier for the file that was deleted
    pub id: String,
    /// The object type, which is always "file"
    pub object: String,
    /// Whether the file was successfully deleted
    pub deleted: bool,
}

impl FileDeleteResponse {
    /// Create a successful response
    pub fn success(id: String) -> (r: Self)
        ensures
            r.id == id,
            r.object@ == "file"@,
            r.deleted,
    {
        Self { id, object: String::from_str("file"), deleted: true }
    }

    /// Create a failed response
    pub fn failure(id: String) -> (r: Self)
        ensures
            r.id == id,
            r.object@ == "file"@,
            !r.deleted,
    {
        Self { id, object: String::from_str("file"), deleted: false }
    }

    /// Check if the operation was successful
    pub fn is_success(&self) -> (r: bool)
        ensures
            r == self.deleted,
    {
        self.deleted
    }
}

/// Sort order for file listings
#[derive(Debug, Clone, PartialEq, Eq, Structural)]
pub enum SortOrder {
    /// Sort by creation date, ascending (oldest first)
    Asc,
    /// Sort by creation date, descending (newest first)
    Desc,
}

/// The name of a sort order.
pub open spec fn sort_order_name(o: SortOrder) -> Seq<char> {
    match o {
        SortOrder::Asc => "asc"@,
        SortOrder::Desc => "desc"@,
    }
}

impl SortOrder {
    /// The order's name, as `Display` writes it.
    pub fn to_string(&self) -> (r: String)
        ensures
            r@ == sort_order_name(*self),
    {
        match self {
            SortOrder::Asc => String::from_str("asc"),
            SortOrder::Desc => String::from_str("desc"),
        }
    }
}

/// Parameters for listing files
#[derive(Debug, Clone)]
pub struct ListFilesParams {
    /// Filter files by purpose
    pub purpose: Option<FilePurpose>,
    /// Maximum number of files to return (default 20, max 10,000)
    pub limit: Option<u32>,
    /// Pagination cursor - list files after this ID
    pub after: Option<String>,
    /// Pagination cursor - list files before this ID
    pub before: Option<String>,
    /// Sort order for the results
    pub order: Option<SortOrder>,
}

/// The query that `ListFilesParams::to_query_params` builds: purpose, limit, after,
/// before and order, each only when set, in that order.
pub open spec fn files_query(p: ListFilesParams) -> Seq<(Seq<char>, Seq<char>)> {
    let q1 = push_opt(Seq::empty(), "purpose"@, match p.purpose { Some(x) => Some(purpose_name(x)), None => None });
    let q2 = push_opt(q1, "limit"@, match p.limit { Some(l) => Some(decimal(l as nat)), None => None });
    let q3 = push_opt(q2, "after"@, opt_chars(p.after));
    let q4 = push_opt(q3, "before"@, opt_chars(p.before));
    push_opt(q4, "order"@, match p.order { Some(o) => Some(sort_order_name(o)), None => None })
}

impl ListFilesParams {
    /// Create new parameters with default values
    pub fn new() -> (r: Self)
        ensures
            r.purpose is None,
            r.limit is None,
            r.after is None,
            r.before is None,
            r.order is None,
    {
        Self { purpose: None, limit: None, after: None, before: None, order: None }
    }

    /// Set the purpose filter
    pub fn with_purpose(self, purpose: FilePurpose) -> (r: Self)
        ensures
            r == (Self { purpose: Some(purpose), ..self }),
    {
        Self { purpose: Some(purpose), ..self }
    }

    /// Set the limit
    pub fn with_limit(self, limit: u32) -> (r: Self)
        ensures
            r == (Self { limit: Some(limit), ..self }),
    {
        Self { limit: Some(limit), ..self }
    }

    /// Set the after cursor for pagination
    pub fn with_after(self, after: String) -> (r: Self)
        ensures
            r == (Self { after: Some(after), ..self }),
    {
        Self { after: Some(after), ..self }
    }

    /// Set the before cursor for pagination
    pub fn with_before(self, before: String) -> (r: Self)
        ensures
            r == (Self { before: Some(before), ..self }),
    {
        Self { before: Some(before), ..self }
    }

    /// Set the sort order
    pub fn with_order(self, order: SortOrder) -> (r: Self)
        ensures
            r == (Self { order: Some(order), ..self }),
    {
        Self { order: Some(order), ..self }
    }

    /// Build query parameters for the API request
    pub fn to_query_params(&self) -> (r: Vec<(String, String)>)
        ensures
            pairs_view(r@) == files_query(*self),
    {
        let mut params: Vec<(String, String)> = Vec::new();
        if let Some(purpose) = &self.purpose {
            params.push((String::from_str("purpose"), purpose.to_string()));
        }
        if let Some(limit) = self.limit {
            params.push((String::from_str("limit"), u64_to_string(limit as u64)));
        }
        if let Some(after) = &self.after {
            params.push((String::from_str("after"), after.clone()));
        }
        if let Some(before) = &self.before {
            params.push((String::from_str("before"), before.clone()));
        }
        if let Some(order) = &self.order {
            params.push((String::from_str("order"), order.to_string()));
        }
        proof {
            assert(pairs_view(params@) =~= files_query(*self));
        }
        params
    }
}

/// An upload passes validation exactly when it has content, a name and at most
/// 200 MiB, and its name suits its purpose: fine-tuning and batch files end in
/// ".jsonl", vision files are images. A batch file with another name is refused
/// as not being JSONL.
pub proof fn lemma_upload_accepted_iff(len: nat, name: Seq<char>, purpose: FilePurpose)
    ensures
        upload_check(len, name, purpose) is Ok <==> {
            &&& len > 0
            &&& name.len() > 0
            &&& len <= 209715200
            &&& (purpose is FineTune || purpose is Batch) ==> has_suffix(name, ".jsonl"@)
            &&& purpose is Vision ==> is_image_name(lowercase(name))
        },
        len > 0 && name.len() > 0 && len <= 209715200 && purpose is Batch && !has_suffix(name, ".jsonl"@)
            ==> upload_check(len, name, purpose) == Err::<(), Seq<char>>("Batch files must be in JSONL format"@),
{
}

/// Each query pair of a file listing carries the field its key names: the pair
/// ("after", v) is sent exactly when the `after` cursor is v, and likewise for the
/// purpose, limit, before and order fields
pub proof fn lemma_files_query_fields(p: ListFilesParams, v: Seq<char>)
    ensures
        files_query(p).contains(("purpose"@, v)) <==> (p.purpose matches Some(x) && purpose_name(x) == v),
        files_query(p).contains(("limit"@, v)) <==> (p.limit matches Some(l) && decimal(l as nat) == v),
        files_query(p).contains(("after"@, v)) <==> opt_chars(p.after) == Some(v),
        files_query(p).contains(("before"@, v)) <==> opt_chars(p.before) == Some(v),
        files_query(p).contains(("order"@, v)) <==> (p.order matches Some(o) && sort_order_name(o) == v),
{
    reveal_strlit("purpose");
    reveal_strlit("limit");
    reveal_strlit("after");
    reveal_strlit("before");
    reveal_strlit("order");
    assert("purpose"@.len() == 7 && "before"@.len() == 6);
    assert("limit"@.len() == 5 && "after"@.len() == 5 && "order"@.len() == 5);
    assert("limit"@[0] == 'l' && "after"@[0] == 'a' && "order"@[0] == 'o');
    let q0 = Seq::<(Seq<char>, Seq<char>)>::empty();
    let o1 = match p.purpose { Some(x) => Some(purpose_name(x)), None => None };
    let o2 = match p.limit { Some(l) => Some(decimal(l as nat)), None => None };
    let o5 = match p.order { Some(o) => Some(sort_order_name(o)), None => None };
    let q1 = push_opt(q0, "purpose"@, o1);
    let q2 = push_opt(q1, "limit"@, o2);
    let q3 = push_opt(q2, "after"@, opt_chars(p.after));
    let q4 = push_opt(q3, "before"@, opt_chars(p.before));
    let keys = seq!["purpose"@, "limit"@, "after"@, "before"@, "order"@];
    assert forall|i: int| 0 <= i < keys.len() implies {
        let x = (#[trigger] keys[i], v);
        &&& push_opt(q0, "purpose"@, o1).contains(x) <==> (q0.contains(x) || o1 == Some(x.1) && x.0 == "purpose"@)
        &&& push_opt(q1, "limit"@, o2).contains(x) <==> (q1.contains(x) || o2 == Some(x.1) && x.0 == "limit"@)
        &&& push_opt(q2, "after"@, opt_chars(p.after)).contains(x) <==> (q2.contains(x) || opt_chars(p.after) == Some(x.1) && x.0 == "after"@)
        &&& push_opt(q3, "before"@, opt_chars(p.before)).contains(x) <==> (q3.contains(x) || opt_chars(p.before) == Some(x.1) && x.0 == "before"@)
        &&& push_opt(q4, "order"@, o5).contains(x) <==> (q4.contains(x) || o5 == Some(x.1) && x.0 == "order"@)
    } by {
        let x = (keys[i], v);
        lemma_push_opt_contains(q0, "purpose"@, o1, x);
        lemma_push_opt_contains(q1, "limit"@, o2, x);
        lemma_push_opt_contains(q2, "after"@, opt_chars(p.after), x);
        lemma_push_opt_contains(q3, "before"@, opt_chars(p.before), x);
        lemma_push_opt_contains(q4, "order"@, o5, x);
    }
    assert(keys[0] == "purpose"@);
    assert(keys[1] == "limit"@);
    assert(keys[2] == "after"@);
    assert(keys[3] == "before"@);
    assert(keys[4] == "order"@);
    assert(files_query(p) == push_opt(q4, "order"@, o5));
    assert(!q0.contains(("purpose"@, v)));
    assert(!q0.contains(("limit"@, v)));
    assert(!q0.contains(("order"@, v)));
    assert(o1 == Some(v) <==> (p.purpose matches Some(x) && purpose_name(x) == v));
    assert(o2 == Some(v) <==> (p.limit matches Some(l) && decimal(l as nat) == v));
    assert(o5 == Some(v) <==> (p.order matches Some(o) && sort_order_name(o) == v));
}

} // verus!
