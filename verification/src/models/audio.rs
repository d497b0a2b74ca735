//! # Audio Models
//!
//! Voices, audio and transcription formats, model names, and the response of a
//! speech request.

use vstd::prelude::*;

verus! {

broadcast use vstd::string::group_string_axioms;

/// A voice for speech generation
#[derive(Debug, Clone, Copy, PartialEq, Eq, Structural)]
pub enum Voice {
    /// Alloy
    Alloy,
    /// Echo
    Echo,
    /// Fable
    Fable,
    /// Onyx
    Onyx,
    /// Nova
    Nova,
    /// Shimmer
    Shimmer,
}

/// The name of a voice
pub open spec fn voice_name(v: Voice) -> Seq<char> {
    match v {
        Voice::Alloy => "alloy"@,
        Voice::Echo => "echo"@,
        Voice::Fable => "fable"@,
        Voice::Onyx => "onyx"@,
        Voice::Nova => "nova"@,
        Voice::Shimmer => "shimmer"@,
    }
}

impl Voice {
    /// The voice's name as the API spells it
    pub fn as_str(&self) -> (r: &'static str)
        ensures
            r@ == voice_name(*self),
    {
        match self {
            Voice::Alloy => "alloy",
            Voice::Echo => "echo",
            Voice::Fable => "fable",
            Voice::Onyx => "onyx",
            Voice::Nova => "nova",
            Voice::Shimmer => "shimmer",
        }
    }

    /// The voice's name, as a string
    pub fn to_string(&self) -> (r: String)
        ensures
            r@ == voice_name(*self),
    {
        String::from_str(self.as_str())
    }
}

/// A format of generated audio
#[derive(Debug, Clone, Copy, PartialEq, Eq, Structural)]
pub enum AudioFormat {
    /// MP3
    Mp3,
    /// Opus
    Opus,
    /// AAC
    Aac,
    /// FLAC
    Flac,
    /// WAV
    Wav,
    /// Raw PCM
    Pcm,
}

/// The name of a audio format
pub open spec fn audioformat_name(v: AudioFormat) -> Seq<char> {
    match v {
        AudioFormat::Mp3 => "mp3"@,
        AudioFormat::Opus => "opus"@,
        AudioFormat::Aac => "aac"@,
        AudioFormat::Flac => "flac"@,
        AudioFormat::Wav => "wav"@,
        AudioFormat::Pcm => "pcm"@,
    }
}

impl AudioFormat {
    /// The audio format's name as the API spells it
    pub fn as_str(&self) -> (r: &'static str)
        ensures
            r@ == audioformat_name(*self),
    {
        match self {
            AudioFormat::Mp3 => "mp3",
            AudioFormat::Opus => "opus",
            AudioFormat::Aac => "aac",
            AudioFormat::Flac => "flac",
            AudioFormat::Wav => "wav",
            AudioFormat::Pcm => "pcm",
        }
    }

    /// The audio format's name, as a string
    pub fn to_string(&self) -> (r: String)
        ensures
            r@ == audioformat_name(*self),
    {
        String::from_str(self.as_str())
    }
}

/// A format of a transcription
#[derive(Debug, Clone, Copy, PartialEq, Eq, Structural)]
pub enum TranscriptionFormat {
    /// JSON
    Json,
    /// Plain text
    Text,
    /// SubRip subtitles
    Srt,
    /// WebVTT subtitles
    Vtt,
    /// JSON with timing details
    VerboseJson,
}

/// The name of a transcription format
pub open spec fn transcriptionformat_name(v: TranscriptionFormat) -> Seq<char> {
    match v {
        TranscriptionFormat::Json => "json"@,
        TranscriptionFormat::Text => "text"@,
        TranscriptionFormat::Srt => "srt"@,
        TranscriptionFormat::Vtt => "vtt"@,
        TranscriptionFormat::VerboseJson => "verbose_json"@,
    }
}

impl TranscriptionFormat {
    /// The transcription format's name as the API spells it
    pub fn as_str(&self) -> (r: &'static str)
        ensures
            r@ == transcriptionformat_name(*self),
    {
        match self {
            TranscriptionFormat::Json => "json",
            TranscriptionFormat::Text => "text",
            TranscriptionFormat::Srt => "srt",
            TranscriptionFormat::Vtt => "vtt",
            TranscriptionFormat::VerboseJson => "verbose_json",
        }
    }

    /// The transcription format's name, as a string
    pub fn to_string(&self) -> (r: String)
        ensures
            r@ == transcriptionformat_name(*self),
    {
        String::from_str(self.as_str())
    }
}

/// The granularity of transcription timestamps
#[derive(Debug, Clone, Copy, PartialEq, Eq, Structural)]
pub enum TimestampGranularity {
    /// Per word
    Word,
    /// Per segment
    Segment,
}

/// The name of a timestamp granularity
pub open spec fn timestampgranularity_name(v: TimestampGranularity) -> Seq<char> {
    match v {
        TimestampGranularity::Word => "word"@,
        TimestampGranularity::Segment => "segment"@,
    }
}

impl TimestampGranularity {
    /// The timestamp granularity's name as the API spells it
    pub fn as_str(&self) -> (r: &'static str)
        ensures
            r@ == timestampgranularity_name(*self),
    {
        match self {
            TimestampGranularity::Word => "word",
            TimestampGranularity::Segment => "segment",
        }
    }

    /// The timestamp granularity's name, as a string
    pub fn to_string(&self) -> (r: String)
        ensures
            r@ == timestampgranularity_name(*self),
    {
        String::from_str(self.as_str())
    }
}

/// Generated speech: the audio bytes and their content type
#[derive(Debug, Clone)]
pub struct AudioSpeechResponse {
    /// The audio bytes
    pub audio_data: Vec<u8>,
    /// The content type of the audio
    pub content_type: String,
}

impl AudioSpeechResponse {
    /// Create a speech response
    pub fn new(audio_data: Vec<u8>, content_type: String) -> (r: Self)
        ensures
            r.audio_data == audio_data,
            r.content_type == content_type,
    {
        AudioSpeechResponse { audio_data, content_type }
    }

    /// The audio bytes
    pub fn data(&self) -> (r: &[u8])
        ensures
            r@ == self.audio_data@,
    {
        self.audio_data.as_slice()
    }

    /// The content type
    pub fn content_type(&self) -> (r: &str)
        ensures
            r@ == self.content_type@,
    {
        self.content_type.as_str()
    }
}

/// Names of the audio models
pub struct AudioModels;

impl AudioModels {
    /// Text-to-speech, standard quality
    pub const TTS_1: &'static str = "tts-1";
    /// Text-to-speech, high definition
    pub const TTS_1_HD: &'static str = "tts-1-hd";
    /// Whisper speech recognition
    pub const WHISPER_1: &'static str = "whisper-1";
}

} // verus!
