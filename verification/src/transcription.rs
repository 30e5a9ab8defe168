//! Transcription providers and what they hand back.
use vstd::prelude::*;
use crate::text::{chars_of, trim_chars, trim_ws};

verus! {

/// A timed piece of a transcript.
#[derive(Debug, Clone)]
pub struct TranscriptionSegment {
    pub start_ms: u64,
    pub end_ms: u64,
    pub text: String,
}

impl TranscriptionSegment {
    /// A segment of the local model's transcript, whose start and end the
    /// model gives in hundredths of a second.
    pub fn from_centiseconds(t0: i64, t1: i64, text: String) -> (r: Self)
        requires
            i64::MIN <= t0 * 10 <= i64::MAX,
            i64::MIN <= t1 * 10 <= i64::MAX,
        ensures
            r.start_ms == (t0 * 10) as u64,
            r.end_ms == (t1 * 10) as u64,
            r.text@ == text@,
    {
        let start: i64 = t0 * 10;
        let end: i64 = t1 * 10;
        TranscriptionSegment { start_ms: start as u64, end_ms: end as u64, text }
    }
}

/// Who transcribed: the local model, or a named cloud service.
#[derive(Debug, Clone)]
pub enum TranscriptionProvider {
    Local,
    Cloud(String),
}

/// The settings of a cloud transcription service.
#[derive(Debug, Clone)]
pub struct CloudProviderConfig {
    pub name: String,
    pub api_url: String,
    pub api_key: String,
    pub model: Option<String>,
    pub language: Option<String>,
}

impl CloudProviderConfig {
    /// The settings of an OpenAI-compatible service at `api_url`, using the
    /// `whisper-1` model and no fixed language.
    pub fn openai_compatible(api_key: String, api_url: String) -> (r: Self)
        ensures
            r.name@ == "openai-compatible"@,
            r.api_url@ == api_url@,
            r.api_key@ == api_key@,
            r.model matches Some(m) && m@ == "whisper-1"@,
            r.language is None,
    {
        CloudProviderConfig {
            name: String::from_str("openai-compatible"),
            api_url,
            api_key,
            model: Some(String::from_str("whisper-1")),
            language: None,
        }
    }

    /// A cloud service can be used once it has an API key.
    pub fn is_available(&self) -> (r: bool)
        ensures
            r == (self.api_key@.len() > 0),
    {
        !self.api_key.as_str().is_empty()
    }

    /// The service, named by its settings.
    pub fn provider(&self) -> (r: TranscriptionProvider)
        ensures
            r matches TranscriptionProvider::Cloud(n) && n@ == self.name@,
    {
        TranscriptionProvider::Cloud(String::from_str(self.name.as_str()))
    }

    /// The `Authorization` header of a request: the API key as a bearer
    /// token.
    pub fn authorization(&self) -> (r: String)
        ensures
            r@ == "Bearer "@ + self.api_key@,
    {
        let mut h = String::from_str("Bearer ");
        h.append(self.api_key.as_str());
        h
    }

    /// The model named in requests: the configured one, `whisper-1` when
    /// none is set.
    pub fn request_model(&self) -> (r: String)
        ensures
            r@ == match self.model {
                Some(m) => m@,
                None => "whisper-1"@,
            },
    {
        match &self.model {
            Some(m) => String::from_str(m.as_str()),
            None => String::from_str("whisper-1"),
        }
    }
}

/// The language a local transcription is asked to run in: the chosen one;
/// none when no language is chosen, so that the model detects it.
pub fn whisper_language(language: &Option<String>) -> (r: Option<String>)
    ensures
        match language {
            Some(l) => r matches Some(x) && x@ == l@,
            None => r is None,
        },
{
    match language {
        Some(l) => Some(String::from_str(l.as_str())),
        None => None,
    }
}

/// The concatenation of a list of texts.
pub open spec fn concat_texts(parts: Seq<Seq<char>>) -> Seq<char>
    decreases parts.len(),
{
    if parts.len() == 0 {
        Seq::empty()
    } else {
        concat_texts(parts.drop_last()) + parts.last()
    }
}

/// The transcript of a run of segment texts: their concatenation, trimmed.
pub fn assemble_transcript(segments: &[String]) -> (r: String)
    ensures
        r@ == trim_ws(concat_texts(segments@.map_values(|s: String| s@))),
{
    let mut all = String::new();
    let n = segments.len();
    let mut i: usize = 0;
    while i < n
        invariant
            n == segments@.len(),
            i <= n,
            all@ == concat_texts(segments@.take(i as int).map_values(|s: String| s@)),
        decreases n - i,
    {
        assert(segments@.take(i + 1).map_values(|s: String| s@).drop_last() =~= segments@.take(
            i as int,
        ).map_values(|s: String| s@));
        all.append(segments[i].as_str());
        i = i + 1;
    }
    assert(segments@.take(n as int) =~= segments@);
    let cs = chars_of(all.as_str());
    trim_chars(cs.as_slice())
}

/// The transcript a cloud service reports, trimmed.
pub fn cloud_transcript(text: &str) -> (r: String)
    ensures
        r@ == trim_ws(text@),
{
    let cs = chars_of(text);
    trim_chars(cs.as_slice())
}


/// How a transcript is put together from its segments: no segment gives no
/// text; one more segment appends its text to what came before; so a single
/// segment gives its own text, and the transcript of one segment is that
/// segment trimmed.
pub proof fn law_transcript_of_segments(parts: Seq<Seq<char>>, t: Seq<char>)
    ensures
        concat_texts(Seq::empty()) == Seq::<char>::empty(),
        concat_texts(parts.push(t)) == concat_texts(parts) + t,
        concat_texts(seq![t]) == t,
        trim_ws(concat_texts(seq![t])) == trim_ws(t),
{
    assert(parts.push(t).drop_last() =~= parts);
    assert(seq![t].drop_last() =~= Seq::<Seq<char>>::empty());
    assert(Seq::<char>::empty() + t =~= t);
}

} // verus!
