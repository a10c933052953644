use vstd::prelude::*;

verus! {

/// One synthesis request: the text to speak, the bearer credential, the voice
/// reference, and the model and audio format to ask for.
pub struct TtsRequest {
    pub text: String,
    pub api_key: String,
    pub reference_id: String,
    pub model: String,
    pub format: String,
}

/// The model chosen when a request names none.
pub fn default_model() -> (r: String)
    ensures
        r@ == "s1"@,
{
    String::from_str("s1")
}

/// The audio format chosen when a request names none.
pub fn default_format() -> (r: String)
    ensures
        r@ == "mp3"@,
{
    String::from_str("mp3")
}

impl TtsRequest {
    /// Builds a request, filling in the default model and format where the
    /// caller named none.
    pub fn new(
        text: String,
        api_key: String,
        reference_id: String,
        model: Option<String>,
        format: Option<String>,
    ) -> (r: TtsRequest)
        ensures
            r.text == text,
            r.api_key == api_key,
            r.reference_id == reference_id,
            match model {
                Some(m) => r.model == m,
                None => r.model@ == "s1"@,
            },
            match format {
                Some(f) => r.format == f,
                None => r.format@ == "mp3"@,
            },
    {
        let model_value = match model {
            Some(m) => m,
            None => default_model(),
        };
        let format_value = match format {
            Some(f) => f,
            None => default_format(),
        };
        TtsRequest { text, api_key, reference_id, model: model_value, format: format_value }
    }
}

/// The fixed endpoint of the external speech service.
pub fn tts_endpoint() -> (r: &'static str)
    ensures
        r@ == "https://api.fish.audio/v1/tts"@,
{
    "https://api.fish.audio/v1/tts"
}

/// The value of the Authorization header for `api_key`.
pub open spec fn spec_bearer(api_key: Seq<char>) -> Seq<char> {
    "Bearer "@ + api_key
}

/// Builds the Authorization header value carrying `api_key`.
pub fn bearer_header_value(api_key: &str) -> (r: String)
    ensures
        r@ == spec_bearer(api_key@),
{
    let mut s = String::from_str("Bearer ");
    s.append(api_key);
    s
}

} // verus!
