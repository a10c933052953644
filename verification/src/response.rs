use crate::decimal::format_u16;
use crate::decimal::spec_decimal;
use crate::encode::base64_encode;
use crate::encode::base64_of;
use crate::status::reason_of;
use crate::status::status_reason;
use crate::subseq::contains_seq;
use crate::subseq::lemma_contains_at;
use vstd::prelude::*;

verus! {

/// The result handed back for one synthesis request: on success the audio as
/// base64 text, on failure a human-readable message, never both.
pub struct TtsResponse {
    pub success: bool,
    pub audio_base64: Option<String>,
    pub error: Option<String>,
}

impl TtsResponse {
    /// Exactly one of the audio and the error is populated, governed by
    /// `success`.
    pub open spec fn wf(self) -> bool {
        &&& self.success <==> self.audio_base64 is Some
        &&& self.success <==> self.error is None
    }
}

/// How one HTTP exchange with the speech service ended, as the host hands it
/// to the library.
pub enum HttpOutcome {
    /// The request failed before any response arrived; carries the detail
    /// text of the failure.
    Transport { detail: String },
    /// A success (2xx) response whose body bytes were read in full.
    SuccessBody { bytes: Vec<u8> },
    /// A success (2xx) response whose body could not be read; carries the
    /// detail text of the failure.
    SuccessUnreadable { detail: String },
    /// A non-success status, with the response body as text (empty where the
    /// body could not be read).
    ErrorStatus { code: u16, body: String },
}

/// The message reported when the connection fails before any response.
pub open spec fn spec_transport_message(detail: Seq<char>) -> Seq<char> {
    "request failed: "@ + detail
}

/// The message reported when a success response's body cannot be read.
pub open spec fn spec_read_message(detail: Seq<char>) -> Seq<char> {
    "failed to read response: "@ + detail
}

/// The status part of an API error message: the code in decimal, then the
/// canonical reason phrase where one is registered.
pub open spec fn spec_status_text(code: int) -> Seq<char> {
    match reason_of(code) {
        Some(phrase) => spec_decimal(code) + " "@ + phrase,
        None => spec_decimal(code),
    }
}

/// The message reported when the service answers with a non-success status.
pub open spec fn spec_api_error_message(code: int, body: Seq<char>) -> Seq<char> {
    "API error "@ + spec_status_text(code) + ": "@ + body
}

/// Translates the outcome of one HTTP exchange into the structured result:
/// audio on success, a message naming the failure otherwise, and never an
/// unhandled fault.
pub fn synthesize_outcome(outcome: HttpOutcome) -> (r: TtsResponse)
    ensures
        r.wf(),
        outcome matches HttpOutcome::Transport { detail } ==> !r.success && (r.error matches Some(
            e,
        ) && e@ == spec_transport_message(detail@)),
        outcome matches HttpOutcome::SuccessBody { bytes } ==> r.success && (
        r.audio_base64 matches Some(a) && a@ == base64_of(bytes@)),
        outcome matches HttpOutcome::SuccessUnreadable { detail } ==> !r.success && (
        r.error matches Some(e) && e@ == spec_read_message(detail@)),
        outcome matches HttpOutcome::ErrorStatus { code, body } ==> !r.success && (
        r.error matches Some(e) && e@ == spec_api_error_message(code as int, body@)),
{
    match outcome {
        HttpOutcome::Transport { detail } => {
            let mut msg = String::from_str("request failed: ");
            msg.append(detail.as_str());
            TtsResponse { success: false, audio_base64: None, error: Some(msg) }
        },
        HttpOutcome::SuccessBody { bytes } => {
            let audio = base64_encode(bytes.as_slice());
            TtsResponse { success: true, audio_base64: Some(audio), error: None }
        },
        HttpOutcome::SuccessUnreadable { detail } => {
            let mut msg = String::from_str("failed to read response: ");
            msg.append(detail.as_str());
            TtsResponse { success: false, audio_base64: None, error: Some(msg) }
        },
        HttpOutcome::ErrorStatus { code, body } => {
            let mut msg = String::from_str("API error ");
            let code_str = format_u16(code);
            msg.append(code_str.as_str());
            match status_reason(code) {
                Some(phrase) => {
                    msg.append(" ");
                    msg.append(phrase.as_str());
                    proof {
                        assert(msg@ =~= "API error "@ + spec_status_text(code as int));
                    }
                },
                None => {
                    proof {
                        assert(msg@ =~= "API error "@ + spec_status_text(code as int));
                    }
                },
            }
            msg.append(": ");
            msg.append(body.as_str());
            proof {
                assert(msg@ =~= spec_api_error_message(code as int, body@));
            }
            TtsResponse { success: false, audio_base64: None, error: Some(msg) }
        },
    }
}

/// An API error message carries both the status code and the body text: the
/// decimal rendering of the code and the body each stand contiguously in it.
pub proof fn lemma_api_error_message_contains(code: int, body: Seq<char>)
    ensures
        contains_seq(spec_api_error_message(code, body), spec_decimal(code)),
        contains_seq(spec_api_error_message(code, body), body),
{
    let msg = spec_api_error_message(code, body);
    let pre = "API error "@;
    let code_at = pre.len() as int;
    assert(msg.subrange(code_at, code_at + spec_decimal(code).len()) =~= spec_decimal(code));
    lemma_contains_at(msg, spec_decimal(code), code_at);
    let body_at = msg.len() - body.len();
    assert(msg.subrange(body_at, body_at + body.len()) =~= body);
    lemma_contains_at(msg, body, body_at);
}

/// A transport-failure message is never empty: it opens with the fixed
/// "request failed: " prefix, whatever detail the connection failure gave.
pub proof fn lemma_transport_message_shape(detail: Seq<char>)
    ensures
        spec_transport_message(detail).len() > 0,
        spec_transport_message(detail).subrange(0, "request failed: "@.len() as int)
            == "request failed: "@,
{
    reveal_strlit("request failed: ");
    assert(spec_transport_message(detail).subrange(0, "request failed: "@.len() as int)
        =~= "request failed: "@);
}

/// No character of `s` is a decimal digit.
pub open spec fn digit_free(s: Seq<char>) -> bool {
    forall|i: int| 0 <= i < s.len() ==> !('0' <= #[trigger] s[i] <= '9')
}

/// A transport-failure message carries no HTTP status code: where the
/// detail of the connection failure holds no decimal digit, neither does
/// the message.
pub proof fn lemma_transport_message_digit_free(detail: Seq<char>)
    requires
        digit_free(detail),
    ensures
        digit_free(spec_transport_message(detail)),
{
    reveal_strlit("request failed: ");
    let msg = spec_transport_message(detail);
    let pre = "request failed: "@;
    assert forall|i: int| 0 <= i < msg.len() implies !('0' <= #[trigger] msg[i] <= '9') by {
        if i >= pre.len() {
            assert(msg[i] == detail[i - pre.len()]);
        }
    }
}

} // verus!
