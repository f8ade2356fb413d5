//! The one-shot HTTP calls: the requests that fetch a token, recognise a
//! clip and synthesise speech, and the reading of their responses. Sending
//! them is left to an HTTP client.

use crate::endpoint::{
    bearer, recognition_host, recognition_url, recognize_url, ssml_of, synthesis_ssml,
    token_url, token_url_of,
};
use crate::frame::{field, fields_view, push_all, HeaderField};
use crate::language::{Font, Format, Mode};
use crate::phrase::{phrase_text_reads, JsonError, Phrase};
use vstd::prelude::*;
use vstd::string::*;
use vstd::utf8::encode_utf8;

verus! {

/// An HTTP `POST` request: its address, its header fields and its body.
#[derive(Clone, Debug)]
pub struct HttpRequest {
    pub url: String,
    pub headers: Vec<HeaderField>,
    pub body: Vec<u8>,
}

/// The account settings and current access token of a client.
pub struct Speech {
    pub subscription_key: String,
    pub token: String,
    pub is_custom_speech: bool,
    pub endpoint_id: String,
}

/// The header of a 16 kHz, 16-bit mono PCM WAV file that custom speech
/// expects in front of raw audio.
pub open spec fn wav_header() -> Seq<u8> {
    seq![
        0x52u8, 0x49, 0x46, 0x46, 0xc4, 0x09, 0x01, 0x00, 0x57, 0x41, 0x56, 0x45, 0x66, 0x6d,
        0x74, 0x20, 0x10, 0x00, 0x00, 0x00, 0x01, 0x00, 0x01, 0x00, 0x80, 0x3e, 0x00, 0x00,
        0x00, 0x7d, 0x00, 0x00, 0x02, 0x00, 0x10, 0x00, 0x64, 0x61, 0x74, 0x61, 0xa0, 0x09,
        0x01, 0x00,
    ]
}

/// The content type of a recognition request.
pub open spec fn audio_content_type(is_custom_speech: bool) -> Seq<char> {
    if is_custom_speech {
        "application/octet-stream"@
    } else {
        "audio/wav; codec=audio/pcm; samplerate=16000"@
    }
}

impl Speech {
    /// A client for the given subscription key, with no token yet, on the
    /// public service.
    pub fn new(subscription_key: &str) -> (r: Speech)
        ensures
            r.subscription_key@ == subscription_key@,
            r.token@ == Seq::<char>::empty(),
            !r.is_custom_speech,
            r.endpoint_id@ == Seq::<char>::empty(),
    {
        Speech {
            subscription_key: String::from_str(subscription_key),
            token: String::new(),
            is_custom_speech: false,
            endpoint_id: String::new(),
        }
    }

    /// Turns custom speech on or off.
    pub fn set_custom_speech(&mut self, is_custom_speech: bool)
        ensures
            *final(self) == (Speech { is_custom_speech, ..*old(self) }),
    {
        self.is_custom_speech = is_custom_speech;
    }

    /// Replaces the subscription key.
    pub fn set_subscription_key(&mut self, key: &str)
        ensures
            final(self).subscription_key@ == key@,
            final(self).token == old(self).token,
            final(self).is_custom_speech == old(self).is_custom_speech,
            final(self).endpoint_id == old(self).endpoint_id,
    {
        self.subscription_key = String::from_str(key);
    }

    /// Replaces the custom speech endpoint id.
    pub fn set_endpoint_id(&mut self, endpoint_id: &str)
        ensures
            final(self).endpoint_id@ == endpoint_id@,
            final(self).token == old(self).token,
            final(self).is_custom_speech == old(self).is_custom_speech,
            final(self).subscription_key == old(self).subscription_key,
    {
        self.endpoint_id = String::from_str(endpoint_id);
    }

    /// The request for a new access token.
    pub fn token_request(&self) -> (r: HttpRequest)
        ensures
            r.url@ == token_url_of(self.is_custom_speech),
            fields_view(r.headers@) == seq![
                ("Ocp-Apim-Subscription-Key"@, self.subscription_key@),
                ("Content-Length"@, "0"@),
            ],
            r.body@ == Seq::<u8>::empty(),
    {
        let mut headers: Vec<HeaderField> = Vec::new();
        headers.push(field("Ocp-Apim-Subscription-Key", self.subscription_key.as_str()));
        headers.push(field("Content-Length", "0"));
        assert(fields_view(headers@) =~= seq![
            ("Ocp-Apim-Subscription-Key"@, self.subscription_key@),
            ("Content-Length"@, "0"@),
        ]);
        HttpRequest { url: token_url(self.is_custom_speech), headers, body: Vec::new() }
    }

    /// Takes the body of a token response: a non-empty body is the new
    /// token, which is kept and returned; an empty one changes nothing.
    pub fn accept_token(&mut self, body: &str) -> (r: Option<String>)
        ensures
            body@.len() > 0 ==> r is Some && r->0@ == body@ && final(self).token@ == body@,
            body@.len() == 0 ==> r is None && final(self).token == old(self).token,
            final(self).is_custom_speech == old(self).is_custom_speech,
            final(self).subscription_key == old(self).subscription_key,
            final(self).endpoint_id == old(self).endpoint_id,
    {
        if body.is_empty() {
            None
        } else {
            self.token = String::from_str(body);
            Some(String::from_str(body))
        }
    }

    /// The request that recognises one clip of 16 kHz, 16-bit mono PCM
    /// audio. Custom speech takes a WAV header in front of the audio.
    pub fn recognize_request(&self, audio: &[u8], mode: &Mode, format: &Format) -> (r: HttpRequest)
        ensures
            r.url@ == recognition_url(
                recognition_host(false, self.is_custom_speech),
                *mode,
                *format,
                self.is_custom_speech,
                self.endpoint_id@,
            ),
            fields_view(r.headers@) == seq![
                ("Authorization"@, "Bearer "@ + self.token@),
                ("Content-Type"@, audio_content_type(self.is_custom_speech)),
            ],
            r.body@ == if self.is_custom_speech {
                wav_header() + audio@
            } else {
                audio@
            },
    {
        let url = recognize_url(mode, format, self.is_custom_speech, self.endpoint_id.as_str());
        let mut body: Vec<u8> = Vec::new();
        if self.is_custom_speech {
            let header: Vec<u8> = vec![
                0x52u8, 0x49, 0x46, 0x46, 0xc4, 0x09, 0x01, 0x00, 0x57, 0x41, 0x56, 0x45, 0x66,
                0x6d, 0x74, 0x20, 0x10, 0x00, 0x00, 0x00, 0x01, 0x00, 0x01, 0x00, 0x80, 0x3e, 0x00,
                0x00, 0x00, 0x7d, 0x00, 0x00, 0x02, 0x00, 0x10, 0x00, 0x64, 0x61, 0x74, 0x61, 0xa0,
                0x09, 0x01, 0x00,
            ];
            assert(header@ =~= wav_header());
            push_all(&mut body, header.as_slice());
        }
        push_all(&mut body, audio);
        let content_type = if self.is_custom_speech {
            "application/octet-stream"
        } else {
            "audio/wav; codec=audio/pcm; samplerate=16000"
        };
        let auth = bearer(self.token.as_str());
        let mut headers: Vec<HeaderField> = Vec::new();
        headers.push(field("Authorization", auth.as_str()));
        headers.push(field("Content-Type", content_type));
        assert(fields_view(headers@) =~= seq![
            ("Authorization"@, "Bearer "@ + self.token@),
            ("Content-Type"@, audio_content_type(self.is_custom_speech)),
        ]);
        proof {
            if self.is_custom_speech {
                assert(body@ =~= wav_header() + audio@);
            } else {
                assert(body@ =~= audio@);
            }
        }
        HttpRequest { url, headers, body }
    }

    /// The request that synthesises `text` in the voice `font`, as raw
    /// 16 kHz, 16-bit mono PCM.
    pub fn synthesize_request(&self, text: &str, font: &Font) -> (r: HttpRequest)
        ensures
            r.url@ == "https://speech.platform.bing.com/synthesize"@,
            fields_view(r.headers@) == seq![
                ("Authorization"@, "Bearer "@ + self.token@),
                ("Content-Type"@, "application/ssml+xml"@),
                ("X-Microsoft-OutputFormat"@, "raw-16khz-16bit-mono-pcm"@),
                ("User-Agent"@, "bing_speech"@),
            ],
            r.body@ == encode_utf8(ssml_of(text@, font.lang@, font.gender@, font.name@)),
    {
        let ssml = synthesis_ssml(text, font);
        let auth = bearer(self.token.as_str());
        let mut headers: Vec<HeaderField> = Vec::new();
        headers.push(field("Authorization", auth.as_str()));
        headers.push(field("Content-Type", "application/ssml+xml"));
        headers.push(field("X-Microsoft-OutputFormat", "raw-16khz-16bit-mono-pcm"));
        headers.push(field("User-Agent", "bing_speech"));
        assert(fields_view(headers@) =~= seq![
            ("Authorization"@, "Bearer "@ + self.token@),
            ("Content-Type"@, "application/ssml+xml"@),
            ("X-Microsoft-OutputFormat"@, "raw-16khz-16bit-mono-pcm"@),
            ("User-Agent"@, "bing_speech"@),
        ]);
        HttpRequest {
            url: String::from_str("https://speech.platform.bing.com/synthesize"),
            headers,
            body: ssml.as_str().as_bytes_vec(),
        }
    }
}

/// `r` is what reading a recognition response body `body` gives: no result
/// for an empty body, otherwise the phrase that the body reads as, by the
/// same rule as a streamed phrase.
pub open spec fn recognition_reads(body: Seq<char>, r: Result<Option<Phrase>, JsonError>) -> bool {
    if body.len() == 0 {
        r == Ok::<Option<Phrase>, JsonError>(None)
    } else {
        match r {
            Ok(Some(p)) => phrase_text_reads(body, Ok(p)),
            Ok(None) => false,
            Err(e) => phrase_text_reads(body, Err(e)),
        }
    }
}

/// Reads the body of a recognition response: an empty body holds no result.
pub fn read_recognition(body: &str) -> (r: Result<Option<Phrase>, JsonError>)
    ensures
        recognition_reads(body@, r),
{
    if body.is_empty() {
        Ok(None)
    } else {
        match Phrase::from_json_text(body) {
            Ok(p) => Ok(Some(p)),
            Err(e) => Err(e),
        }
    }
}

} // verus!
