//! Addresses and request bodies of the service.

use crate::language::{Font, Format, Mode};
use vstd::prelude::*;
use vstd::string::*;

verus! {

/// The host of recognition requests, with its scheme: a regional host for
/// custom speech, the public one otherwise.
pub open spec fn recognition_host(secure_socket: bool, is_custom_speech: bool) -> Seq<char> {
    if secure_socket {
        if is_custom_speech {
            "wss://westus.stt.speech.microsoft.com"@
        } else {
            "wss://speech.platform.bing.com"@
        }
    } else {
        if is_custom_speech {
            "https://westus.stt.speech.microsoft.com"@
        } else {
            "https://speech.platform.bing.com"@
        }
    }
}

/// `<host>/speech/recognition/<mode>/cognitiveservices/v1?[cid=<endpoint id>&]language=<locale>&format=<format>`.
pub open spec fn recognition_url(
    host: Seq<char>,
    mode: Mode,
    format: Format,
    is_custom_speech: bool,
    endpoint_id: Seq<char>,
) -> Seq<char> {
    host + "/speech/recognition/"@ + mode.spec_name() + "/cognitiveservices/v1?"@ + (
    if is_custom_speech {
        "cid="@ + endpoint_id + "&"@
    } else {
        Seq::empty()
    }) + "language="@ + mode.spec_language() + "&format="@ + format.spec_name()
}

fn write_recognition_url(
    host: &str,
    mode: &Mode,
    format: &Format,
    is_custom_speech: bool,
    endpoint_id: &str,
) -> (r: String)
    ensures
        r@ == recognition_url(host@, *mode, *format, is_custom_speech, endpoint_id@),
{
    let mut url = String::from_str(host);
    url.append("/speech/recognition/");
    url.append(mode.to_string().as_str());
    url.append("/cognitiveservices/v1?");
    let ghost before_cid = url@;
    if is_custom_speech {
        url.append("cid=");
        url.append(endpoint_id);
        url.append("&");
    }
    let ghost cid = if is_custom_speech {
        "cid="@ + endpoint_id@ + "&"@
    } else {
        Seq::empty()
    };
    assert(url@ =~= before_cid + cid);
    url.append("language=");
    url.append(mode.language().as_str());
    url.append("&format=");
    url.append(format.to_string().as_str());
    assert(url@ =~= recognition_url(host@, *mode, *format, is_custom_speech, endpoint_id@));
    url
}

/// The address of the streaming endpoint for a mode, a result format and,
/// with custom speech, an endpoint id.
pub fn build_url(mode: &Mode, format: &Format, is_custom_speech: bool, endpoint_id: &str) -> (r:
    String)
    ensures
        r@ == recognition_url(
            recognition_host(true, is_custom_speech),
            *mode,
            *format,
            is_custom_speech,
            endpoint_id@,
        ),
{
    let host = if is_custom_speech {
        "wss://westus.stt.speech.microsoft.com"
    } else {
        "wss://speech.platform.bing.com"
    };
    write_recognition_url(host, mode, format, is_custom_speech, endpoint_id)
}

/// The address of the one-shot recognition endpoint.
pub fn recognize_url(mode: &Mode, format: &Format, is_custom_speech: bool, endpoint_id: &str) -> (r:
    String)
    ensures
        r@ == recognition_url(
            recognition_host(false, is_custom_speech),
            *mode,
            *format,
            is_custom_speech,
            endpoint_id@,
        ),
{
    let host = if is_custom_speech {
        "https://westus.stt.speech.microsoft.com"
    } else {
        "https://speech.platform.bing.com"
    };
    write_recognition_url(host, mode, format, is_custom_speech, endpoint_id)
}

/// The address that issues access tokens.
pub open spec fn token_url_of(is_custom_speech: bool) -> Seq<char> {
    if is_custom_speech {
        "https://westus.api.cognitive.microsoft.com/sts/v1.0/issueToken"@
    } else {
        "https://api.cognitive.microsoft.com/sts/v1.0/issueToken"@
    }
}

/// The address that issues access tokens.
pub fn token_url(is_custom_speech: bool) -> (r: String)
    ensures
        r@ == token_url_of(is_custom_speech),
{
    if is_custom_speech {
        String::from_str("https://westus.api.cognitive.microsoft.com/sts/v1.0/issueToken")
    } else {
        String::from_str("https://api.cognitive.microsoft.com/sts/v1.0/issueToken")
    }
}

/// The value of an `Authorization` header that carries `token`.
pub fn bearer(token: &str) -> (r: String)
    ensures
        r@ == "Bearer "@ + token@,
{
    let mut s = String::from_str("Bearer ");
    s.append(token);
    s
}

/// The SSML document that asks for `text` to be spoken in `font`.
pub open spec fn ssml_of(text: Seq<char>, lang: Seq<char>, gender: Seq<char>, name: Seq<char>) -> Seq<
    char,
> {
    "<speak version='1.0' xml:lang='en-US'><voice xml:lang='"@ + lang + "' xml:gender='"@ + gender
        + "' name='"@ + name + "'>"@ + text + "</voice></speak>"@
}

/// The SSML body of a synthesis request.
pub fn synthesis_ssml(text: &str, font: &Font) -> (r: String)
    ensures
        r@ == ssml_of(text@, font.lang@, font.gender@, font.name@),
{
    let mut s = String::from_str("<speak version='1.0' xml:lang='en-US'><voice xml:lang='");
    s.append(font.lang);
    s.append("' xml:gender='");
    s.append(font.gender);
    s.append("' name='");
    s.append(font.name);
    s.append("'>");
    s.append(text);
    s.append("</voice></speak>");
    s
}

} // verus!
