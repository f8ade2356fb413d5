use bing_speech::codes::{format_from_code, mode_from_code};
use bing_speech::endpoint::{build_url, recognize_url, synthesis_ssml, token_url};
use bing_speech::language::{ConversationLanguage, Font, Format, InteractiveDictationLanguage, Mode};
use bing_speech::ident::platform_name;
use bing_speech::speech::Speech;

#[test]
fn language_tags() {
    assert_eq!(InteractiveDictationLanguage::NorwegianNorway.to_string(), "nb-NO");
    assert_eq!(InteractiveDictationLanguage::ChineseTaiwan.to_string(), "zh-TW");
    assert_eq!(ConversationLanguage::PortugueseBrazil.to_string(), "pt-BR");
    assert_eq!(Mode::Conversation(ConversationLanguage::ItalianItaly).to_string(), "conversation");
    assert_eq!(Mode::Dictation(InteractiveDictationLanguage::HindiIndia).language(), "hi-IN");
    assert_eq!(Format::Simple.to_string(), "simple");
    assert_eq!(Format::Detailed.to_string(), "detailed");
}

#[test]
fn streaming_urls() {
    let mode = Mode::Interactive(InteractiveDictationLanguage::EnglishUnitedStates);
    assert_eq!(
        build_url(&mode, &Format::Simple, false, "ignored"),
        "wss://speech.platform.bing.com/speech/recognition/interactive/cognitiveservices/v1?language=en-US&format=simple"
    );
    assert_eq!(
        build_url(&mode, &Format::Detailed, true, "abc-123"),
        "wss://westus.stt.speech.microsoft.com/speech/recognition/interactive/cognitiveservices/v1?cid=abc-123&language=en-US&format=detailed"
    );
    assert_eq!(
        recognize_url(&mode, &Format::Simple, false, ""),
        "https://speech.platform.bing.com/speech/recognition/interactive/cognitiveservices/v1?language=en-US&format=simple"
    );
}

#[test]
fn token_requests() {
    assert_eq!(token_url(false), "https://api.cognitive.microsoft.com/sts/v1.0/issueToken");
    assert_eq!(token_url(true), "https://westus.api.cognitive.microsoft.com/sts/v1.0/issueToken");
    let mut s = Speech::new("key1");
    s.set_subscription_key("key2");
    let r = s.token_request();
    assert_eq!(r.headers[0].key, "Ocp-Apim-Subscription-Key");
    assert_eq!(r.headers[0].value, "key2");
    assert_eq!(r.headers[1].value, "0");
    assert!(r.body.is_empty());
    assert!(s.accept_token("").is_none());
    assert_eq!(s.token, "");
    assert_eq!(s.accept_token("tok").unwrap(), "tok");
    assert_eq!(s.token, "tok");
}

#[test]
fn recognize_requests() {
    let mode = Mode::Dictation(InteractiveDictationLanguage::FrenchFrance);
    let mut s = Speech::new("k");
    s.accept_token("T");
    let r = s.recognize_request(&[1, 2, 3], &mode, &Format::Detailed);
    assert_eq!(r.body, vec![1, 2, 3]);
    assert_eq!(r.headers[0].value, "Bearer T");
    assert_eq!(r.headers[1].value, "audio/wav; codec=audio/pcm; samplerate=16000");
    s.set_custom_speech(true);
    s.set_endpoint_id("E");
    let r = s.recognize_request(&[1, 2, 3], &mode, &Format::Detailed);
    assert_eq!(r.body.len(), 44 + 3);
    assert_eq!(&r.body[0..4], b"RIFF");
    assert_eq!(&r.body[44..], &[1, 2, 3]);
    assert_eq!(r.headers[1].value, "application/octet-stream");
    assert_eq!(
        r.url,
        "https://westus.stt.speech.microsoft.com/speech/recognition/dictation/cognitiveservices/v1?cid=E&language=fr-FR&format=detailed"
    );
}

#[test]
fn synthesis_requests() {
    let font = Font { lang: "en-US", gender: "Female", name: "Voice (en-US, Jessa)" };
    assert_eq!(
        synthesis_ssml("hello", &font),
        "<speak version='1.0' xml:lang='en-US'><voice xml:lang='en-US' xml:gender='Female' name='Voice (en-US, Jessa)'>hello</voice></speak>"
    );
    let mut s = Speech::new("k");
    s.accept_token("T");
    let r = s.synthesize_request("hello", &font);
    assert_eq!(r.url, "https://speech.platform.bing.com/synthesize");
    assert_eq!(r.body, synthesis_ssml("hello", &font).into_bytes());
    assert_eq!(r.headers[2].value, "raw-16khz-16bit-mono-pcm");
}

#[test]
fn numeric_codes() {
    assert_eq!(mode_from_code(0, 12), (Mode::Interactive(InteractiveDictationLanguage::EnglishUnitedStates), true));
    assert_eq!(mode_from_code(1, 2), (Mode::Dictation(InteractiveDictationLanguage::ChineseChina), true));
    assert_eq!(mode_from_code(2, 9), (Mode::Conversation(ConversationLanguage::SpanishSpain), true));
    assert_eq!(mode_from_code(2, 10), (Mode::Conversation(ConversationLanguage::EnglishUnitedStates), false));
    assert_eq!(mode_from_code(0, 29), (Mode::Interactive(InteractiveDictationLanguage::EnglishUnitedStates), false));
    assert_eq!(mode_from_code(1, -1), (Mode::Dictation(InteractiveDictationLanguage::EnglishUnitedStates), false));
    assert_eq!(mode_from_code(3, 0), (Mode::Interactive(InteractiveDictationLanguage::EnglishUnitedStates), true));
    assert_eq!(format_from_code(0), Format::Simple);
    assert_eq!(format_from_code(5), Format::Detailed);
}

#[test]
fn platform_names() {
    assert_eq!(platform_name("linux"), "Linux");
    assert_eq!(platform_name("macos"), "macOS");
    assert_eq!(platform_name("windows"), "Windows");
    assert_eq!(platform_name("plan9"), "Unknown");
}
