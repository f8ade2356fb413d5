use vstd::prelude::*;
use vstd::string::*;

verus! {

/// Languages that the interactive and dictation modes recognise.
#[derive(Clone, Copy, Debug, PartialEq, Eq, Structural)]
pub enum InteractiveDictationLanguage {
    ArabicEgypt,
    CatalanSpain,
    DanishDenmark,
    GermanGermany,
    EnglishAustralia,
    EnglishCanada,
    EnglishUnitedKingdom,
    EnglishIndia,
    EnglishNewZealand,
    EnglishUnitedStates,
    SpanishSpain,
    SpanishMexico,
    FinnishFinland,
    FrenchCanada,
    FrenchFrance,
    HindiIndia,
    ItalianItaly,
    JapaneseJapan,
    KoreanKorea,
    NorwegianNorway,
    DutchNetherlands,
    PolishPoland,
    PortugueseBrazil,
    PortuguesePortugal,
    RussianRussia,
    SwedishSweden,
    ChineseChina,
    ChineseHongKong,
    ChineseTaiwan,
}

impl InteractiveDictationLanguage {
    /// The locale tag of the language, as the service spells it.
    pub open spec fn spec_tag(self) -> Seq<char> {
        match self {
            InteractiveDictationLanguage::ArabicEgypt => "ar-EG"@,
            InteractiveDictationLanguage::CatalanSpain => "ca-ES"@,
            InteractiveDictationLanguage::DanishDenmark => "da-DK"@,
            InteractiveDictationLanguage::GermanGermany => "de-DE"@,
            InteractiveDictationLanguage::EnglishAustralia => "en-AU"@,
            InteractiveDictationLanguage::EnglishCanada => "en-CA"@,
            InteractiveDictationLanguage::EnglishUnitedKingdom => "en-GB"@,
            InteractiveDictationLanguage::EnglishIndia => "en-IN"@,
            InteractiveDictationLanguage::EnglishNewZealand => "en-NZ"@,
            InteractiveDictationLanguage::EnglishUnitedStates => "en-US"@,
            InteractiveDictationLanguage::SpanishSpain => "es-ES"@,
            InteractiveDictationLanguage::SpanishMexico => "es-MX"@,
            InteractiveDictationLanguage::FinnishFinland => "fi-FI"@,
            InteractiveDictationLanguage::FrenchCanada => "fr-CA"@,
            InteractiveDictationLanguage::FrenchFrance => "fr-FR"@,
            InteractiveDictationLanguage::HindiIndia => "hi-IN"@,
            InteractiveDictationLanguage::ItalianItaly => "it-IT"@,
            InteractiveDictationLanguage::JapaneseJapan => "ja-JP"@,
            InteractiveDictationLanguage::KoreanKorea => "ko-KR"@,
            InteractiveDictationLanguage::NorwegianNorway => "nb-NO"@,
            InteractiveDictationLanguage::DutchNetherlands => "nl-NL"@,
            InteractiveDictationLanguage::PolishPoland => "pl-PL"@,
            InteractiveDictationLanguage::PortugueseBrazil => "pt-BR"@,
            InteractiveDictationLanguage::PortuguesePortugal => "pt-PT"@,
            InteractiveDictationLanguage::RussianRussia => "ru-RU"@,
            InteractiveDictationLanguage::SwedishSweden => "sv-SE"@,
            InteractiveDictationLanguage::ChineseChina => "zh-CN"@,
            InteractiveDictationLanguage::ChineseHongKong => "zh-HK"@,
            InteractiveDictationLanguage::ChineseTaiwan => "zh-TW"@,
        }
    }

    /// The locale tag, such as `en-US`.
    pub fn to_string(&self) -> (r: String)
        ensures
            r@ == self.spec_tag(),
    {
        let tag: &str = match self {
            InteractiveDictationLanguage::ArabicEgypt => "ar-EG",
            InteractiveDictationLanguage::CatalanSpain => "ca-ES",
            InteractiveDictationLanguage::DanishDenmark => "da-DK",
            InteractiveDictationLanguage::GermanGermany => "de-DE",
            InteractiveDictationLanguage::EnglishAustralia => "en-AU",
            InteractiveDictationLanguage::EnglishCanada => "en-CA",
            InteractiveDictationLanguage::EnglishUnitedKingdom => "en-GB",
            InteractiveDictationLanguage::EnglishIndia => "en-IN",
            InteractiveDictationLanguage::EnglishNewZealand => "en-NZ",
            InteractiveDictationLanguage::EnglishUnitedStates => "en-US",
            InteractiveDictationLanguage::SpanishSpain => "es-ES",
            InteractiveDictationLanguage::SpanishMexico => "es-MX",
            InteractiveDictationLanguage::FinnishFinland => "fi-FI",
            InteractiveDictationLanguage::FrenchCanada => "fr-CA",
            InteractiveDictationLanguage::FrenchFrance => "fr-FR",
            InteractiveDictationLanguage::HindiIndia => "hi-IN",
            InteractiveDictationLanguage::ItalianItaly => "it-IT",
            InteractiveDictationLanguage::JapaneseJapan => "ja-JP",
            InteractiveDictationLanguage::KoreanKorea => "ko-KR",
            InteractiveDictationLanguage::NorwegianNorway => "nb-NO",
            InteractiveDictationLanguage::DutchNetherlands => "nl-NL",
            InteractiveDictationLanguage::PolishPoland => "pl-PL",
            InteractiveDictationLanguage::PortugueseBrazil => "pt-BR",
            InteractiveDictationLanguage::PortuguesePortugal => "pt-PT",
            InteractiveDictationLanguage::RussianRussia => "ru-RU",
            InteractiveDictationLanguage::SwedishSweden => "sv-SE",
            InteractiveDictationLanguage::ChineseChina => "zh-CN",
            InteractiveDictationLanguage::ChineseHongKong => "zh-HK",
            InteractiveDictationLanguage::ChineseTaiwan => "zh-TW",
        };
        String::from_str(tag)
    }
}

/// Languages that the conversation mode recognises.
#[derive(Clone, Copy, Debug, PartialEq, Eq, Structural)]
pub enum ConversationLanguage {
    ArabicEgypt,
    GermanGermany,
    EnglishUnitedStates,
    SpanishSpain,
    FrenchFrance,
    ItalianItaly,
    JapaneseJapan,
    PortugueseBrazil,
    RussianRussia,
    ChineseChina,
}

impl ConversationLanguage {
    /// The locale tag of the language, as the service spells it.
    pub open spec fn spec_tag(self) -> Seq<char> {
        match self {
            ConversationLanguage::ArabicEgypt => "ar-EG"@,
            ConversationLanguage::GermanGermany => "de-DE"@,
            ConversationLanguage::EnglishUnitedStates => "en-US"@,
            ConversationLanguage::SpanishSpain => "es-ES"@,
            ConversationLanguage::FrenchFrance => "fr-FR"@,
            ConversationLanguage::ItalianItaly => "it-IT"@,
            ConversationLanguage::JapaneseJapan => "ja-JP"@,
            ConversationLanguage::PortugueseBrazil => "pt-BR"@,
            ConversationLanguage::RussianRussia => "ru-RU"@,
            ConversationLanguage::ChineseChina => "zh-CN"@,
        }
    }

    /// The locale tag, such as `en-US`.
    pub fn to_string(&self) -> (r: String)
        ensures
            r@ == self.spec_tag(),
    {
        let tag: &str = match self {
            ConversationLanguage::ArabicEgypt => "ar-EG",
            ConversationLanguage::GermanGermany => "de-DE",
            ConversationLanguage::EnglishUnitedStates => "en-US",
            ConversationLanguage::SpanishSpain => "es-ES",
            ConversationLanguage::FrenchFrance => "fr-FR",
            ConversationLanguage::ItalianItaly => "it-IT",
            ConversationLanguage::JapaneseJapan => "ja-JP",
            ConversationLanguage::PortugueseBrazil => "pt-BR",
            ConversationLanguage::RussianRussia => "ru-RU",
            ConversationLanguage::ChineseChina => "zh-CN",
        };
        String::from_str(tag)
    }
}

/// Recognition mode, with the language that it listens for.
#[derive(Clone, Copy, Debug, PartialEq, Eq, Structural)]
pub enum Mode {
    Interactive(InteractiveDictationLanguage),
    Conversation(ConversationLanguage),
    Dictation(InteractiveDictationLanguage),
}

impl Mode {
    /// The mode's path segment in a recognition URL.
    pub open spec fn spec_name(self) -> Seq<char> {
        match self {
            Mode::Interactive(_) => "interactive"@,
            Mode::Conversation(_) => "conversation"@,
            Mode::Dictation(_) => "dictation"@,
        }
    }

    /// The locale tag of the mode's language.
    pub open spec fn spec_language(self) -> Seq<char> {
        match self {
            Mode::Interactive(l) => l.spec_tag(),
            Mode::Conversation(l) => l.spec_tag(),
            Mode::Dictation(l) => l.spec_tag(),
        }
    }

    /// The mode's name: `interactive`, `conversation` or `dictation`.
    pub fn to_string(&self) -> (r: String)
        ensures
            r@ == self.spec_name(),
    {
        let name: &str = match self {
            Mode::Interactive(_) => "interactive",
            Mode::Conversation(_) => "conversation",
            Mode::Dictation(_) => "dictation",
        };
        String::from_str(name)
    }

    /// The locale tag of the language that the mode listens for.
    pub fn language(&self) -> (r: String)
        ensures
            r@ == self.spec_language(),
    {
        match self {
            Mode::Interactive(l) => l.to_string(),
            Mode::Conversation(l) => l.to_string(),
            Mode::Dictation(l) => l.to_string(),
        }
    }
}

/// Shape of the recognition result that the service returns.
#[derive(Clone, Copy, Debug, PartialEq, Eq, Structural)]
pub enum Format {
    Simple,
    Detailed,
}

impl Format {
    /// The format's value in a recognition URL.
    pub open spec fn spec_name(self) -> Seq<char> {
        match self {
            Format::Simple => "simple"@,
            Format::Detailed => "detailed"@,
        }
    }

    /// The format's name: `simple` or `detailed`.
    pub fn to_string(&self) -> (r: String)
        ensures
            r@ == self.spec_name(),
    {
        let name: &str = match self {
            Format::Simple => "simple",
            Format::Detailed => "detailed",
        };
        String::from_str(name)
    }
}

/// A synthesis voice: its locale, its gender and the service's name for it.
#[derive(Clone, Copy, Debug, PartialEq, Eq)]
pub struct Font {
    pub lang: &'static str,
    pub gender: &'static str,
    pub name: &'static str,
}

} // verus!
