//! Numeric codes for modes, languages and result formats, as callers that
//! cannot pass the enums (a C caller, a settings file) give them.

use crate::language::{ConversationLanguage, Format, InteractiveDictationLanguage, Mode};
use vstd::prelude::*;

verus! {

/// The mode that a mode code and a language code name, and whether the
/// language code is known: modes 0, 1 and 2 are interactive, dictation and
/// conversation, languages are numbered in the order of their English names,
/// and an unknown language gives US English of that mode with `false`. Any
/// other mode code gives interactive US English, which counts as known.
pub open spec fn mode_of_codes(mode: i32, language: i32) -> (Mode, bool) {
    if mode == 0 {
        match language {
            0 => (Mode::Interactive(InteractiveDictationLanguage::ArabicEgypt), true),
            1 => (Mode::Interactive(InteractiveDictationLanguage::CatalanSpain), true),
            2 => (Mode::Interactive(InteractiveDictationLanguage::ChineseChina), true),
            3 => (Mode::Interactive(InteractiveDictationLanguage::ChineseHongKong), true),
            4 => (Mode::Interactive(InteractiveDictationLanguage::ChineseTaiwan), true),
            5 => (Mode::Interactive(InteractiveDictationLanguage::DanishDenmark), true),
            6 => (Mode::Interactive(InteractiveDictationLanguage::DutchNetherlands), true),
            7 => (Mode::Interactive(InteractiveDictationLanguage::EnglishAustralia), true),
            8 => (Mode::Interactive(InteractiveDictationLanguage::EnglishCanada), true),
            9 => (Mode::Interactive(InteractiveDictationLanguage::EnglishIndia), true),
            10 => (Mode::Interactive(InteractiveDictationLanguage::EnglishNewZealand), true),
            11 => (Mode::Interactive(InteractiveDictationLanguage::EnglishUnitedKingdom), true),
            12 => (Mode::Interactive(InteractiveDictationLanguage::EnglishUnitedStates), true),
            13 => (Mode::Interactive(InteractiveDictationLanguage::FinnishFinland), true),
            14 => (Mode::Interactive(InteractiveDictationLanguage::FrenchCanada), true),
            15 => (Mode::Interactive(InteractiveDictationLanguage::FrenchFrance), true),
            16 => (Mode::Interactive(InteractiveDictationLanguage::GermanGermany), true),
            17 => (Mode::Interactive(InteractiveDictationLanguage::HindiIndia), true),
            18 => (Mode::Interactive(InteractiveDictationLanguage::ItalianItaly), true),
            19 => (Mode::Interactive(InteractiveDictationLanguage::JapaneseJapan), true),
            20 => (Mode::Interactive(InteractiveDictationLanguage::KoreanKorea), true),
            21 => (Mode::Interactive(InteractiveDictationLanguage::NorwegianNorway), true),
            22 => (Mode::Interactive(InteractiveDictationLanguage::PolishPoland), true),
            23 => (Mode::Interactive(InteractiveDictationLanguage::PortugueseBrazil), true),
            24 => (Mode::Interactive(InteractiveDictationLanguage::PortuguesePortugal), true),
            25 => (Mode::Interactive(InteractiveDictationLanguage::RussianRussia), true),
            26 => (Mode::Interactive(InteractiveDictationLanguage::SpanishMexico), true),
            27 => (Mode::Interactive(InteractiveDictationLanguage::SpanishSpain), true),
            28 => (Mode::Interactive(InteractiveDictationLanguage::SwedishSweden), true),
            _ => (Mode::Interactive(InteractiveDictationLanguage::EnglishUnitedStates), false),
        }
    } else if mode == 1 {
        match language {
            0 => (Mode::Dictation(InteractiveDictationLanguage::ArabicEgypt), true),
            1 => (Mode::Dictation(InteractiveDictationLanguage::CatalanSpain), true),
            2 => (Mode::Dictation(InteractiveDictationLanguage::ChineseChina), true),
            3 => (Mode::Dictation(InteractiveDictationLanguage::ChineseHongKong), true),
            4 => (Mode::Dictation(InteractiveDictationLanguage::ChineseTaiwan), true),
            5 => (Mode::Dictation(InteractiveDictationLanguage::DanishDenmark), true),
            6 => (Mode::Dictation(InteractiveDictationLanguage::DutchNetherlands), true),
            7 => (Mode::Dictation(InteractiveDictationLanguage::EnglishAustralia), true),
            8 => (Mode::Dictation(InteractiveDictationLanguage::EnglishCanada), true),
            9 => (Mode::Dictation(InteractiveDictationLanguage::EnglishIndia), true),
            10 => (Mode::Dictation(InteractiveDictationLanguage::EnglishNewZealand), true),
            11 => (Mode::Dictation(InteractiveDictationLanguage::EnglishUnitedKingdom), true),
            12 => (Mode::Dictation(InteractiveDictationLanguage::EnglishUnitedStates), true),
            13 => (Mode::Dictation(InteractiveDictationLanguage::FinnishFinland), true),
            14 => (Mode::Dictation(InteractiveDictationLanguage::FrenchCanada), true),
            15 => (Mode::Dictation(InteractiveDictationLanguage::FrenchFrance), true),
            16 => (Mode::Dictation(InteractiveDictationLanguage::GermanGermany), true),
            17 => (Mode::Dictation(InteractiveDictationLanguage::HindiIndia), true),
            18 => (Mode::Dictation(InteractiveDictationLanguage::ItalianItaly), true),
            19 => (Mode::Dictation(InteractiveDictationLanguage::JapaneseJapan), true),
            20 => (Mode::Dictation(InteractiveDictationLanguage::KoreanKorea), true),
            21 => (Mode::Dictation(InteractiveDictationLanguage::NorwegianNorway), true),
            22 => (Mode::Dictation(InteractiveDictationLanguage::PolishPoland), true),
            23 => (Mode::Dictation(InteractiveDictationLanguage::PortugueseBrazil), true),
            24 => (Mode::Dictation(InteractiveDictationLanguage::PortuguesePortugal), true),
            25 => (Mode::Dictation(InteractiveDictationLanguage::RussianRussia), true),
            26 => (Mode::Dictation(InteractiveDictationLanguage::SpanishMexico), true),
            27 => (Mode::Dictation(InteractiveDictationLanguage::SpanishSpain), true),
            28 => (Mode::Dictation(InteractiveDictationLanguage::SwedishSweden), true),
            _ => (Mode::Dictation(InteractiveDictationLanguage::EnglishUnitedStates), false),
        }
    } else if mode == 2 {
        match language {
            0 => (Mode::Conversation(ConversationLanguage::ArabicEgypt), true),
            1 => (Mode::Conversation(ConversationLanguage::ChineseChina), true),
            2 => (Mode::Conversation(ConversationLanguage::EnglishUnitedStates), true),
            3 => (Mode::Conversation(ConversationLanguage::FrenchFrance), true),
            4 => (Mode::Conversation(ConversationLanguage::GermanGermany), true),
            5 => (Mode::Conversation(ConversationLanguage::ItalianItaly), true),
            6 => (Mode::Conversation(ConversationLanguage::JapaneseJapan), true),
            7 => (Mode::Conversation(ConversationLanguage::PortugueseBrazil), true),
            8 => (Mode::Conversation(ConversationLanguage::RussianRussia), true),
            9 => (Mode::Conversation(ConversationLanguage::SpanishSpain), true),
            _ => (Mode::Conversation(ConversationLanguage::EnglishUnitedStates), false),
        }
    } else {
        (Mode::Interactive(InteractiveDictationLanguage::EnglishUnitedStates), true)
    }
}

/// The mode that a mode code and a language code name, and whether the
/// language code is known (see `mode_of_codes`).
pub fn mode_from_code(mode: i32, language: i32) -> (r: (Mode, bool))
    ensures
        r == mode_of_codes(mode, language),
{
    if mode == 0 {
        match language {
            0 => (Mode::Interactive(InteractiveDictationLanguage::ArabicEgypt), true),
            1 => (Mode::Interactive(InteractiveDictationLanguage::CatalanSpain), true),
            2 => (Mode::Interactive(InteractiveDictationLanguage::ChineseChina), true),
            3 => (Mode::Interactive(InteractiveDictationLanguage::ChineseHongKong), true),
            4 => (Mode::Interactive(InteractiveDictationLanguage::ChineseTaiwan), true),
            5 => (Mode::Interactive(InteractiveDictationLanguage::DanishDenmark), true),
            6 => (Mode::Interactive(InteractiveDictationLanguage::DutchNetherlands), true),
            7 => (Mode::Interactive(InteractiveDictationLanguage::EnglishAustralia), true),
            8 => (Mode::Interactive(InteractiveDictationLanguage::EnglishCanada), true),
            9 => (Mode::Interactive(InteractiveDictationLanguage::EnglishIndia), true),
            10 => (Mode::Interactive(InteractiveDictationLanguage::EnglishNewZealand), true),
            11 => (Mode::Interactive(InteractiveDictationLanguage::EnglishUnitedKingdom), true),
            12 => (Mode::Interactive(InteractiveDictationLanguage::EnglishUnitedStates), true),
            13 => (Mode::Interactive(InteractiveDictationLanguage::FinnishFinland), true),
            14 => (Mode::Interactive(InteractiveDictationLanguage::FrenchCanada), true),
            15 => (Mode::Interactive(InteractiveDictationLanguage::FrenchFrance), true),
            16 => (Mode::Interactive(InteractiveDictationLanguage::GermanGermany), true),
            17 => (Mode::Interactive(InteractiveDictationLanguage::HindiIndia), true),
            18 => (Mode::Interactive(InteractiveDictationLanguage::ItalianItaly), true),
            19 => (Mode::Interactive(InteractiveDictationLanguage::JapaneseJapan), true),
            20 => (Mode::Interactive(InteractiveDictationLanguage::KoreanKorea), true),
            21 => (Mode::Interactive(InteractiveDictationLanguage::NorwegianNorway), true),
            22 => (Mode::Interactive(InteractiveDictationLanguage::PolishPoland), true),
            23 => (Mode::Interactive(InteractiveDictationLanguage::PortugueseBrazil), true),
            24 => (Mode::Interactive(InteractiveDictationLanguage::PortuguesePortugal), true),
            25 => (Mode::Interactive(InteractiveDictationLanguage::RussianRussia), true),
            26 => (Mode::Interactive(InteractiveDictationLanguage::SpanishMexico), true),
            27 => (Mode::Interactive(InteractiveDictationLanguage::SpanishSpain), true),
            28 => (Mode::Interactive(InteractiveDictationLanguage::SwedishSweden), true),
            _ => (Mode::Interactive(InteractiveDictationLanguage::EnglishUnitedStates), false),
        }
    } else if mode == 1 {
        match language {
            0 => (Mode::Dictation(InteractiveDictationLanguage::ArabicEgypt), true),
            1 => (Mode::Dictation(InteractiveDictationLanguage::CatalanSpain), true),
            2 => (Mode::Dictation(InteractiveDictationLanguage::ChineseChina), true),
            3 => (Mode::Dictation(InteractiveDictationLanguage::ChineseHongKong), true),
            4 => (Mode::Dictation(InteractiveDictationLanguage::ChineseTaiwan), true),
            5 => (Mode::Dictation(InteractiveDictationLanguage::DanishDenmark), true),
            6 => (Mode::Dictation(InteractiveDictationLanguage::DutchNetherlands), true),
            7 => (Mode::Dictation(InteractiveDictationLanguage::EnglishAustralia), true),
            8 => (Mode::Dictation(InteractiveDictationLanguage::EnglishCanada), true),
            9 => (Mode::Dictation(InteractiveDictationLanguage::EnglishIndia), true),
            10 => (Mode::Dictation(InteractiveDictationLanguage::EnglishNewZealand), true),
            11 => (Mode::Dictation(InteractiveDictationLanguage::EnglishUnitedKingdom), true),
            12 => (Mode::Dictation(InteractiveDictationLanguage::EnglishUnitedStates), true),
            13 => (Mode::Dictation(InteractiveDictationLanguage::FinnishFinland), true),
            14 => (Mode::Dictation(InteractiveDictationLanguage::FrenchCanada), true),
            15 => (Mode::Dictation(InteractiveDictationLanguage::FrenchFrance), true),
            16 => (Mode::Dictation(InteractiveDictationLanguage::GermanGermany), true),
            17 => (Mode::Dictation(InteractiveDictationLanguage::HindiIndia), true),
            18 => (Mode::Dictation(InteractiveDictationLanguage::ItalianItaly), true),
            19 => (Mode::Dictation(InteractiveDictationLanguage::JapaneseJapan), true),
            20 => (Mode::Dictation(InteractiveDictationLanguage::KoreanKorea), true),
            21 => (Mode::Dictation(InteractiveDictationLanguage::NorwegianNorway), true),
            22 => (Mode::Dictation(InteractiveDictationLanguage::PolishPoland), true),
            23 => (Mode::Dictation(InteractiveDictationLanguage::PortugueseBrazil), true),
            24 => (Mode::Dictation(InteractiveDictationLanguage::PortuguesePortugal), true),
            25 => (Mode::Dictation(InteractiveDictationLanguage::RussianRussia), true),
            26 => (Mode::Dictation(InteractiveDictationLanguage::SpanishMexico), true),
            27 => (Mode::Dictation(InteractiveDictationLanguage::SpanishSpain), true),
            28 => (Mode::Dictation(InteractiveDictationLanguage::SwedishSweden), true),
            _ => (Mode::Dictation(InteractiveDictationLanguage::EnglishUnitedStates), false),
        }
    } else if mode == 2 {
        match language {
            0 => (Mode::Conversation(ConversationLanguage::ArabicEgypt), true),
            1 => (Mode::Conversation(ConversationLanguage::ChineseChina), true),
            2 => (Mode::Conversation(ConversationLanguage::EnglishUnitedStates), true),
            3 => (Mode::Conversation(ConversationLanguage::FrenchFrance), true),
            4 => (Mode::Conversation(ConversationLanguage::GermanGermany), true),
            5 => (Mode::Conversation(ConversationLanguage::ItalianItaly), true),
            6 => (Mode::Conversation(ConversationLanguage::JapaneseJapan), true),
            7 => (Mode::Conversation(ConversationLanguage::PortugueseBrazil), true),
            8 => (Mode::Conversation(ConversationLanguage::RussianRussia), true),
            9 => (Mode::Conversation(ConversationLanguage::SpanishSpain), true),
            _ => (Mode::Conversation(ConversationLanguage::EnglishUnitedStates), false),
        }
    } else {
        (Mode::Interactive(InteractiveDictationLanguage::EnglishUnitedStates), true)
    }
}

/// The result format of a code: 0 is simple, anything else detailed.
pub fn format_from_code(format: i32) -> (r: Format)
    ensures
        r == (if format == 0 {
            Format::Simple
        } else {
            Format::Detailed
        }),
{
    if format == 0 {
        Format::Simple
    } else {
        Format::Detailed
    }
}

} // verus!
