//! The two languages of the user interface.

use vstd::prelude::*;

verus! {

/// The language that the user reads.
#[derive(Debug, Clone, Copy, PartialEq, Eq, Structural)]
pub enum Language {
    Chinese,
    English,
}

/// The text for the language, of the two.
pub fn t<'a>(language: Language, chinese: &'a str, english: &'a str) -> (s: &'a str)
    ensures
        s@ == in_language(language, chinese@, english@),
{
    match language {
        Language::Chinese => chinese,
        Language::English => english,
    }
}

/// The text for the language, of the two.
pub open spec fn in_language(
    language: Language,
    chinese: Seq<char>,
    english: Seq<char>,
) -> Seq<char> {
    match language {
        Language::Chinese => chinese,
        Language::English => english,
    }
}

/// Law: a text is told in the language that is asked for, and the other one plays no part.
pub proof fn texts_are_told_in_the_language(zh: Seq<char>, en: Seq<char>)
    ensures
        in_language(Language::Chinese, zh, en) == zh,
        in_language(Language::English, zh, en) == en,
{
}

} // verus!
