//! The mapping between config choices and the string labels shown in the
//! Hub's pick lists (language, speaker-embedding model, number format),
//! in both directions.

use vstd::prelude::*;

use crate::text::{chars_of, opt_view};

verus! {

/// Whether `a` and `b` hold the same characters.
pub fn str_eq(a: &str, b: &str) -> (r: bool)
    ensures
        r == (a@ == b@),
{
    let x = chars_of(a);
    let y = chars_of(b);
    if x.len() != y.len() {
        return false;
    }
    let mut i: usize = 0;
    while i < x.len()
        invariant
            x@ == a@,
            y@ == b@,
            x.len() == y.len(),
            i <= x.len(),
            forall|j: int| 0 <= j < i ==> x@[j] == y@[j],
        decreases x.len() - i,
    {
        if x[i] != y[i] {
            return false;
        }
        i += 1;
    }
    assert(x@ =~= y@);
    true
}

/// Labels shown in the language-override pick list, in display order.
/// "auto" means multilingual auto-detect (no fixed language); every other
/// entry is a BCP47 code passed straight through as a fixed language.
pub const LANGUAGE_LABELS: [&'static str; 29] = [
    "auto",
    "en",
    "ru",
    "es",
    "fr",
    "de",
    "it",
    "pt",
    "ja",
    "ko",
    "zh",
    "nl",
    "pl",
    "tr",
    "uk",
    "ar",
    "hi",
    "sv",
    "cs",
    "fi",
    "da",
    "no",
    "el",
    "he",
    "ro",
    "hu",
    "vi",
    "th",
    "id",
];

/// The language labels as character sequences.
pub open spec fn language_labels() -> Seq<Seq<char>> {
    LANGUAGE_LABELS@.map_values(|l: &str| l@)
}

/// `code` is one of the listed language labels.
pub open spec fn is_listed_language(code: Seq<char>) -> bool {
    exists|i: int| 0 <= i < 29 && language_labels()[i] == code
}

/// The label the language pick list shows for a configured language:
/// "auto" for none, the code itself when it is listed, "auto" otherwise.
pub open spec fn language_label_of(language: Option<Seq<char>>) -> Seq<char> {
    match language {
        None => "auto"@,
        Some(code) => if is_listed_language(code) {
            code
        } else {
            "auto"@
        },
    }
}

/// The configured language a label stands for: none for "auto", the code
/// otherwise.
pub open spec fn language_of_label(label: Seq<char>) -> Option<Seq<char>> {
    if label == "auto"@ {
        None
    } else {
        Some(label)
    }
}

/// The label the language pick list should show as selected for the
/// configured language: "auto" for `None`, the code itself if it is one of
/// [`LANGUAGE_LABELS`], and "auto" for anything else.
pub fn language_label(language: &Option<String>) -> (label: &'static str)
    ensures
        label@ == language_label_of(opt_view(*language)),
{
    match language {
        None => "auto",
        Some(code) => {
            let mut i: usize = 0;
            while i < 29
                invariant
                    i <= 29,
                    opt_view(*language) == Some(code@),
                    forall|j: int| 0 <= j < i ==> language_labels()[j] != code@,
                decreases 29 - i,
            {
                let label = LANGUAGE_LABELS[i];
                assert(LANGUAGE_LABELS@.len() == 29);
                assert(label == LANGUAGE_LABELS@[i as int]);
                if str_eq(label, code.as_str()) {
                    assert(language_labels()[i as int] == label@);
                    assert(is_listed_language(code@));
                    return label;
                }
                assert(language_labels()[i as int] == label@);
                i += 1;
            }
            "auto"
        },
    }
}

/// The configured language for a label previously produced by
/// [`language_label`] (or picked from [`LANGUAGE_LABELS`]): `None` for
/// "auto", the label otherwise.
pub fn language_from_label(label: &str) -> (language: Option<String>)
    ensures
        opt_view(language) == language_of_label(label@),
{
    if str_eq(label, "auto") {
        None
    } else {
        Some(String::from_str(label))
    }
}

/// Which speaker-embedding model fingerprints voices.
#[derive(Debug, Clone, Copy, PartialEq, Eq, Structural)]
pub enum SpeakerEmbeddingChoice {
    CamPlusPlus,
    Eres2Net,
}

impl Default for SpeakerEmbeddingChoice {
    fn default() -> (c: Self)
        ensures
            c == SpeakerEmbeddingChoice::CamPlusPlus,
    {
        SpeakerEmbeddingChoice::CamPlusPlus
    }
}

/// Labels shown in the speaker-embedding-model pick list, in display order.
pub const EMBEDDING_LABELS: [&'static str; 2] = ["cam-plus-plus", "eres2net"];

/// The label of an embedding choice.
pub open spec fn embedding_label_of(choice: SpeakerEmbeddingChoice) -> Seq<char> {
    match choice {
        SpeakerEmbeddingChoice::CamPlusPlus => "cam-plus-plus"@,
        SpeakerEmbeddingChoice::Eres2Net => "eres2net"@,
    }
}

/// The embedding choice a label stands for; unknown labels fall back to
/// the default.
pub open spec fn embedding_of_label(label: Seq<char>) -> SpeakerEmbeddingChoice {
    if label == "eres2net"@ {
        SpeakerEmbeddingChoice::Eres2Net
    } else {
        SpeakerEmbeddingChoice::CamPlusPlus
    }
}

/// The label the embedding pick list should show as selected.
pub fn embedding_label(choice: SpeakerEmbeddingChoice) -> (label: &'static str)
    ensures
        label@ == embedding_label_of(choice),
{
    match choice {
        SpeakerEmbeddingChoice::CamPlusPlus => "cam-plus-plus",
        SpeakerEmbeddingChoice::Eres2Net => "eres2net",
    }
}

/// Recovers the embedding choice for a label; falls back to the default
/// choice for any unrecognized label.
pub fn embedding_from_label(label: &str) -> (choice: SpeakerEmbeddingChoice)
    ensures
        choice == embedding_of_label(label@),
{
    if str_eq(label, "eres2net") {
        SpeakerEmbeddingChoice::Eres2Net
    } else {
        SpeakerEmbeddingChoice::CamPlusPlus
    }
}

/// How the normalizer renders numbers.
#[derive(Debug, Clone, Copy, PartialEq, Eq, Structural)]
pub enum NumberFormat {
    Digits,
    Words,
}

impl Default for NumberFormat {
    fn default() -> (f: Self)
        ensures
            f == NumberFormat::Digits,
    {
        NumberFormat::Digits
    }
}

/// Labels shown in the number-rendering pick list, in display order.
pub const NUMBER_FORMAT_LABELS: [&'static str; 2] = ["digits", "words"];

/// The label of a number format.
pub open spec fn number_format_label_of(choice: NumberFormat) -> Seq<char> {
    match choice {
        NumberFormat::Digits => "digits"@,
        NumberFormat::Words => "words"@,
    }
}

/// The number format a label stands for; unknown labels fall back to
/// digits.
pub open spec fn number_format_of_label(label: Seq<char>) -> NumberFormat {
    if label == "words"@ {
        NumberFormat::Words
    } else {
        NumberFormat::Digits
    }
}

/// The label the number-format pick list should show as selected.
pub fn number_format_label(choice: NumberFormat) -> (label: &'static str)
    ensures
        label@ == number_format_label_of(choice),
{
    match choice {
        NumberFormat::Digits => "digits",
        NumberFormat::Words => "words",
    }
}

/// Recovers the number format for a label; falls back to digits for any
/// unrecognized label.
pub fn number_format_from_label(label: &str) -> (choice: NumberFormat)
    ensures
        choice == number_format_of_label(label@),
{
    if str_eq(label, "words") {
        NumberFormat::Words
    } else {
        NumberFormat::Digits
    }
}

/// Every listed language label survives the trip through
/// [`language_from_label`] and back through [`language_label`].
pub proof fn language_label_roundtrip(i: int)
    requires
        0 <= i < 29,
    ensures
        language_label_of(language_of_label(language_labels()[i])) == language_labels()[i],
{
    let l = language_labels()[i];
    if l != "auto"@ {
        assert(is_listed_language(l));
    }
}

/// No configured language is shown as anything but "auto" or itself, and
/// only listed codes are shown as themselves.
pub proof fn language_label_is_auto_or_listed(language: Option<Seq<char>>)
    ensures
        language_label_of(language) == "auto"@ || (language == Some(language_label_of(language))
            && is_listed_language(language_label_of(language))),
{
}

/// Every embedding choice survives the trip through its label.
pub proof fn embedding_label_roundtrip(choice: SpeakerEmbeddingChoice)
    ensures
        embedding_of_label(embedding_label_of(choice)) == choice,
{
    reveal_strlit("cam-plus-plus");
    reveal_strlit("eres2net");
    assert("cam-plus-plus"@[0] != "eres2net"@[0]);
}

/// Every number format survives the trip through its label.
pub proof fn number_format_label_roundtrip(choice: NumberFormat)
    ensures
        number_format_of_label(number_format_label_of(choice)) == choice,
{
    reveal_strlit("digits");
    reveal_strlit("words");
    assert("digits"@[0] != "words"@[0]);
}

} // verus!
