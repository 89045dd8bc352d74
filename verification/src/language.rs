//! The language of the interface and the choice of another one.

use vstd::prelude::*;
use crate::text::same_text;

verus! {

/// The languages of the interface, in the order offered.
#[derive(Debug, Clone, Copy, PartialEq, Eq, Structural)]
pub enum Lang {
    Pt,
    En,
    Es,
    Zh,
    Ja,
    Ru,
    De,
    It,
    Tr,
}

/// How many languages are offered.
pub const LANG_COUNT: usize = 9;

/// The place of a language in the list.
pub open spec fn lang_place(lang: Lang) -> int {
    match lang {
        Lang::Pt => 0,
        Lang::En => 1,
        Lang::Es => 2,
        Lang::Zh => 3,
        Lang::Ja => 4,
        Lang::Ru => 5,
        Lang::De => 6,
        Lang::It => 7,
        Lang::Tr => 8,
    }
}

/// The code under which a language is saved.
pub open spec fn code(lang: Lang) -> Seq<char> {
    match lang {
        Lang::Pt => "pt"@,
        Lang::En => "en"@,
        Lang::Es => "es"@,
        Lang::Zh => "zh"@,
        Lang::Ja => "ja"@,
        Lang::Ru => "ru"@,
        Lang::De => "de"@,
        Lang::It => "it"@,
        Lang::Tr => "tr"@,
    }
}

/// The languages in the order offered.
pub open spec fn languages() -> Seq<Lang> {
    seq![
        Lang::Pt,
        Lang::En,
        Lang::Es,
        Lang::Zh,
        Lang::Ja,
        Lang::Ru,
        Lang::De,
        Lang::It,
        Lang::Tr,
    ]
}

/// The language at a place of the list.
pub fn lang_at(idx: usize) -> (lang: Option<Lang>)
    ensures
        lang == if idx < LANG_COUNT {
            Some(languages()[idx as int])
        } else {
            None
        },
{
    match idx {
        0 => Some(Lang::Pt),
        1 => Some(Lang::En),
        2 => Some(Lang::Es),
        3 => Some(Lang::Zh),
        4 => Some(Lang::Ja),
        5 => Some(Lang::Ru),
        6 => Some(Lang::De),
        7 => Some(Lang::It),
        8 => Some(Lang::Tr),
        _ => None,
    }
}

/// The code under which a language is saved.
pub fn lang_code(lang: Lang) -> (text: &'static str)
    ensures
        text@ == code(lang),
{
    match lang {
        Lang::Pt => "pt",
        Lang::En => "en",
        Lang::Es => "es",
        Lang::Zh => "zh",
        Lang::Ja => "ja",
        Lang::Ru => "ru",
        Lang::De => "de",
        Lang::It => "it",
        Lang::Tr => "tr",
    }
}

/// The key of a language's translated name.
pub fn lang_label_key(lang: Lang) -> (key: &'static str)
    ensures
        key@ == match lang {
            Lang::Pt => "language_pt"@,
            Lang::En => "language_en"@,
            Lang::Es => "language_es"@,
            Lang::Zh => "language_zh"@,
            Lang::Ja => "language_ja"@,
            Lang::Ru => "language_ru"@,
            Lang::De => "language_de"@,
            Lang::It => "language_it"@,
            Lang::Tr => "language_tr"@,
        },
{
    match lang {
        Lang::Pt => "language_pt",
        Lang::En => "language_en",
        Lang::Es => "language_es",
        Lang::Zh => "language_zh",
        Lang::Ja => "language_ja",
        Lang::Ru => "language_ru",
        Lang::De => "language_de",
        Lang::It => "language_it",
        Lang::Tr => "language_tr",
    }
}

/// The code of the language in force: the saved one, whatever it says, or the
/// code of the language that was detected.
pub open spec fn code_in_force(saved: Option<String>, detected: Lang) -> Seq<char> {
    match saved {
        Some(text) => text@,
        None => code(detected),
    }
}

/// The code of the language in force.
pub fn current_code(saved: &Option<String>, detected: Lang) -> (text: String)
    ensures
        text@ == code_in_force(*saved, detected),
{
    match saved {
        Some(text) => text.clone(),
        None => lang_code(detected).to_owned(),
    }
}

/// No two languages share a code.
proof fn lemma_codes_differ()
    ensures
        forall|a: Lang, b: Lang| #[trigger] code(a) == #[trigger] code(b) ==> a == b,
{
    reveal_strlit("pt");
    reveal_strlit("en");
    reveal_strlit("es");
    reveal_strlit("zh");
    reveal_strlit("ja");
    reveal_strlit("ru");
    reveal_strlit("de");
    reveal_strlit("it");
    reveal_strlit("tr");
    assert forall|a: Lang, b: Lang| #[trigger] code(a) == #[trigger] code(b) implies a == b by {
        let x = code(a);
        let y = code(b);
        assert(x[0] == y[0] && x[1] == y[1]);
    }
}

/// The place to show as selected: that of the language with the code in force,
/// or the first where no language has it.
pub open spec fn shown_language(current: Seq<char>) -> int {
    if exists|lang: Lang| #[trigger] code(lang) == current {
        lang_place(choose|lang: Lang| #[trigger] code(lang) == current)
    } else {
        0
    }
}

/// The language that was picked: nothing for a place that is no choice, and
/// nothing for the language already in force.
pub open spec fn language_pick(selected: int, current: Seq<char>) -> Option<Lang> {
    if 0 <= selected < LANG_COUNT && code(languages()[selected]) != current {
        Some(languages()[selected])
    } else {
        None
    }
}

/// The place to show as selected in the list of languages.
pub fn selected_language(current: &str) -> (selected: usize)
    ensures
        selected == shown_language(current@),
        selected < LANG_COUNT,
{
    proof {
        lemma_codes_differ();
    }
    let mut i: usize = 0;
    while i < LANG_COUNT
        invariant
            i <= LANG_COUNT,
            forall|lang: Lang| lang_place(lang) < i ==> #[trigger] code(lang) != current@,
            forall|a: Lang, b: Lang| #[trigger] code(a) == #[trigger] code(b) ==> a == b,
        decreases LANG_COUNT - i,
    {
        if let Some(lang) = lang_at(i) {
            if same_text(lang_code(lang), current) {
                assert(code(lang) == current@);
                return i;
            }
            assert forall|other: Lang| lang_place(other) < i + 1 implies #[trigger] code(other)
                != current@ by {
                if lang_place(other) == i {
                    assert(other == lang);
                }
            }
        }
        i = i + 1;
    }
    0
}

/// The language that was picked in the list, if it is another one.
pub fn picked_language(selected: usize, current: &str) -> (picked: Option<Lang>)
    ensures
        picked == language_pick(selected as int, current@),
{
    match lang_at(selected) {
        Some(lang) => if same_text(lang_code(lang), current) {
            None
        } else {
            Some(lang)
        },
        None => None,
    }
}

/// A language that was picked is the one shown once its code is in force, and
/// picking it once more does nothing.
pub proof fn the_picked_language_is_the_one_shown(selected: int, current: Seq<char>, lang: Lang)
    requires
        language_pick(selected, current) == Some(lang),
    ensures
        shown_language(code(lang)) == selected,
        language_pick(selected, code(lang)) is None,
{
    lemma_codes_differ();
}

/// The place shown is always one of the list, and where it is that of the code
/// in force, picking it does nothing. A code of no language shows the first
/// place, and picking that place then counts.
pub proof fn the_shown_language_is_in_the_list(current: Seq<char>)
    ensures
        0 <= shown_language(current) < LANG_COUNT,
        language_pick(shown_language(current), current) == if exists|lang: Lang| #[trigger]
            code(lang) == current {
            None::<Lang>
        } else {
            Some(Lang::Pt)
        },
{
    lemma_codes_differ();
}

/// The code in force is the saved text, whatever it is; without one it is that
/// of the language detected.
pub proof fn what_is_saved_comes_first(saved: String, detected: Lang)
    ensures
        code_in_force(Some(saved), detected) == saved@,
        code_in_force(None, detected) == code(detected),
{
}

/// A place of the list counts as picked exactly when the language there is not
/// the one in force, and then it is that language; a place that does not exist
/// never does.
pub proof fn every_other_language_can_be_picked(lang: Lang, current: Seq<char>, beyond: int)
    requires
        beyond < 0 || beyond >= LANG_COUNT,
    ensures
        0 <= lang_place(lang) < LANG_COUNT,
        code(lang) != current ==> language_pick(lang_place(lang), current) == Some(lang),
        code(lang) == current ==> language_pick(lang_place(lang), current) is None,
        language_pick(beyond, current) is None,
        code(lang) == current ==> shown_language(current) == lang_place(lang),
{
    lemma_codes_differ();
    assert(languages()[lang_place(lang)] == lang);
}

} // verus!
