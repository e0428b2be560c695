//! Case insensitive lookup of reserved words and predefined names.
use super::chars::{eq_ignore_case, spec_eq_ignore_case};
use super::predefined_names::{
    all_predefined_names, predefined_names, spec_name_text, PredefinedName,
};
use super::token_kind::{all_keyword_kinds, keyword_kinds, spec_keyword_text, TokenKind};
use vstd::prelude::*;

verus! {

/// Does `text` spell `word`, ignoring the case of ASCII letters?
pub open spec fn matches_ignore_case(text: Seq<char>, word: Seq<char>) -> bool {
    &&& text.len() == word.len()
    &&& forall|i: int| 0 <= i < text.len() ==> spec_eq_ignore_case(#[trigger] text[i], word[i])
}

/// The first reserved word of `kinds` that `text` spells.
pub open spec fn first_keyword(text: Seq<char>, kinds: Seq<TokenKind>) -> Option<TokenKind>
    decreases kinds.len(),
{
    if kinds.len() == 0 {
        None
    } else if matches_ignore_case(text, spec_keyword_text(kinds[0])) {
        Some(kinds[0])
    } else {
        first_keyword(text, kinds.drop_first())
    }
}

/// A reserved word found by lookup is spelled by the text looked up.
pub proof fn lemma_first_keyword_matches(text: Seq<char>, kinds: Seq<TokenKind>)
    ensures
        first_keyword(text, kinds) matches Some(k) ==> matches_ignore_case(
            text,
            spec_keyword_text(k),
        ),
    decreases kinds.len(),
{
    if kinds.len() > 0 && !matches_ignore_case(text, spec_keyword_text(kinds[0])) {
        lemma_first_keyword_matches(text, kinds.drop_first());
    }
}

/// The reserved word that `text` spells, if any.
pub open spec fn spec_keyword_of(text: Seq<char>) -> Option<TokenKind> {
    first_keyword(text, keyword_kinds())
}

/// The first predefined name of `names` that `text` spells.
pub open spec fn first_name(text: Seq<char>, names: Seq<PredefinedName>) -> Option<PredefinedName>
    decreases names.len(),
{
    if names.len() == 0 {
        None
    } else if matches_ignore_case(text, spec_name_text(names[0])) {
        Some(names[0])
    } else {
        first_name(text, names.drop_first())
    }
}

/// The predefined name that `text` spells, if any.
pub open spec fn spec_predefined_name_of(text: Seq<char>) -> Option<PredefinedName> {
    first_name(text, predefined_names())
}

/// Does `text` spell `word`, ignoring the case of ASCII letters?
pub fn word_matches(text: &[char], word: &[char]) -> (r: bool)
    ensures
        r == matches_ignore_case(text@, word@),
{
    if text.len() != word.len() {
        return false;
    }
    let mut i: usize = 0;
    while i < text.len()
        invariant
            text@.len() == word@.len(),
            i <= text@.len(),
            forall|j: int| 0 <= j < i ==> spec_eq_ignore_case(#[trigger] text@[j], word@[j]),
        decreases text@.len() - i,
    {
        if !eq_ignore_case(text[i], word[i]) {
            return false;
        }
        i += 1;
    }
    true
}

/// Returns the reserved word that `text` spells, if any.
pub fn maybe_get_keyword(text: &[char]) -> (r: Option<TokenKind>)
    ensures
        r == spec_keyword_of(text@),
{
    let kinds = all_keyword_kinds();
    let mut i: usize = 0;
    assert(kinds@.skip(0) =~= kinds@);
    while i < kinds.len()
        invariant
            kinds@ == keyword_kinds(),
            i <= kinds@.len(),
            spec_keyword_of(text@) == first_keyword(text@, kinds@.skip(i as int)),
        decreases kinds@.len() - i,
    {
        assert(kinds@.skip(i as int).drop_first() =~= kinds@.skip(i + 1));
        let kind = kinds[i];
        if word_matches(text, kind.keyword_text()) {
            return Some(kind);
        }
        i += 1;
    }
    None
}

/// Returns the predefined name that `text` spells, if any.
pub fn maybe_get_predefined_name(text: &[char]) -> (r: Option<PredefinedName>)
    ensures
        r == spec_predefined_name_of(text@),
{
    let names = all_predefined_names();
    let mut i: usize = 0;
    assert(names@.skip(0) =~= names@);
    while i < names.len()
        invariant
            names@ == predefined_names(),
            i <= names@.len(),
            spec_predefined_name_of(text@) == first_name(text@, names@.skip(i as int)),
        decreases names@.len() - i,
    {
        assert(names@.skip(i as int).drop_first() =~= names@.skip(i + 1));
        let name = names[i];
        if word_matches(text, name.text()) {
            return Some(name);
        }
        i += 1;
    }
    None
}

impl PredefinedName {
    /// Does `text` spell this name, ignoring case?
    pub fn matches(&self, text: &[char]) -> (r: bool)
        ensures
            r == matches_ignore_case(text@, spec_name_text(*self)),
    {
        word_matches(text, self.text())
    }
}

} // verus!
