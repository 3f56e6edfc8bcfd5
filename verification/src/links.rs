pub mod pattern;

pub use crate::links::pattern::Pattern;
use crate::links::pattern::{compile, is_match, regex_compiles, regex_matches};
use crate::text::{split_at_spaces, split_spaces};
use vstd::prelude::*;
use vstd::string::StringExecFns;

verus! {

/// The pattern of the web addresses that messages show as links.
pub open spec fn url_pattern_text() -> Seq<char> {
    "https?://(www\\.)?[-a-zA-Z0-9@:%._+~#=]{2,256}\\.[a-z]{2,4}\\b([-a-zA-Z0-9@:%_+.~#?&/=]*)"@
}

/// The compiled pattern of web addresses; `None` when it does not compile.
pub fn url_pattern() -> (r: Option<Pattern>)
    ensures
        r is Some <==> regex_compiles(url_pattern_text()),
        r matches Some(p) ==> p.text() == url_pattern_text(),
{
    match compile(
        "https?://(www\\.)?[-a-zA-Z0-9@:%._+~#=]{2,256}\\.[a-z]{2,4}\\b([-a-zA-Z0-9@:%_+.~#?&/=]*)",
    ) {
        Ok(p) => Some(p),
        Err(_) => None,
    }
}

/// A word of a message, and whether it is shown as a link.
pub struct Word {
    pub text: String,
    pub is_link: bool,
}

/// Whether a word is shown as a link: when the pattern compiled and matches
/// the word.
pub open spec fn spec_is_link(pattern: Option<Seq<char>>, word: Seq<char>) -> bool {
    match pattern {
        Some(p) => regex_matches(p, word),
        None => false,
    }
}

/// The words of a message text, split at each space, each marked as a link
/// or not, as the message list shows them.
pub fn message_words(text: &str, pattern: &Option<Pattern>) -> (r: Vec<Word>)
    ensures
        r@.len() == split_spaces(text@).len(),
        forall|i: int|
            0 <= i < r@.len() ==> (#[trigger] r@[i]).text@ == split_spaces(text@)[i] && r@[i].is_link
                == spec_is_link(
                match pattern {
                    Some(p) => Some(p.text()),
                    None => None,
                },
                split_spaces(text@)[i],
            ),
{
    let words = split_at_spaces(text);
    let ghost ws = words@.map_values(|w: String| w@);
    let ghost pv = match pattern {
        Some(p) => Some(p.text()),
        None => None,
    };
    let mut r: Vec<Word> = Vec::new();
    let mut i: usize = 0;
    while i < words.len()
        invariant
            i <= words.len(),
            ws == words@.map_values(|w: String| w@),
            ws == split_spaces(text@),
            pv == match pattern {
                Some(p) => Some(p.text()),
                None => None,
            },
            r@.len() == i,
            forall|k: int|
                0 <= k < i ==> (#[trigger] r@[k]).text@ == ws[k] && r@[k].is_link == spec_is_link(
                    pv,
                    ws[k],
                ),
        decreases words.len() - i,
    {
        let word = &words[i];
        assert(word@ == ws[i as int]);
        let is_link = match pattern {
            Some(p) => is_match(p, word.as_str()),
            None => false,
        };
        r.push(Word { text: word.clone(), is_link });
        i = i + 1;
    }
    r
}

} // verus!
