//! Normalization of text fragments taken from a page: emphasis tags are
//! stripped, the ampersand entity is decoded, line-break tags are removed
//! and backslash-escaped quotes lose their backslash.

use crate::pattern::{regex_replaced, Patterns, EMPHASIS_PATTERN};
use crate::text::{
    chars_of, contains, lemma_replaced_absent, lemma_replaced_no_longer, lemma_replaced_shorter,
    replace_all, replaced, string_of,
};
use vstd::prelude::*;

verus! {

/// `s` after the literal replacements, applied one after the other over
/// the whole text: `&amp;` becomes `&`, `<br />` disappears, `\'` becomes
/// `'` and `\"` becomes `"`.
pub open spec fn unescaped(s: Seq<char>) -> Seq<char> {
    let a = replaced(s, "&amp;"@, "&"@);
    let b = replaced(a, "<br />"@, ""@);
    let c = replaced(b, "\\'"@, "'"@);
    replaced(c, "\\\""@, "\""@)
}

/// None of the markers that the literal replacements look for occurs in
/// `s`.
pub open spec fn is_plain(s: Seq<char>) -> bool {
    &&& !contains(s, "&amp;"@)
    &&& !contains(s, "<br />"@)
    &&& !contains(s, "\\'"@)
    &&& !contains(s, "\\\""@)
}

/// The normal form of a fragment: emphasis tags stripped by the pattern
/// matcher, then the literal replacements.
pub open spec fn normalized(s: Seq<char>) -> Seq<char> {
    unescaped(regex_replaced(EMPHASIS_PATTERN@, s, Seq::empty()))
}

/// Normalization has nothing left to do on `s`: the pattern matcher strips
/// nothing from it and it holds none of the literal markers.
pub open spec fn is_normal(s: Seq<char>) -> bool {
    &&& regex_replaced(EMPHASIS_PATTERN@, s, Seq::empty()) == s
    &&& is_plain(s)
}

/// Applies the literal replacements to `text`.
pub fn unescape(text: &str) -> (out: String)
    ensures
        out@ == unescaped(text@),
{
    let s = chars_of(text);
    let a = replace_all(&s, &chars_of("&amp;"), &chars_of("&"));
    let b = replace_all(&a, &chars_of("<br />"), &chars_of(""));
    let c = replace_all(&b, &chars_of("\\'"), &chars_of("'"));
    let d = replace_all(&c, &chars_of("\\\""), &chars_of("\""));
    string_of(&d)
}

/// Normalizes a fragment of page text.
pub fn clean_html(patterns: &Patterns, data: &str) -> (out: String)
    requires
        patterns.wf(),
    ensures
        out@ == normalized(data@),
{
    let stripped = patterns.strip_emphasis(data);
    unescape(stripped.as_str())
}

/// The lengths of the markers and of what replaces them.
proof fn lemma_marker_lengths()
    ensures
        "&amp;"@.len() == 5,
        "&"@.len() == 1,
        "<br />"@.len() == 6,
        ""@.len() == 0,
        "\\'"@.len() == 2,
        "'"@.len() == 1,
        "\\\""@.len() == 2,
        "\""@.len() == 1,
{
    reveal_strlit("&amp;");
    reveal_strlit("&");
    reveal_strlit("<br />");
    reveal_strlit("");
    reveal_strlit("\\'");
    reveal_strlit("'");
    reveal_strlit("\\\"");
    reveal_strlit("\"");
}

/// The literal replacements leave a text as it is exactly when it holds
/// none of their markers.
pub proof fn lemma_unescaped_fixed_point(s: Seq<char>)
    ensures
        unescaped(s) == s <==> is_plain(s),
{
    lemma_marker_lengths();
    let a = replaced(s, "&amp;"@, "&"@);
    let b = replaced(a, "<br />"@, ""@);
    let c = replaced(b, "\\'"@, "'"@);
    let d = replaced(c, "\\\""@, "\""@);
    lemma_replaced_no_longer(s, "&amp;"@, "&"@);
    lemma_replaced_no_longer(a, "<br />"@, ""@);
    lemma_replaced_no_longer(b, "\\'"@, "'"@);
    lemma_replaced_no_longer(c, "\\\""@, "\""@);
    if contains(s, "&amp;"@) {
        lemma_replaced_shorter(s, "&amp;"@, "&"@);
    } else {
        lemma_replaced_absent(s, "&amp;"@, "&"@);
        if contains(s, "<br />"@) {
            lemma_replaced_shorter(a, "<br />"@, ""@);
        } else {
            lemma_replaced_absent(a, "<br />"@, ""@);
            if contains(s, "\\'"@) {
                lemma_replaced_shorter(b, "\\'"@, "'"@);
            } else {
                lemma_replaced_absent(b, "\\'"@, "'"@);
                if contains(s, "\\\""@) {
                    lemma_replaced_shorter(c, "\\\""@, "\""@);
                } else {
                    lemma_replaced_absent(c, "\\\""@, "\""@);
                }
            }
        }
    }
}

/// Applying the literal replacements a second time changes nothing,
/// provided that the first pass left none of their markers behind. (A first
/// pass can create a marker: `&amp;amp;` becomes `&amp;`.)
pub proof fn lemma_unescaped_idempotent(s: Seq<char>)
    requires
        is_plain(unescaped(s)),
    ensures
        unescaped(unescaped(s)) == unescaped(s),
{
    lemma_unescaped_fixed_point(unescaped(s));
}

/// Normalizing a text that is already in normal form changes nothing, and
/// so normalizing twice gives what normalizing once gives whenever the
/// first pass reached a normal form.
pub proof fn lemma_normalized_idempotent(s: Seq<char>)
    ensures
        is_normal(s) ==> normalized(s) == s,
        is_normal(normalized(s)) ==> normalized(normalized(s)) == normalized(s),
{
    lemma_unescaped_fixed_point(s);
    lemma_unescaped_fixed_point(normalized(s));
}

} // verus!
