//! Pattern extraction over page text, delegated to the `regex` crate.
//!
//! The expressions are compiled once into a [`Patterns`] value that the
//! parser borrows. What the crate's matcher returns is not re-stated here:
//! it is named by [`regex_captures`] and [`regex_replaced`], and the
//! contracts of the parser speak of those names.

use regex::Regex;
use vstd::prelude::*;

verus! {

/// Emphasis tags, written literally or with their angle brackets encoded as
/// character entities.
pub const EMPHASIS_PATTERN: &'static str =
    r#"(?:<(i|u|b)>|</(i|u|b)>|\&lt;(i|u|b)\&gt;|\&lt;/(i|u|b)\&gt;)"#;

/// A category label.
pub const CATEGORY_PATTERN: &'static str = r#"<td class="category_name">(.+)</td>"#;

/// A first-round clue: column, row, text.
pub const CLUE_PATTERN: &'static str = r#"id="clue_J_(\d)_(\d)" class="clue_text">(.+)</td>"#;

/// A first-round correct response: column, row, text.
pub const ANSWER_PATTERN: &'static str =
    r#"clue_J_(\d)_(\d).+correct_response\&quot;\&gt;(.+)\&lt;/em"#;

/// A second-round clue: column, row, text.
pub const DOUBLE_CLUE_PATTERN: &'static str =
    r#"id="clue_DJ_(\d)_(\d)" class="clue_text">(.+)</td>"#;

/// A second-round correct response: column, row, text.
pub const DOUBLE_ANSWER_PATTERN: &'static str =
    r#"clue_DJ_(\d)_(\d).+correct_response\&quot;\&gt;(.+)\&lt;/em"#;

/// The clue of the final round.
pub const FINAL_CLUE_PATTERN: &'static str = r#"id="clue_FJ" class="clue_text">(.+)</td>"#;

/// The correct response of the final round.
pub const FINAL_ANSWER_PATTERN: &'static str =
    r#"quot;correct_response\\&quot;\&gt;(.+)\&lt;/em"#;

#[verifier::external_type_specification]
#[verifier::external_body]
pub struct ExRegex(Regex);

#[verifier::external_type_specification]
#[verifier::external_body]
pub struct ExRegexError(regex::Error);

/// The pattern text that a compiled expression was built from: what
/// `Regex::as_str` gives back.
pub uninterp spec fn regex_source(re: Regex) -> Seq<char>;

/// The expression was built with the compiler's options as `Regex::new`
/// leaves them. An expression holds its options besides its pattern text,
/// and with other options the same text matches otherwise; of a plain
/// expression the pattern text says all that its matches depend on.
pub uninterp spec fn regex_plain(re: Regex) -> bool;

/// The successive non-overlapping matches in `text` of the expression that
/// `Regex::new` builds from `pattern`, in the order they are found. Each
/// match lists the text of every capture group, group 0 being the whole
/// match; a group that took no part is `None`.
pub uninterp spec fn regex_captures(pattern: Seq<char>, text: Seq<char>) -> Seq<
    Seq<Option<Seq<char>>>,
>;

/// `text` with every non-overlapping match of the expression that
/// `Regex::new` builds from `pattern` replaced by what `replacement` stands
/// for: its own text, with each `$` reference to a capture group expanded
/// to what the group matched.
pub uninterp spec fn regex_replaced(
    pattern: Seq<char>,
    text: Seq<char>,
    replacement: Seq<char>,
) -> Seq<char>;

/// `Regex::new` compiles a pattern or reports why it cannot. A compiled
/// expression remembers the pattern it was built from, and `Regex::new`
/// sets no option. Nothing is claimed about which patterns compile.
pub assume_specification[ Regex::new ](re: &str) -> (r: Result<Regex, regex::Error>)
    ensures
        r matches Ok(compiled) ==> regex_source(compiled) == re@ && regex_plain(compiled),
;

/// Runs `Regex::captures_iter` over `text` and copies out, for every match
/// in turn, the text of each group as `Captures::iter` yields them. The
/// contract only names the outcome: it says that the matches of a plain
/// expression depend on nothing but its pattern and the text, not what they
/// are.
#[verifier::external_body]
pub(crate) fn captures_iter(re: &Regex, text: &str) -> (found: Vec<Vec<Option<String>>>)
    requires
        regex_plain(*re),
    ensures
        found.deep_view() == regex_captures(regex_source(*re), text@),
{
    re.captures_iter(text)
        .map(|caps| caps.iter().map(|m| m.map(|m| m.as_str().to_owned())).collect())
        .collect()
}

/// Runs `Regex::replace_all` on `text` and returns the outcome as an owned
/// string. The contract only names the outcome: it says that for a plain
/// expression the outcome depends on nothing but its pattern, the text and
/// the replacement.
#[verifier::external_body]
pub(crate) fn replace_all(re: &Regex, text: &str, replacement: &str) -> (out: String)
    requires
        regex_plain(*re),
    ensures
        out@ == regex_replaced(regex_source(*re), text@, replacement@),
{
    re.replace_all(text, replacement).into_owned()
}

/// A pattern of the set was rejected by the expression compiler.
#[derive(Debug)]
pub struct PatternError {}

/// The compiled extraction patterns, built once and lent to the parser.
pub struct Patterns {
    emphasis: Regex,
    category: Regex,
    clue: Regex,
    answer: Regex,
    double_clue: Regex,
    double_answer: Regex,
    final_clue: Regex,
    final_answer: Regex,
}

/// The clue pattern of a round.
pub open spec fn clue_pattern(double: bool) -> Seq<char> {
    if double {
        DOUBLE_CLUE_PATTERN@
    } else {
        CLUE_PATTERN@
    }
}

/// The correct-response pattern of a round.
pub open spec fn answer_pattern(double: bool) -> Seq<char> {
    if double {
        DOUBLE_ANSWER_PATTERN@
    } else {
        ANSWER_PATTERN@
    }
}

impl Patterns {
    /// Every expression of the set is plain and was compiled from its
    /// pattern.
    pub closed spec fn wf(&self) -> bool {
        &&& self.plain()
        &&& regex_source(self.emphasis) == EMPHASIS_PATTERN@
        &&& regex_source(self.category) == CATEGORY_PATTERN@
        &&& regex_source(self.clue) == CLUE_PATTERN@
        &&& regex_source(self.answer) == ANSWER_PATTERN@
        &&& regex_source(self.double_clue) == DOUBLE_CLUE_PATTERN@
        &&& regex_source(self.double_answer) == DOUBLE_ANSWER_PATTERN@
        &&& regex_source(self.final_clue) == FINAL_CLUE_PATTERN@
        &&& regex_source(self.final_answer) == FINAL_ANSWER_PATTERN@
    }

    /// Compiles the whole set. Whether a pattern compiles is for the
    /// expression compiler to say; when all do, the set is well formed.
    pub fn new() -> (r: Result<Patterns, PatternError>)
        ensures
            r matches Ok(patterns) ==> patterns.wf(),
    {
        let emphasis = Regex::new(EMPHASIS_PATTERN);
        let category = Regex::new(CATEGORY_PATTERN);
        let clue = Regex::new(CLUE_PATTERN);
        let answer = Regex::new(ANSWER_PATTERN);
        let double_clue = Regex::new(DOUBLE_CLUE_PATTERN);
        let double_answer = Regex::new(DOUBLE_ANSWER_PATTERN);
        let final_clue = Regex::new(FINAL_CLUE_PATTERN);
        let final_answer = Regex::new(FINAL_ANSWER_PATTERN);
        let ghost given = seq![
            expression_source(emphasis),
            expression_source(category),
            expression_source(clue),
            expression_source(answer),
            expression_source(double_clue),
            expression_source(double_answer),
            expression_source(final_clue),
            expression_source(final_answer),
        ];
        let r = Patterns::assemble(
            emphasis,
            category,
            clue,
            answer,
            double_clue,
            double_answer,
            final_clue,
            final_answer,
        );
        proof {
            if let Ok(patterns) = &r {
                assert(given =~= pattern_set());
                patterns.lemma_wf_sources();
            }
        }
        r
    }

    /// The pattern texts of the eight expressions, in the order emphasis,
    /// category, clue, response, second-round clue, second-round response,
    /// final clue, final response.
    pub closed spec fn sources(&self) -> Seq<Seq<char>> {
        seq![
            regex_source(self.emphasis),
            regex_source(self.category),
            regex_source(self.clue),
            regex_source(self.answer),
            regex_source(self.double_clue),
            regex_source(self.double_answer),
            regex_source(self.final_clue),
            regex_source(self.final_answer),
        ]
    }

    /// Every expression of the set is plain.
    pub closed spec fn plain(&self) -> bool {
        &&& regex_plain(self.emphasis)
        &&& regex_plain(self.category)
        &&& regex_plain(self.clue)
        &&& regex_plain(self.answer)
        &&& regex_plain(self.double_clue)
        &&& regex_plain(self.double_answer)
        &&& regex_plain(self.final_clue)
        &&& regex_plain(self.final_answer)
    }

    /// A set is well formed exactly when its expressions are plain and are
    /// those of the library's eight patterns, each in its place.
    pub proof fn lemma_wf_sources(&self)
        ensures
            self.wf() <==> self.plain() && self.sources() == pattern_set(),
    {
        let got = self.sources();
        let want = pattern_set();
        if got == want {
            assert(got[0] == want[0]);
            assert(got[1] == want[1]);
            assert(got[2] == want[2]);
            assert(got[3] == want[3]);
            assert(got[4] == want[4]);
            assert(got[5] == want[5]);
            assert(got[6] == want[6]);
            assert(got[7] == want[7]);
        }
        if self.wf() {
            assert(got =~= want);
        }
    }

    /// Puts a set together from the outcomes of compiling its eight
    /// expressions, given in the order of [`Patterns::sources`]. Each
    /// expression given has to be plain, as those from `Regex::new` are.
    /// There is a set exactly when every expression compiled, and the set
    /// then holds exactly the expressions given.
    pub fn assemble(
        emphasis: Result<Regex, regex::Error>,
        category: Result<Regex, regex::Error>,
        clue: Result<Regex, regex::Error>,
        answer: Result<Regex, regex::Error>,
        double_clue: Result<Regex, regex::Error>,
        double_answer: Result<Regex, regex::Error>,
        final_clue: Result<Regex, regex::Error>,
        final_answer: Result<Regex, regex::Error>,
    ) -> (r: Result<Patterns, PatternError>)
        requires
            plain_outcome(emphasis),
            plain_outcome(category),
            plain_outcome(clue),
            plain_outcome(answer),
            plain_outcome(double_clue),
            plain_outcome(double_answer),
            plain_outcome(final_clue),
            plain_outcome(final_answer),
        ensures
            r.is_ok() <==> emphasis.is_ok() && category.is_ok() && clue.is_ok() && answer.is_ok()
                && double_clue.is_ok() && double_answer.is_ok() && final_clue.is_ok()
                && final_answer.is_ok(),
            r matches Ok(patterns) ==> patterns.plain() && patterns.sources() == seq![
                expression_source(emphasis),
                expression_source(category),
                expression_source(clue),
                expression_source(answer),
                expression_source(double_clue),
                expression_source(double_answer),
                expression_source(final_clue),
                expression_source(final_answer),
            ],
    {
        match (
            emphasis,
            category,
            clue,
            answer,
            double_clue,
            double_answer,
            final_clue,
            final_answer,
        ) {
            (
                Ok(emphasis),
                Ok(category),
                Ok(clue),
                Ok(answer),
                Ok(double_clue),
                Ok(double_answer),
                Ok(final_clue),
                Ok(final_answer),
            ) => {
                let patterns = Patterns {
                    emphasis,
                    category,
                    clue,
                    answer,
                    double_clue,
                    double_answer,
                    final_clue,
                    final_answer,
                };
                Ok(patterns)
            },
            _ => Err(PatternError {}),
        }
    }

    /// The text without its emphasis tags.
    pub fn strip_emphasis(&self, text: &str) -> (out: String)
        requires
            self.wf(),
        ensures
            out@ == regex_replaced(EMPHASIS_PATTERN@, text@, Seq::empty()),
    {
        let out = replace_all(&self.emphasis, text, "");
        proof {
            reveal_strlit("");
            assert(""@ =~= Seq::<char>::empty());
        }
        out
    }

    /// The category labels found in a page, as the page spells them.
    pub fn find_categories(&self, page: &str) -> (found: Vec<Vec<Option<String>>>)
        requires
            self.wf(),
        ensures
            found.deep_view() == regex_captures(CATEGORY_PATTERN@, page@),
    {
        captures_iter(&self.category, page)
    }

    /// The clues of a round found in a page.
    pub fn find_clues(&self, page: &str, double: bool) -> (found: Vec<Vec<Option<String>>>)
        requires
            self.wf(),
        ensures
            found.deep_view() == regex_captures(clue_pattern(double), page@),
    {
        if double {
            captures_iter(&self.double_clue, page)
        } else {
            captures_iter(&self.clue, page)
        }
    }

    /// The correct responses of a round found in a page.
    pub fn find_answers(&self, page: &str, double: bool) -> (found: Vec<Vec<Option<String>>>)
        requires
            self.wf(),
        ensures
            found.deep_view() == regex_captures(answer_pattern(double), page@),
    {
        if double {
            captures_iter(&self.double_answer, page)
        } else {
            captures_iter(&self.answer, page)
        }
    }

    /// The final-round clues found in a page.
    pub fn find_final_clues(&self, page: &str) -> (found: Vec<Vec<Option<String>>>)
        requires
            self.wf(),
        ensures
            found.deep_view() == regex_captures(FINAL_CLUE_PATTERN@, page@),
    {
        captures_iter(&self.final_clue, page)
    }

    /// The final-round correct responses found in a page.
    pub fn find_final_answers(&self, page: &str) -> (found: Vec<Vec<Option<String>>>)
        requires
            self.wf(),
        ensures
            found.deep_view() == regex_captures(FINAL_ANSWER_PATTERN@, page@),
    {
        captures_iter(&self.final_answer, page)
    }
}

/// The library's eight patterns, in the order of [`Patterns::sources`].
pub open spec fn pattern_set() -> Seq<Seq<char>> {
    seq![
        EMPHASIS_PATTERN@,
        CATEGORY_PATTERN@,
        CLUE_PATTERN@,
        ANSWER_PATTERN@,
        DOUBLE_CLUE_PATTERN@,
        DOUBLE_ANSWER_PATTERN@,
        FINAL_CLUE_PATTERN@,
        FINAL_ANSWER_PATTERN@,
    ]
}

/// The outcome of compiling holds no expression, or a plain one.
pub open spec fn plain_outcome(outcome: Result<Regex, regex::Error>) -> bool {
    outcome matches Ok(re) ==> regex_plain(re)
}

/// The pattern text of the expression that compiling gave. Where the
/// pattern was rejected there is no expression, and the text is empty.
pub open spec fn expression_source(outcome: Result<Regex, regex::Error>) -> Seq<char> {
    match outcome {
        Ok(re) => regex_source(re),
        Err(_) => Seq::empty(),
    }
}

} // verus!
