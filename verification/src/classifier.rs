//! Query classification: weighted keyword scoring over nine categories, and the
//! bounded history of recent classifications that feeds the context-window hint.
use vstd::prelude::*;
use crate::text::{
    contains, count_hits, count_operators, count_words, has_substring, hit_count, lowercase,
    operator_count, to_lowercase, word_count,
};

verus! {

/// Intent and complexity class of one request.
#[derive(Clone, Copy, Debug, PartialEq, Eq, Hash, Structural)]
pub enum QueryCategory {
    Simple,
    Medium,
    Complex,
    Code,
    Math,
    Creative,
    Analytical,
    Summarization,
    Translation,
}

impl QueryCategory {
    /// The category's name in snake case.
    pub open spec fn name(self) -> Seq<char> {
        match self {
            QueryCategory::Simple => "simple"@,
            QueryCategory::Medium => "medium"@,
            QueryCategory::Complex => "complex"@,
            QueryCategory::Code => "code"@,
            QueryCategory::Math => "math"@,
            QueryCategory::Creative => "creative"@,
            QueryCategory::Analytical => "analytical"@,
            QueryCategory::Summarization => "summarization"@,
            QueryCategory::Translation => "translation"@,
        }
    }

    /// Scheduling priority, 1 (lightest) to 4 (heaviest).
    pub open spec fn priority_value(self) -> int {
        match self {
            QueryCategory::Simple => 1,
            QueryCategory::Medium => 2,
            QueryCategory::Complex => 3,
            QueryCategory::Code => 4,
            QueryCategory::Math => 4,
            QueryCategory::Creative => 2,
            QueryCategory::Analytical => 3,
            QueryCategory::Summarization => 2,
            QueryCategory::Translation => 2,
        }
    }

    /// Suggested output-token ceiling. Summaries stay short whatever the input size.
    pub open spec fn token_hint(self) -> int {
        match self {
            QueryCategory::Simple => 256,
            QueryCategory::Medium => 512,
            QueryCategory::Complex => 1024,
            QueryCategory::Code => 1280,
            QueryCategory::Math => 768,
            QueryCategory::Creative => 768,
            QueryCategory::Analytical => 1024,
            QueryCategory::Summarization => 300,
            QueryCategory::Translation => 1024,
        }
    }

    /// Position in the order in which the categories are declared.
    pub open spec fn position(self) -> int {
        match self {
            QueryCategory::Simple => 0,
            QueryCategory::Medium => 1,
            QueryCategory::Complex => 2,
            QueryCategory::Code => 3,
            QueryCategory::Math => 4,
            QueryCategory::Creative => 5,
            QueryCategory::Analytical => 6,
            QueryCategory::Summarization => 7,
            QueryCategory::Translation => 8,
        }
    }

    /// Rank used to break ties between equally scored categories: the lower rank
    /// wins. Keyword categories come before the length-based ones.
    pub open spec fn precedence(self) -> int {
        match self {
            QueryCategory::Code => 0,
            QueryCategory::Math => 1,
            QueryCategory::Analytical => 2,
            QueryCategory::Creative => 3,
            QueryCategory::Summarization => 4,
            QueryCategory::Translation => 5,
            QueryCategory::Simple => 6,
            QueryCategory::Complex => 7,
            QueryCategory::Medium => 8,
        }
    }

    /// The category's name in snake case.
    pub fn as_str(&self) -> (s: &'static str)
        ensures
            s@ == self.name(),
    {
        match self {
            QueryCategory::Simple => "simple",
            QueryCategory::Medium => "medium",
            QueryCategory::Complex => "complex",
            QueryCategory::Code => "code",
            QueryCategory::Math => "math",
            QueryCategory::Creative => "creative",
            QueryCategory::Analytical => "analytical",
            QueryCategory::Summarization => "summarization",
            QueryCategory::Translation => "translation",
        }
    }

    /// Scheduling priority, 1 (lightest) to 4 (heaviest).
    pub fn priority(&self) -> (p: u8)
        ensures
            p == self.priority_value(),
            1 <= p <= 4,
    {
        match self {
            QueryCategory::Simple => 1,
            QueryCategory::Medium => 2,
            QueryCategory::Complex => 3,
            QueryCategory::Code => 4,
            QueryCategory::Math => 4,
            QueryCategory::Creative => 2,
            QueryCategory::Analytical => 3,
            QueryCategory::Summarization => 2,
            QueryCategory::Translation => 2,
        }
    }

    /// Suggested output-token ceiling.
    pub fn max_tokens_hint(&self) -> (n: usize)
        ensures
            n == self.token_hint(),
    {
        match self {
            QueryCategory::Simple => 256,
            QueryCategory::Medium => 512,
            QueryCategory::Complex => 1024,
            QueryCategory::Code => 1280,
            QueryCategory::Math => 768,
            QueryCategory::Creative => 768,
            QueryCategory::Analytical => 1024,
            QueryCategory::Summarization => 300,
            QueryCategory::Translation => 1024,
        }
    }
}

/// Words that point to a request about code.
pub open spec fn code_keywords() -> Seq<&'static str> {
    seq![
        "debug",
        "error",
        "stack",
        "trace",
        "function",
        "class",
        "compile",
        "refactor",
        "rust",
        "typescript",
        "python",
        "java",
    ]
}

/// Words that point to a request about mathematics.
pub open spec fn math_keywords() -> Seq<&'static str> {
    seq![
        "calculate",
        "equation",
        "integral",
        "derivative",
        "matrix",
        "probability",
        "statistics",
        "solve",
    ]
}

/// Words that point to a request for analysis.
pub open spec fn analytical_keywords() -> Seq<&'static str> {
    seq![
        "analyze",
        "evaluate",
        "compare",
        "tradeoff",
        "reason",
        "architecture",
        "strategy",
        "optimize",
    ]
}

/// Words that point to a request for creative writing.
pub open spec fn creative_keywords() -> Seq<&'static str> {
    seq!["story", "poem", "creative", "imagine", "compose", "draft", "brainstorm"]
}

/// Words that point to a request for a summary.
pub open spec fn summarization_keywords() -> Seq<&'static str> {
    seq!["summarize", "summary", "tldr", "tl;dr", "in short", "brief", "outline"]
}

/// Words that point to a request for a translation.
pub open spec fn translation_keywords() -> Seq<&'static str> {
    seq!["translate", "in spanish", "in french", "in german", "in english", "meaning of"]
}

/// The lower-cased text shows code syntax: a fence, an arrow, a path separator or a
/// `fn` / `let` keyword between spaces.
pub open spec fn has_code_marker(lowered: Seq<char>) -> bool {
    has_substring(lowered, "```"@) || has_substring(lowered, "=>"@) || has_substring(
        lowered,
        "::"@,
    ) || has_substring(lowered, " fn "@) || has_substring(lowered, " let "@)
}

/// Score of each category in tenths of a point. A category takes part in the
/// ranking only while its score is positive.
pub struct CategoryScores {
    pub code: u32,
    pub math: u32,
    pub analytical: u32,
    pub creative: u32,
    pub summarization: u32,
    pub translation: u32,
    pub simple: u32,
    pub complex: u32,
    pub medium: u32,
}

impl CategoryScores {
    /// The score of a category.
    pub open spec fn of(self, category: QueryCategory) -> int {
        match category {
            QueryCategory::Code => self.code as int,
            QueryCategory::Math => self.math as int,
            QueryCategory::Analytical => self.analytical as int,
            QueryCategory::Creative => self.creative as int,
            QueryCategory::Summarization => self.summarization as int,
            QueryCategory::Translation => self.translation as int,
            QueryCategory::Simple => self.simple as int,
            QueryCategory::Complex => self.complex as int,
            QueryCategory::Medium => self.medium as int,
        }
    }

    /// `category` scores highest, and every category of lower precedence rank
    /// scores strictly less.
    pub open spec fn led_by(self, category: QueryCategory) -> bool {
        &&& self.of(category) > 0
        &&& forall|other: QueryCategory| self.of(other) <= self.of(category)
        &&& forall|other: QueryCategory|
            other.precedence() < category.precedence() ==> self.of(other) < self.of(category)
    }

    /// No category has scored.
    pub open spec fn all_zero(self) -> bool {
        forall|category: QueryCategory| self.of(category) == 0
    }
}

/// The scores that a text earns: per keyword found 2.0 (code), 1.8 (math), 1.4
/// (analytical), 1.2 (creative), 3.0 (summarization), 2.5 (translation); 3.0 more
/// for code syntax, 2.0 more for three or more arithmetic signs; and by length 1.0
/// for under 10 words, 2.0 for over 80, 1.0 for over 35.
pub open spec fn score_table(lowered: Seq<char>, words: nat, operators: nat) -> CategoryScores {
    CategoryScores {
        code: (20 * hit_count(lowered, code_keywords()) + if has_code_marker(lowered) {
            30nat
        } else {
            0nat
        }) as u32,
        math: (18 * hit_count(lowered, math_keywords()) + if operators >= 3 {
            20nat
        } else {
            0nat
        }) as u32,
        analytical: (14 * hit_count(lowered, analytical_keywords())) as u32,
        creative: (12 * hit_count(lowered, creative_keywords())) as u32,
        summarization: (30 * hit_count(lowered, summarization_keywords())) as u32,
        translation: (25 * hit_count(lowered, translation_keywords())) as u32,
        simple: if words < 10 {
            10
        } else {
            0
        },
        complex: if words > 80 {
            20
        } else {
            0
        },
        medium: if 35 < words <= 80 {
            10
        } else {
            0
        },
    }
}

/// The category chosen for given scores: the leader where one exists, else
/// `Simple` under 8 words and `Medium` from 8 on.
pub open spec fn chosen(scores: CategoryScores, words: nat, category: QueryCategory) -> bool {
    if scores.all_zero() {
        category == if words < 8 {
            QueryCategory::Simple
        } else {
            QueryCategory::Medium
        }
    } else {
        scores.led_by(category)
    }
}

/// The category of a text, given its lower-case form.
pub open spec fn category_of(raw: Seq<char>, lowered: Seq<char>) -> QueryCategory {
    choose|category: QueryCategory|
        chosen(
            score_table(lowered, word_count(raw), operator_count(raw)),
            word_count(raw),
            category,
        )
}

/// The category of a text.
pub open spec fn classification(raw: Seq<char>) -> QueryCategory {
    category_of(raw, lowercase(raw))
}

/// At most one category is chosen for given scores.
pub proof fn lemma_chosen_unique(
    scores: CategoryScores,
    words: nat,
    a: QueryCategory,
    b: QueryCategory,
)
    requires
        chosen(scores, words, a),
        chosen(scores, words, b),
    ensures
        a == b,
{
    if !scores.all_zero() {
        assert(scores.of(a) <= scores.of(b));
        assert(scores.of(b) <= scores.of(a));
        if a.precedence() < b.precedence() {
            assert(scores.of(a) < scores.of(b));
        }
        if b.precedence() < a.precedence() {
            assert(scores.of(b) < scores.of(a));
        }
    }
}

/// Picks the winning category from a score table.
pub fn pick_category(scores: &CategoryScores, words: usize) -> (category: QueryCategory)
    ensures
        chosen(*scores, words as nat, category),
{
    let mut best = QueryCategory::Code;
    let mut top: u32 = scores.code;
    if scores.math > top {
        best = QueryCategory::Math;
        top = scores.math;
    }
    if scores.analytical > top {
        best = QueryCategory::Analytical;
        top = scores.analytical;
    }
    if scores.creative > top {
        best = QueryCategory::Creative;
        top = scores.creative;
    }
    if scores.summarization > top {
        best = QueryCategory::Summarization;
        top = scores.summarization;
    }
    if scores.translation > top {
        best = QueryCategory::Translation;
        top = scores.translation;
    }
    if scores.simple > top {
        best = QueryCategory::Simple;
        top = scores.simple;
    }
    if scores.complex > top {
        best = QueryCategory::Complex;
        top = scores.complex;
    }
    if scores.medium > top {
        best = QueryCategory::Medium;
        top = scores.medium;
    }
    if top == 0 {
        assert(scores.all_zero()) by {
            assert forall|category: QueryCategory| scores.of(category) == 0 by {
                assert(scores.of(category) <= top);
            }
        }
        if words < 8 {
            QueryCategory::Simple
        } else {
            QueryCategory::Medium
        }
    } else {
        assert(scores.of(best) == top);
        assert(!scores.all_zero());
        best
    }
}

/// Scores a lower-cased text, given the word and sign counts of the text as written.
pub fn score_lowered(lowered: &str, words: usize, operators: usize) -> (scores: CategoryScores)
    ensures
        scores == score_table(lowered@, words as nat, operators as nat),
{
    let code_list: [&'static str; 12] = [
        "debug",
        "error",
        "stack",
        "trace",
        "function",
        "class",
        "compile",
        "refactor",
        "rust",
        "typescript",
        "python",
        "java",
    ];
    let math_list: [&'static str; 8] = [
        "calculate",
        "equation",
        "integral",
        "derivative",
        "matrix",
        "probability",
        "statistics",
        "solve",
    ];
    let analytical_list: [&'static str; 8] = [
        "analyze",
        "evaluate",
        "compare",
        "tradeoff",
        "reason",
        "architecture",
        "strategy",
        "optimize",
    ];
    let creative_list: [&'static str; 7] = [
        "story",
        "poem",
        "creative",
        "imagine",
        "compose",
        "draft",
        "brainstorm",
    ];
    let summarization_list: [&'static str; 7] = [
        "summarize",
        "summary",
        "tldr",
        "tl;dr",
        "in short",
        "brief",
        "outline",
    ];
    let translation_list: [&'static str; 6] = [
        "translate",
        "in spanish",
        "in french",
        "in german",
        "in english",
        "meaning of",
    ];
    assert(code_list@ =~= code_keywords());
    assert(math_list@ =~= math_keywords());
    assert(analytical_list@ =~= analytical_keywords());
    assert(creative_list@ =~= creative_keywords());
    assert(summarization_list@ =~= summarization_keywords());
    assert(translation_list@ =~= translation_keywords());

    let marker = contains(lowered, "```") || contains(lowered, "=>") || contains(lowered, "::")
        || contains(lowered, " fn ") || contains(lowered, " let ");

    let code_hits: u32 = count_hits(lowered, &code_list) as u32;
    let math_hits: u32 = count_hits(lowered, &math_list) as u32;
    let analytical_hits: u32 = count_hits(lowered, &analytical_list) as u32;
    let creative_hits: u32 = count_hits(lowered, &creative_list) as u32;
    let summarization_hits: u32 = count_hits(lowered, &summarization_list) as u32;
    let translation_hits: u32 = count_hits(lowered, &translation_list) as u32;

    CategoryScores {
        code: 20 * code_hits + if marker {
            30
        } else {
            0
        },
        math: 18 * math_hits + if operators >= 3 {
            20
        } else {
            0
        },
        analytical: 14 * analytical_hits,
        creative: 12 * creative_hits,
        summarization: 30 * summarization_hits,
        translation: 25 * translation_hits,
        simple: if words < 10 {
            10
        } else {
            0
        },
        complex: if words > 80 {
            20
        } else {
            0
        },
        medium: if words > 35 && words <= 80 {
            10
        } else {
            0
        },
    }
}

/// Classifies a text whose lower-case form the caller supplies.
pub fn classify_lowered(raw: &str, lowered: &str) -> (category: QueryCategory)
    ensures
        category == category_of(raw@, lowered@),
        chosen(
            score_table(lowered@, word_count(raw@), operator_count(raw@)),
            word_count(raw@),
            category,
        ),
{
    let words = count_words(raw);
    let operators = count_operators(raw);
    let scores = score_lowered(lowered, words, operators);
    let category = pick_category(&scores, words);
    proof {
        lemma_chosen_unique(scores, words as nat, category, category_of(raw@, lowered@));
    }
    category
}

/// Classifies a text. The result depends on the text alone.
pub fn classify_query(query: &str) -> (category: QueryCategory)
    ensures
        category == classification(query@),
{
    let lowered = to_lowercase(query);
    classify_lowered(query, lowered.as_str())
}

/// Most records that the history holds.
pub const HISTORY_CAPACITY: usize = 256;

/// Records that stay when the history overflows.
pub const HISTORY_KEPT: usize = 192;

/// Records younger than this many milliseconds feed the context-window hint.
pub const HINT_WINDOW_MS: u64 = 300_000;

/// Records younger than this many milliseconds feed the category distribution.
pub const DISTRIBUTION_WINDOW_MS: u64 = 900_000;

/// One past classification and the time, in milliseconds, at which it was made.
#[derive(Clone, Copy, Debug)]
pub struct ClassificationRecord {
    pub category: QueryCategory,
    pub observed_at_ms: u64,
}

/// Milliseconds from `then` to `now`; zero where `then` lies ahead.
pub open spec fn age_ms(now: u64, then: u64) -> int {
    if now >= then {
        now - then
    } else {
        0
    }
}

/// The record of a classification made at `now_ms`.
pub open spec fn record_of(category: QueryCategory, now_ms: u64) -> ClassificationRecord {
    ClassificationRecord { category, observed_at_ms: now_ms }
}

/// The history after one more record: the record is appended, and once more than
/// 256 are held only the newest 192 stay.
pub open spec fn appended(
    history: Seq<ClassificationRecord>,
    record: ClassificationRecord,
) -> Seq<ClassificationRecord> {
    let grown = history.push(record);
    if grown.len() > HISTORY_CAPACITY {
        grown.subrange(grown.len() - HISTORY_KEPT, grown.len() as int)
    } else {
        grown
    }
}

/// Number of records among the first `n` that are younger than `window`.
pub open spec fn recent_count(
    history: Seq<ClassificationRecord>,
    now: u64,
    window: u64,
    n: int,
) -> nat
    decreases n,
{
    if n <= 0 {
        0
    } else {
        recent_count(history, now, window, n - 1) + if n <= history.len() && age_ms(
            now,
            history[n - 1].observed_at_ms,
        ) < window {
            1nat
        } else {
            0nat
        }
    }
}

/// Sum of the priorities of the records among the first `n` that are younger than
/// `window`.
pub open spec fn recent_priority_sum(
    history: Seq<ClassificationRecord>,
    now: u64,
    window: u64,
    n: int,
) -> nat
    decreases n,
{
    if n <= 0 {
        0
    } else {
        recent_priority_sum(history, now, window, n - 1) + if n <= history.len() && age_ms(
            now,
            history[n - 1].observed_at_ms,
        ) < window {
            history[n - 1].category.priority_value() as nat
        } else {
            0nat
        }
    }
}

/// Number of records of one category among the first `n` that are younger than
/// `window`.
pub open spec fn recent_of(
    history: Seq<ClassificationRecord>,
    category: QueryCategory,
    now: u64,
    window: u64,
    n: int,
) -> nat
    decreases n,
{
    if n <= 0 {
        0
    } else {
        recent_of(history, category, now, window, n - 1) + if n <= history.len()
            && history[n - 1].category == category && age_ms(now, history[n - 1].observed_at_ms)
            < window {
            1nat
        } else {
            0nat
        }
    }
}

/// Retrieval slots suggested by the last five minutes: 48, 32 or 18 as the mean
/// priority of what was classified then is at least 3.4, at least 2.2 or lower.
/// Where nothing was classified there is no mean to reach either mark, and the
/// lowest slot is suggested.
pub open spec fn window_hint(history: Seq<ClassificationRecord>, now: u64) -> int {
    let count = recent_count(history, now, HINT_WINDOW_MS, history.len() as int);
    let sum = recent_priority_sum(history, now, HINT_WINDOW_MS, history.len() as int);
    if count > 0 && sum * 10 >= 34 * count {
        48
    } else if count > 0 && sum * 10 >= 22 * count {
        32
    } else {
        18
    }
}

/// A counter after one more count where `counted` holds; a full counter stays full.
pub open spec fn next_count(count: u64, counted: bool) -> u64 {
    if counted && count < u64::MAX {
        (count + 1) as u64
    } else {
        count
    }
}

/// Counts one up; a full counter stays full.
pub fn count_up(count: u64) -> (next: u64)
    ensures
        next == next_count(count, true),
{
    if count < u64::MAX {
        count + 1
    } else {
        count
    }
}

/// How often each category occurred.
#[derive(Clone, Copy, Debug)]
pub struct CategoryTally {
    pub simple: u64,
    pub medium: u64,
    pub complex: u64,
    pub code: u64,
    pub math: u64,
    pub creative: u64,
    pub analytical: u64,
    pub summarization: u64,
    pub translation: u64,
}

impl CategoryTally {
    /// How often a category occurred.
    pub open spec fn of(self, category: QueryCategory) -> int {
        match category {
            QueryCategory::Simple => self.simple as int,
            QueryCategory::Medium => self.medium as int,
            QueryCategory::Complex => self.complex as int,
            QueryCategory::Code => self.code as int,
            QueryCategory::Math => self.math as int,
            QueryCategory::Creative => self.creative as int,
            QueryCategory::Analytical => self.analytical as int,
            QueryCategory::Summarization => self.summarization as int,
            QueryCategory::Translation => self.translation as int,
        }
    }

    /// Each counter holds the number of records of its category among the first
    /// `n` that are younger than `window`.
    pub open spec fn counts(
        self,
        history: Seq<ClassificationRecord>,
        now: u64,
        window: u64,
        n: int,
    ) -> bool {
        forall|category: QueryCategory|
            self.of(category) == recent_of(history, category, now, window, n)
    }

    /// `category` occurred most often and at least once, and every category
    /// declared before it occurred less often.
    pub open spec fn led_by(self, category: QueryCategory) -> bool {
        &&& self.of(category) > 0
        &&& forall|other: QueryCategory| self.of(other) <= self.of(category)
        &&& forall|other: QueryCategory|
            other.position() < category.position() ==> self.of(other) < self.of(category)
    }

    /// No category occurred.
    pub open spec fn all_zero(self) -> bool {
        forall|category: QueryCategory| self.of(category) == 0
    }

    /// The tally after one more occurrence of `category`; a counter that is full
    /// stays full.
    pub open spec fn bumped(self, category: QueryCategory) -> CategoryTally {
        CategoryTally {
            simple: next_count(self.simple, category == QueryCategory::Simple),
            medium: next_count(self.medium, category == QueryCategory::Medium),
            complex: next_count(self.complex, category == QueryCategory::Complex),
            code: next_count(self.code, category == QueryCategory::Code),
            math: next_count(self.math, category == QueryCategory::Math),
            creative: next_count(self.creative, category == QueryCategory::Creative),
            analytical: next_count(self.analytical, category == QueryCategory::Analytical),
            summarization: next_count(self.summarization, category == QueryCategory::Summarization),
            translation: next_count(self.translation, category == QueryCategory::Translation),
        }
    }

    /// A tally of nothing.
    pub fn zero() -> (tally: Self)
        ensures
            tally.all_zero(),
            tally.simple == 0 && tally.medium == 0 && tally.complex == 0,
            tally.code == 0 && tally.math == 0 && tally.creative == 0,
            tally.analytical == 0 && tally.summarization == 0 && tally.translation == 0,
    {
        CategoryTally {
            simple: 0,
            medium: 0,
            complex: 0,
            code: 0,
            math: 0,
            creative: 0,
            analytical: 0,
            summarization: 0,
            translation: 0,
        }
    }

    /// Counts one more occurrence of `category`.
    pub fn bump(&mut self, category: QueryCategory)
        ensures
            *final(self) == old(self).bumped(category),
    {
        match category {
            QueryCategory::Simple => {
                self.simple = count_up(self.simple);
            },
            QueryCategory::Medium => {
                self.medium = count_up(self.medium);
            },
            QueryCategory::Complex => {
                self.complex = count_up(self.complex);
            },
            QueryCategory::Code => {
                self.code = count_up(self.code);
            },
            QueryCategory::Math => {
                self.math = count_up(self.math);
            },
            QueryCategory::Creative => {
                self.creative = count_up(self.creative);
            },
            QueryCategory::Analytical => {
                self.analytical = count_up(self.analytical);
            },
            QueryCategory::Summarization => {
                self.summarization = count_up(self.summarization);
            },
            QueryCategory::Translation => {
                self.translation = count_up(self.translation);
            },
        }
    }

    /// The category that occurred most often, the one declared first among equals;
    /// none where nothing occurred.
    pub fn leader(&self) -> (top: Option<QueryCategory>)
        ensures
            match top {
                Some(category) => self.led_by(category),
                None => self.all_zero(),
            },
    {
        let mut best = QueryCategory::Simple;
        let mut most: u64 = self.simple;
        if self.medium > most {
            best = QueryCategory::Medium;
            most = self.medium;
        }
        if self.complex > most {
            best = QueryCategory::Complex;
            most = self.complex;
        }
        if self.code > most {
            best = QueryCategory::Code;
            most = self.code;
        }
        if self.math > most {
            best = QueryCategory::Math;
            most = self.math;
        }
        if self.creative > most {
            best = QueryCategory::Creative;
            most = self.creative;
        }
        if self.analytical > most {
            best = QueryCategory::Analytical;
            most = self.analytical;
        }
        if self.summarization > most {
            best = QueryCategory::Summarization;
            most = self.summarization;
        }
        if self.translation > most {
            best = QueryCategory::Translation;
            most = self.translation;
        }
        if most == 0 {
            assert(self.all_zero()) by {
                assert forall|category: QueryCategory| self.of(category) == 0 by {
                    assert(self.of(category) <= most);
                }
            }
            None
        } else {
            assert(self.of(best) == most);
            Some(best)
        }
    }

    /// How often a category occurred.
    pub fn count_of(&self, category: QueryCategory) -> (n: u64)
        ensures
            n == self.of(category),
    {
        match category {
            QueryCategory::Simple => self.simple,
            QueryCategory::Medium => self.medium,
            QueryCategory::Complex => self.complex,
            QueryCategory::Code => self.code,
            QueryCategory::Math => self.math,
            QueryCategory::Creative => self.creative,
            QueryCategory::Analytical => self.analytical,
            QueryCategory::Summarization => self.summarization,
            QueryCategory::Translation => self.translation,
        }
    }
}

/// The classifier together with its rolling history of at most 256 records.
pub struct SmartQueryClassifier {
    recent: Vec<ClassificationRecord>,
}

impl SmartQueryClassifier {
    /// The history never holds more than 256 records.
    pub closed spec fn wf(&self) -> bool {
        self.recent.len() <= HISTORY_CAPACITY
    }

    /// The records held, oldest first.
    pub closed spec fn history(&self) -> Seq<ClassificationRecord> {
        self.recent@
    }

    /// A classifier with an empty history.
    pub fn new() -> (classifier: Self)
        ensures
            classifier.wf(),
            classifier.history() == Seq::<ClassificationRecord>::empty(),
    {
        SmartQueryClassifier { recent: Vec::new() }
    }

    /// Number of records held.
    pub fn sample_count(&self) -> (n: usize)
        requires
            self.wf(),
        ensures
            n == self.history().len(),
            n <= HISTORY_CAPACITY,
    {
        self.recent.len()
    }

    /// Appends one record and trims the history on overflow.
    pub fn store(&mut self, category: QueryCategory, now_ms: u64)
        requires
            old(self).wf(),
        ensures
            final(self).wf(),
            final(self).history() == appended(old(self).history(), record_of(category, now_ms)),
    {
        let record = ClassificationRecord { category, observed_at_ms: now_ms };
        if self.recent.len() < HISTORY_CAPACITY {
            self.recent.push(record);
        } else {
            let ghost grown = self.recent@.push(record);
            let start: usize = self.recent.len() + 1 - HISTORY_KEPT;
            let mut kept: Vec<ClassificationRecord> = Vec::new();
            let mut i: usize = start;
            while i < self.recent.len()
                invariant
                    start <= i <= self.recent.len(),
                    self.recent.len() == HISTORY_CAPACITY,
                    start == self.recent.len() + 1 - HISTORY_KEPT,
                    kept@ =~= self.recent@.subrange(start as int, i as int),
                decreases self.recent.len() - i,
            {
                kept.push(self.recent[i]);
                i = i + 1;
            }
            kept.push(record);
            assert(kept@ =~= grown.subrange(grown.len() - HISTORY_KEPT, grown.len() as int));
            self.recent = kept;
        }
    }

    /// Classifies a text and records the outcome. The category depends on the text
    /// alone: the history only gains a record.
    pub fn classify(&mut self, query: &str, now_ms: u64) -> (category: QueryCategory)
        requires
            old(self).wf(),
        ensures
            category == classification(query@),
            final(self).wf(),
            final(self).history() == appended(old(self).history(), record_of(category, now_ms)),
    {
        let category = classify_query(query);
        self.store(category, now_ms);
        category
    }

    /// Suggested output-token ceiling for a category.
    pub fn suggest_max_tokens(&self, category: &QueryCategory) -> (n: usize)
        ensures
            n == category.token_hint(),
    {
        category.max_tokens_hint()
    }

    /// Retrieval slots suggested by the classifications of the last five minutes.
    pub fn context_window_hint(&self, now_ms: u64) -> (slots: usize)
        requires
            self.wf(),
        ensures
            slots == window_hint(self.history(), now_ms),
            slots == 18 || slots == 32 || slots == 48,
    {
        let mut count: u64 = 0;
        let mut sum: u64 = 0;
        let mut i: usize = 0;
        while i < self.recent.len()
            invariant
                i <= self.recent.len() <= HISTORY_CAPACITY,
                count == recent_count(self.recent@, now_ms, HINT_WINDOW_MS, i as int),
                sum == recent_priority_sum(self.recent@, now_ms, HINT_WINDOW_MS, i as int),
                count <= i,
                sum <= 4 * i,
            decreases self.recent.len() - i,
        {
            let record = self.recent[i];
            if is_within(now_ms, record.observed_at_ms, HINT_WINDOW_MS) {
                count = count + 1;
                sum = sum + record.category.priority() as u64;
            }
            i = i + 1;
        }
        if count > 0 && sum * 10 >= 34 * count {
            48
        } else if count > 0 && sum * 10 >= 22 * count {
            32
        } else {
            18
        }
    }

    /// How often each category was chosen in the last fifteen minutes.
    pub fn distribution_snapshot(&self, now_ms: u64) -> (tally: CategoryTally)
        requires
            self.wf(),
        ensures
            tally.counts(
                self.history(),
                now_ms,
                DISTRIBUTION_WINDOW_MS,
                self.history().len() as int,
            ),
    {
        let mut tally = CategoryTally::zero();
        let mut i: usize = 0;
        while i < self.recent.len()
            invariant
                i <= self.recent.len() <= HISTORY_CAPACITY,
                tally.counts(self.recent@, now_ms, DISTRIBUTION_WINDOW_MS, i as int),
                tally.simple <= i,
                tally.medium <= i,
                tally.complex <= i,
                tally.code <= i,
                tally.math <= i,
                tally.creative <= i,
                tally.analytical <= i,
                tally.summarization <= i,
                tally.translation <= i,
            decreases self.recent.len() - i,
        {
            let record = self.recent[i];
            let ghost before = tally;
            if is_within(now_ms, record.observed_at_ms, DISTRIBUTION_WINDOW_MS) {
                match record.category {
                    QueryCategory::Simple => {
                        tally.simple = tally.simple + 1;
                    },
                    QueryCategory::Medium => {
                        tally.medium = tally.medium + 1;
                    },
                    QueryCategory::Complex => {
                        tally.complex = tally.complex + 1;
                    },
                    QueryCategory::Code => {
                        tally.code = tally.code + 1;
                    },
                    QueryCategory::Math => {
                        tally.math = tally.math + 1;
                    },
                    QueryCategory::Creative => {
                        tally.creative = tally.creative + 1;
                    },
                    QueryCategory::Analytical => {
                        tally.analytical = tally.analytical + 1;
                    },
                    QueryCategory::Summarization => {
                        tally.summarization = tally.summarization + 1;
                    },
                    QueryCategory::Translation => {
                        tally.translation = tally.translation + 1;
                    },
                }
            }
            i = i + 1;
            assert forall|category: QueryCategory|
                tally.of(category) == recent_of(
                    self.recent@,
                    category,
                    now_ms,
                    DISTRIBUTION_WINDOW_MS,
                    i as int,
                ) by {
                assert(before.of(category) == recent_of(
                    self.recent@,
                    category,
                    now_ms,
                    DISTRIBUTION_WINDOW_MS,
                    i - 1,
                ));
            }
        }
        tally
    }
}

/// Whether fewer than `window` milliseconds lie between `then` and `now`.
pub fn is_within(now_ms: u64, then_ms: u64, window: u64) -> (fresh: bool)
    ensures
        fresh == (age_ms(now_ms, then_ms) < window),
{
    if now_ms >= then_ms {
        now_ms - then_ms < window
    } else {
        0 < window
    }
}

} // verus!
