use crate::token::TokenTypes;
use regex::Regex;
use vstd::pervasive::unreached;
use vstd::prelude::*;
use vstd::string::StringSliceAdditionalSpecFns;
use vstd::utf8::is_char_boundary;

verus! {

#[verifier::external_type_specification]
#[verifier::external_body]
pub struct ExRegex(regex::Regex);

#[verifier::external_type_specification]
#[verifier::external_body]
pub struct ExRegexError(regex::Error);

/// Whether `Regex::new` accepts a pattern; this depends on the pattern alone.
pub uninterp spec fn pattern_compiles(pattern: Seq<char>) -> bool;

/// Where the leftmost-first match of a pattern lies in a haystack, as a pair
/// of byte offsets `(start, end)`, or `None` when the pattern matches nowhere.
pub uninterp spec fn regex_find(pattern: Seq<char>, hay: Seq<u8>) -> Option<(usize, usize)>;

/// Relies on `regex::Regex::new`: it returns `Ok` exactly for the patterns
/// that compile (valid syntax, within the default size limit).
#[verifier::external_body]
fn compile(pattern: &str) -> (r: Result<Regex, regex::Error>)
    ensures
        r is Ok == pattern_compiles(pattern@),
{
    Regex::new(pattern)
}

/// A pattern that failed to compile while the rule table was being built.
#[derive(Debug)]
pub struct PatternError {
    pub pattern: String,
}

/// Whether `regex` compiles into a matching rule.
pub fn pattern_is_valid(regex: &str) -> (r: bool)
    ensures
        r == pattern_compiles(regex@),
{
    compile(regex).is_ok()
}

/// A matching rule: a token category with the regular expression that
/// recognises it, compiled once when the rule is made.
///
/// The fields are private and `new` is the only constructor, so `re` is
/// always the compilation of `regex`.
pub struct TMaker {
    token_type: TokenTypes,
    regex: String,
    re: Regex,
    priority: u16,
}

impl TMaker {
    /// The rule as a category and the source text of its pattern.
    pub closed spec fn rule(&self) -> (TokenTypes, Seq<char>) {
        (self.token_type, self.regex@)
    }

    /// The priority the rule was declared with; it does not take part in
    /// matching, where the order of the table decides.
    pub closed spec fn spec_priority(&self) -> u16 {
        self.priority
    }

    /// Compiles `regex` into a rule of category `token_type`. The pattern
    /// must compile: test it first with `pattern_is_valid`.
    pub fn new(token_type: TokenTypes, regex: &str, priority: u16) -> (r: TMaker)
        requires
            pattern_compiles(regex@),
        ensures
            r.rule() == (token_type, regex@),
            r.spec_priority() == priority,
    {
        match compile(regex) {
            Ok(re) => TMaker { token_type, regex: regex.to_owned(), re, priority },
            Err(_) => unreached(),
        }
    }

    /// The category of tokens this rule produces.
    pub fn token_type(&self) -> (r: TokenTypes)
        ensures
            r == self.rule().0,
    {
        self.token_type
    }

    /// The declared priority of the rule.
    pub fn priority(&self) -> (r: u16)
        ensures
            r == self.spec_priority(),
    {
        self.priority
    }

    /// Relies on `regex::Regex::find` with `Match::start` and `Match::end`:
    /// the first match of the rule's pattern in `hay`, as byte offsets that
    /// fall on character boundaries, with `start <= end <= hay.len()`.
    #[verifier::external_body]
    pub fn peek(&self, hay: &str) -> (r: Option<(usize, usize)>)
        ensures
            r == regex_find(self.rule().1, hay.spec_bytes()),
            r matches Some((s, e)) ==> s <= e <= hay.spec_bytes().len() && is_char_boundary(
                hay.spec_bytes(),
                s as int,
            ) && is_char_boundary(hay.spec_bytes(), e as int),
    {
        match self.re.find(hay) {
            Some(m) => Some((m.start(), m.end())),
            None => None,
        }
    }
}

/// A table of rules seen as categories and pattern texts, in order.
pub open spec fn rules_view(t: Seq<TMaker>) -> Seq<(TokenTypes, Seq<char>)> {
    t.map_values(|m: TMaker| m.rule())
}

/// The declared rule table, in the order in which rules are tried: keywords
/// come before the identifier rule so that they are not read as identifiers.
pub open spec fn declared_rules() -> Seq<(TokenTypes, Seq<char>)> {
    seq![
        (TokenTypes::Whitespace, "\\s+"@),
        (TokenTypes::Constant, "\\d+"@),
        (TokenTypes::IntKeyword, "\\bint\\b"@),
        (TokenTypes::VoidKeyword, "\\bvoid\\b"@),
        (TokenTypes::ReturnKeyword, "\\breturn\\b"@),
        (TokenTypes::Identifier, "\\b\\w+\\b"@),
        (TokenTypes::OpenParen, "\\("@),
        (TokenTypes::CloseParen, "\\)"@),
        (TokenTypes::OpenBrace, "\\{"@),
        (TokenTypes::CloseBrace, "\\}"@),
        (TokenTypes::Semicolon, ";"@),
    ]
}

/// Whether every declared pattern compiles.
pub open spec fn declared_rules_compile() -> bool {
    forall|i: int| 0 <= i < declared_rules().len() ==> pattern_compiles(#[trigger] declared_rules()[i].1)
}

/// The priority each declared rule carries: 100 for whitespace, 110 for
/// every other rule.
pub open spec fn declared_priority(i: int) -> u16 {
    if i == 0 {
        100
    } else {
        110
    }
}

/// The number of declared rules.
const RULE_COUNT: usize = 11;

/// The declared rule at index `i`: its category, pattern and priority.
fn declared_rule(i: usize) -> (r: (TokenTypes, &'static str, u16))
    requires
        i < declared_rules().len(),
    ensures
        r.0 == declared_rules()[i as int].0,
        r.1@ == declared_rules()[i as int].1,
        r.2 == declared_priority(i as int),
{
    match i {
        0 => (TokenTypes::Whitespace, "\\s+", 100),
        1 => (TokenTypes::Constant, "\\d+", 110),
        2 => (TokenTypes::IntKeyword, "\\bint\\b", 110),
        3 => (TokenTypes::VoidKeyword, "\\bvoid\\b", 110),
        4 => (TokenTypes::ReturnKeyword, "\\breturn\\b", 110),
        5 => (TokenTypes::Identifier, "\\b\\w+\\b", 110),
        6 => (TokenTypes::OpenParen, "\\(", 110),
        7 => (TokenTypes::CloseParen, "\\)", 110),
        8 => (TokenTypes::OpenBrace, "\\{", 110),
        9 => (TokenTypes::CloseBrace, "\\}", 110),
        _ => (TokenTypes::Semicolon, ";", 110),
    }
}

/// Builds the rule table, compiling every declared pattern eagerly.
pub fn generate_tmakers() -> (r: Result<Vec<TMaker>, PatternError>)
    ensures
        r is Ok == declared_rules_compile(),
        r matches Ok(t) ==> rules_view(t@) == declared_rules(),
        r matches Ok(t) ==> forall|k: int|
            0 <= k < t@.len() ==> #[trigger] t@[k].spec_priority() == declared_priority(k),
        r matches Err(e) ==> exists|i: int|
            0 <= i < declared_rules().len() && declared_rules()[i].1 == e.pattern@
                && !pattern_compiles(#[trigger] declared_rules()[i].1),
{
    let mut t: Vec<TMaker> = Vec::new();
    let mut i: usize = 0;
    assert(declared_rules().len() == RULE_COUNT);
    while i < RULE_COUNT
        invariant
            i <= RULE_COUNT == declared_rules().len(),
            t@.len() == i,
            rules_view(t@) == declared_rules().take(i as int),
            forall|k: int| 0 <= k < i ==> #[trigger] t@[k].spec_priority() == declared_priority(k),
            forall|k: int| 0 <= k < i ==> pattern_compiles(#[trigger] declared_rules()[k].1),
        decreases RULE_COUNT - i,
    {
        let (token_type, regex, priority) = declared_rule(i);
        if !pattern_is_valid(regex) {
            return Err(PatternError { pattern: regex.to_owned() });
        }
        let rule = TMaker::new(token_type, regex, priority);
        let ghost before = t@;
        t.push(rule);
        assert(rules_view(t@) =~= declared_rules().take(i + 1)) by {
            assert forall|k: int| 0 <= k < i + 1 implies rules_view(t@)[k]
                == declared_rules().take(i + 1)[k] by {
                if k < i {
                    assert(rules_view(before)[k] == declared_rules().take(i as int)[k]);
                    assert(t@[k] == before[k]);
                }
            }
        }
        assert forall|k: int| 0 <= k < i + 1 implies #[trigger] t@[k].spec_priority()
            == declared_priority(k) by {
            if k < i {
                assert(t@[k] == before[k]);
            }
        }
        i = i + 1;
    }
    assert(rules_view(t@) =~= declared_rules());
    Ok(t)
}

} // verus!
