//! A rule-driven lexical scanner for a tiny C-like language.
//!
//! Source text is cut into classified tokens by matching, at the current
//! position, a fixed and ordered table of regular-expression rules; the first
//! rule whose match begins exactly at the position wins.
mod laws;
mod loader;
mod rules;
mod scanner;
mod token;

pub use laws::{
    lemma_rule_tables_agree, lemma_scan_covers_source, lemma_scan_deterministic,
    lemma_scan_emits_no_empty,
};
pub use loader::{json_parse_result, load_tokens, rule_document};
pub use rules::{
    declared_priority, declared_rules, declared_rules_compile, generate_tmakers, pattern_compiles,
    pattern_is_valid, regex_find, rules_view, PatternError, TMaker,
};
pub use scanner::{
    anchored, finds, first_anchored, get_token, pick_from, pick_rule, joined, lexer, scan, scan_partial, shift, spec_pieces,
    spec_scan, visible, LexError, Piece, RuleSeq,
};
pub use token::{tokens_model, Token, TokenTypes};
