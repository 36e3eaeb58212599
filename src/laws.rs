use crate::rules::{declared_priority, declared_rules, regex_find, rules_view, TMaker};
use crate::scanner::{first_anchored, joined, shift, spec_pieces, spec_scan, visible, RuleSeq};
use crate::token::{tokens_model, Token, TokenTypes};
use vstd::prelude::*;
use vstd::utf8::encode_utf8_decode_utf8;

verus! {

/// Scanning accounts for every byte: when a source scans to its end, the
/// pieces it is cut into (whitespace runs included) are non-empty, and put
/// back one after another they rebuild the source exactly; the emitted
/// tokens are those pieces with the whitespace runs left out.
pub proof fn lemma_scan_covers_source(rules: RuleSeq, src: Seq<u8>)
    requires
        spec_scan(rules, src).1 is None,
    ensures
        joined(spec_pieces(rules, src)) == src,
        visible(spec_pieces(rules, src)) == spec_scan(rules, src).0,
        forall|i: int|
            0 <= i < spec_pieces(rules, src).len() ==> (#[trigger] spec_pieces(rules, src)[i]).1.len()
                > 0,
    decreases src.len(),
{
    if src.len() > 0 {
        match first_anchored(rules, src, 0) {
            Some((c, e)) => {
                if 0 < e <= src.len() {
                    let tail = src.subrange(e, src.len() as int);
                    assert(spec_scan(rules, src).1 == shift(spec_scan(rules, tail).1, e));
                    lemma_scan_covers_source(rules, tail);
                    let ps = spec_pieces(rules, src);
                    assert(ps == seq![(c, src.subrange(0, e))] + spec_pieces(rules, tail));
                    assert(ps.drop_first() =~= spec_pieces(rules, tail));
                    assert(src =~= src.subrange(0, e) + tail);
                    assert forall|i: int| 0 <= i < ps.len() implies (#[trigger] ps[i]).1.len() > 0 by {
                        if i > 0 {
                            assert(ps[i] == spec_pieces(rules, tail)[i - 1]);
                        }
                    }
                }
            },
            None => {},
        }
    }
}

/// Scanning is deterministic: two token sequences that both are what
/// scanning one source with one rule table produces are element-wise
/// identical, category and text alike.
pub proof fn lemma_scan_deterministic(
    tmakers: Seq<TMaker>,
    src: Seq<u8>,
    first: Seq<Token>,
    second: Seq<Token>,
)
    requires
        tokens_model(first) == spec_scan(rules_view(tmakers), src).0,
        tokens_model(second) == spec_scan(rules_view(tmakers), src).0,
    ensures
        first.len() == second.len(),
        forall|i: int|
            0 <= i < first.len() ==> (#[trigger] first[i]).token_type == second[i].token_type
                && first[i].value@ == second[i].value@,
{
    assert(tokens_model(first).len() == first.len());
    assert forall|i: int| 0 <= i < first.len() implies (#[trigger] first[i]).token_type
        == second[i].token_type && first[i].value@ == second[i].value@ by {
        assert(tokens_model(first)[i] == first[i].model());
        assert(tokens_model(second)[i] == second[i].model());
        encode_utf8_decode_utf8(first[i].value@);
        encode_utf8_decode_utf8(second[i].value@);
    }
}

/// Building the rule table twice gives two tables whose rules, taken in
/// order, have the same categories, patterns and priorities and match
/// identically on every input, so that both scan every source identically.
pub proof fn lemma_rule_tables_agree(a: Seq<TMaker>, b: Seq<TMaker>, hay: Seq<u8>)
    requires
        rules_view(a) == declared_rules(),
        rules_view(b) == declared_rules(),
        forall|k: int| 0 <= k < a.len() ==> #[trigger] a[k].spec_priority() == declared_priority(k),
        forall|k: int| 0 <= k < b.len() ==> #[trigger] b[k].spec_priority() == declared_priority(k),
    ensures
        a.len() == b.len(),
        forall|i: int|
            0 <= i < a.len() ==> (#[trigger] a[i].rule()) == b[i].rule() && a[i].spec_priority()
                == b[i].spec_priority() && regex_find(a[i].rule().1, hay) == regex_find(
                b[i].rule().1,
                hay,
            ),
        spec_scan(rules_view(a), hay) == spec_scan(rules_view(b), hay),
{
    assert(rules_view(a).len() == a.len());
    assert(rules_view(b).len() == b.len());
    assert forall|i: int| 0 <= i < a.len() implies (#[trigger] a[i].rule()) == b[i].rule()
        && a[i].spec_priority() == b[i].spec_priority() && regex_find(a[i].rule().1, hay)
        == regex_find(b[i].rule().1, hay) by {
        assert(a[i].spec_priority() == declared_priority(i));
        assert(b[i].spec_priority() == declared_priority(i));
        assert(rules_view(a)[i] == a[i].rule());
        assert(rules_view(b)[i] == b[i].rule());
    }
}

/// The rule that `first_anchored` picks is never of the `Empty` category.
proof fn lemma_first_anchored_not_empty(rules: RuleSeq, hay: Seq<u8>, k: nat)
    ensures
        first_anchored(rules, hay, k) matches Some((c, _)) ==> c != TokenTypes::Empty,
    decreases rules.len() - k,
{
    if k < rules.len() {
        lemma_first_anchored_not_empty(rules, hay, k + 1);
    }
}

/// `Empty` marks the absence of a match: no token that a scan emits is of
/// that category.
pub proof fn lemma_scan_emits_no_empty(rules: RuleSeq, src: Seq<u8>)
    ensures
        forall|i: int|
            0 <= i < spec_scan(rules, src).0.len() ==> (#[trigger] spec_scan(rules, src).0[i]).0
                != TokenTypes::Empty,
    decreases src.len(),
{
    if src.len() > 0 {
        lemma_first_anchored_not_empty(rules, src, 0);
        match first_anchored(rules, src, 0) {
            Some((c, e)) => {
                if 0 < e <= src.len() {
                    let tail = src.subrange(e, src.len() as int);
                    lemma_scan_emits_no_empty(rules, tail);
                    let ts = spec_scan(rules, src).0;
                    assert forall|i: int| 0 <= i < ts.len() implies (#[trigger] ts[i]).0
                        != TokenTypes::Empty by {
                        if c != TokenTypes::Whitespace && i > 0 {
                            assert(ts[i] == spec_scan(rules, tail).0[i - 1]);
                        }
                    }
                }
            },
            None => {},
        }
    }
}

} // verus!
