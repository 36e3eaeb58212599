use crate::rules::{
    declared_rules, declared_rules_compile, generate_tmakers, regex_find, rules_view, TMaker,
};
use crate::token::{tokens_model, Token, TokenTypes};
use vstd::prelude::*;
use vstd::string::StringSliceAdditionalSpecFns;
use vstd::utf8::{encode_utf8, is_char_boundary};

verus! {

/// A table of rules seen as categories and pattern texts.
pub type RuleSeq = Seq<(TokenTypes, Seq<char>)>;

/// A token seen as its category and the bytes of its text.
pub type Piece = (TokenTypes, Seq<u8>);

/// The winner among rules whose find results are `found`, from index `k`
/// on: the category and match end of the first entry whose match begins at
/// offset 0. An entry of the `Empty` category stands for "no match" and is
/// passed over.
pub open spec fn pick_from(found: Seq<(TokenTypes, Option<(usize, usize)>)>, k: nat) -> Option<
    (TokenTypes, int),
>
    decreases found.len() - k,
{
    if k >= found.len() {
        None
    } else if found[k as int].0 == TokenTypes::Empty {
        pick_from(found, k + 1)
    } else {
        match found[k as int].1 {
            Some((s, e)) => if s == 0 {
                Some((found[k as int].0, e as int))
            } else {
                pick_from(found, k + 1)
            },
            None => pick_from(found, k + 1),
        }
    }
}

/// Each rule's category with where its pattern first matches in `hay`.
pub open spec fn finds(rules: RuleSeq, hay: Seq<u8>) -> Seq<(TokenTypes, Option<(usize, usize)>)> {
    rules.map_values(|r: (TokenTypes, Seq<char>)| (r.0, regex_find(r.1, hay)))
}

/// The category and end offset of the match of the first rule, from index
/// `k` on, whose pattern matches at the very start of `hay`.
pub open spec fn first_anchored(rules: RuleSeq, hay: Seq<u8>, k: nat) -> Option<(TokenTypes, int)> {
    pick_from(finds(rules, hay), k)
}

/// Moves a position that is relative to a suffix by the suffix's offset.
pub open spec fn shift(p: Option<int>, d: int) -> Option<int> {
    match p {
        Some(q) => Some(q + d),
        None => None,
    }
}

/// What scanning `src` with `rules` produces: the tokens, whitespace left
/// out, up to the point where no rule advances, and that point's offset,
/// or `None` when the whole of `src` was consumed.
pub open spec fn spec_scan(rules: RuleSeq, src: Seq<u8>) -> (Seq<Piece>, Option<int>)
    decreases src.len(),
{
    if src.len() == 0 {
        (seq![], None)
    } else {
        match first_anchored(rules, src, 0) {
            Some((c, e)) => if 0 < e <= src.len() {
                let rest = spec_scan(rules, src.subrange(e, src.len() as int));
                if c == TokenTypes::Whitespace {
                    (rest.0, shift(rest.1, e))
                } else {
                    (seq![(c, src.subrange(0, e))] + rest.0, shift(rest.1, e))
                }
            } else {
                (seq![], Some(0))
            },
            None => (seq![], Some(0)),
        }
    }
}

/// Every piece that scanning `src` consumes, whitespace runs included, in
/// order of appearance.
pub open spec fn spec_pieces(rules: RuleSeq, src: Seq<u8>) -> Seq<Piece>
    decreases src.len(),
{
    if src.len() == 0 {
        seq![]
    } else {
        match first_anchored(rules, src, 0) {
            Some((c, e)) => if 0 < e <= src.len() {
                seq![(c, src.subrange(0, e))] + spec_pieces(rules, src.subrange(e, src.len() as int))
            } else {
                seq![]
            },
            None => seq![],
        }
    }
}

/// The pieces that are not whitespace, in order.
pub open spec fn visible(pieces: Seq<Piece>) -> Seq<Piece>
    decreases pieces.len(),
{
    if pieces.len() == 0 {
        seq![]
    } else if pieces[0].0 == TokenTypes::Whitespace {
        visible(pieces.drop_first())
    } else {
        seq![pieces[0]] + visible(pieces.drop_first())
    }
}

/// The texts of the pieces, one after the other.
pub open spec fn joined(pieces: Seq<Piece>) -> Seq<u8>
    decreases pieces.len(),
{
    if pieces.len() == 0 {
        seq![]
    } else {
        pieces[0].1 + joined(pieces.drop_first())
    }
}

/// The error of a scan or of the whole lexer.
#[derive(Debug)]
pub enum LexError {
    /// A declared pattern did not compile; it carries the pattern.
    BadPattern(String),
    /// No rule advances at this byte offset of the source.
    Stuck(usize),
}

/// The end of a match, given as `(start, end)`, when it begins at offset 0;
/// `None` when there is no match or it begins further in.
pub fn anchored(found: Option<(usize, usize)>) -> (r: Option<usize>)
    ensures
        match found {
            Some((s, e)) => if s == 0 {
                r == Some(e)
            } else {
                r is None
            },
            None => r is None,
        },
{
    match found {
        Some((s, e)) => if s == 0 {
            Some(e)
        } else {
            None
        },
        None => None,
    }
}

/// The end of `tmaker`'s match when it begins exactly at the start of `hay`.
fn anchored_end(hay: &str, tmaker: &TMaker) -> (r: Option<usize>)
    ensures
        match regex_find(tmaker.rule().1, hay.spec_bytes()) {
            Some((s, e)) => if s == 0 {
                r == Some(e)
            } else {
                r is None
            },
            None => r is None,
        },
        r matches Some(e) ==> e <= hay.spec_bytes().len() && is_char_boundary(
            hay.spec_bytes(),
            e as int,
        ),
{
    anchored(tmaker.peek(hay))
}

/// Applies one rule at the start of `source`: the token it recognises there
/// and its length in bytes, or an `Empty` token of length 0 when the rule's
/// match does not begin at the start.
pub fn get_token(source: &str, tmaker: &TMaker) -> (r: (Token, usize))
    ensures
        match regex_find(tmaker.rule().1, source.spec_bytes()) {
            Some((s, e)) => if s == 0 {
                r.0.token_type == tmaker.rule().0 && r.1 == e && r.1 <= source.spec_bytes().len()
                    && is_char_boundary(source.spec_bytes(), r.1 as int) && r.0.text_bytes()
                    == source.spec_bytes().subrange(0, e as int)
            } else {
                r.0.token_type == TokenTypes::Empty && r.0.value@.len() == 0 && r.1 == 0
            },
            None => r.0.token_type == TokenTypes::Empty && r.0.value@.len() == 0 && r.1 == 0,
        },
{
    match anchored_end(source, tmaker) {
        Some(e) => {
            let (head, _tail) = source.split_at(e);
            (Token { token_type: tmaker.token_type(), value: head.to_owned() }, e)
        },
        None => (Token { token_type: TokenTypes::Empty, value: String::new() }, 0),
    }
}

/// Picks the winning rule from each rule's find result, in table order:
/// the first rule not of the `Empty` category whose match begins at offset
/// 0, as its category and the end of its match.
pub fn pick_rule(found: &[(TokenTypes, Option<(usize, usize)>)]) -> (r: Option<(TokenTypes, usize)>)
    ensures
        match r {
            Some((c, e)) => pick_from(found@, 0) == Some((c, e as int)),
            None => pick_from(found@, 0) is None,
        },
        r matches Some((c, e)) ==> exists|j: int|
            0 <= j < found@.len() && #[trigger] found@[j].1 == Some((0usize, e)),
{
    let mut k: usize = 0;
    while k < found.len()
        invariant
            k <= found@.len(),
            pick_from(found@, 0) == pick_from(found@, k as nat),
        decreases found@.len() - k,
    {
        let (c, m) = found[k];
        if c != TokenTypes::Empty {
            match m {
                Some((s, e)) => if s == 0 {
                    assert(found@[k as int].1 == Some((0usize, e)));
                    return Some((c, e));
                },
                None => {},
            }
        }
        k = k + 1;
    }
    None
}

/// The first rule of the table whose match begins at the start of `hay`,
/// as its category and the end of its match.
fn first_match(hay: &str, tmakers: &[TMaker]) -> (r: Option<(TokenTypes, usize)>)
    ensures
        match r {
            Some((c, e)) => first_anchored(rules_view(tmakers@), hay.spec_bytes(), 0) == Some(
                (c, e as int),
            ) && e <= hay.spec_bytes().len() && is_char_boundary(hay.spec_bytes(), e as int),
            None => first_anchored(rules_view(tmakers@), hay.spec_bytes(), 0) is None,
        },
{
    let ghost want = finds(rules_view(tmakers@), hay.spec_bytes());
    let mut found: Vec<(TokenTypes, Option<(usize, usize)>)> = Vec::new();
    let mut k: usize = 0;
    while k < tmakers.len()
        invariant
            k <= tmakers@.len(),
            want == finds(rules_view(tmakers@), hay.spec_bytes()),
            found@ == want.take(k as int),
            forall|j: int|
                0 <= j < k ==> ((#[trigger] found@[j]).1 matches Some((s, e)) ==> e
                    <= hay.spec_bytes().len() && is_char_boundary(hay.spec_bytes(), e as int)),
        decreases tmakers@.len() - k,
    {
        let m = tmakers[k].peek(hay);
        let ghost before = found@;
        found.push((tmakers[k].token_type(), m));
        assert(found@ =~= want.take(k + 1)) by {
            assert(want[k as int] == (tmakers@[k as int].rule().0, m));
        }
        assert forall|j: int|
            0 <= j < k + 1 implies ((#[trigger] found@[j]).1 matches Some((s, e)) ==> e
                <= hay.spec_bytes().len() && is_char_boundary(hay.spec_bytes(), e as int)) by {
            if j < k {
                assert(found@[j] == before[j]);
            }
        }
        k = k + 1;
    }
    assert(found@ =~= want);
    pick_rule(found.as_slice())
}

/// Scans `source` as far as the rules reach: the tokens found, whitespace
/// left out, and the byte offset at which scanning got stuck, if it did.
pub fn scan_partial(source: &str, tmakers: &[TMaker]) -> (r: (Vec<Token>, Option<usize>))
    ensures
        tokens_model(r.0@) == spec_scan(rules_view(tmakers@), source.spec_bytes()).0,
        match r.1 {
            Some(p) => spec_scan(rules_view(tmakers@), source.spec_bytes()).1 == Some(p as int),
            None => spec_scan(rules_view(tmakers@), source.spec_bytes()).1 is None,
        },
{
    let ghost rules = rules_view(tmakers@);
    let ghost full = source.spec_bytes();
    let mut out: Vec<Token> = Vec::new();
    let mut rest: &str = source;
    let mut pos: usize = 0;
    let total: usize = source.as_bytes().len();
    assert(full.subrange(0, full.len() as int) =~= full);
    assert(tokens_model(out@) =~= seq![]);
    while rest.len() > 0
        invariant
            rules == rules_view(tmakers@),
            full == source.spec_bytes(),
            full.len() == total,
            pos + rest.spec_bytes().len() == full.len(),
            rest.spec_bytes() == full.subrange(pos as int, full.len() as int),
            tokens_model(out@) + spec_scan(rules, rest.spec_bytes()).0 == spec_scan(rules, full).0,
            shift(spec_scan(rules, rest.spec_bytes()).1, pos as int) == spec_scan(rules, full).1,
        decreases rest.spec_bytes().len(),
    {
        let ghost here = rest.spec_bytes();
        match first_match(rest, tmakers) {
            None => {
                assert(tokens_model(out@) + seq![] =~= tokens_model(out@));
                return (out, Some(pos));
            },
            Some((c, e)) => {
                if e == 0 {
                    assert(tokens_model(out@) + seq![] =~= tokens_model(out@));
                    return (out, Some(pos));
                }
                let (head, tail) = rest.split_at(e);
                let ghost after = here.subrange(e as int, here.len() as int);
                assert(tail.spec_bytes() == after);
                assert(after =~= full.subrange(pos + e, full.len() as int));
                if c != TokenTypes::Whitespace {
                    let ghost before = tokens_model(out@);
                    let t = Token { token_type: c, value: head.to_owned() };
                    assert(t.model() == (c, here.subrange(0, e as int)));
                    out.push(t);
                    assert(tokens_model(out@) =~= before.push(t.model()));
                    assert(before + spec_scan(rules, here).0 =~= tokens_model(out@) + spec_scan(
                        rules,
                        after,
                    ).0);
                }
                pos = pos + e;
                rest = tail;
            },
        }
    }
    assert(rest.spec_bytes().len() == 0);
    assert(spec_scan(rules, rest.spec_bytes()) == (Seq::<Piece>::empty(), Option::<int>::None));
    assert(tokens_model(out@) + seq![] =~= tokens_model(out@));
    (out, None)
}

/// Scans the whole of `source`, or reports the byte offset at which no rule
/// advances.
pub fn scan(source: &String, tmakers: &[TMaker]) -> (r: Result<Vec<Token>, LexError>)
    ensures
        r is Ok == spec_scan(rules_view(tmakers@), encode_utf8(source@)).1 is None,
        r matches Ok(v) ==> tokens_model(v@) == spec_scan(rules_view(tmakers@), encode_utf8(source@)).0,
        r matches Err(e) ==> e matches LexError::Stuck(p) && spec_scan(
            rules_view(tmakers@),
            encode_utf8(source@),
        ).1 == Some(p as int),
{
    let (tokens, stuck) = scan_partial(source.as_str(), tmakers);
    match stuck {
        Some(p) => Err(LexError::Stuck(p)),
        None => Ok(tokens),
    }
}

/// Builds the declared rule table and scans the whole of `source` with it.
pub fn lexer(source: &String) -> (r: Result<Vec<Token>, LexError>)
    ensures
        r matches Err(LexError::BadPattern(_)) <==> !declared_rules_compile(),
        declared_rules_compile() ==> (r is Ok == spec_scan(declared_rules(), encode_utf8(source@)).1 is None),
        r matches Ok(v) ==> tokens_model(v@) == spec_scan(declared_rules(), encode_utf8(source@)).0,
        r matches Err(LexError::Stuck(p)) ==> spec_scan(declared_rules(), encode_utf8(source@)).1
            == Some(p as int),
{
    match generate_tmakers() {
        Ok(tmakers) => scan(source, tmakers.as_slice()),
        Err(e) => Err(LexError::BadPattern(e.pattern)),
    }
}

} // verus!
