use vstd::prelude::*;
use vstd::utf8::encode_utf8;

verus! {

/// The lexical classes a token can belong to.
///
/// `Empty` is the "no match" marker handed back by a rule that does not
/// apply at the current position; it never appears in a scan's output.
#[derive(Debug, Clone, Copy, PartialEq, Eq, Structural)]
pub enum TokenTypes {
    Whitespace,
    Constant,
    IntKeyword,
    VoidKeyword,
    ReturnKeyword,
    Identifier,
    OpenParen,
    CloseParen,
    OpenBrace,
    CloseBrace,
    Semicolon,
    Empty,
}

impl TokenTypes {
    /// The display name of each category.
    pub open spec fn spec_name(self) -> Seq<char> {
        match self {
            TokenTypes::Whitespace => "Whitespace"@,
            TokenTypes::Constant => "Constant"@,
            TokenTypes::IntKeyword => "IntKeyword"@,
            TokenTypes::VoidKeyword => "VoidKeyword"@,
            TokenTypes::ReturnKeyword => "ReturnKeyword"@,
            TokenTypes::Identifier => "Identifier"@,
            TokenTypes::OpenParen => "OpenParen"@,
            TokenTypes::CloseParen => "CloseParen"@,
            TokenTypes::OpenBrace => "OpenBrace"@,
            TokenTypes::CloseBrace => "CloseBrace"@,
            TokenTypes::Semicolon => "Semicolon"@,
            TokenTypes::Empty => "Empty"@,
        }
    }

    /// The name of the category, as printed in token listings.
    pub fn name(&self) -> (r: &'static str)
        ensures
            r@ == self.spec_name(),
    {
        match self {
            TokenTypes::Whitespace => "Whitespace",
            TokenTypes::Constant => "Constant",
            TokenTypes::IntKeyword => "IntKeyword",
            TokenTypes::VoidKeyword => "VoidKeyword",
            TokenTypes::ReturnKeyword => "ReturnKeyword",
            TokenTypes::Identifier => "Identifier",
            TokenTypes::OpenParen => "OpenParen",
            TokenTypes::CloseParen => "CloseParen",
            TokenTypes::OpenBrace => "OpenBrace",
            TokenTypes::CloseBrace => "CloseBrace",
            TokenTypes::Semicolon => "Semicolon",
            TokenTypes::Empty => "Empty",
        }
    }
}

/// A classified, verbatim piece of the source text.
#[derive(Debug)]
pub struct Token {
    pub token_type: TokenTypes,
    pub value: String,
}

impl Token {
    /// The UTF-8 bytes of the token's text.
    pub open spec fn text_bytes(&self) -> Seq<u8> {
        encode_utf8(self.value@)
    }

    /// A token as a category and the bytes it covers.
    pub open spec fn model(&self) -> (TokenTypes, Seq<u8>) {
        (self.token_type, self.text_bytes())
    }
}

/// The models of a sequence of tokens, element by element.
pub open spec fn tokens_model(ts: Seq<Token>) -> Seq<(TokenTypes, Seq<u8>)> {
    ts.map_values(|t: Token| t.model())
}

} // verus!
