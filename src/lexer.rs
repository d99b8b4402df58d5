//! Turns ASCII source text into tokens with byte spans and interned text.

use vstd::prelude::*;
use vstd::string::*;

use crate::interner::Interner;
use crate::span::Span;
use crate::stream::TokenStream;
use crate::token::{tokens_wf, SymbolId, Token, TokenKind};

verus! {

/// Why source text could not be split into tokens.
#[derive(Clone, Copy, Debug, PartialEq, Eq, Structural)]
pub enum LexError {
    /// The text holds a character outside ASCII.
    NotAscii,
    /// No token starts at this offset.
    UnexpectedCharacter(u32),
    /// A string literal or comment runs to the end of the text.
    Unterminated(u32),
    /// The text is longer than a span can address.
    TooLong,
    /// The interner holds as many strings as ids can name.
    InternerFull,
}

fn is_letter(b: u8) -> (r: bool)
    ensures
        r == ((b >= 97 && b <= 122) || (b >= 65 && b <= 90) || b == 95),
{
    (b >= 97 && b <= 122) || (b >= 65 && b <= 90) || b == 95
}

fn is_digit(b: u8) -> (r: bool)
    ensures
        r == (b >= 48 && b <= 57),
{
    b >= 48 && b <= 57
}

fn is_space(b: u8) -> (r: bool)
    ensures
        r == (b == 32 || b == 9 || b == 10 || b == 13),
{
    b == 32 || b == 9 || b == 10 || b == 13
}

/// The byte at `i`, or zero past the end.
fn byte_at(source: &str, n: usize, i: usize) -> (r: u8)
    requires
        is_ascii(source),
        n == source@.len(),
    ensures
        i >= n ==> r == 0,
        i < n ==> r == source@[i as int] as u8,
{
    if i < n {
        source.get_ascii(i)
    } else {
        0
    }
}

/// The keyword kind of a word of the language, or `Identifier`.
fn word_kind(text: &str) -> (r: TokenKind) {
    let t = String::from_str(text);
    if t == String::from_str("use") {
        TokenKind::Use
    } else if t == String::from_str("as") {
        TokenKind::As
    } else if t == String::from_str("const") {
        TokenKind::Const
    } else if t == String::from_str("function") {
        TokenKind::Function
    } else if t == String::from_str("if") {
        TokenKind::If
    } else if t == String::from_str("elseif") {
        TokenKind::ElseIf
    } else if t == String::from_str("else") {
        TokenKind::Else
    } else if t == String::from_str("endif") {
        TokenKind::EndIf
    } else if t == String::from_str("echo") {
        TokenKind::Echo
    } else if t == String::from_str("goto") {
        TokenKind::Goto
    } else if t == String::from_str("class") {
        TokenKind::Class
    } else if t == String::from_str("public") {
        TokenKind::Public
    } else if t == String::from_str("protected") {
        TokenKind::Protected
    } else if t == String::from_str("private") {
        TokenKind::Private
    } else if t == String::from_str("readonly") {
        TokenKind::Readonly
    } else if t == String::from_str("static") {
        TokenKind::Static
    } else {
        TokenKind::Identifier
    }
}

/// The keyword kind of a word of a type annotation, or `Identifier`.
fn type_word_kind(text: &str) -> (r: TokenKind) {
    let t = String::from_str(text);
    if t == String::from_str("callable") {
        TokenKind::CallableKeyword
    } else if t == String::from_str("pure-callable") {
        TokenKind::PureCallableKeyword
    } else if t == String::from_str("Closure") {
        TokenKind::ClosureKeyword
    } else if t == String::from_str("pure-Closure") {
        TokenKind::PureClosureKeyword
    } else {
        TokenKind::Identifier
    }
}

/// Tokens in source order that all end by `pos`.
pub open spec fn lexed_up_to(tokens: Seq<Token>, pos: int) -> bool {
    &&& tokens_wf(tokens)
    &&& forall|i: int| 0 <= i < tokens.len() ==> (#[trigger] tokens[i]).span.end <= pos
}

/// Adds the token from `start` to `end` with its text interned.
fn push_token(
    source: &str,
    n: usize,
    tokens: &mut Vec<Token>,
    interner: &mut Interner,
    kind: TokenKind,
    start: usize,
    end: usize,
    pos: Ghost<int>,
) -> (r: Result<(), LexError>)
    requires
        is_ascii(source),
        n == source@.len(),
        n <= u32::MAX,
        pos@ <= start < end <= n,
        lexed_up_to(old(tokens)@, pos@),
        old(interner).wf(),
    ensures
        final(interner).wf(),
        r is Ok ==> lexed_up_to(final(tokens)@, end as int),
        r is Ok ==> final(tokens)@.len() == old(tokens)@.len() + 1,
        r is Err ==> final(tokens)@ == old(tokens)@,
        r is Err ==> r == Err::<(), LexError>(LexError::InternerFull),
{
    let text = source.substring_ascii(start, end);
    let value = match interner.intern(text) {
        Some(id) => id,
        None => {
            return Err(LexError::InternerFull);
        },
    };
    let t = Token { kind, span: Span { start: start as u32, end: end as u32 }, value };
    let ghost before = tokens@;
    tokens.push(t);
    proof {
        assert forall|i: int, j: int| 0 <= i < j < tokens@.len() implies (#[trigger] tokens@[i]).span.precedes(
            #[trigger] tokens@[j].span,
        ) by {
            if j < before.len() {
                assert(before[i].span.precedes(before[j].span));
            } else {
                assert(before[i].span.end <= pos@);
            }
        }
        assert forall|i: int| 0 <= i < tokens@.len() implies (#[trigger] tokens@[i]).span.wf() by {
            if i < before.len() {
                assert(before[i].span.wf());
            }
        }
        assert forall|i: int| 0 <= i < tokens@.len() implies (#[trigger] tokens@[i]).span.end <= end by {
            if i < before.len() {
                assert(before[i].span.end <= pos@);
            }
        }
    }
    Ok(())
}

/// Splits source text into the language's tokens. Whitespace and comments
/// are dropped; `<?php` and `?>` are tokens. The result is a stream in
/// source order, ready for the parser.
pub fn tokenize(source: &str, interner: &mut Interner) -> (r: Result<TokenStream, LexError>)
    requires
        old(interner).wf(),
    ensures
        final(interner).wf(),
        r matches Ok(s) ==> s.wf() && s.position == 0 && s.end as int == source@.len(),
        r == Err::<TokenStream, LexError>(LexError::NotAscii) <==> !is_ascii(source),
{
    if !source.is_ascii() {
        return Err(LexError::NotAscii);
    }
    let n = source.unicode_len();
    if n >= 4294967040usize {
        return Err(LexError::TooLong);
    }
    let mut tokens: Vec<Token> = Vec::new();
    let mut pos: usize = 0;
    while pos < n
        invariant
            is_ascii(source),
            n == source@.len(),
            n < 4294967040,
            pos <= n,
            interner.wf(),
            lexed_up_to(tokens@, pos as int),
        decreases n - pos,
    {
        let b = source.get_ascii(pos);
        let c1 = byte_at(source, n, pos + 1);
        let start = pos;
        if is_space(b) {
            pos = pos + 1;
        } else if (b == 47 && c1 == 47) || (b == 35 && c1 != 91) {
            // a line comment: `//` or `#`, up to the end of the line
            pos = pos + 1;
            while pos < n && source.get_ascii(pos) != 10
                invariant
                    is_ascii(source),
                    n == source@.len(),
                    start < pos <= n,
                    n < 4294967040,
                decreases n - pos,
            {
                pos = pos + 1;
            }
        } else if b == 47 && c1 == 42 {
            // a block comment
            pos = pos + 2;
            while pos < n && !(source.get_ascii(pos) == 42 && byte_at(source, n, pos + 1) == 47)
                invariant
                    is_ascii(source),
                    n == source@.len(),
                    start + 2 <= pos <= n + 1,
                    n < 4294967040,
                decreases n + 1 - pos,
            {
                pos = pos + 1;
            }
            if pos >= n {
                return Err(LexError::Unterminated(start as u32));
            }
            pos = pos + 2;
        } else {
            let mut end = pos + 1;
            let mut kind = TokenKind::Identifier;
            let mut classify_word = false;
            if b == 60 && c1 == 63 && byte_at(source, n, pos + 2) == 112 && byte_at(source, n, pos + 3) == 104
                && byte_at(source, n, pos + 4) == 112 {
                kind = TokenKind::OpenTag;
                end = pos + 5;
            } else if b == 63 && c1 == 62 {
                kind = TokenKind::CloseTag;
                end = pos + 2;
            } else if b == 36 && is_letter(c1) {
                kind = TokenKind::Variable;
                end = pos + 2;
                while end < n && (is_letter(source.get_ascii(end)) || is_digit(source.get_ascii(end)))
                    invariant
                        is_ascii(source),
                        n == source@.len(),
                        pos < end <= n,
                        n < 4294967040,
                    decreases n - end,
                {
                    end = end + 1;
                }
            } else if is_letter(b) {
                classify_word = true;
                while end < n && (is_letter(source.get_ascii(end)) || is_digit(source.get_ascii(end)) || (
                source.get_ascii(end) == 92 && is_letter(byte_at(source, n, end + 1))))
                    invariant
                        is_ascii(source),
                        n == source@.len(),
                        pos < end <= n,
                        n < 4294967040,
                    decreases n - end,
                {
                    end = end + 1;
                }
            } else if is_digit(b) {
                kind = TokenKind::IntegerLiteral;
                while end < n && is_digit(source.get_ascii(end))
                    invariant
                        is_ascii(source),
                        n == source@.len(),
                        pos < end <= n,
                        n < 4294967040,
                    decreases n - end,
                {
                    end = end + 1;
                }
            } else if b == 39 || b == 34 {
                kind = TokenKind::StringLiteral;
                while end < n && source.get_ascii(end) != b
                    invariant
                        is_ascii(source),
                        n == source@.len(),
                        pos < end <= n,
                        n < 4294967040,
                    decreases n - end,
                {
                    if source.get_ascii(end) == 92 && end + 1 < n {
                        end = end + 2;
                    } else {
                        end = end + 1;
                    }
                }
                if end >= n {
                    return Err(LexError::Unterminated(start as u32));
                }
                end = end + 1;
            } else if b == 46 && c1 == 46 && byte_at(source, n, pos + 2) == 46 {
                kind = TokenKind::Ellipsis;
                end = pos + 3;
            } else if b == 35 && c1 == 91 {
                kind = TokenKind::HashLeftBracket;
                end = pos + 2;
            } else if b == 92 {
                kind = TokenKind::NamespaceSeparator;
            } else if b == 123 {
                kind = TokenKind::LeftBrace;
            } else if b == 125 {
                kind = TokenKind::RightBrace;
            } else if b == 40 {
                kind = TokenKind::LeftParenthesis;
            } else if b == 41 {
                kind = TokenKind::RightParenthesis;
            } else if b == 91 {
                kind = TokenKind::LeftBracket;
            } else if b == 93 {
                kind = TokenKind::RightBracket;
            } else if b == 44 {
                kind = TokenKind::Comma;
            } else if b == 58 {
                kind = TokenKind::Colon;
            } else if b == 59 {
                kind = TokenKind::Semicolon;
            } else if b == 61 {
                kind = TokenKind::Equals;
            } else if b == 38 {
                kind = TokenKind::Ampersand;
            } else if b == 63 {
                kind = TokenKind::Question;
            } else {
                return Err(LexError::UnexpectedCharacter(start as u32));
            }
            if end > n {
                return Err(LexError::UnexpectedCharacter(start as u32));
            }
            if classify_word {
                kind = word_kind(source.substring_ascii(start, end));
            }
            push_token(source, n, &mut tokens, interner, kind, start, end, Ghost(pos as int))?;
            pos = end;
        }
    }
    Ok(TokenStream::new(tokens, n as u32))
}

/// Splits the text of a type annotation into tokens: names, the four
/// callable keywords, and `( ) , : = ...`.
pub fn tokenize_type(source: &str, interner: &mut Interner) -> (r: Result<TokenStream, LexError>)
    requires
        old(interner).wf(),
    ensures
        final(interner).wf(),
        r matches Ok(s) ==> s.wf() && s.position == 0 && s.end as int == source@.len(),
        r == Err::<TokenStream, LexError>(LexError::NotAscii) <==> !is_ascii(source),
{
    if !source.is_ascii() {
        return Err(LexError::NotAscii);
    }
    let n = source.unicode_len();
    if n >= 4294967040usize {
        return Err(LexError::TooLong);
    }
    let mut tokens: Vec<Token> = Vec::new();
    let mut pos: usize = 0;
    while pos < n
        invariant
            is_ascii(source),
            n == source@.len(),
            n < 4294967040,
            pos <= n,
            interner.wf(),
            lexed_up_to(tokens@, pos as int),
        decreases n - pos,
    {
        let b = source.get_ascii(pos);
        let start = pos;
        if is_space(b) {
            pos = pos + 1;
        } else {
            let mut end = pos + 1;
            let mut kind = TokenKind::Identifier;
            if is_letter(b) || b == 92 {
                while end < n && (is_letter(source.get_ascii(end)) || is_digit(source.get_ascii(end))
                    || source.get_ascii(end) == 92 || source.get_ascii(end) == 45)
                    invariant
                        is_ascii(source),
                        n == source@.len(),
                        pos < end <= n,
                        n < 4294967040,
                    decreases n - end,
                {
                    end = end + 1;
                }
                kind = type_word_kind(source.substring_ascii(start, end));
            } else if b == 46 && byte_at(source, n, pos + 1) == 46 && byte_at(source, n, pos + 2) == 46 {
                kind = TokenKind::Ellipsis;
                end = pos + 3;
            } else if b == 40 {
                kind = TokenKind::LeftParenthesis;
            } else if b == 41 {
                kind = TokenKind::RightParenthesis;
            } else if b == 44 {
                kind = TokenKind::Comma;
            } else if b == 58 {
                kind = TokenKind::Colon;
            } else if b == 61 {
                kind = TokenKind::Equals;
            } else {
                return Err(LexError::UnexpectedCharacter(start as u32));
            }
            if end > n {
                return Err(LexError::UnexpectedCharacter(start as u32));
            }
            push_token(source, n, &mut tokens, interner, kind, start, end, Ghost(pos as int))?;
            pos = end;
        }
    }
    Ok(TokenStream::new(tokens, n as u32))
}

} // verus!
