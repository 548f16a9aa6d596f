//! The lexer: from the characters of a line to its tokens.

use vstd::prelude::*;
use crate::assemble::keywords::classify_name;
use crate::assemble::keywords::spec_classify_name;
use crate::assemble::keywords::Opcode;
use crate::instr::ty::Cond;
use crate::instr::ty::Psr;
use crate::instr::ty::Register;

verus! {

/// Why a piece of text is no token.
#[derive(Debug, Clone, Copy, PartialEq, Eq, Structural)]
pub enum LexError {
    /// A character that no token starts with.
    InvalidCharacter,
    /// A number with no digits, or with a digit that its base does not have.
    InvalidInteger,
    /// A number that does not fit in 32 bits.
    Overflow,
}

/// What a token is.
#[derive(Debug, Clone, Copy, PartialEq, Eq, Structural)]
pub enum TokenKind {
    /// Text that is no token.
    Error(LexError),
    /// An identifier that is no keyword.
    Name,
    Register(Register),
    /// An opcode with its condition.
    Opcode(Cond, Opcode),
    /// A status register; the flag says that the suffix `_flg` was present.
    Psr(Psr, bool),
    /// An integer literal, in any base; a negative one is held modulo 2^32.
    Integer(u32),
    Add,
    Sub,
    Mul,
    Div,
    LParen,
    RParen,
    LSquare,
    RSquare,
    Comma,
    Hash,
    Exclamation,
    Whitespace,
    /// A comment, from its semicolon to the end of the line.
    Comment,
}

/// A token and the characters that it spans: from `start` up to, but not
/// including, `end`.
#[derive(Debug, Clone, Copy, PartialEq, Eq, Structural)]
pub struct Token {
    pub kind: TokenKind,
    pub start: usize,
    pub end: usize,
}

/// The classes of characters that tokens are runs of.
#[derive(Debug, Clone, Copy, PartialEq, Eq, Structural)]
pub enum CharClass {
    /// Letters, digits, `-` and `_`: what a name goes on with.
    Name,
    /// Digits, the letters of hexadecimal digits, and `_`: what a number
    /// goes on with.
    NumberTail,
    /// Blank, tab and form feed.
    Space,
    /// Everything but blank, tab and form feed.
    Solid,
    /// Everything: a comment runs to the end of its line.
    Any,
}

/// Whether a character is an ASCII letter.
pub open spec fn is_letter(c: char) -> bool {
    ('a' <= c && c <= 'z') || ('A' <= c && c <= 'Z')
}

/// Whether a character is an ASCII digit.
pub open spec fn is_digit(c: char) -> bool {
    '0' <= c && c <= '9'
}

/// Whether a character belongs to a class.
pub open spec fn in_class(c: char, class: CharClass) -> bool {
    match class {
        CharClass::Name => is_letter(c) || is_digit(c) || c == '-' || c == '_',
        CharClass::NumberTail => is_digit(c) || ('a' <= c && c <= 'f') || ('A' <= c && c <= 'F')
            || c == '_',
        CharClass::Space => c == ' ' || c == '\t' || c == '\x0C',
        CharClass::Solid => !(c == ' ' || c == '\t' || c == '\x0C'),
        CharClass::Any => true,
    }
}

/// Where the run of characters of a class that starts at `pos` ends, at
/// `limit` at the latest.
pub open spec fn run_end(src: Seq<char>, pos: int, limit: int, class: CharClass) -> int
    decreases limit - pos,
{
    if pos < limit && in_class(src[pos], class) {
        run_end(src, pos + 1, limit, class)
    } else {
        pos
    }
}

/// The value of a digit in a base, if the character is a digit of it.
pub open spec fn digit_value(c: char, radix: nat) -> Option<nat> {
    let value: int = if is_digit(c) {
        c as int - '0' as int
    } else if 'a' <= c && c <= 'f' {
        c as int - 'a' as int + 10
    } else if 'A' <= c && c <= 'F' {
        c as int - 'A' as int + 10
    } else {
        16
    };
    if value < radix {
        Some(value as nat)
    } else {
        None
    }
}

/// How many digits the characters from `from` up to `to` hold; the
/// separator `_` is no digit.
pub open spec fn digit_count(src: Seq<char>, from: int, to: int) -> nat
    decreases to - from,
{
    if from >= to {
        0
    } else {
        digit_count(src, from, to - 1) + (if src[to - 1] == '_' {
            0nat
        } else {
            1nat
        })
    }
}

/// The number that the characters from `from` up to `to` spell in a base,
/// with `_` as a separator that counts for nothing; `None` if one of them
/// is no digit of the base.
pub open spec fn digits_value(src: Seq<char>, from: int, to: int, radix: nat) -> Option<nat>
    decreases to - from,
{
    if from >= to {
        Some(0)
    } else {
        match digits_value(src, from, to - 1, radix) {
            None => None,
            Some(value) => if src[to - 1] == '_' {
                Some(value)
            } else {
                match digit_value(src[to - 1], radix) {
                    Some(digit) => Some(value * radix + digit),
                    None => None,
                }
            },
        }
    }
}

/// The token of a number: its digits must be digits of the base
/// and there must be one at least (`InvalidInteger`), and the number must
/// be at most `max` (`Overflow`). A negative number is held modulo 2^32.
pub open spec fn number_kind(
    src: Seq<char>,
    from: int,
    to: int,
    radix: nat,
    negative: bool,
) -> TokenKind {
    match digits_value(src, from, to, radix) {
        None => TokenKind::Error(LexError::InvalidInteger),
        Some(value) => if digit_count(src, from, to) == 0 {
            TokenKind::Error(LexError::InvalidInteger)
        } else if negative {
            if value > 0x8000_0000 {
                TokenKind::Error(LexError::Overflow)
            } else if value == 0 {
                TokenKind::Integer(0)
            } else {
                TokenKind::Integer((0x1_0000_0000 - value) as u32)
            }
        } else if value > 0xFFFF_FFFF {
            TokenKind::Error(LexError::Overflow)
        } else {
            TokenKind::Integer(value as u32)
        },
    }
}

/// The token of a single character of punctuation, if it is one.
pub open spec fn punctuation(c: char) -> Option<TokenKind> {
    if c == '+' {
        Some(TokenKind::Add)
    } else if c == '-' {
        Some(TokenKind::Sub)
    } else if c == '*' {
        Some(TokenKind::Mul)
    } else if c == '/' {
        Some(TokenKind::Div)
    } else if c == '(' {
        Some(TokenKind::LParen)
    } else if c == ')' {
        Some(TokenKind::RParen)
    } else if c == '[' {
        Some(TokenKind::LSquare)
    } else if c == ']' {
        Some(TokenKind::RSquare)
    } else if c == ',' {
        Some(TokenKind::Comma)
    } else if c == '#' {
        Some(TokenKind::Hash)
    } else if c == '!' {
        Some(TokenKind::Exclamation)
    } else {
        None
    }
}

/// The token that starts at `pos`, which is before `limit`. Every token is
/// as long as it can be:
/// - a letter starts a name, which is a register, an opcode or a status
///   register if it is spelt like one, in either case of the letters;
/// - a digit starts a number: hexadecimal after `0x`, octal after `0o`,
///   binary after `0b`, else decimal;
/// - `&` starts a hexadecimal number;
/// - `-` before a digit starts a negative decimal number;
/// - `;` starts a comment;
/// - blanks and tabs form whitespace;
/// - a character of punctuation stands for itself;
/// - any other character is an error of its own.
pub open spec fn spec_lex_one(src: Seq<char>, pos: int, limit: int) -> Token {
    let c = src[pos];
    let next = if pos + 1 < limit {
        Some(src[pos + 1])
    } else {
        None
    };
    if is_letter(c) {
        let end = run_end(src, pos + 1, limit, CharClass::Name);
        Token {
            kind: spec_classify_name(src, pos, end),
            start: pos as usize,
            end: end as usize,
        }
    } else if is_digit(c) {
        if c == '0' && (next == Some('x') || next == Some('X')) {
            let end = run_end(src, pos + 2, limit, CharClass::NumberTail);
            Token {
                kind: number_kind(src, pos + 2, end, 16, false),
                start: pos as usize,
                end: end as usize,
            }
        } else if c == '0' && (next == Some('o') || next == Some('O')) {
            let end = run_end(src, pos + 2, limit, CharClass::NumberTail);
            Token {
                kind: number_kind(src, pos + 2, end, 8, false),
                start: pos as usize,
                end: end as usize,
            }
        } else if c == '0' && (next == Some('b') || next == Some('B')) {
            let end = run_end(src, pos + 2, limit, CharClass::NumberTail);
            Token {
                kind: number_kind(src, pos + 2, end, 2, false),
                start: pos as usize,
                end: end as usize,
            }
        } else {
            let end = run_end(src, pos + 1, limit, CharClass::NumberTail);
            Token {
                kind: number_kind(src, pos, end, 10, false),
                start: pos as usize,
                end: end as usize,
            }
        }
    } else if c == '&' {
        let end = run_end(src, pos + 1, limit, CharClass::NumberTail);
        Token {
            kind: number_kind(src, pos + 1, end, 16, false),
            start: pos as usize,
            end: end as usize,
        }
    } else if c == '-' && next is Some && is_digit(next->Some_0) {
        let end = run_end(src, pos + 2, limit, CharClass::NumberTail);
        Token {
            kind: number_kind(src, pos + 1, end, 10, true),
            start: pos as usize,
            end: end as usize,
        }
    } else if c == ';' {
        Token {
            kind: TokenKind::Comment,
            start: pos as usize,
            end: run_end(src, pos + 1, limit, CharClass::Any) as usize,
        }
    } else if in_class(c, CharClass::Space) {
        Token {
            kind: TokenKind::Whitespace,
            start: pos as usize,
            end: run_end(src, pos + 1, limit, CharClass::Space) as usize,
        }
    } else {
        Token {
            kind: match punctuation(c) {
                Some(kind) => kind,
                None => TokenKind::Error(LexError::InvalidCharacter),
            },
            start: pos as usize,
            end: (pos + 1) as usize,
        }
    }
}

/// The tokens of the characters from `pos` up to `limit`, whitespace left
/// out.
pub open spec fn spec_lex(src: Seq<char>, pos: int, limit: int) -> Seq<Token>
    decreases limit - pos,
{
    if pos >= limit {
        Seq::empty()
    } else {
        let token = spec_lex_one(src, pos, limit);
        if token.end as int <= pos || token.end as int > limit {
            Seq::empty()
        } else if token.kind == TokenKind::Whitespace {
            spec_lex(src, token.end as int, limit)
        } else {
            seq![token] + spec_lex(src, token.end as int, limit)
        }
    }
}

/// A run ends at or after its start and at or before the limit.
pub proof fn lemma_run_end(src: Seq<char>, pos: int, limit: int, class: CharClass)
    requires
        pos <= limit,
    ensures
        pos <= run_end(src, pos, limit, class) <= limit,
    decreases limit - pos,
{
    if pos < limit && in_class(src[pos], class) {
        lemma_run_end(src, pos + 1, limit, class);
    }
}

/// Finds the end of a run of characters of a class.
pub fn scan_run(src: &Vec<char>, pos: usize, limit: usize, class: CharClass) -> (r: usize)
    requires
        pos <= limit <= src@.len(),
    ensures
        r == run_end(src@, pos as int, limit as int, class),
        pos <= r <= limit,
{
    let mut at = pos;
    while at < limit && char_in_class(src[at], class)
        invariant
            pos <= at <= limit <= src@.len(),
            run_end(src@, at as int, limit as int, class) == run_end(
                src@,
                pos as int,
                limit as int,
                class,
            ),
        decreases limit - at,
    {
        at += 1;
    }
    at
}

/// Whether a character belongs to a class.
pub fn char_in_class(c: char, class: CharClass) -> (r: bool)
    ensures
        r == in_class(c, class),
{
    let letter = ('a' <= c && c <= 'z') || ('A' <= c && c <= 'Z');
    let digit = '0' <= c && c <= '9';
    match class {
        CharClass::Name => letter || digit || c == '-' || c == '_',
        CharClass::NumberTail => digit || ('a' <= c && c <= 'f') || ('A' <= c && c <= 'F') || c
            == '_',
        CharClass::Space => c == ' ' || c == '\t' || c == '\x0C',
        CharClass::Solid => !(c == ' ' || c == '\t' || c == '\x0C'),
        CharClass::Any => true,
    }
}

/// The value of a digit in a base.
fn digit_of(c: char, radix: u32) -> (r: Option<u32>)
    requires
        radix <= 16,
    ensures
        match digit_value(c, radix as nat) {
            Some(value) => r == Some(value as u32) && value < radix,
            None => r is None,
        },
{
    let value: u32 = if '0' <= c && c <= '9' {
        c as u32 - '0' as u32
    } else if 'a' <= c && c <= 'f' {
        c as u32 - 'a' as u32 + 10
    } else if 'A' <= c && c <= 'F' {
        c as u32 - 'A' as u32 + 10
    } else {
        16
    };
    if value < radix {
        Some(value)
    } else {
        None
    }
}

/// Works out the token of a number.
fn lex_number(src: &Vec<char>, from: usize, to: usize, radix: u32, negative: bool) -> (r:
    TokenKind)
    requires
        from <= to <= src@.len(),
        2 <= radix <= 16,
    ensures
        r == number_kind(src@, from as int, to as int, radix as nat, negative),
{
    let mut value: u64 = 0;
    let mut overflow = false;
    let mut invalid = false;
    let mut digits: usize = 0;
    let mut at = from;
    while at < to
        invariant
            from <= at <= to <= src@.len(),
            2 <= radix <= 16,
            digits == digit_count(src@, from as int, at as int),
            digits <= at - from,
            invalid <==> digits_value(src@, from as int, at as int, radix as nat) is None,
            !invalid && !overflow ==> digits_value(src@, from as int, at as int, radix as nat)
                == Some(value as nat) && value <= 0xFFFF_FFFF,
            !invalid && overflow ==> digits_value(
                src@,
                from as int,
                at as int,
                radix as nat,
            )->Some_0 > 0xFFFF_FFFF,
        decreases to - at,
    {
        let c = src[at];
        let ghost before = digits_value(src@, from as int, at as int, radix as nat);
        if c != '_' {
            digits += 1;
            match digit_of(c, radix) {
                Some(digit) => {
                    if !invalid && !overflow {
                        assert(value * radix <= 0xFFFF_FFFF * 16) by (nonlinear_arith)
                            requires
                                value <= 0xFFFF_FFFF,
                                radix <= 16,
                        ;
                        let wide: u64 = value * (radix as u64) + digit as u64;
                        if wide > 0xFFFF_FFFF {
                            overflow = true;
                        } else {
                            value = wide;
                        }
                    } else if !invalid {
                        assert(before->Some_0 * radix + digit > 0xFFFF_FFFF) by (nonlinear_arith)
                            requires
                                before->Some_0 > 0xFFFF_FFFF,
                                radix >= 2,
                                digit >= 0,
                        ;
                    }
                },
                None => {
                    invalid = true;
                },
            }
        }
        at += 1;
    }
    if invalid || digits == 0 {
        TokenKind::Error(LexError::InvalidInteger)
    } else if negative {
        if overflow || value > 0x8000_0000 {
            TokenKind::Error(LexError::Overflow)
        } else if value == 0 {
            TokenKind::Integer(0)
        } else {
            TokenKind::Integer((0x1_0000_0000 - value) as u32)
        }
    } else if overflow {
        TokenKind::Error(LexError::Overflow)
    } else {
        TokenKind::Integer(value as u32)
    }
}

/// The token of a character of punctuation.
fn punctuation_of(c: char) -> (r: Option<TokenKind>)
    ensures
        r == punctuation(c),
{
    if c == '+' {
        Some(TokenKind::Add)
    } else if c == '-' {
        Some(TokenKind::Sub)
    } else if c == '*' {
        Some(TokenKind::Mul)
    } else if c == '/' {
        Some(TokenKind::Div)
    } else if c == '(' {
        Some(TokenKind::LParen)
    } else if c == ')' {
        Some(TokenKind::RParen)
    } else if c == '[' {
        Some(TokenKind::LSquare)
    } else if c == ']' {
        Some(TokenKind::RSquare)
    } else if c == ',' {
        Some(TokenKind::Comma)
    } else if c == '#' {
        Some(TokenKind::Hash)
    } else if c == '!' {
        Some(TokenKind::Exclamation)
    } else {
        None
    }
}

/// Reads the token that starts at `pos`.
pub fn lex_one(src: &Vec<char>, pos: usize, limit: usize) -> (r: Token)
    requires
        pos < limit <= src@.len(),
    ensures
        r == spec_lex_one(src@, pos as int, limit as int),
        r.start == pos,
        pos < r.end <= limit,
{
    let c = src[pos];
    let next: Option<char> = if pos + 1 < limit {
        Some(src[pos + 1])
    } else {
        None
    };
    let letter = ('a' <= c && c <= 'z') || ('A' <= c && c <= 'Z');
    let digit = '0' <= c && c <= '9';
    let next_is_digit = match next {
        Some(n) => '0' <= n && n <= '9',
        None => false,
    };
    if letter {
        let end = scan_run(src, pos + 1, limit, CharClass::Name);
        Token { kind: classify_name(src, pos, end), start: pos, end }
    } else if digit {
        let radix: u32 = if c != '0' {
            10
        } else {
            match next {
                Some('x') | Some('X') => 16,
                Some('o') | Some('O') => 8,
                Some('b') | Some('B') => 2,
                _ => 10,
            }
        };
        if radix == 10 {
            let end = scan_run(src, pos + 1, limit, CharClass::NumberTail);
            Token { kind: lex_number(src, pos, end, 10, false), start: pos, end }
        } else {
            let end = scan_run(src, pos + 2, limit, CharClass::NumberTail);
            Token { kind: lex_number(src, pos + 2, end, radix, false), start: pos, end }
        }
    } else if c == '&' {
        let end = scan_run(src, pos + 1, limit, CharClass::NumberTail);
        Token { kind: lex_number(src, pos + 1, end, 16, false), start: pos, end }
    } else if c == '-' && next_is_digit {
        let end = scan_run(src, pos + 2, limit, CharClass::NumberTail);
        Token { kind: lex_number(src, pos + 1, end, 10, true), start: pos, end }
    } else if c == ';' {
        Token { kind: TokenKind::Comment, start: pos, end: scan_run(src, pos + 1, limit, CharClass::Any) }
    } else if char_in_class(c, CharClass::Space) {
        Token {
            kind: TokenKind::Whitespace,
            start: pos,
            end: scan_run(src, pos + 1, limit, CharClass::Space),
        }
    } else {
        Token {
            kind: match punctuation_of(c) {
                Some(kind) => kind,
                None => TokenKind::Error(LexError::InvalidCharacter),
            },
            start: pos,
            end: pos + 1,
        }
    }
}

/// Reads the tokens of the characters from `pos` up to `limit`, and leaves
/// the whitespace out. The tokens lie within these characters, in the
/// order of the text, and do not overlap.
pub fn lex(src: &Vec<char>, pos: usize, limit: usize) -> (r: Vec<Token>)
    requires
        pos <= limit <= src@.len(),
    ensures
        r@ == spec_lex(src@, pos as int, limit as int),
        forall|i: int| 0 <= i < r@.len() ==> pos <= (#[trigger] r@[i]).start < r@[i].end <= limit,
        forall|i: int, j: int| 0 <= i < j < r@.len() ==> (#[trigger] r@[i]).end <= (#[trigger] r@[j]).start,
{
    let mut tokens: Vec<Token> = Vec::new();
    let mut at = pos;
    while at < limit
        invariant
            pos <= at <= limit <= src@.len(),
            forall|i: int|
                0 <= i < tokens@.len() ==> pos <= (#[trigger] tokens@[i]).start < tokens@[i].end
                    <= at,
            forall|i: int, j: int|
                0 <= i < j < tokens@.len() ==> (#[trigger] tokens@[i]).end <= (
                #[trigger] tokens@[j]).start,
            tokens@ + spec_lex(src@, at as int, limit as int) == spec_lex(
                src@,
                pos as int,
                limit as int,
            ),
        decreases limit - at,
    {
        let token = lex_one(src, at, limit);
        let ghost before = tokens@;
        if token.kind != TokenKind::Whitespace {
            tokens.push(token);
            assert(tokens@ + spec_lex(src@, token.end as int, limit as int) =~= before + (
            seq![token] + spec_lex(src@, token.end as int, limit as int)));
        }
        at = token.end;
    }
    assert(tokens@ + Seq::<Token>::empty() =~= tokens@);
    tokens
}

} // verus!
