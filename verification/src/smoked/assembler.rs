use vstd::prelude::*;
use vstd::string::StringSliceAdditionalSpecFns;
use vstd::utf8::{decode_utf8, valid_utf8};
use vstd::std_specs::iter::IteratorSpec;
use crate::smoked::cpu::{USIZE_SIZE, VALUE_SIZE};
use crate::smoked::instruction::{instruction_text, le_bytes, push_le_bytes, type_of_opcode};
use crate::smoked::text::decimal_text;
use crate::smoked::memory::str_from_utf8;

verus! {

/// Whether `c` has the Unicode White_Space property: tab to carriage
/// return, space, next line, no-break space, ogham space mark, the spaces
/// from en quad to hair space, the line and paragraph separators, the
/// narrow no-break space, the medium mathematical space and the ideographic
/// space.
pub open spec fn whitespace_property(c: char) -> bool {
    let n = c as u32;
    (0x09 <= n <= 0x0D) || n == 0x20 || n == 0x85 || n == 0xA0 || n == 0x1680 || (0x2000 <= n <= 0x200A)
        || n == 0x2028 || n == 0x2029 || n == 0x202F || n == 0x205F || n == 0x3000
}

/// What `str::to_lowercase` returns for the text `text`.
pub uninterp spec fn lowercase_text(text: Seq<char>) -> Seq<char>;

/// The value of `digits` read in decimal, or `None` where one of them is
/// not an ASCII digit.
pub open spec fn decimal_value(digits: Seq<char>) -> Option<nat>
    decreases digits.len(),
{
    if digits.len() == 0 {
        Some(0)
    } else {
        let digit = digits.last() as int - '0' as int;
        match decimal_value(digits.drop_last()) {
            Some(value) => if 0 <= digit <= 9 {
                Some(value * 10 + digit as nat)
            } else {
                None
            },
            None => None,
        }
    }
}

/// What `usize::from_str` accepts and returns: an optional `+`, then one or
/// more ASCII digits whose value fits in a `usize`.
pub open spec fn usize_from_text(text: Seq<char>) -> Option<usize> {
    let digits = if text.len() > 0 && text[0] == '+' {
        text.drop_first()
    } else {
        text
    };
    match decimal_value(digits) {
        Some(value) => if digits.len() > 0 && value <= usize::MAX {
            Some(value as usize)
        } else {
            None
        },
        None => None,
    }
}

/// What `i64::from_str` accepts and returns: an optional `+` or `-`, then
/// one or more ASCII digits whose signed value fits in an `i64`.
pub open spec fn i64_from_text(text: Seq<char>) -> Option<i64> {
    let signed = text.len() > 0 && (text[0] == '+' || text[0] == '-');
    let digits = if signed {
        text.drop_first()
    } else {
        text
    };
    match decimal_value(digits) {
        Some(value) => {
            let number: int = if signed && text[0] == '-' {
                -value
            } else {
                value as int
            };
            if digits.len() > 0 && i64::MIN <= number <= i64::MAX {
                Some(number as i64)
            } else {
                None
            }
        },
        None => None,
    }
}

/// Whether `c` is whitespace, as `char::is_whitespace` answers.
pub fn is_whitespace(c: char) -> (r: bool)
    ensures
        r == whitespace_property(c),
{
    let n = c as u32;
    (0x09 <= n && n <= 0x0D) || n == 0x20 || n == 0x85 || n == 0xA0 || n == 0x1680 || (0x2000 <= n && n
        <= 0x200A) || n == 0x2028 || n == 0x2029 || n == 0x202F || n == 0x205F || n == 0x3000
}

/// Calls `str::to_lowercase`; its result is named `lowercase_text`.
#[verifier::external_body]
fn to_lowercase(text: &str) -> (r: String)
    ensures
        r@ == lowercase_text(text@),
{
    text.to_lowercase()
}

/// Calls `i64::from_str`, which, as its documentation says, reads an
/// optional sign and decimal digits and fails on anything else or on a
/// value out of range.
#[verifier::external_body]
fn parse_i64(text: &str) -> (r: Option<i64>)
    ensures
        r == i64_from_text(text@),
{
    text.parse::<i64>().ok()
}

/// Calls `usize::from_str`, which, as its documentation says, reads an
/// optional `+` and decimal digits and fails on anything else or on a
/// value out of range.
#[verifier::external_body]
fn parse_usize(text: &str) -> (r: Option<usize>)
    ensures
        r == usize_from_text(text@),
{
    text.parse::<usize>().ok()
}

/// Formats `c` followed by `rest` (`format!("{}{}", c, rest)`): a char
/// displays as itself.
#[verifier::external_body]
fn char_then_text(c: char, rest: &str) -> (r: String)
    ensures
        r@ == seq![c] + rest@,
{
    format!("{}{}", c, rest)
}

/// A constant of the data section; text is kept as the byte range of the
/// source it was read from.
#[derive(Clone, Copy, Debug, PartialEq, Eq, Structural)]
pub enum Constant {
    Nil,
    Integer(i64),
    Float { start: usize, end: usize },
    Bool(bool),
    String { start: usize, end: usize },
    Function { ip: usize, arity: usize },
    Array { capacity: usize },
    Object { capacity: usize },
}

/// What the lexer recognises; instruction names are byte ranges of the
/// source.
#[derive(Clone, Copy, Debug, PartialEq, Eq, Structural)]
pub enum TokenType {
    Data,
    Constant(Constant),
    Code,
    Instruction { start: usize, end: usize },
    Number(usize),
}

/// A token and the line (counted from 0) it was found on.
#[derive(Clone, Copy, Debug, PartialEq, Eq, Structural)]
pub struct Token {
    pub token_type: TokenType,
    pub location: usize,
}

/// How many chars from `index` on are not whitespace.
pub open spec fn run_non_whitespace(chars: Seq<char>, index: int) -> int
    decreases chars.len() - index,
{
    if 0 <= index < chars.len() && !whitespace_property(chars[index]) {
        1 + run_non_whitespace(chars, index + 1)
    } else {
        0
    }
}

/// How many chars from `index` on are not a double quote.
pub open spec fn run_non_quote(chars: Seq<char>, index: int) -> int
    decreases chars.len() - index,
{
    if 0 <= index < chars.len() && chars[index] != '"' {
        1 + run_non_quote(chars, index + 1)
    } else {
        0
    }
}

/// A run of non-whitespace chars stays within the source.
pub proof fn lemma_run_non_whitespace_bounds(chars: Seq<char>, index: int)
    requires
        0 <= index <= chars.len(),
    ensures
        0 <= run_non_whitespace(chars, index) <= chars.len() - index,
    decreases chars.len() - index,
{
    if index < chars.len() {
        lemma_run_non_whitespace_bounds(chars, index + 1);
    }
}

/// A run of non-quote chars stays within the source.
pub proof fn lemma_run_non_quote_bounds(chars: Seq<char>, index: int)
    requires
        0 <= index <= chars.len(),
    ensures
        0 <= run_non_quote(chars, index) <= chars.len() - index,
    decreases chars.len() - index,
{
    if index < chars.len() {
        lemma_run_non_quote_bounds(chars, index + 1);
    }
}

/// Whether `index` is where a char starts in `bytes`, or their end: it is
/// not a continuation byte.
pub open spec fn char_boundary(bytes: Seq<u8>, index: int) -> bool {
    index == 0 || index == bytes.len() || (0 <= index < bytes.len() && (bytes[index] < 0x80 || bytes[index]
        >= 0xC0))
}

/// The text of the bytes `start..end` of the source, or `None` where they
/// are out of range, cut a char or do not form UTF-8 (slicing the source
/// would fail).
pub open spec fn text_at(bytes: Seq<u8>, start: int, end: int) -> Option<Seq<char>> {
    if 0 <= start <= end <= bytes.len() && char_boundary(bytes, start) && char_boundary(bytes, end) && valid_utf8(
        bytes.subrange(start, end),
    ) {
        Some(decode_utf8(bytes.subrange(start, end)))
    } else {
        None
    }
}

/// Whether the char at `index` exists and is whitespace.
pub open spec fn whitespace_at(chars: Seq<char>, index: int) -> bool {
    0 <= index < chars.len() && whitespace_property(chars[index])
}

/// The token read after a `.` at char `index`, and where lexing goes on:
/// `.data` or `.code`.
pub open spec fn section_step(chars: Seq<char>, bytes: Seq<u8>, index: int, line: int) -> Option<(Token, int)> {
    let i = index + 1;
    let n = run_non_whitespace(chars, i);
    match text_at(bytes, i, i + n) {
        Some(predicate) => if predicate == "data"@ {
            Some((Token { token_type: TokenType::Data, location: line as usize }, i + n))
        } else if predicate == "code"@ {
            Some((Token { token_type: TokenType::Code, location: line as usize }, i + n))
        } else {
            None
        },
        None => None,
    }
}

/// The token read from the word that starts at char `index`, and where
/// lexing goes on. The word, lowercased, names a constant kind whose
/// operands follow, or is a number, or else is an instruction name.
pub open spec fn keyword_step(chars: Seq<char>, bytes: Seq<u8>, index: int, line: int) -> Option<(Token, int)> {
    let c = chars[index];
    let start = index + 1;
    let after = start + run_non_whitespace(chars, start);
    let location = line as usize;
    match text_at(bytes, start, after) {
        None => None,
        Some(suffix) => if !whitespace_at(chars, after) {
            None
        } else {
            let j = after + 1;
            let keyword = lowercase_text(seq![c] + suffix);
            let m = run_non_whitespace(chars, j);
            if keyword == "nil"@ {
                Some((Token { token_type: TokenType::Constant(Constant::Nil), location }, j))
            } else if keyword == "integer"@ {
                match text_at(bytes, j, j + m) {
                    Some(text) => match i64_from_text(text) {
                        Some(value) => Some(
                            (Token { token_type: TokenType::Constant(Constant::Integer(value)), location }, j + m),
                        ),
                        None => None,
                    },
                    None => None,
                }
            } else if keyword == "float"@ {
                match text_at(bytes, j, j + m) {
                    Some(_) => Some(
                        (
                            Token {
                                token_type: TokenType::Constant(Constant::Float { start: j as usize, end: (j + m) as usize }),
                                location,
                            },
                            j + m,
                        ),
                    ),
                    None => None,
                }
            } else if keyword == "bool"@ {
                match text_at(bytes, j, j + m) {
                    Some(text) => if text == "true"@ || text == "false"@ {
                        Some(
                            (
                                Token { token_type: TokenType::Constant(Constant::Bool(text == "true"@)), location },
                                j + m,
                            ),
                        )
                    } else {
                        None
                    },
                    None => None,
                }
            } else if keyword == "string"@ {
                let k = j + 1;
                let q = run_non_quote(chars, k);
                if !(j < chars.len() && chars[j] == '"') {
                    None
                } else {
                    match text_at(bytes, k, k + q) {
                        Some(_) => if k + q < chars.len() && chars[k + q] == '"' {
                            Some(
                                (
                                    Token {
                                        token_type: TokenType::Constant(
                                            Constant::String { start: k as usize, end: (k + q) as usize },
                                        ),
                                        location,
                                    },
                                    k + q + 1,
                                ),
                            )
                        } else {
                            None
                        },
                        None => None,
                    }
                }
            } else if keyword == "function"@ {
                let k = j + m + 1;
                let p = run_non_whitespace(chars, k);
                match text_at(bytes, j, j + m) {
                    Some(ip_text) => match usize_from_text(ip_text) {
                        Some(ip) => if !whitespace_at(chars, j + m) {
                            None
                        } else {
                            match text_at(bytes, k, k + p) {
                                Some(arity_text) => match usize_from_text(arity_text) {
                                    Some(arity) => Some(
                                        (
                                            Token {
                                                token_type: TokenType::Constant(Constant::Function { ip, arity }),
                                                location,
                                            },
                                            k + p,
                                        ),
                                    ),
                                    None => None,
                                },
                                None => None,
                            }
                        },
                        None => None,
                    },
                    None => None,
                }
            } else if keyword == "array"@ || keyword == "object"@ {
                match text_at(bytes, j, j + m) {
                    Some(text) => match usize_from_text(text) {
                        Some(capacity) => Some(
                            (
                                Token {
                                    token_type: TokenType::Constant(
                                        if keyword == "array"@ {
                                            Constant::Array { capacity }
                                        } else {
                                            Constant::Object { capacity }
                                        },
                                    ),
                                    location,
                                },
                                j + m,
                            ),
                        ),
                        None => None,
                    },
                    None => None,
                }
            } else {
                match usize_from_text(keyword) {
                    Some(number) => Some((Token { token_type: TokenType::Number(number), location }, j)),
                    None => match text_at(bytes, index, after) {
                        Some(_) => Some(
                            (
                                Token {
                                    token_type: TokenType::Instruction { start: index as usize, end: after as usize },
                                    location,
                                },
                                j,
                            ),
                        ),
                        None => None,
                    },
                }
            }
        },
    }
}

/// A step of the lexer moves forwards and stays within the source.
pub proof fn lemma_steps_advance(chars: Seq<char>, bytes: Seq<u8>, index: int, line: int)
    requires
        0 <= index < chars.len(),
    ensures
        section_step(chars, bytes, index, line) matches Some((_, next)) ==> index < next <= chars.len(),
        keyword_step(chars, bytes, index, line) matches Some((_, next)) ==> index < next <= chars.len(),
{
    lemma_run_non_whitespace_bounds(chars, index + 1);
    let after = index + 1 + run_non_whitespace(chars, index + 1);
    if after < chars.len() {
        lemma_run_non_whitespace_bounds(chars, after + 1);
        let m = run_non_whitespace(chars, after + 1);
        if after + 1 < chars.len() {
            lemma_run_non_quote_bounds(chars, after + 2);
        }
        if after + 1 + m < chars.len() {
            lemma_run_non_whitespace_bounds(chars, after + 1 + m + 1);
        }
    }
}

/// The tokens of the source from char `index` on, the chars being counted
/// from line `line`; `None` where the source is malformed. Positions are
/// counted in chars and used as byte offsets into the source, so text after
/// a multi-byte char is sliced at shifted offsets (and refused where such an
/// offset cuts a char).
pub open spec fn lex_from(chars: Seq<char>, bytes: Seq<u8>, index: int, line: int) -> Option<Seq<Token>>
    decreases chars.len() - index,
{
    if index < 0 || index >= chars.len() {
        Some(Seq::empty())
    } else {
        let c = chars[index];
        if c != '.' && whitespace_property(c) {
            lex_from(chars, bytes, index + 1, if c == '\n' { line + 1 } else { line })
        } else {
            let step = if c == '.' {
                section_step(chars, bytes, index, line)
            } else {
                keyword_step(chars, bytes, index, line)
            };
            proof {
                lemma_steps_advance(chars, bytes, index, line);
            }
            match step {
                Some((token, next)) => match lex_from(chars, bytes, next, line) {
                    Some(rest) => Some(seq![token] + rest),
                    None => None,
                },
                None => None,
            }
        }
    }
}

/// How many leading chars of `chars` satisfy `f`.
pub fn take_while<P: Fn(char) -> bool>(chars: &[char], f: P) -> (r: usize)
    requires
        forall|c: char| f.requires((c,)),
    ensures
        r <= chars@.len(),
        forall|i: int| 0 <= i < r ==> f.ensures((chars@[i],), true),
        r < chars@.len() ==> f.ensures((chars@[r as int],), false),
{
    let mut result: usize = 0;
    while result < chars.len()
        invariant
            result <= chars@.len(),
            forall|c: char| f.requires((c,)),
            forall|i: int| 0 <= i < result ==> f.ensures((chars@[i],), true),
        decreases chars@.len() - result,
    {
        if f(chars[result]) {
            result = result + 1;
        } else {
            return result;
        }
    }
    result
}

proof fn lemma_run_non_whitespace_is(chars: Seq<char>, index: int, n: int)
    requires
        0 <= index,
        0 <= n,
        index + n <= chars.len(),
        forall|i: int| index <= i < index + n ==> !whitespace_property(#[trigger] chars[i]),
        index + n < chars.len() ==> whitespace_property(chars[index + n]),
    ensures
        run_non_whitespace(chars, index) == n,
    decreases n,
{
    if n > 0 {
        lemma_run_non_whitespace_is(chars, index + 1, n - 1);
    }
}

proof fn lemma_run_non_quote_is(chars: Seq<char>, index: int, n: int)
    requires
        0 <= index,
        0 <= n,
        index + n <= chars.len(),
        forall|i: int| index <= i < index + n ==> #[trigger] chars[i] != '"',
        index + n < chars.len() ==> chars[index + n] == '"',
    ensures
        run_non_quote(chars, index) == n,
    decreases n,
{
    if n > 0 {
        lemma_run_non_quote_is(chars, index + 1, n - 1);
    }
}

/// The length of the run of non-whitespace chars from `index` on.
fn non_whitespace_run(chars: &[char], index: usize) -> (r: usize)
    requires
        index <= chars@.len(),
    ensures
        r == run_non_whitespace(chars@, index as int),
{
    let rest = vstd::slice::slice_subrange(chars, index, chars.len());
    let n = take_while(rest, |c: char| -> (r: bool)
        ensures
            r == !whitespace_property(c),
        { !is_whitespace(c) });
    proof {
        assert forall|i: int| index <= i < index + n implies !whitespace_property(#[trigger] chars@[i]) by {
            assert(rest@[i - index] == chars@[i]);
        }
        if index + n < chars@.len() {
            assert(rest@[n as int] == chars@[index + n]);
        }
        lemma_run_non_whitespace_is(chars@, index as int, n as int);
    }
    n
}

/// The length of the run of chars other than a double quote from `index` on.
fn non_quote_run(chars: &[char], index: usize) -> (r: usize)
    requires
        index <= chars@.len(),
    ensures
        r == run_non_quote(chars@, index as int),
{
    let rest = vstd::slice::slice_subrange(chars, index, chars.len());
    let n = take_while(rest, |c: char| -> (r: bool)
        ensures
            r == (c != '"'),
        { c != '"' });
    proof {
        assert forall|i: int| index <= i < index + n implies #[trigger] chars@[i] != '"' by {
            assert(rest@[i - index] == chars@[i]);
        }
        if index + n < chars@.len() {
            assert(rest@[n as int] == chars@[index + n]);
        }
        lemma_run_non_quote_is(chars@, index as int, n as int);
    }
    n
}

/// Whether a char starts at byte `index`, or the bytes end there.
fn is_char_boundary(bytes: &[u8], index: usize) -> (r: bool)
    ensures
        r == char_boundary(bytes@, index as int),
{
    index == 0 || index == bytes.len() || (index < bytes.len() && (bytes[index] < 0x80 || bytes[index] >= 0xC0))
}

/// The source text at bytes `start..end`, where that slice is valid.
fn text_slice(bytes: &[u8], start: usize, end: usize) -> (r: Option<&str>)
    ensures
        match text_at(bytes@, start as int, end as int) {
            Some(text) => r matches Some(slice) && slice@ == text,
            None => r is None,
        },
{
    if start > end || end > bytes.len() || !is_char_boundary(bytes, start) || !is_char_boundary(bytes, end) {
        return None;
    }
    let sub = vstd::slice::slice_subrange(bytes, start, end);
    let r = str_from_utf8(sub);
    proof {
        if let Some(slice) = r {
            vstd::utf8::encode_utf8_decode_utf8(slice@);
        }
    }
    r
}

/// Whether `text` is exactly `word`.
fn is_word(text: &String, word: &str) -> (r: bool)
    ensures
        r == (text@ == word@),
{
    *text == String::from_str(word)
}

/// Reads `.data` or `.code` after the dot at `index`.
fn read_section(chars: &[char], bytes: &[u8], index: usize, line: usize) -> (r: Option<(Token, usize)>)
    requires
        index < chars@.len(),
    ensures
        match section_step(chars@, bytes@, index as int, line as int) {
            Some((token, next)) => r == Some((token, next as usize)),
            None => r is None,
        },
{
    proof {
        lemma_run_non_whitespace_bounds(chars@, index + 1);
    }
    assert(chars@.len() == chars.len());
    let i = index + 1;
    let n = non_whitespace_run(chars, i);
    let predicate = match text_slice(bytes, i, i + n) {
        Some(text) => String::from_str(text),
        None => return None,
    };
    if is_word(&predicate, "data") {
        Some((Token { token_type: TokenType::Data, location: line }, i + n))
    } else if is_word(&predicate, "code") {
        Some((Token { token_type: TokenType::Code, location: line }, i + n))
    } else {
        None
    }
}

/// Reads the word at `index` and what it introduces.
#[verifier::rlimit(50)]
fn read_keyword(chars: &[char], bytes: &[u8], index: usize, line: usize) -> (r: Option<(Token, usize)>)
    requires
        index < chars@.len(),
    ensures
        match keyword_step(chars@, bytes@, index as int, line as int) {
            Some((token, next)) => r == Some((token, next as usize)),
            None => r is None,
        },
{
    let ghost cs = chars@;
    let c = chars[index];
    let start = index + 1;
    proof {
        lemma_run_non_whitespace_bounds(cs, start as int);
    }
    let after = start + non_whitespace_run(chars, start);
    let suffix = match text_slice(bytes, start, after) {
        Some(text) => text,
        None => return None,
    };
    if !(after < chars.len() && is_whitespace(chars[after])) {
        return None;
    }
    let j = after + 1;
    let keyword = to_lowercase(char_then_text(c, suffix).as_str());
    proof {
        lemma_run_non_whitespace_bounds(cs, j as int);
    }
    let m = non_whitespace_run(chars, j);
    if is_word(&keyword, "nil") {
        Some((Token { token_type: TokenType::Constant(Constant::Nil), location: line }, j))
    } else if is_word(&keyword, "integer") {
        let text = match text_slice(bytes, j, j + m) {
            Some(text) => text,
            None => return None,
        };
        match parse_i64(text) {
            Some(value) => Some((Token { token_type: TokenType::Constant(Constant::Integer(value)), location: line }, j + m)),
            None => None,
        }
    } else if is_word(&keyword, "float") {
        match text_slice(bytes, j, j + m) {
            Some(_) => Some(
                (Token { token_type: TokenType::Constant(Constant::Float { start: j, end: j + m }), location: line }, j + m),
            ),
            None => None,
        }
    } else if is_word(&keyword, "bool") {
        let text = match text_slice(bytes, j, j + m) {
            Some(text) => String::from_str(text),
            None => return None,
        };
        let is_true = is_word(&text, "true");
        if is_true || is_word(&text, "false") {
            Some((Token { token_type: TokenType::Constant(Constant::Bool(is_true)), location: line }, j + m))
        } else {
            None
        }
    } else if is_word(&keyword, "string") {
        if !(j < chars.len() && chars[j] == '"') {
            return None;
        }
        let k = j + 1;
        proof {
            lemma_run_non_quote_bounds(cs, k as int);
        }
        let q = non_quote_run(chars, k);
        match text_slice(bytes, k, k + q) {
            Some(_) => {},
            None => return None,
        }
        if k + q < chars.len() && chars[k + q] == '"' {
            Some(
                (
                    Token { token_type: TokenType::Constant(Constant::String { start: k, end: k + q }), location: line },
                    k + q + 1,
                ),
            )
        } else {
            None
        }
    } else if is_word(&keyword, "function") {
        let ip_text = match text_slice(bytes, j, j + m) {
            Some(text) => text,
            None => return None,
        };
        let ip = match parse_usize(ip_text) {
            Some(ip) => ip,
            None => return None,
        };
        if !(j + m < chars.len() && is_whitespace(chars[j + m])) {
            return None;
        }
        let k = j + m + 1;
        proof {
            lemma_run_non_whitespace_bounds(cs, k as int);
        }
        let p = non_whitespace_run(chars, k);
        let arity_text = match text_slice(bytes, k, k + p) {
            Some(text) => text,
            None => return None,
        };
        match parse_usize(arity_text) {
            Some(arity) => Some(
                (Token { token_type: TokenType::Constant(Constant::Function { ip, arity }), location: line }, k + p),
            ),
            None => None,
        }
    } else if is_word(&keyword, "array") || is_word(&keyword, "object") {
        let text = match text_slice(bytes, j, j + m) {
            Some(text) => text,
            None => return None,
        };
        match parse_usize(text) {
            Some(capacity) => {
                let constant = if is_word(&keyword, "array") {
                    Constant::Array { capacity }
                } else {
                    Constant::Object { capacity }
                };
                Some((Token { token_type: TokenType::Constant(constant), location: line }, j + m))
            },
            None => None,
        }
    } else {
        match parse_usize(keyword.as_str()) {
            Some(number) => Some((Token { token_type: TokenType::Number(number), location: line }, j)),
            None => match text_slice(bytes, index, after) {
                Some(_) => Some((Token { token_type: TokenType::Instruction { start: index, end: after }, location: line }, j)),
                None => None,
            },
        }
    }
}

/// The chars of `content`.
fn collect_chars(content: &str) -> (r: Vec<char>)
    ensures
        r@ == content@,
{
    broadcast use vstd::string::group_string_axioms;

    let mut chars: Vec<char> = Vec::new();
    let mut it = content.chars();
    loop
        invariant
            chars@ + it.remaining() == content@,
        ensures
            chars@ == content@,
        decreases content@.len() - chars@.len(),
    {
        match it.next() {
            Some(c) => {
                let ghost rest = it.remaining();
                chars.push(c);
                assert(chars@ + rest =~= content@);
            },
            None => {
                assert(chars@ =~= content@);
                break ;
            },
        }
    }
    chars
}

/// Splits an assembly source into tokens; `None` exactly where the source
/// is malformed and the assembler stops.
pub fn lexer(content: &str) -> (r: Option<Vec<Token>>)
    ensures
        match lex_from(content@, content.spec_bytes(), 0, 0) {
            Some(tokens) => r matches Some(v) && v@ == tokens,
            None => r is None,
        },
        r matches Some(v) ==> strings_within(v@, content.spec_bytes().len()),
{
    let chars = collect_chars(content);
    let bytes = content.as_bytes();
    let ghost cs = content@;
    let ghost bs = content.spec_bytes();
    let mut tokens: Vec<Token> = Vec::new();
    let mut index: usize = 0;
    let mut line: usize = 0;
    while index < chars.len()
        invariant
            cs == content@,
            bs == content.spec_bytes(),
            chars@ == cs,
            bytes@ == bs,
            index <= cs.len(),
            line <= index,
            lex_from(cs, bs, 0, 0) == match lex_from(cs, bs, index as int, line as int) {
                Some(rest) => Some(tokens@ + rest),
                None => None::<Seq<Token>>,
            },
        decreases cs.len() - index,
    {
        let c = chars[index];
        proof {
            lemma_steps_advance(cs, bs, index as int, line as int);
        }
        if c != '.' && is_whitespace(c) {
            if c == '\n' {
                line = line + 1;
            }
            index = index + 1;
        } else {
            let step = if c == '.' {
                read_section(chars.as_slice(), bytes, index, line)
            } else {
                read_keyword(chars.as_slice(), bytes, index, line)
            };
            match step {
                Some((token, next)) => {
                    let ghost before = tokens@;
                    tokens.push(token);
                    proof {
                        match lex_from(cs, bs, next as int, line as int) {
                            Some(rest) => {
                                assert(before + (seq![token] + rest) =~= tokens@ + rest);
                            },
                            None => {},
                        }
                    }
                    index = next;
                },
                None => {
                    return None;
                },
            }
        }
    }
    proof {
        assert(tokens@ + Seq::<Token>::empty() =~= tokens@);
        assert(bytes@.len() == bytes.len());
        lemma_lexed_strings_within(cs, bs, 0, 0);
    }
    Some(tokens)
}

/// The four little-endian bytes of `value`.
pub open spec fn le32_bytes(value: u32) -> Seq<u8> {
    seq![value as u8, (value >> 8) as u8, (value >> 16) as u8, (value >> 24) as u8]
}

/// `n` zero bytes.
pub open spec fn zeros(n: int) -> Seq<u8> {
    Seq::new(n as nat, |i: int| 0u8)
}

/// Whether every string constant among `tokens` names bytes of a source of
/// `length` bytes.
pub open spec fn strings_within(tokens: Seq<Token>, length: nat) -> bool {
    forall|i: int|
        0 <= i < tokens.len() ==> match #[trigger] tokens[i].token_type {
            TokenType::Constant(Constant::String { start, end }) => start <= end <= length,
            _ => true,
        }
}

/// Whether the space that every array or object constant among `tokens`
/// reserves can be counted in a `usize`.
pub open spec fn capacities_fit(tokens: Seq<Token>) -> bool {
    forall|i: int|
        0 <= i < tokens.len() ==> match #[trigger] tokens[i].token_type {
            TokenType::Constant(Constant::Array { capacity }) => VALUE_SIZE * capacity <= usize::MAX,
            TokenType::Constant(Constant::Object { capacity }) => (USIZE_SIZE + VALUE_SIZE) * capacity
                <= usize::MAX,
            _ => true,
        }
}

/// The entry of the constant table for `constant`: a tag byte and its
/// payload. A string points at `next_address`, a float is stored by its
/// bits `float_bits`.
pub open spec fn constant_entry(constant: Constant, float_bits: u32, next_address: nat) -> Seq<u8> {
    match constant {
        Constant::Nil => seq![0u8],
        Constant::Integer(value) => seq![1u8] + le_bytes(value as u64),
        Constant::Float { .. } => seq![2u8] + le32_bytes(float_bits),
        Constant::Bool(value) => seq![3u8, if value { 1u8 } else { 0u8 }],
        Constant::String { .. } => seq![4u8] + le_bytes(next_address as u64),
        Constant::Function { ip, arity } => seq![5u8] + le_bytes(ip as u64) + le_bytes(arity as u64) + seq![0u8],
        Constant::Array { capacity } => seq![6u8] + le_bytes((VALUE_SIZE * capacity) as u64),
        Constant::Object { capacity } => seq![7u8] + le_bytes(((USIZE_SIZE + VALUE_SIZE) * capacity) as u64),
    }
}

/// What `constant` adds to the initial memory: a string's bytes, an
/// array's zeroed slots, an object's capacity and zeroed properties.
pub open spec fn constant_memory(constant: Constant, source: Seq<u8>) -> Seq<u8> {
    match constant {
        Constant::String { start, end } => source.subrange(start as int, end as int),
        Constant::Array { capacity } => zeros(VALUE_SIZE * capacity),
        Constant::Object { capacity } => le_bytes(capacity as u64) + zeros((USIZE_SIZE + VALUE_SIZE) * capacity),
        _ => Seq::empty(),
    }
}

/// How far `constant` moves the address given to the next string: only
/// strings count.
pub open spec fn string_length(constant: Constant) -> nat {
    match constant {
        Constant::String { start, end } => (end - start) as nat,
        _ => 0,
    }
}

/// The memory, the constant table and the next string address after the
/// run of constants from token `i` on, starting from `state`; and the index
/// of the first token after the run.
pub open spec fn data_from(
    tokens: Seq<Token>,
    i: int,
    source: Seq<u8>,
    float_bits: Seq<u32>,
    state: (Seq<u8>, Seq<u8>, nat),
) -> ((Seq<u8>, Seq<u8>, nat), int)
    decreases tokens.len() - i,
{
    if 0 <= i < tokens.len() {
        match tokens[i].token_type {
            TokenType::Constant(constant) => data_from(
                tokens,
                i + 1,
                source,
                float_bits,
                (
                    state.0 + constant_memory(constant, source),
                    state.1 + constant_entry(constant, float_bits[i], state.2),
                    state.2 + string_length(constant),
                ),
            ),
            _ => (state, i),
        }
    } else {
        (state, i)
    }
}

/// The initial memory and the constant table that the tokens from `start`
/// on describe, and the index of the first token after them. A data
/// section is `.data` and the constants that follow it; the constant table
/// ends with a string that points at the file name, which ends the memory.
pub open spec fn constants_image(
    tokens: Seq<Token>,
    start: int,
    source: Seq<u8>,
    float_bits: Seq<u32>,
    file_name: Seq<u8>,
) -> (Seq<u8>, Seq<u8>, int) {
    let empty = (Seq::<u8>::empty(), Seq::<u8>::empty(), 0nat);
    let (state, next) = if 0 <= start < tokens.len() && tokens[start].token_type is Data {
        data_from(tokens, start + 1, source, float_bits, empty)
    } else {
        (empty, start)
    };
    (state.0 + file_name, state.1 + seq![4u8] + le_bytes(state.2 as u64), next)
}

/// Appends the four little-endian bytes of `value`.
fn push_le32_bytes(bytes: &mut Vec<u8>, value: u32)
    ensures
        final(bytes)@ == old(bytes)@ + le32_bytes(value),
{
    bytes.push(value as u8);
    bytes.push((value >> 8) as u8);
    bytes.push((value >> 16) as u8);
    bytes.push((value >> 24) as u8);
    assert(bytes@ =~= old(bytes)@ + le32_bytes(value));
}

/// Appends `n` zero bytes.
fn push_zeros(bytes: &mut Vec<u8>, n: usize)
    ensures
        final(bytes)@ == old(bytes)@ + zeros(n as int),
{
    let ghost start = bytes@;
    let mut k: usize = 0;
    while k < n
        invariant
            k <= n,
            bytes@ == start + zeros(k as int),
        decreases n - k,
    {
        bytes.push(0);
        k = k + 1;
        assert(bytes@ =~= start + zeros(k as int));
    }
}

/// Appends the bytes `start..end` of `source`.
fn push_range(bytes: &mut Vec<u8>, source: &[u8], start: usize, end: usize)
    requires
        start <= end <= source@.len(),
    ensures
        final(bytes)@ == old(bytes)@ + source@.subrange(start as int, end as int),
{
    let ghost before = bytes@;
    let mut k: usize = start;
    while k < end
        invariant
            start <= k <= end <= source@.len(),
            bytes@ == before + source@.subrange(start as int, k as int),
        decreases end - k,
    {
        bytes.push(source[k]);
        k = k + 1;
        assert(bytes@ =~= before + source@.subrange(start as int, k as int));
    }
}

/// Adds `constant` to the memory and the constant table, and returns the
/// address for the next string.
fn push_constant(
    memory: &mut Vec<u8>,
    constants: &mut Vec<u8>,
    next_address: usize,
    constant: Constant,
    source: &[u8],
    float_bits: u32,
) -> (r: usize)
    requires
        next_address <= old(memory)@.len(),
        match constant {
            Constant::String { start, end } => start <= end <= source@.len(),
            Constant::Array { capacity } => VALUE_SIZE * capacity <= usize::MAX,
            Constant::Object { capacity } => (USIZE_SIZE + VALUE_SIZE) * capacity <= usize::MAX,
            _ => true,
        },
    ensures
        final(memory)@ == old(memory)@ + constant_memory(constant, source@),
        final(constants)@ == old(constants)@ + constant_entry(constant, float_bits, next_address as nat),
        r == next_address + string_length(constant),
        r <= final(memory)@.len(),
{
    match constant {
        Constant::Nil => {
            constants.push(0);
            assert(constants@ =~= old(constants)@ + constant_entry(constant, float_bits, next_address as nat));
            assert(memory@ =~= old(memory)@ + constant_memory(constant, source@));
            next_address
        },
        Constant::Integer(value) => {
            constants.push(1);
            push_le_bytes(constants, value as u64);
            assert(constants@ =~= old(constants)@ + constant_entry(constant, float_bits, next_address as nat));
            assert(memory@ =~= old(memory)@ + constant_memory(constant, source@));
            next_address
        },
        Constant::Float { .. } => {
            constants.push(2);
            push_le32_bytes(constants, float_bits);
            assert(constants@ =~= old(constants)@ + constant_entry(constant, float_bits, next_address as nat));
            assert(memory@ =~= old(memory)@ + constant_memory(constant, source@));
            next_address
        },
        Constant::Bool(value) => {
            constants.push(3);
            constants.push(if value { 1 } else { 0 });
            assert(constants@ =~= old(constants)@ + constant_entry(constant, float_bits, next_address as nat));
            assert(memory@ =~= old(memory)@ + constant_memory(constant, source@));
            next_address
        },
        Constant::String { start, end } => {
            constants.push(4);
            push_le_bytes(constants, next_address as u64);
            push_range(memory, source, start, end);
            assert(constants@ =~= old(constants)@ + constant_entry(constant, float_bits, next_address as nat));
            assert(memory.len() == memory@.len());
            next_address + (end - start)
        },
        Constant::Function { ip, arity } => {
            constants.push(5);
            push_le_bytes(constants, ip as u64);
            push_le_bytes(constants, arity as u64);
            constants.push(0);
            assert(constants@ =~= old(constants)@ + constant_entry(constant, float_bits, next_address as nat));
            assert(memory@ =~= old(memory)@ + constant_memory(constant, source@));
            next_address
        },
        Constant::Array { capacity } => {
            let size = VALUE_SIZE * capacity;
            constants.push(6);
            push_le_bytes(constants, size as u64);
            push_zeros(memory, size);
            assert(constants@ =~= old(constants)@ + constant_entry(constant, float_bits, next_address as nat));
            next_address
        },
        Constant::Object { capacity } => {
            let size = (USIZE_SIZE + VALUE_SIZE) * capacity;
            constants.push(7);
            push_le_bytes(memory, capacity as u64);
            push_le_bytes(constants, size as u64);
            push_zeros(memory, size);
            assert(constants@ =~= old(constants)@ + constant_entry(constant, float_bits, next_address as nat));
            assert(memory@ =~= old(memory)@ + constant_memory(constant, source@));
            next_address
        },
    }
}

/// Whether `token` is a constant.
fn is_constant(token: &Token) -> (r: bool)
    ensures
        r == (token.token_type is Constant),
{
    match token.token_type {
        TokenType::Constant(_) => true,
        _ => false,
    }
}

/// Reads the data section that may start at token `start`: returns the
/// initial memory, the constant table, and the index of the first token
/// after the section.
pub fn parse_constants(
    tokens: &[Token],
    start: usize,
    source: &[u8],
    file_name: &[u8],
    float_bits: &[u32],
) -> (r: (Vec<u8>, Vec<u8>, usize))
    requires
        start <= tokens@.len(),
        float_bits@.len() == tokens@.len(),
        strings_within(tokens@, source@.len()),
        capacities_fit(tokens@),
    ensures
        r.0@ == constants_image(tokens@, start as int, source@, float_bits@, file_name@).0,
        r.1@ == constants_image(tokens@, start as int, source@, float_bits@, file_name@).1,
        r.2 == constants_image(tokens@, start as int, source@, float_bits@, file_name@).2,
{
    let ghost empty = (Seq::<u8>::empty(), Seq::<u8>::empty(), 0nat);
    let mut memory: Vec<u8> = Vec::new();
    let mut constants: Vec<u8> = Vec::new();
    let mut next_address: usize = 0;
    let mut i: usize = start;
    let ghost section = if start < tokens@.len() && tokens@[start as int].token_type is Data {
        data_from(tokens@, start + 1, source@, float_bits@, empty)
    } else {
        (empty, start as int)
    };
    if i < tokens.len() && match tokens[i].token_type {
        TokenType::Data => true,
        _ => false,
    } {
        i = i + 1;
        assert(memory@ =~= Seq::<u8>::empty());
        assert(constants@ =~= Seq::<u8>::empty());
        while i < tokens.len() && is_constant(&tokens[i])
            invariant
                start < i <= tokens@.len(),
                float_bits@.len() == tokens@.len(),
                strings_within(tokens@, source@.len()),
                capacities_fit(tokens@),
                next_address <= memory@.len(),
                section == data_from(tokens@, i as int, source@, float_bits@, (memory@, constants@, next_address as nat)),
            decreases tokens@.len() - i,
        {
            let token = tokens[i];
            let ghost k = i as int;
            assert(tokens@[k] == token);
            match token.token_type {
                TokenType::Constant(constant) => {
                    next_address = push_constant(&mut memory, &mut constants, next_address, constant, source, float_bits[i]);
                },
                _ => {},
            }
            i = i + 1;
        }
    }
    constants.push(4);
    push_le_bytes(&mut constants, next_address as u64);
    push_range(&mut memory, file_name, 0, file_name.len());
    proof {
        assert(file_name@.subrange(0, file_name@.len() as int) =~= file_name@);
    }
    (memory, constants, i)
}

/// The opcode of the instruction named `name`.
pub open spec fn opcode_of(name: Seq<char>) -> Option<u8> {
    if name == "RETURN"@ {
        Some(0u8)
    } else if name == "CONSTANT"@ {
        Some(1u8)
    } else if name == "PLUS"@ {
        Some(2u8)
    } else if name == "MINUS"@ {
        Some(3u8)
    } else if name == "MULT"@ {
        Some(4u8)
    } else if name == "DIV"@ {
        Some(5u8)
    } else if name == "NIL"@ {
        Some(6u8)
    } else if name == "TRUE"@ {
        Some(7u8)
    } else if name == "FALSE"@ {
        Some(8u8)
    } else if name == "NOT"@ {
        Some(9u8)
    } else if name == "EQUAL"@ {
        Some(10u8)
    } else if name == "NOT_EQUAL"@ {
        Some(11u8)
    } else if name == "GREATER"@ {
        Some(12u8)
    } else if name == "GREATER_EQUAL"@ {
        Some(13u8)
    } else if name == "LESS"@ {
        Some(14u8)
    } else if name == "LESS_EQUAL"@ {
        Some(15u8)
    } else if name == "STRING_CONCAT"@ {
        Some(16u8)
    } else if name == "SYSCALL"@ {
        Some(17u8)
    } else if name == "GET_GLOBAL"@ {
        Some(18u8)
    } else if name == "SET_GLOBAL"@ {
        Some(19u8)
    } else if name == "GET_LOCAL"@ {
        Some(20u8)
    } else if name == "SET_LOCAL"@ {
        Some(21u8)
    } else if name == "JMP_IF_FALSE"@ {
        Some(22u8)
    } else if name == "JMP"@ {
        Some(23u8)
    } else if name == "LOOP"@ {
        Some(24u8)
    } else if name == "CALL"@ {
        Some(25u8)
    } else if name == "ARRAY_ALLOC"@ {
        Some(26u8)
    } else if name == "ARRAY_GET"@ {
        Some(27u8)
    } else if name == "ARRAY_SET"@ {
        Some(28u8)
    } else if name == "OBJECT_ALLOC"@ {
        Some(29u8)
    } else if name == "OBJECT_GET"@ {
        Some(30u8)
    } else if name == "OBJECT_SET"@ {
        Some(31u8)
    } else if name == "AND"@ {
        Some(32u8)
    } else if name == "OR"@ {
        Some(33u8)
    } else if name == "ABS"@ {
        Some(34u8)
    } else if name == "NOOP"@ {
        Some(255u8)
    } else {
        None
    }
}

/// The opcode of the instruction named `name`.
fn opcode_for(name: &String) -> (r: Option<u8>)
    ensures
        r == opcode_of(name@),
{
    if is_word(name, "RETURN") {
        Some(0)
    } else if is_word(name, "CONSTANT") {
        Some(1)
    } else if is_word(name, "PLUS") {
        Some(2)
    } else if is_word(name, "MINUS") {
        Some(3)
    } else if is_word(name, "MULT") {
        Some(4)
    } else if is_word(name, "DIV") {
        Some(5)
    } else if is_word(name, "NIL") {
        Some(6)
    } else if is_word(name, "TRUE") {
        Some(7)
    } else if is_word(name, "FALSE") {
        Some(8)
    } else if is_word(name, "NOT") {
        Some(9)
    } else if is_word(name, "EQUAL") {
        Some(10)
    } else if is_word(name, "NOT_EQUAL") {
        Some(11)
    } else if is_word(name, "GREATER") {
        Some(12)
    } else if is_word(name, "GREATER_EQUAL") {
        Some(13)
    } else if is_word(name, "LESS") {
        Some(14)
    } else if is_word(name, "LESS_EQUAL") {
        Some(15)
    } else if is_word(name, "STRING_CONCAT") {
        Some(16)
    } else if is_word(name, "SYSCALL") {
        Some(17)
    } else if is_word(name, "GET_GLOBAL") {
        Some(18)
    } else if is_word(name, "SET_GLOBAL") {
        Some(19)
    } else if is_word(name, "GET_LOCAL") {
        Some(20)
    } else if is_word(name, "SET_LOCAL") {
        Some(21)
    } else if is_word(name, "JMP_IF_FALSE") {
        Some(22)
    } else if is_word(name, "JMP") {
        Some(23)
    } else if is_word(name, "LOOP") {
        Some(24)
    } else if is_word(name, "CALL") {
        Some(25)
    } else if is_word(name, "ARRAY_ALLOC") {
        Some(26)
    } else if is_word(name, "ARRAY_GET") {
        Some(27)
    } else if is_word(name, "ARRAY_SET") {
        Some(28)
    } else if is_word(name, "OBJECT_ALLOC") {
        Some(29)
    } else if is_word(name, "OBJECT_GET") {
        Some(30)
    } else if is_word(name, "OBJECT_SET") {
        Some(31)
    } else if is_word(name, "AND") {
        Some(32)
    } else if is_word(name, "OR") {
        Some(33)
    } else if is_word(name, "ABS") {
        Some(34)
    } else if is_word(name, "NOOP") {
        Some(255)
    } else {
        None
    }
}

/// The bytecode and the source lines of the instructions from token `i`
/// on, after `upcodes` and `locations`: each instruction is its opcode,
/// the number that follows it if any, and the index of its line among the
/// lines recorded so far (a line is recorded when it differs from the
/// last one). `None` where a token is not an instruction or names none.
pub open spec fn code_from(
    tokens: Seq<Token>,
    i: int,
    source: Seq<u8>,
    upcodes: Seq<u8>,
    locations: Seq<usize>,
) -> Option<(Seq<u8>, Seq<usize>)>
    decreases tokens.len() - i,
{
    if i < 0 || i >= tokens.len() {
        Some((upcodes, locations))
    } else {
        match tokens[i].token_type {
            TokenType::Instruction { start, end } => match text_at(source, start as int, end as int) {
                Some(name) => match opcode_of(name) {
                    Some(code) => {
                        let (operand, next) = if i + 1 < tokens.len() {
                            match tokens[i + 1].token_type {
                                TokenType::Number(n) => (le_bytes(n as u64), i + 2),
                                _ => (Seq::<u8>::empty(), i + 1),
                            }
                        } else {
                            (Seq::<u8>::empty(), i + 1)
                        };
                        let line = tokens[i].location;
                        let lines = if locations.len() > 0 && locations.last() == line {
                            locations
                        } else {
                            locations.push(line)
                        };
                        code_from(
                            tokens,
                            next,
                            source,
                            upcodes + seq![code] + operand + le_bytes((lines.len() - 1) as u64),
                            lines,
                        )
                    },
                    None => None,
                },
                None => None,
            },
            _ => None,
        }
    }
}

/// The bytecode and the source lines of the code section that may start
/// at token `start`: `.code` and every token after it. Without one there
/// is no code.
pub open spec fn code_section(tokens: Seq<Token>, start: int, source: Seq<u8>) -> Option<(Seq<u8>, Seq<usize>)> {
    if 0 <= start < tokens.len() && tokens[start].token_type is Code {
        code_from(tokens, start + 1, source, Seq::empty(), Seq::empty())
    } else {
        Some((Seq::empty(), Seq::empty()))
    }
}

/// Reads the code section that may start at token `start`; `None` where
/// a token in it is not a known instruction (or its operand).
pub fn parse_instructions(tokens: &[Token], start: usize, source: &[u8]) -> (r: Option<(Vec<u8>, Vec<usize>)>)
    ensures
        match code_section(tokens@, start as int, source@) {
            Some((upcodes, locations)) => r matches Some((u, l)) && u@ == upcodes && l@ == locations,
            None => r is None,
        },
{
    let mut upcodes: Vec<u8> = Vec::new();
    let mut locations: Vec<usize> = Vec::new();
    if !(start < tokens.len() && match tokens[start].token_type {
        TokenType::Code => true,
        _ => false,
    }) {
        return Some((upcodes, locations));
    }
    let mut i: usize = start + 1;
    let ghost section = code_section(tokens@, start as int, source@);
    assert(upcodes@ =~= Seq::<u8>::empty());
    assert(locations@ =~= Seq::<usize>::empty());
    while i < tokens.len()
        invariant
            start < i <= tokens@.len(),
            locations@.len() <= i - start,
            section == code_from(tokens@, i as int, source@, upcodes@, locations@),
            section == code_section(tokens@, start as int, source@),
        decreases tokens@.len() - i,
    {
        let token = tokens[i];
        assert(tokens@[i as int] == token);
        let (text_start, text_end) = match token.token_type {
            TokenType::Instruction { start, end } => (start, end),
            _ => return None,
        };
        let name = match text_slice(source, text_start, text_end) {
            Some(text) => String::from_str(text),
            None => return None,
        };
        let code = match opcode_for(&name) {
            Some(code) => code,
            None => return None,
        };
        let ghost before = upcodes@;
        let ghost before_lines = locations@;
        let ghost mut operand = Seq::<u8>::empty();
        upcodes.push(code);
        let mut next = i + 1;
        if i + 1 < tokens.len() {
            match tokens[i + 1].token_type {
                TokenType::Number(n) => {
                    push_le_bytes(&mut upcodes, n as u64);
                    proof {
                        operand = le_bytes(n as u64);
                    }
                    next = i + 2;
                },
                _ => {},
            }
        }
        let record = match locations.last() {
            Some(last) => *last != token.location,
            None => true,
        };
        if record {
            locations.push(token.location);
        }
        assert(locations@ == if before_lines.len() > 0 && before_lines.last() == token.location {
            before_lines
        } else {
            before_lines.push(token.location)
        });
        push_le_bytes(&mut upcodes, (locations.len() - 1) as u64);
        assert(upcodes@ =~= before + seq![code] + operand + le_bytes((locations@.len() - 1) as u64));
        i = next;
    }
    Some((upcodes, locations))
}

/// One entry per recorded line: the address of the file name, always 0,
/// and the line.
pub open spec fn location_entries(locations: Seq<usize>) -> Seq<u8>
    decreases locations.len(),
{
    if locations.len() == 0 {
        Seq::empty()
    } else {
        location_entries(locations.drop_last()) + le_bytes(0) + le_bytes(locations.last() as u64)
    }
}

/// The assembled program: the lengths of the constant table, of the memory
/// and of the line table, then the constant table, the memory, the line
/// table and the bytecode.
pub open spec fn program_image(memory: Seq<u8>, constants: Seq<u8>, locations: Seq<usize>, upcodes: Seq<u8>) -> Seq<u8> {
    le_bytes(constants.len() as u64) + le_bytes(memory.len() as u64) + le_bytes(locations.len() as u64)
        + constants + memory + location_entries(locations) + upcodes
}

/// The program that `tokens` of `source` assemble to, or `None` where the
/// code section holds something other than instructions.
pub open spec fn assembled(tokens: Seq<Token>, source: Seq<u8>, file_name: Seq<u8>, float_bits: Seq<u32>) -> Option<Seq<u8>> {
    let (memory, constants, next) = constants_image(tokens, 0, source, float_bits, file_name);
    match code_section(tokens, next, source) {
        Some((upcodes, locations)) => Some(program_image(memory, constants, locations, upcodes)),
        None => None,
    }
}

/// Lays out an assembled program.
pub fn write_program(memory: &[u8], constants: &[u8], locations: &[usize], upcodes: &[u8]) -> (r: Vec<u8>)
    ensures
        r@ == program_image(memory@, constants@, locations@, upcodes@),
{
    let mut output: Vec<u8> = Vec::new();
    push_le_bytes(&mut output, constants.len() as u64);
    push_le_bytes(&mut output, memory.len() as u64);
    push_le_bytes(&mut output, locations.len() as u64);
    push_range(&mut output, constants, 0, constants.len());
    push_range(&mut output, memory, 0, memory.len());
    let ghost header = output@;
    let mut k: usize = 0;
    assert(output@ =~= header + location_entries(locations@.subrange(0, 0)));
    while k < locations.len()
        invariant
            k <= locations@.len(),
            output@ == header + location_entries(locations@.subrange(0, k as int)),
        decreases locations@.len() - k,
    {
        push_le_bytes(&mut output, 0);
        push_le_bytes(&mut output, locations[k] as u64);
        proof {
            let next = locations@.subrange(0, k + 1);
            assert(next.drop_last() =~= locations@.subrange(0, k as int));
            assert(next.last() == locations@[k as int]);
        }
        k = k + 1;
        assert(output@ =~= header + location_entries(locations@.subrange(0, k as int)));
    }
    push_range(&mut output, upcodes, 0, upcodes.len());
    proof {
        assert(locations@.subrange(0, locations@.len() as int) =~= locations@);
        assert(constants@.subrange(0, constants@.len() as int) =~= constants@);
        assert(memory@.subrange(0, memory@.len() as int) =~= memory@);
        assert(upcodes@.subrange(0, upcodes@.len() as int) =~= upcodes@);
        assert(output@ =~= program_image(memory@, constants@, locations@, upcodes@));
    }
    output
}

/// Assembles the tokens of `source`: the data section, then the code
/// section, laid out as a program. `float_bits[i]` is the bit pattern of
/// the float that token `i` holds, where it holds one.
pub fn assemble(tokens: &[Token], source: &[u8], file_name: &[u8], float_bits: &[u32]) -> (r: Option<Vec<u8>>)
    requires
        float_bits@.len() == tokens@.len(),
        strings_within(tokens@, source@.len()),
        capacities_fit(tokens@),
    ensures
        match assembled(tokens@, source@, file_name@, float_bits@) {
            Some(program) => r matches Some(v) && v@ == program,
            None => r is None,
        },
{
    let (memory, constants, next) = parse_constants(tokens, 0, source, file_name, float_bits);
    match parse_instructions(tokens, next, source) {
        Some((upcodes, locations)) => Some(
            write_program(memory.as_slice(), constants.as_slice(), locations.as_slice(), upcodes.as_slice()),
        ),
        None => None,
    }
}

/// Whether a string token lies within a source of `length` bytes and an
/// array or object token's space can be counted.
pub open spec fn token_fits(token: Token, length: nat) -> bool {
    match token.token_type {
        TokenType::Constant(Constant::String { start, end }) => start <= end <= length,
        TokenType::Constant(Constant::Array { capacity }) => VALUE_SIZE * capacity <= usize::MAX,
        TokenType::Constant(Constant::Object { capacity }) => (USIZE_SIZE + VALUE_SIZE) * capacity <= usize::MAX,
        _ => true,
    }
}

fn fits(token: &Token, length: usize) -> (r: bool)
    ensures
        r == token_fits(*token, length as nat),
{
    match token.token_type {
        TokenType::Constant(Constant::String { start, end }) => start <= end && end <= length,
        TokenType::Constant(Constant::Array { capacity }) => capacity <= usize::MAX / VALUE_SIZE,
        TokenType::Constant(Constant::Object { capacity }) => capacity <= usize::MAX / (USIZE_SIZE + VALUE_SIZE),
        _ => true,
    }
}

/// Whether `tokens` can be assembled against a source of `length` bytes:
/// strings lie within it and no reserved space overflows a `usize`.
pub fn can_assemble(tokens: &[Token], length: usize) -> (r: bool)
    ensures
        r == (strings_within(tokens@, length as nat) && capacities_fit(tokens@)),
{
    let mut k: usize = 0;
    while k < tokens.len()
        invariant
            k <= tokens@.len(),
            forall|i: int| 0 <= i < k ==> token_fits(#[trigger] tokens@[i], length as nat),
        decreases tokens@.len() - k,
    {
        if !fits(&tokens[k], length) {
            assert(!token_fits(tokens@[k as int], length as nat));
            return false;
        }
        k = k + 1;
    }
    assert forall|i: int| 0 <= i < tokens@.len() implies token_fits(#[trigger] tokens@[i], length as nat) by {}
    true
}

/// Every string constant that the lexer reads lies within the source.
pub proof fn lemma_lexed_strings_within(chars: Seq<char>, bytes: Seq<u8>, index: int, line: int)
    requires
        lex_from(chars, bytes, index, line) is Some,
        bytes.len() <= usize::MAX,
    ensures
        strings_within(lex_from(chars, bytes, index, line)->0, bytes.len()),
    decreases chars.len() - index,
{
    if 0 <= index < chars.len() {
        let c = chars[index];
        if c != '.' && whitespace_property(c) {
            lemma_lexed_strings_within(chars, bytes, index + 1, if c == '\n' { line + 1 } else { line });
        } else {
            lemma_steps_advance(chars, bytes, index, line);
            let step = if c == '.' {
                section_step(chars, bytes, index, line)
            } else {
                keyword_step(chars, bytes, index, line)
            };
            let (token, next) = step->0;
            lemma_lexed_strings_within(chars, bytes, next, line);
            let rest = lex_from(chars, bytes, next, line)->0;
            let all = seq![token] + rest;
            assert(token_fits_string(token, bytes.len()));
            assert forall|i: int| 0 <= i < all.len() implies match #[trigger] all[i].token_type {
                TokenType::Constant(Constant::String { start, end }) => start <= end <= bytes.len(),
                _ => true,
            } by {
                if i > 0 {
                    assert(all[i] == rest[i - 1]);
                }
            }
        }
    } else {
        assert(strings_within(Seq::<Token>::empty(), bytes.len()));
    }
}

/// Whether `token`, where it is a string constant, lies within a source
/// of `length` bytes.
pub open spec fn token_fits_string(token: Token, length: nat) -> bool {
    match token.token_type {
        TokenType::Constant(Constant::String { start, end }) => start <= end <= length,
        _ => true,
    }
}


/// The assembler writes for each instruction name the opcode that the
/// bytecode reader takes for the same instruction: the instruction that
/// the opcode is read back as prints as that name (followed by its operand,
/// shown as 0, where it takes one).
pub proof fn lemma_opcodes_read_back_as_their_names(name: Seq<char>)
    ensures
        opcode_of(name) matches Some(code) ==> ({
            let text = instruction_text(type_of_opcode(code, 0));
            text == name || text == name + " "@ + decimal_text(0)
        }),
{
    reveal_strlit("CONSTANT");
    reveal_strlit("CONSTANT ");
    reveal_strlit("GET_GLOBAL");
    reveal_strlit("GET_GLOBAL ");
    reveal_strlit("SET_GLOBAL");
    reveal_strlit("SET_GLOBAL ");
    reveal_strlit("GET_LOCAL");
    reveal_strlit("GET_LOCAL ");
    reveal_strlit("SET_LOCAL");
    reveal_strlit("SET_LOCAL ");
    reveal_strlit("JMP_IF_FALSE");
    reveal_strlit("JMP_IF_FALSE ");
    reveal_strlit("JMP");
    reveal_strlit("JMP ");
    reveal_strlit("LOOP");
    reveal_strlit("LOOP ");
    reveal_strlit(" ");
    assert("CONSTANT "@ =~= "CONSTANT"@ + " "@);
    assert("GET_GLOBAL "@ =~= "GET_GLOBAL"@ + " "@);
    assert("SET_GLOBAL "@ =~= "SET_GLOBAL"@ + " "@);
    assert("GET_LOCAL "@ =~= "GET_LOCAL"@ + " "@);
    assert("SET_LOCAL "@ =~= "SET_LOCAL"@ + " "@);
    assert("JMP_IF_FALSE "@ =~= "JMP_IF_FALSE"@ + " "@);
    assert("JMP "@ =~= "JMP"@ + " "@);
    assert("LOOP "@ =~= "LOOP"@ + " "@);
}


/// The assembler knows every opcode of the bytecode reader from 0 to 34,
/// and 255: the name the reader prints for the opcode (without its
/// operand) assembles back to that opcode.
pub proof fn lemma_names_assemble_to_their_opcodes(code: u8)
    requires
        code <= 34 || code == 255,
    ensures
        ({
            let text = instruction_text(type_of_opcode(code, 0));
            ||| opcode_of(text) == Some(code)
            ||| text.len() >= 2 && opcode_of(text.subrange(0, text.len() - 2)) == Some(code)
        }),
{
    reveal_strlit("RETURN");
    reveal_strlit("CONSTANT");
    reveal_strlit("PLUS");
    reveal_strlit("MINUS");
    reveal_strlit("MULT");
    reveal_strlit("DIV");
    reveal_strlit("NIL");
    reveal_strlit("TRUE");
    reveal_strlit("FALSE");
    reveal_strlit("NOT");
    reveal_strlit("EQUAL");
    reveal_strlit("NOT_EQUAL");
    reveal_strlit("GREATER");
    reveal_strlit("GREATER_EQUAL");
    reveal_strlit("LESS");
    reveal_strlit("LESS_EQUAL");
    reveal_strlit("STRING_CONCAT");
    reveal_strlit("SYSCALL");
    reveal_strlit("GET_GLOBAL");
    reveal_strlit("SET_GLOBAL");
    reveal_strlit("GET_LOCAL");
    reveal_strlit("SET_LOCAL");
    reveal_strlit("JMP_IF_FALSE");
    reveal_strlit("JMP");
    reveal_strlit("LOOP");
    reveal_strlit("CALL");
    reveal_strlit("ARRAY_ALLOC");
    reveal_strlit("ARRAY_GET");
    reveal_strlit("ARRAY_SET");
    reveal_strlit("OBJECT_ALLOC");
    reveal_strlit("OBJECT_GET");
    reveal_strlit("OBJECT_SET");
    reveal_strlit("AND");
    reveal_strlit("OR");
    reveal_strlit("ABS");
    reveal_strlit("NOOP");
    reveal_strlit("CONSTANT ");
    reveal_strlit("GET_GLOBAL ");
    reveal_strlit("SET_GLOBAL ");
    reveal_strlit("GET_LOCAL ");
    reveal_strlit("SET_LOCAL ");
    reveal_strlit("JMP_IF_FALSE ");
    reveal_strlit("JMP ");
    reveal_strlit("LOOP ");
    reveal_strlit("0");
    let text = instruction_text(type_of_opcode(code, 0));
    assert(decimal_text(0) == "0"@);
    if code == 0 {
        assert(text == "RETURN"@);
        assert(opcode_of("RETURN"@) == Some(0u8));
    } else if code == 1 {
        assert(text =~= "CONSTANT "@ + "0"@);
        assert(text.subrange(0, 8) =~= "CONSTANT"@);
        assert(opcode_of("CONSTANT"@) == Some(1u8));
    } else if code == 2 {
        assert(text == "PLUS"@);
        assert(opcode_of("PLUS"@) == Some(2u8));
    } else if code == 3 {
        assert(text == "MINUS"@);
        assert(opcode_of("MINUS"@) == Some(3u8));
    } else if code == 4 {
        assert(text == "MULT"@);
        assert("MULT"@[0] != "PLUS"@[0]);
        assert(opcode_of("MULT"@) == Some(4u8));
    } else if code == 5 {
        assert(text == "DIV"@);
        assert(opcode_of("DIV"@) == Some(5u8));
    } else if code == 6 {
        assert(text == "NIL"@);
        assert("NIL"@[0] != "DIV"@[0]);
        assert(opcode_of("NIL"@) == Some(6u8));
    } else if code == 7 {
        assert(text == "TRUE"@);
        assert("TRUE"@[0] != "PLUS"@[0]);
        assert("TRUE"@[0] != "MULT"@[0]);
        assert(opcode_of("TRUE"@) == Some(7u8));
    } else if code == 8 {
        assert(text == "FALSE"@);
        assert("FALSE"@[0] != "MINUS"@[0]);
        assert(opcode_of("FALSE"@) == Some(8u8));
    } else if code == 9 {
        assert(text == "NOT"@);
        assert("NOT"@[0] != "DIV"@[0]);
        assert("NOT"@[1] != "NIL"@[1]);
        assert(opcode_of("NOT"@) == Some(9u8));
    } else if code == 10 {
        assert(text == "EQUAL"@);
        assert("EQUAL"@[0] != "MINUS"@[0]);
        assert("EQUAL"@[0] != "FALSE"@[0]);
        assert(opcode_of("EQUAL"@) == Some(10u8));
    } else if code == 11 {
        assert(text == "NOT_EQUAL"@);
        assert(opcode_of("NOT_EQUAL"@) == Some(11u8));
    } else if code == 12 {
        assert(text == "GREATER"@);
        assert(opcode_of("GREATER"@) == Some(12u8));
    } else if code == 13 {
        assert(text == "GREATER_EQUAL"@);
        assert(opcode_of("GREATER_EQUAL"@) == Some(13u8));
    } else if code == 14 {
        assert(text == "LESS"@);
        assert("LESS"@[0] != "PLUS"@[0]);
        assert("LESS"@[0] != "MULT"@[0]);
        assert("LESS"@[0] != "TRUE"@[0]);
        assert(opcode_of("LESS"@) == Some(14u8));
    } else if code == 15 {
        assert(text == "LESS_EQUAL"@);
        assert(opcode_of("LESS_EQUAL"@) == Some(15u8));
    } else if code == 16 {
        assert(text == "STRING_CONCAT"@);
        assert("STRING_CONCAT"@[0] != "GREATER_EQUAL"@[0]);
        assert(opcode_of("STRING_CONCAT"@) == Some(16u8));
    } else if code == 17 {
        assert(text == "SYSCALL"@);
        assert("SYSCALL"@[0] != "GREATER"@[0]);
        assert(opcode_of("SYSCALL"@) == Some(17u8));
    } else if code == 18 {
        assert(text =~= "GET_GLOBAL "@ + "0"@);
        assert(text.subrange(0, 10) =~= "GET_GLOBAL"@);
        assert("GET_GLOBAL"@[0] != "LESS_EQUAL"@[0]);
        assert(opcode_of("GET_GLOBAL"@) == Some(18u8));
    } else if code == 19 {
        assert(text =~= "SET_GLOBAL "@ + "0"@);
        assert(text.subrange(0, 10) =~= "SET_GLOBAL"@);
        assert("SET_GLOBAL"@[0] != "LESS_EQUAL"@[0]);
        assert("SET_GLOBAL"@[0] != "GET_GLOBAL"@[0]);
        assert(opcode_of("SET_GLOBAL"@) == Some(19u8));
    } else if code == 20 {
        assert(text =~= "GET_LOCAL "@ + "0"@);
        assert(text.subrange(0, 9) =~= "GET_LOCAL"@);
        assert("GET_LOCAL"@[0] != "NOT_EQUAL"@[0]);
        assert(opcode_of("GET_LOCAL"@) == Some(20u8));
    } else if code == 21 {
        assert(text =~= "SET_LOCAL "@ + "0"@);
        assert(text.subrange(0, 9) =~= "SET_LOCAL"@);
        assert("SET_LOCAL"@[0] != "NOT_EQUAL"@[0]);
        assert("SET_LOCAL"@[0] != "GET_LOCAL"@[0]);
        assert(opcode_of("SET_LOCAL"@) == Some(21u8));
    } else if code == 22 {
        assert(text =~= "JMP_IF_FALSE "@ + "0"@);
        assert(text.subrange(0, 12) =~= "JMP_IF_FALSE"@);
        assert(opcode_of("JMP_IF_FALSE"@) == Some(22u8));
    } else if code == 23 {
        assert(text =~= "JMP "@ + "0"@);
        assert(text.subrange(0, 3) =~= "JMP"@);
        assert("JMP"@[0] != "DIV"@[0]);
        assert("JMP"@[0] != "NIL"@[0]);
        assert("JMP"@[0] != "NOT"@[0]);
        assert(opcode_of("JMP"@) == Some(23u8));
    } else if code == 24 {
        assert(text =~= "LOOP "@ + "0"@);
        assert(text.subrange(0, 4) =~= "LOOP"@);
        assert("LOOP"@[0] != "PLUS"@[0]);
        assert("LOOP"@[0] != "MULT"@[0]);
        assert("LOOP"@[0] != "TRUE"@[0]);
        assert("LOOP"@[1] != "LESS"@[1]);
        assert(opcode_of("LOOP"@) == Some(24u8));
    } else if code == 25 {
        assert(text == "CALL"@);
        assert("CALL"@[0] != "PLUS"@[0]);
        assert("CALL"@[0] != "MULT"@[0]);
        assert("CALL"@[0] != "TRUE"@[0]);
        assert("CALL"@[0] != "LESS"@[0]);
        assert("CALL"@[0] != "LOOP"@[0]);
        assert(opcode_of("CALL"@) == Some(25u8));
    } else if code == 26 {
        assert(text == "ARRAY_ALLOC"@);
        assert(opcode_of("ARRAY_ALLOC"@) == Some(26u8));
    } else if code == 27 {
        assert(text == "ARRAY_GET"@);
        assert("ARRAY_GET"@[0] != "NOT_EQUAL"@[0]);
        assert("ARRAY_GET"@[0] != "GET_LOCAL"@[0]);
        assert("ARRAY_GET"@[0] != "SET_LOCAL"@[0]);
        assert(opcode_of("ARRAY_GET"@) == Some(27u8));
    } else if code == 28 {
        assert(text == "ARRAY_SET"@);
        assert("ARRAY_SET"@[0] != "NOT_EQUAL"@[0]);
        assert("ARRAY_SET"@[0] != "GET_LOCAL"@[0]);
        assert("ARRAY_SET"@[0] != "SET_LOCAL"@[0]);
        assert("ARRAY_SET"@[6] != "ARRAY_GET"@[6]);
        assert(opcode_of("ARRAY_SET"@) == Some(28u8));
    } else if code == 29 {
        assert(text == "OBJECT_ALLOC"@);
        assert("OBJECT_ALLOC"@[0] != "JMP_IF_FALSE"@[0]);
        assert(opcode_of("OBJECT_ALLOC"@) == Some(29u8));
    } else if code == 30 {
        assert(text == "OBJECT_GET"@);
        assert("OBJECT_GET"@[0] != "LESS_EQUAL"@[0]);
        assert("OBJECT_GET"@[0] != "GET_GLOBAL"@[0]);
        assert("OBJECT_GET"@[0] != "SET_GLOBAL"@[0]);
        assert(opcode_of("OBJECT_GET"@) == Some(30u8));
    } else if code == 31 {
        assert(text == "OBJECT_SET"@);
        assert("OBJECT_SET"@[0] != "LESS_EQUAL"@[0]);
        assert("OBJECT_SET"@[0] != "GET_GLOBAL"@[0]);
        assert("OBJECT_SET"@[0] != "SET_GLOBAL"@[0]);
        assert("OBJECT_SET"@[7] != "OBJECT_GET"@[7]);
        assert(opcode_of("OBJECT_SET"@) == Some(31u8));
    } else if code == 32 {
        assert(text == "AND"@);
        assert("AND"@[0] != "DIV"@[0]);
        assert("AND"@[0] != "NIL"@[0]);
        assert("AND"@[0] != "NOT"@[0]);
        assert("AND"@[0] != "JMP"@[0]);
        assert(opcode_of("AND"@) == Some(32u8));
    } else if code == 33 {
        assert(text == "OR"@);
        assert(opcode_of("OR"@) == Some(33u8));
    } else if code == 34 {
        assert(text == "ABS"@);
        assert("ABS"@[0] != "DIV"@[0]);
        assert("ABS"@[0] != "NIL"@[0]);
        assert("ABS"@[0] != "NOT"@[0]);
        assert("ABS"@[0] != "JMP"@[0]);
        assert("ABS"@[1] != "AND"@[1]);
        assert(opcode_of("ABS"@) == Some(34u8));
    } else if code == 255 {
        assert(text == "NOOP"@);
        assert("NOOP"@[0] != "PLUS"@[0]);
        assert("NOOP"@[0] != "MULT"@[0]);
        assert("NOOP"@[0] != "TRUE"@[0]);
        assert("NOOP"@[0] != "LESS"@[0]);
        assert("NOOP"@[0] != "LOOP"@[0]);
        assert("NOOP"@[0] != "CALL"@[0]);
        assert(opcode_of("NOOP"@) == Some(255u8));
    }
}

} // verus!
