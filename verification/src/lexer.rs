use vstd::prelude::*;

verus! {

use vstd::string::{StrSliceExecFns, StringExecFns};

#[derive(Clone, Copy, Debug, PartialEq, Eq, Structural)]
pub enum TokenType {
    Plus,
    Minus,
    Star,
    Slash,
    LeftParen,
    RightParen,
    Number,
    Print,
    Var,
    Colon,
    Equal,
    EqualEqual,
    Identifier,
    Newline,
}

#[derive(Clone, Debug)]
pub struct Token {
    pub type_: TokenType,
    pub string: String,
}

impl Token {
    pub fn new(type_: TokenType, string: String) -> (t: Token)
        ensures
            t.type_ == type_,
            t.string@ == string@,
    {
        Token { type_, string }
    }

    pub fn from_type(type_: TokenType) -> (t: Token)
        ensures
            t.type_ == type_,
            t.string@ == Seq::<char>::empty(),
    {
        Token { type_, string: String::new() }
    }
}

/// A decimal digit.
pub open spec fn spec_is_digit(c: char) -> bool {
    48 <= c as u32 <= 57
}

/// A character that may continue a scanned number: a digit or the decimal
/// point.
pub open spec fn spec_is_num_char(c: char) -> bool {
    spec_is_digit(c) || c == '.'
}

/// A character that may start an identifier: a basic Latin letter or a
/// letter of the Georgian alphabet, in which the language's keywords are
/// written.
pub open spec fn spec_is_alpha(c: char) -> bool {
    (97 <= c as u32 <= 122) || (65 <= c as u32 <= 90) || (4304 <= c as u32 <= 4336)
}

/// How many decimal points a scanned text holds.
pub open spec fn dot_count(s: Seq<char>) -> nat
    decreases s.len(),
{
    if s.len() == 0 {
        0
    } else {
        dot_count(s.drop_last()) + if s.last() == '.' {
            1nat
        } else {
            0nat
        }
    }
}

pub proof fn lemma_dot_count_push(s: Seq<char>, c: char)
    ensures
        dot_count(s.push(c)) == dot_count(s) + if c == '.' {
            1nat
        } else {
            0nat
        },
{
    assert(s.push(c).drop_last() =~= s);
    assert(s.push(c).last() == c);
}

/// A valid number literal as the scanner accepts it: nonempty, opened by a
/// digit, made of digits and at most one decimal point. (A maximal run of
/// digits and points with two or more points is rejected as a malformed
/// number.)
pub open spec fn num_lit_wf(s: Seq<char>) -> bool {
    &&& s.len() > 0
    &&& spec_is_digit(s[0])
    &&& forall|q: int| 0 <= q < s.len() ==> spec_is_num_char(#[trigger] s[q])
    &&& dot_count(s) <= 1
}

/// What tokenization guarantees of each token it yields: a number token's
/// text is a well-formed number literal.
pub open spec fn token_wf(t: Token) -> bool {
    t.type_ == TokenType::Number ==> num_lit_wf(t.string@)
}

/// A blank character the scanner skips without producing a token.
pub open spec fn spec_is_blank(c: char) -> bool {
    c == ' ' || c == '\r' || c == '\t'
}

/// A character on which scanning can never fail: a digit, one of the
/// single-character tokens, a newline or a blank. Text made only of these
/// always tokenizes.
pub open spec fn spec_is_plain_char(c: char) -> bool {
    ||| spec_is_digit(c)
    ||| c == '+'
    ||| c == '-'
    ||| c == '*'
    ||| c == '/'
    ||| c == '('
    ||| c == ')'
    ||| c == ':'
    ||| c == '\n'
    ||| spec_is_blank(c)
}

pub proof fn lemma_dot_count_zero(s: Seq<char>)
    requires
        forall|q: int| 0 <= q < s.len() ==> s[q] != '.',
    ensures
        dot_count(s) == 0,
    decreases s.len(),
{
    if s.len() > 0 {
        lemma_dot_count_zero(s.drop_last());
    }
}

fn is_digit_char(c: char) -> (r: bool)
    ensures
        r == spec_is_digit(c),
{
    let u = c as u32;
    48 <= u && u <= 57
}

fn is_num_char(c: char) -> (r: bool)
    ensures
        r == spec_is_num_char(c),
{
    is_digit_char(c) || c == '.'
}

fn is_alpha_char(c: char) -> (r: bool)
    ensures
        r == spec_is_alpha(c),
{
    let u = c as u32;
    (97 <= u && u <= 122) || (65 <= u && u <= 90) || (4304 <= u && u <= 4336)
}

fn is_alnum_char(c: char) -> (r: bool)
    ensures
        r == (spec_is_alpha(c) || spec_is_digit(c)),
{
    is_alpha_char(c) || is_digit_char(c)
}

/// Splits source text into tokens. Single-character operators, parentheses
/// and newlines become bare tokens; maximal runs of digits and points become
/// number tokens when well formed; maximal alphanumeric runs become keyword
/// or identifier tokens; blanks are skipped; anything else is an error.
pub fn tokenize(input: &str) -> (r: Result<Vec<Token>, &'static str>)
    ensures
        r is Ok ==> forall|k: int|
            0 <= k < r.unwrap()@.len() ==> token_wf(#[trigger] r.unwrap()@[k]),
        r is Ok ==> ((r.unwrap()@.len() == 0) <==> (forall|q: int|
            0 <= q < input@.len() ==> spec_is_blank(#[trigger] input@[q]))),
        (forall|q: int| 0 <= q < input@.len() ==> spec_is_plain_char(#[trigger] input@[q]))
            ==> r is Ok,
{
    let n = input.unicode_len();
    let mut tokens: Vec<Token> = Vec::new();
    let mut i: usize = 0;
    while i < n
        invariant
            n == input@.len(),
            i <= n,
            forall|k: int| 0 <= k < tokens@.len() ==> token_wf(#[trigger] tokens@[k]),
            (tokens@.len() == 0) <==> (forall|q: int|
                0 <= q < i ==> spec_is_blank(#[trigger] input@[q])),
        decreases n - i,
    {
        let c = input.get_char(i);
        if c == '+' {
            tokens.push(Token::from_type(TokenType::Plus));
            i += 1;
        } else if c == '-' {
            tokens.push(Token::from_type(TokenType::Minus));
            i += 1;
        } else if c == '*' {
            tokens.push(Token::from_type(TokenType::Star));
            i += 1;
        } else if c == '/' {
            tokens.push(Token::from_type(TokenType::Slash));
            i += 1;
        } else if c == '(' {
            tokens.push(Token::from_type(TokenType::LeftParen));
            i += 1;
        } else if c == ')' {
            tokens.push(Token::from_type(TokenType::RightParen));
            i += 1;
        } else if c == ':' {
            tokens.push(Token::from_type(TokenType::Colon));
            i += 1;
        } else if c == '=' {
            // the character after '=', if any, is always consumed with it
            if i + 1 < n {
                if input.get_char(i + 1) == '=' {
                    tokens.push(Token::from_type(TokenType::EqualEqual));
                } else {
                    tokens.push(Token::from_type(TokenType::Equal));
                }
                i += 2;
            } else {
                tokens.push(Token::from_type(TokenType::Equal));
                i = n;
            }
        } else if is_digit_char(c) {
            let start = i;
            let mut dots: usize = 0;
            i += 1;
            proof {
                assert(input@.subrange(start as int, i as int) =~= Seq::<char>::empty().push(
                    input@[start as int],
                ));
                lemma_dot_count_push(Seq::<char>::empty(), input@[start as int]);
                assert(input@[start as int] != '.');
                assert(dot_count(input@.subrange(start as int, i as int)) == 0);
            }
            while i < n && is_num_char(input.get_char(i))
                invariant
                    n == input@.len(),
                    start < i <= n,
                    spec_is_digit(input@[start as int]),
                    forall|q: int|
                        start <= q < i ==> spec_is_num_char(#[trigger] input@[q]),
                    dots == dot_count(input@.subrange(start as int, i as int)),
                    dots <= i - start,
                decreases n - i,
            {
                if input.get_char(i) == '.' {
                    dots += 1;
                }
                i += 1;
                proof {
                    assert(input@.subrange(start as int, i as int) =~= input@.subrange(
                        start as int,
                        i as int - 1,
                    ).push(input@[i as int - 1]));
                    lemma_dot_count_push(
                        input@.subrange(start as int, i as int - 1),
                        input@[i as int - 1],
                    );
                }
            }
            if dots > 1 {
                proof {
                    if forall|q: int|
                        0 <= q < input@.len() ==> spec_is_plain_char(#[trigger] input@[q]) {
                        let sub = input@.subrange(start as int, i as int);
                        assert forall|q: int| 0 <= q < sub.len() implies sub[q] != '.' by {
                            assert(sub[q] == input@[start + q]);
                            assert(spec_is_plain_char(input@[start + q]));
                        }
                        lemma_dot_count_zero(sub);
                    }
                }
                return Result::Err("invalid number format.");
            }
            let text = input.substring_char(start, i).to_owned();
            proof {
                assert(num_lit_wf(text@));
            }
            tokens.push(Token::new(TokenType::Number, text));
        } else if is_alpha_char(c) {
            let start = i;
            i += 1;
            while i < n && is_alnum_char(input.get_char(i))
                invariant
                    n == input@.len(),
                    start < i <= n,
                decreases n - i,
            {
                i += 1;
            }
            let text = input.substring_char(start, i).to_owned();
            // the print keyword, "da-be-ch'-de", in Georgian script
            let print_kw = String::from_str("\u{10D3}\u{10D0}\u{10D1}\u{10D4}\u{10ED}\u{10D3}\u{10D4}");
            // the variable keyword, "ts-v-la-di", in Georgian script
            let var_kw = String::from_str("\u{10EA}\u{10D5}\u{10DA}\u{10D0}\u{10D3}\u{10D8}");
            if text == print_kw {
                tokens.push(Token::from_type(TokenType::Print));
            } else if text == var_kw {
                tokens.push(Token::new(TokenType::Var, text));
            } else {
                tokens.push(Token::new(TokenType::Identifier, text));
            }
        } else if c == '\n' {
            tokens.push(Token::from_type(TokenType::Newline));
            i += 1;
        } else if c == ' ' || c == '\r' || c == '\t' {
            i += 1;
        } else {
            proof {
                assert(!spec_is_plain_char(input@[i as int]));
            }
            return Result::Err("invalid input.");
        }
    }
    Result::Ok(tokens)
}

} // verus!
