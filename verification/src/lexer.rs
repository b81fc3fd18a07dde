//! The lexer of the filter language: a line of text to a list of tokens.

use vstd::prelude::*;
use crate::error::LexError;
use crate::text::{
    char_is_ascii_alphabetic, char_is_ascii_digit, char_is_whitespace, digit_value,
    is_ascii_alpha, is_ascii_digit_char, is_white_space,
};

verus! {

/// Terminal symbols produced by `Lexer`.
#[derive(Debug, Clone, PartialEq)]
pub enum Token {
    /// Strictly alphabetic identifiers
    Ident(String),
    Number(u32),
    Gt,
    Ge,
    Eq,
    Ne,
    Lt,
    Le,
    Or,
    And,
    LParen,
    RParen,
}

/// A token as a mathematical value: identifiers hold their characters.
pub enum TokenModel {
    Ident(Seq<char>),
    Number(u32),
    Gt,
    Ge,
    Eq,
    Ne,
    Lt,
    Le,
    Or,
    And,
    LParen,
    RParen,
}

impl View for Token {
    type V = TokenModel;

    open spec fn view(&self) -> TokenModel {
        match self {
            Token::Ident(s) => TokenModel::Ident(s@),
            Token::Number(n) => TokenModel::Number(*n),
            Token::Gt => TokenModel::Gt,
            Token::Ge => TokenModel::Ge,
            Token::Eq => TokenModel::Eq,
            Token::Ne => TokenModel::Ne,
            Token::Lt => TokenModel::Lt,
            Token::Le => TokenModel::Le,
            Token::Or => TokenModel::Or,
            Token::And => TokenModel::And,
            Token::LParen => TokenModel::LParen,
            Token::RParen => TokenModel::RParen,
        }
    }
}

/// The models of a sequence of tokens.
pub open spec fn tokens_model(ts: Seq<Token>) -> Seq<TokenModel> {
    ts.map_values(|t: Token| t@)
}

impl Token {
    /// A copy of the token.
    pub fn duplicate(&self) -> (r: Token)
        ensures
            r@ == self@,
    {
        match self {
            Token::Ident(s) => Token::Ident(s.clone()),
            Token::Number(n) => Token::Number(*n),
            Token::Gt => Token::Gt,
            Token::Ge => Token::Ge,
            Token::Eq => Token::Eq,
            Token::Ne => Token::Ne,
            Token::Lt => Token::Lt,
            Token::Le => Token::Le,
            Token::Or => Token::Or,
            Token::And => Token::And,
            Token::LParen => Token::LParen,
            Token::RParen => Token::RParen,
        }
    }
}

/// The first index at or after `i` that does not hold white space.
pub open spec fn skip_white_space(s: Seq<char>, i: int) -> int
    decreases s.len() - i,
{
    if 0 <= i < s.len() && is_white_space(s[i]) {
        skip_white_space(s, i + 1)
    } else {
        i
    }
}

/// The end of the run of ASCII letters that starts at `i`.
pub open spec fn alpha_end(s: Seq<char>, i: int) -> int
    decreases s.len() - i,
{
    if 0 <= i < s.len() && is_ascii_alpha(s[i]) {
        alpha_end(s, i + 1)
    } else {
        i
    }
}

/// The end of the run of ASCII digits that starts at `i`.
pub open spec fn digit_end(s: Seq<char>, i: int) -> int
    decreases s.len() - i,
{
    if 0 <= i < s.len() && is_ascii_digit_char(s[i]) {
        digit_end(s, i + 1)
    } else {
        i
    }
}

/// The decimal value of the digits `s[i..k]`, modulo 2^32.
pub open spec fn digits_value(s: Seq<char>, i: int, k: int) -> u32
    decreases k - i,
{
    if k <= i {
        0
    } else {
        ((digits_value(s, i, k - 1) * 10 + digit_value(s[k - 1])) % 0x1_0000_0000) as u32
    }
}

/// The token that starts at index `j` of `s` and the index after it.
pub open spec fn token_at(s: Seq<char>, j: int) -> Result<(TokenModel, int), LexError> {
    let c = s[j];
    let next_is_eq = j + 1 < s.len() && s[j + 1] == '=';
    if is_ascii_alpha(c) {
        Ok((TokenModel::Ident(s.subrange(j, alpha_end(s, j))), alpha_end(s, j)))
    } else if is_ascii_digit_char(c) {
        Ok((TokenModel::Number(digits_value(s, j, digit_end(s, j))), digit_end(s, j)))
    } else if c == '>' {
        if next_is_eq { Ok((TokenModel::Ge, j + 2)) } else { Ok((TokenModel::Gt, j + 1)) }
    } else if c == '<' {
        if next_is_eq { Ok((TokenModel::Le, j + 2)) } else { Ok((TokenModel::Lt, j + 1)) }
    } else if c == '!' {
        if next_is_eq { Ok((TokenModel::Ne, j + 2)) } else { Err(LexError::UnexpectedChar(c)) }
    } else if c == '=' {
        Ok((TokenModel::Eq, j + 1))
    } else if c == '|' {
        Ok((TokenModel::Or, j + 1))
    } else if c == '&' {
        Ok((TokenModel::And, j + 1))
    } else if c == '(' {
        Ok((TokenModel::LParen, j + 1))
    } else if c == ')' {
        Ok((TokenModel::RParen, j + 1))
    } else {
        Err(LexError::UnexpectedChar(c))
    }
}

/// One step of the lexer from index `i`: white space is skipped, then either
/// the end is reached or one token is read.
pub open spec fn lex_step(s: Seq<char>, i: int) -> Result<Option<(TokenModel, int)>, LexError> {
    let j = skip_white_space(s, i);
    if j >= s.len() {
        Ok(None)
    } else {
        match token_at(s, j) {
            Ok((t, k)) => Ok(Some((t, k))),
            Err(e) => Err(e),
        }
    }
}

pub proof fn lemma_skip_white_space(s: Seq<char>, i: int)
    requires
        0 <= i,
    ensures
        i <= skip_white_space(s, i),
        skip_white_space(s, i) < s.len() ==> !is_white_space(s[skip_white_space(s, i)]),
        i <= s.len() ==> skip_white_space(s, i) <= s.len(),
    decreases s.len() - i,
{
    if 0 <= i < s.len() && is_white_space(s[i]) {
        lemma_skip_white_space(s, i + 1);
    }
}

pub proof fn lemma_alpha_end(s: Seq<char>, i: int)
    requires
        0 <= i <= s.len(),
    ensures
        i <= alpha_end(s, i) <= s.len(),
        forall|m: int| i <= m < alpha_end(s, i) ==> is_ascii_alpha(#[trigger] s[m]),
        alpha_end(s, i) < s.len() ==> !is_ascii_alpha(s[alpha_end(s, i)]),
    decreases s.len() - i,
{
    if i < s.len() && is_ascii_alpha(s[i]) {
        lemma_alpha_end(s, i + 1);
    }
}

pub proof fn lemma_digit_end(s: Seq<char>, i: int)
    requires
        0 <= i <= s.len(),
    ensures
        i <= digit_end(s, i) <= s.len(),
        forall|m: int| i <= m < digit_end(s, i) ==> is_ascii_digit_char(#[trigger] s[m]),
        digit_end(s, i) < s.len() ==> !is_ascii_digit_char(s[digit_end(s, i)]),
    decreases s.len() - i,
{
    if i < s.len() && is_ascii_digit_char(s[i]) {
        lemma_digit_end(s, i + 1);
    }
}

/// Every token the lexer reads ends after the index where reading started.
pub proof fn lemma_lex_step_advances(s: Seq<char>, i: int)
    requires
        0 <= i <= s.len(),
    ensures
        lex_step(s, i) matches Ok(Some((_, k))) ==> i < k <= s.len(),
{
    lemma_skip_white_space(s, i);
    let j = skip_white_space(s, i);
    if j < s.len() {
        if is_ascii_alpha(s[j]) {
            lemma_alpha_end(s, j + 1);
        } else if is_ascii_digit_char(s[j]) {
            lemma_digit_end(s, j + 1);
        }
    }
}

/// The tokens of `s` from index `i` on, or the first lexing error.
pub open spec fn lex_from(s: Seq<char>, i: int) -> Result<Seq<TokenModel>, LexError>
    decreases s.len() - i,
    when 0 <= i <= s.len()
{
    match lex_step(s, i) {
        Ok(None) => Ok(Seq::empty()),
        Ok(Some((t, k))) => {
            proof {
                lemma_lex_step_advances(s, i);
            }
            match lex_from(s, k) {
                Ok(ts) => Ok(seq![t] + ts),
                Err(e) => Err(e),
            }
        },
        Err(e) => Err(e),
    }
}

/// The tokens of a whole line, or the first lexing error.
pub open spec fn lex(s: Seq<char>) -> Result<Seq<TokenModel>, LexError> {
    lex_from(s, 0)
}

/// Tokenizes lines of the filter language.
pub struct Lexer {
    position: usize,
}

impl Lexer {
    /// The index of the character at which the next token is read.
    pub closed spec fn position_view(&self) -> usize {
        self.position
    }
}

impl Default for Lexer {
    fn default() -> (r: Self)
        ensures
            r.position_view() == 0,
    {
        Lexer { position: 0 }
    }
}

impl Lexer {
    /// Tokenizes `line`.
    pub fn process_line(&mut self, line: &str) -> (r: Result<Vec<Token>, LexError>)
        ensures
            match r {
                Ok(ts) => lex(line@) == Ok::<Seq<TokenModel>, LexError>(tokens_model(ts@)),
                Err(e) => lex(line@) == Err::<Seq<TokenModel>, LexError>(e),
            },
    {
        let n = line.unicode_len();
        // Reset position
        self.position = 0;
        let mut tokens: Vec<Token> = Vec::new();
        loop
            invariant
                n == line@.len(),
                self.position <= n,
                lex(line@) == match lex_from(line@, self.position as int) {
                    Ok(rest) => Ok(tokens_model(tokens@) + rest),
                    Err(e) => Err::<Seq<TokenModel>, LexError>(e),
                },
            decreases n - self.position,
        {
            let ghost before = self.position as int;
            proof {
                lemma_lex_step_advances(line@, before);
            }
            match self.next_token(line, n) {
                Ok(Some(token)) => {
                    let ghost t = token@;
                    let ghost prev = tokens@;
                    tokens.push(token);
                    proof {
                        assert(lex_step(line@, before) == Ok::<Option<(TokenModel, int)>, LexError>(
                            Some((t, self.position as int)),
                        ));
                        assert(lex_from(line@, before) == match lex_from(
                            line@,
                            self.position as int,
                        ) {
                            Ok(ts) => Ok(seq![t] + ts),
                            Err(e) => Err::<Seq<TokenModel>, LexError>(e),
                        });
                        assert(tokens@ == prev.push(token));
                        assert(tokens_model(tokens@) =~= tokens_model(prev).push(t));
                        match lex_from(line@, self.position as int) {
                            Ok(rest) => {
                                assert(tokens_model(tokens@) + rest =~= tokens_model(prev) + (seq![t]
                                    + rest));
                            },
                            Err(e) => {},
                        }
                    }
                },
                Ok(None) => {
                    proof {
                        assert(tokens_model(tokens@) + Seq::<TokenModel>::empty() =~= tokens_model(
                            tokens@,
                        ));
                    }
                    return Ok(tokens);
                },
                Err(e) => {
                    return Err(e);
                },
            }
        }
    }

    /// Reads the next token from the current position.
    fn next_token(&mut self, line: &str, n: usize) -> (r: Result<Option<Token>, LexError>)
        requires
            n == line@.len(),
            old(self).position <= n,
        ensures
            final(self).position <= n,
            match r {
                Ok(None) => lex_step(line@, old(self).position as int) == Ok::<
                    Option<(TokenModel, int)>,
                    LexError,
                >(None),
                Ok(Some(t)) => lex_step(line@, old(self).position as int) == Ok::<
                    Option<(TokenModel, int)>,
                    LexError,
                >(Some((t@, final(self).position as int))),
                Err(e) => lex_step(line@, old(self).position as int) == Err::<
                    Option<(TokenModel, int)>,
                    LexError,
                >(e),
            },
    {
        let ghost s = line@;
        let ghost start = self.position as int;
        proof {
            lemma_skip_white_space(s, start);
        }
        // Remove whitespace
        while self.position < n && char_is_whitespace(line.get_char(self.position))
            invariant
                n == s.len(),
                s == line@,
                start <= self.position <= n,
                skip_white_space(s, start) == skip_white_space(s, self.position as int),
            decreases n - self.position,
        {
            self.position = self.position + 1;
        }
        let j = self.position;
        proof {
            lemma_skip_white_space(s, j as int);
            assert(skip_white_space(s, j as int) == j);
        }
        // Check if end has been reached
        if self.position >= n {
            return Ok(None);
        }
        let ch = line.get_char(self.position);
        // Ident
        if char_is_ascii_alphabetic(ch) {
            let mut ident = String::new();
            proof {
                lemma_alpha_end(s, j as int);
            }
            while self.position < n && char_is_ascii_alphabetic(line.get_char(self.position))
                invariant
                    n == s.len(),
                    s == line@,
                    j <= self.position <= n,
                    alpha_end(s, j as int) == alpha_end(s, self.position as int),
                    ident@ == s.subrange(j as int, self.position as int),
                decreases n - self.position,
            {
                let c = line.get_char(self.position);
                crate::text::string_push(&mut ident, c);
                proof {
                    assert(s.subrange(j as int, self.position + 1) =~= s.subrange(
                        j as int,
                        self.position as int,
                    ).push(c));
                }
                self.position = self.position + 1;
            }
            return Ok(Some(Token::Ident(ident)));
        }
        // Number
        if char_is_ascii_digit(ch) {
            let mut number: u32 = 0;
            while self.position < n && char_is_ascii_digit(line.get_char(self.position))
                invariant
                    n == s.len(),
                    s == line@,
                    j <= self.position <= n,
                    digit_end(s, j as int) == digit_end(s, self.position as int),
                    number == digits_value(s, j as int, self.position as int),
                decreases n - self.position,
            {
                let c = line.get_char(self.position);
                let d = (c as u32) - 48;
                number = ((number as u64 * 10 + d as u64) % 0x1_0000_0000) as u32;
                self.position = self.position + 1;
            }
            return Ok(Some(Token::Number(number)));
        }
        let next_is_eq = self.position + 1 < n && line.get_char(self.position + 1) == '=';
        // Gt, Ge
        if ch == '>' {
            if next_is_eq {
                self.position = self.position + 2;
                return Ok(Some(Token::Ge));
            } else {
                self.position = self.position + 1;
                return Ok(Some(Token::Gt));
            }
        }
        // Lt, Le
        if ch == '<' {
            if next_is_eq {
                self.position = self.position + 2;
                return Ok(Some(Token::Le));
            } else {
                self.position = self.position + 1;
                return Ok(Some(Token::Lt));
            }
        }
        // Ne
        if ch == '!' {
            if next_is_eq {
                self.position = self.position + 2;
                return Ok(Some(Token::Ne));
            } else {
                self.position = self.position + 1;
                return Err(LexError::UnexpectedChar(ch));
            }
        }
        self.position = self.position + 1;
        if ch == '=' {
            return Ok(Some(Token::Eq));
        }
        if ch == '|' {
            return Ok(Some(Token::Or));
        }
        if ch == '&' {
            return Ok(Some(Token::And));
        }
        if ch == '(' {
            return Ok(Some(Token::LParen));
        }
        if ch == ')' {
            return Ok(Some(Token::RParen));
        }
        // Token could not be created from input
        Err(LexError::UnexpectedChar(ch))
    }
}

} // verus!
