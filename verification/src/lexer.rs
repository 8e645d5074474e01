//! The lexer: from source text to a sequence of tokens.

use crate::error::LexError;
use crate::text::{decimal_value, digit_value, push_char, same_text};
use crate::token::{token_views, Token, TokenKind, TokenModel, TokenType};
use vstd::prelude::*;

verus! {

/// Whether `char::is_whitespace` holds of a character: it has the Unicode
/// property White_Space.
pub uninterp spec fn unicode_whitespace(c: char) -> bool;

/// Whether `char::is_alphanumeric` holds of a character: it is alphabetic or
/// numeric by the Unicode character database.
pub uninterp spec fn unicode_alphanumeric(c: char) -> bool;

/// Calls `char::is_whitespace`; the result is named `unicode_whitespace`.
#[verifier::external_body]
fn is_whitespace(c: char) -> (r: bool)
    ensures
        r == unicode_whitespace(c),
{
    c.is_whitespace()
}

/// Calls `char::is_alphanumeric`; the result is named `unicode_alphanumeric`.
#[verifier::external_body]
fn is_alphanumeric(c: char) -> (r: bool)
    ensures
        r == unicode_alphanumeric(c),
{
    c.is_alphanumeric()
}

/// A character of the input with what the lexer needs to know of it.
#[derive(Debug, PartialEq, Eq, Clone, Copy)]
pub struct Symbol {
    /// The character.
    pub ch: char,
    /// Whether it is white space.
    pub blank: bool,
    /// Whether it is a letter or a digit of any script.
    pub letter: bool,
}

/// A character with its Unicode classes.
pub open spec fn symbol(c: char) -> Symbol {
    Symbol { ch: c, blank: unicode_whitespace(c), letter: unicode_alphanumeric(c) }
}

/// The symbols of a text: each character with its Unicode classes.
pub open spec fn classified(text: Seq<char>) -> Seq<Symbol> {
    text.map_values(|c: char| symbol(c))
}

/// The characters of a sequence of symbols.
pub open spec fn chars_of(symbols: Seq<Symbol>) -> Seq<char> {
    Seq::new(symbols.len(), |i: int| symbols[i].ch)
}

/// A place in the input: the position of the next symbol, and the line that
/// it is on.
pub struct Cursor {
    pub pos: nat,
    pub line: nat,
}

/// The line after a line. Line numbers stop at the largest `usize`.
pub open spec fn next_line(line: nat) -> nat {
    if line < usize::MAX {
        line + 1
    } else {
        line
    }
}

/// The cursor after the symbol at the cursor is consumed; a line feed ends
/// a line.
pub open spec fn step(input: Seq<Symbol>, c: Cursor) -> Cursor {
    Cursor {
        pos: c.pos + 1,
        line: if input[c.pos as int].ch == '\n' {
            next_line(c.line)
        } else {
            c.line
        },
    }
}

/// Whether the symbol at `c` is the character `ch`.
pub open spec fn at(input: Seq<Symbol>, c: Cursor, ch: char) -> bool {
    c.pos < input.len() && input[c.pos as int].ch == ch
}

/// The runs of symbols that the lexer consumes as a whole.
#[derive(Clone, Copy)]
pub enum Run {
    /// Decimal digits.
    Digits,
    /// Letters, digits and underscores.
    Name,
    /// Anything but a double quote.
    Text,
    /// Anything but a line feed.
    Comment,
}

/// Whether a character is one of the ten decimal digits.
pub open spec fn is_digit(c: char) -> bool {
    '0' <= c <= '9'
}

/// Whether a character may start a name: a letter of the Latin alphabet or
/// an underscore.
pub open spec fn is_name_start(c: char) -> bool {
    'a' <= c <= 'z' || 'A' <= c <= 'Z' || c == '_'
}

/// Whether a symbol belongs to a run of the given kind.
pub open spec fn in_run(kind: Run, s: Symbol) -> bool {
    match kind {
        Run::Digits => is_digit(s.ch),
        Run::Name => s.letter || s.ch == '_',
        Run::Text => s.ch != '"',
        Run::Comment => s.ch != '\n',
    }
}

/// The cursor after the longest run of the given kind that starts at `c`.
pub open spec fn run_end(input: Seq<Symbol>, c: Cursor, kind: Run) -> Cursor
    decreases input.len() - c.pos,
{
    if c.pos < input.len() && in_run(kind, input[c.pos as int]) {
        run_end(input, step(input, c), kind)
    } else {
        c
    }
}

/// A run ends no earlier than it starts, and inside the input.
pub proof fn lemma_run_end(input: Seq<Symbol>, c: Cursor, kind: Run)
    requires
        c.pos <= input.len(),
    ensures
        c.pos <= run_end(input, c, kind).pos <= input.len(),
        c.pos < input.len() && in_run(kind, input[c.pos as int]) ==> c.pos < run_end(
            input,
            c,
            kind,
        ).pos,
    decreases input.len() - c.pos,
{
    if c.pos < input.len() && in_run(kind, input[c.pos as int]) {
        lemma_run_end(input, step(input, c), kind);
    }
}

/// The cursor after white space and comments are skipped. A comment starts
/// with two slashes and runs to the end of its line.
pub open spec fn skip_blank(input: Seq<Symbol>, c: Cursor) -> Cursor
    decreases input.len() - c.pos,
{
    if c.pos >= input.len() {
        c
    } else if input[c.pos as int].blank {
        skip_blank(input, step(input, c))
    } else if input[c.pos as int].ch == '/' && at(input, step(input, c), '/') {
        proof {
            lemma_run_end(input, c, Run::Comment);
        }
        skip_blank(input, run_end(input, c, Run::Comment))
    } else {
        c
    }
}

/// Skipping ends no earlier than it starts, and inside the input.
pub proof fn lemma_skip_blank(input: Seq<Symbol>, c: Cursor)
    requires
        c.pos <= input.len(),
    ensures
        c.pos <= skip_blank(input, c).pos <= input.len(),
    decreases input.len() - c.pos,
{
    if c.pos >= input.len() {
    } else if input[c.pos as int].blank {
        lemma_skip_blank(input, step(input, c));
    } else if input[c.pos as int].ch == '/' && at(input, step(input, c), '/') {
        lemma_run_end(input, c, Run::Comment);
        lemma_skip_blank(input, run_end(input, c, Run::Comment));
    }
}

/// The token that a name is: a keyword, or an identifier.
pub open spec fn word(text: Seq<char>) -> TokenKind {
    if text == "var"@ {
        TokenKind::Var
    } else if text == "print"@ {
        TokenKind::Print
    } else if text == "if"@ {
        TokenKind::If
    } else if text == "else"@ {
        TokenKind::Else
    } else if text == "while"@ {
        TokenKind::While
    } else if text == "for"@ {
        TokenKind::For
    } else if text == "foreach"@ {
        TokenKind::Foreach
    } else if text == "in"@ {
        TokenKind::In
    } else if text == "func"@ {
        TokenKind::Func
    } else if text == "return"@ {
        TokenKind::Return
    } else if text == "import"@ {
        TokenKind::Import
    } else if text == "from"@ {
        TokenKind::From
    } else if text == "class"@ {
        TokenKind::Class
    } else if text == "new"@ {
        TokenKind::New
    } else {
        TokenKind::Id(text)
    }
}

/// A scanned token: its kind and the cursor after it.
pub struct Scanned {
    pub kind: TokenKind,
    pub end: Cursor,
}

/// A token of one character.
pub open spec fn single(ch: char) -> Option<TokenKind> {
    if ch == '.' {
        Some(TokenKind::Dot)
    } else if ch == '+' {
        Some(TokenKind::Plus)
    } else if ch == '-' {
        Some(TokenKind::Minus)
    } else if ch == '*' {
        Some(TokenKind::Mul)
    } else if ch == '/' {
        Some(TokenKind::Div)
    } else if ch == '(' {
        Some(TokenKind::LParen)
    } else if ch == ')' {
        Some(TokenKind::RParen)
    } else if ch == '{' {
        Some(TokenKind::LBrace)
    } else if ch == '}' {
        Some(TokenKind::RBrace)
    } else if ch == '[' {
        Some(TokenKind::LBracket)
    } else if ch == ']' {
        Some(TokenKind::RBracket)
    } else if ch == ',' {
        Some(TokenKind::Comma)
    } else if ch == ';' {
        Some(TokenKind::Semicolon)
    } else {
        None
    }
}

/// A token that is one character, or that character followed by `=`.
pub open spec fn paired(ch: char, followed: bool) -> Option<TokenKind> {
    if ch == '=' {
        Some(
            if followed {
                TokenKind::Eq
            } else {
                TokenKind::Assign
            },
        )
    } else if ch == '<' {
        Some(
            if followed {
                TokenKind::Lte
            } else {
                TokenKind::Lt
            },
        )
    } else if ch == '>' {
        Some(
            if followed {
                TokenKind::Gte
            } else {
                TokenKind::Gt
            },
        )
    } else {
        None
    }
}

/// The token that starts at `c`, which is inside the input and at no white
/// space.
pub open spec fn scan_token(input: Seq<Symbol>, c: Cursor) -> Result<Scanned, LexError> {
    let ch = input[c.pos as int].ch;
    let next = step(input, c);
    let followed = at(input, next, '=');
    if single(ch) is Some {
        Ok(Scanned { kind: single(ch)->Some_0, end: next })
    } else if paired(ch, followed) is Some {
        Ok(
            Scanned {
                kind: paired(ch, followed)->Some_0,
                end: if followed {
                    step(input, next)
                } else {
                    next
                },
            },
        )
    } else if ch == '!' {
        if followed {
            Ok(Scanned { kind: TokenKind::Neq, end: step(input, next) })
        } else {
            Err(LexError::ExpectedEquals(next.line as usize))
        }
    } else if ch == '"' {
        let close = run_end(input, next, Run::Text);
        if close.pos < input.len() {
            Ok(
                Scanned {
                    kind: TokenKind::String(
                        chars_of(input.subrange(next.pos as int, close.pos as int)),
                    ),
                    end: step(input, close),
                },
            )
        } else {
            Err(LexError::UnterminatedString)
        }
    } else if is_digit(ch) {
        let end = run_end(input, c, Run::Digits);
        let value = decimal_value(chars_of(input.subrange(c.pos as int, end.pos as int)));
        if value <= i32::MAX {
            Ok(Scanned { kind: TokenKind::Number(value as i32), end })
        } else {
            Err(LexError::NumberTooLarge)
        }
    } else if is_name_start(ch) {
        let end = run_end(input, next, Run::Name);
        Ok(Scanned { kind: word(chars_of(input.subrange(c.pos as int, end.pos as int))), end })
    } else {
        Err(LexError::UnknownCharacter(ch))
    }
}

/// A token ends after it starts, and inside the input.
pub proof fn lemma_scan_token(input: Seq<Symbol>, c: Cursor)
    requires
        c.pos < input.len(),
    ensures
        scan_token(input, c) matches Ok(t) ==> c.pos < t.end.pos <= input.len(),
{
    let next = step(input, c);
    lemma_run_end(input, next, Run::Text);
    lemma_run_end(input, next, Run::Name);
    lemma_run_end(input, c, Run::Digits);
}

/// The tokens of the input from `c` on, each with the line on which it
/// ends, and after them the marker of the end of the input.
pub open spec fn lex(input: Seq<Symbol>, c: Cursor) -> Result<Seq<TokenModel>, LexError>
    decreases input.len() - c.pos,
{
    let from = skip_blank(input, c);
    if c.pos > input.len() || from.pos >= input.len() {
        Ok(seq![TokenModel { kind: TokenKind::EOF, line: from.line }])
    } else {
        match scan_token(input, from) {
            Err(e) => Err(e),
            Ok(t) => {
                proof {
                    lemma_skip_blank(input, c);
                    lemma_scan_token(input, from);
                }
                match lex(input, t.end) {
                    Err(e) => Err(e),
                    Ok(rest) => Ok(seq![TokenModel { kind: t.kind, line: t.end.line }] + rest),
                }
            },
        }
    }
}

/// The value of a part of a numeral from the front is at most the value of
/// the whole.
pub proof fn lemma_decimal_value_take(s: Seq<char>, k: int)
    requires
        0 <= k <= s.len(),
    ensures
        decimal_value(s.take(k)) <= decimal_value(s),
    decreases s.len(),
{
    if k == s.len() {
        assert(s.take(k) =~= s);
    } else {
        assert(s.drop_last().take(k) =~= s.take(k));
        lemma_decimal_value_take(s.drop_last(), k);
        assert(decimal_value(s) >= decimal_value(s.drop_last())) by (nonlinear_arith)
            requires
                decimal_value(s) == decimal_value(s.drop_last()) * 10 + digit_value(s.last()),
        ;
    }
}

/// The state of a lexer: the symbols of its input and its cursor.
pub struct LexerModel {
    pub input: Seq<Symbol>,
    pub cursor: Cursor,
}

/// The cursor at which a lexer starts: before the first symbol, on line 1.
pub open spec fn start() -> Cursor {
    Cursor { pos: 0, line: 1 }
}

/// A lexer over the symbols of a source text.
pub struct Lexer {
    input: Vec<Symbol>,
    pos: usize,
    line: usize,
}

impl View for Lexer {
    type V = LexerModel;

    closed spec fn view(&self) -> LexerModel {
        LexerModel {
            input: self.input@,
            cursor: Cursor { pos: self.pos as nat, line: self.line as nat },
        }
    }
}

fn in_run_of(kind: Run, s: Symbol) -> (r: bool)
    ensures
        r == in_run(kind, s),
{
    match kind {
        Run::Digits => s.ch >= '0' && s.ch <= '9',
        Run::Name => s.letter || s.ch == '_',
        Run::Text => s.ch != '"',
        Run::Comment => s.ch != '\n',
    }
}

fn word_of(text: String) -> (r: TokenType)
    ensures
        r@ == word(text@),
{
    let t = text.as_str();
    if same_text(t, "var") {
        TokenType::Var
    } else if same_text(t, "print") {
        TokenType::Print
    } else if same_text(t, "if") {
        TokenType::If
    } else if same_text(t, "else") {
        TokenType::Else
    } else if same_text(t, "while") {
        TokenType::While
    } else if same_text(t, "for") {
        TokenType::For
    } else if same_text(t, "foreach") {
        TokenType::Foreach
    } else if same_text(t, "in") {
        TokenType::In
    } else if same_text(t, "func") {
        TokenType::Func
    } else if same_text(t, "return") {
        TokenType::Return
    } else if same_text(t, "import") {
        TokenType::Import
    } else if same_text(t, "from") {
        TokenType::From
    } else if same_text(t, "class") {
        TokenType::Class
    } else if same_text(t, "new") {
        TokenType::New
    } else {
        TokenType::Id(text)
    }
}

fn single_of(ch: char) -> (r: Option<TokenType>)
    ensures
        match r {
            Some(k) => single(ch) == Some(k@),
            None => single(ch) is None,
        },
{
    match ch {
        '.' => Some(TokenType::Dot),
        '+' => Some(TokenType::Plus),
        '-' => Some(TokenType::Minus),
        '*' => Some(TokenType::Mul),
        '/' => Some(TokenType::Div),
        '(' => Some(TokenType::LParen),
        ')' => Some(TokenType::RParen),
        '{' => Some(TokenType::LBrace),
        '}' => Some(TokenType::RBrace),
        '[' => Some(TokenType::LBracket),
        ']' => Some(TokenType::RBracket),
        ',' => Some(TokenType::Comma),
        ';' => Some(TokenType::Semicolon),
        _ => None,
    }
}

fn paired_of(ch: char, followed: bool) -> (r: Option<TokenType>)
    ensures
        match r {
            Some(k) => paired(ch, followed) == Some(k@),
            None => paired(ch, followed) is None,
        },
{
    match ch {
        '=' => Some(
            if followed {
                TokenType::Eq
            } else {
                TokenType::Assign
            },
        ),
        '<' => Some(
            if followed {
                TokenType::Lte
            } else {
                TokenType::Lt
            },
        ),
        '>' => Some(
            if followed {
                TokenType::Gte
            } else {
                TokenType::Gt
            },
        ),
        _ => None,
    }
}

fn digit_value_of(c: char) -> (d: i64)
    ensures
        d == digit_value(c),
        0 <= d <= 9,
{
    match c {
        '1' => 1,
        '2' => 2,
        '3' => 3,
        '4' => 4,
        '5' => 5,
        '6' => 6,
        '7' => 7,
        '8' => 8,
        '9' => 9,
        _ => 0,
    }
}

/// A character with its classes.
fn symbol_of(c: char) -> (s: Symbol)
    ensures
        s == symbol(c),
{
    Symbol { ch: c, blank: is_whitespace(c), letter: is_alphanumeric(c) }
}

/// The symbols of a text: each character is classified by
/// `char::is_whitespace` and `char::is_alphanumeric`.
pub fn classify(input: &str) -> (symbols: Vec<Symbol>)
    ensures
        symbols@ == classified(input@),
{
    let mut chars: Vec<char> = Vec::new();
    for c in it: input.chars()
        invariant
            it.seq() == input@,
            chars@.len() == it.index(),
            forall|i: int| 0 <= i < chars@.len() ==> chars@[i] == it.seq()[i],
    {
        chars.push(c);
    }
    assert(chars@ =~= input@);
    let mut symbols: Vec<Symbol> = Vec::new();
    let mut i: usize = 0;
    while i < chars.len()
        invariant
            i <= chars.len(),
            symbols@.len() == i,
            forall|j: int| 0 <= j < i ==> symbols@[j] == symbol(chars@[j]),
        decreases chars.len() - i,
    {
        symbols.push(symbol_of(chars[i]));
        i += 1;
    }
    assert(symbols@.len() == classified(input@).len());
    assert forall|j: int| 0 <= j < symbols@.len() implies symbols@[j] == classified(input@)[j] by {
        assert(chars@[j] == input@[j]);
    }
    assert(symbols@ =~= classified(input@));
    symbols
}

impl Lexer {
    #[verifier::type_invariant]
    spec fn inside(&self) -> bool {
        self.pos <= self.input@.len() && self.line >= 1
    }

    /// A lexer at the start of `input`. Each character is classified once,
    /// by `char::is_whitespace` and `char::is_alphanumeric`.
    pub fn new(input: String) -> (l: Lexer)
        ensures
            l@ == (LexerModel { input: classified(input@), cursor: start() }),
    {
        let symbols = classify(input.as_str());
        Lexer { input: symbols, pos: 0, line: 1 }
    }

    /// A lexer at the start of an input whose characters are classified
    /// already.
    pub fn from_symbols(symbols: Vec<Symbol>) -> (l: Lexer)
        ensures
            l@ == (LexerModel { input: symbols@, cursor: start() }),
    {
        Lexer { input: symbols, pos: 0, line: 1 }
    }

    /// The character at the cursor, if the input has not ended.
    fn peek(&self) -> (r: Option<char>)
        ensures
            self@.cursor.pos <= self@.input.len(),
            match r {
                Some(c) => self@.cursor.pos < self@.input.len() && self@.input[self@.cursor.pos as int].ch == c,
                None => self@.cursor.pos == self@.input.len(),
            },
    {
        proof {
            use_type_invariant(self);
        }
        if self.pos < self.input.len() {
            Some(self.input[self.pos].ch)
        } else {
            None
        }
    }

    /// A token of the given kind on the current line.
    fn create_token(&self, kind: TokenType) -> (t: Token)
        ensures
            t.kind == kind,
            t.line == self@.cursor.line,
    {
        Token { kind, line: self.line }
    }

    /// Consumes the character at the cursor, if the input has not ended.
    fn advance(&mut self) -> (r: Option<char>)
        ensures
            final(self)@.input == old(self)@.input,
            match r {
                Some(c) => old(self)@.cursor.pos < old(self)@.input.len() && old(self)@.input[old(
                    self,
                )@.cursor.pos as int].ch == c && final(self)@.cursor == step(
                    old(self)@.input,
                    old(self)@.cursor,
                ),
                None => old(self)@.cursor.pos >= old(self)@.input.len() && final(self)@ == old(
                    self,
                )@,
            },
    {
        proof {
            use_type_invariant(&*self);
        }
        if self.pos < self.input.len() {
            let c = self.input[self.pos].ch;
            self.pos += 1;
            if c == '\n' && self.line < usize::MAX {
                self.line += 1;
            }
            Some(c)
        } else {
            None
        }
    }

    /// Consumes the longest run of the given kind.
    fn skip_run(&mut self, kind: Run)
        ensures
            final(self)@.input == old(self)@.input,
            final(self)@.cursor == run_end(old(self)@.input, old(self)@.cursor, kind),
    {
        while self.pos < self.input.len() && in_run_of(kind, self.input[self.pos])
            invariant
                self@.input == old(self)@.input,
                run_end(self@.input, self@.cursor, kind) == run_end(
                    old(self)@.input,
                    old(self)@.cursor,
                    kind,
                ),
            decreases self@.input.len() - self@.cursor.pos,
        {
            self.advance();
        }
    }

    /// Consumes white space and comments.
    fn skip_whitespace_and_comments(&mut self)
        ensures
            final(self)@.input == old(self)@.input,
            final(self)@.cursor == skip_blank(old(self)@.input, old(self)@.cursor),
    {
        loop
            invariant
                self@.input == old(self)@.input,
                skip_blank(self@.input, self@.cursor) == skip_blank(
                    old(self)@.input,
                    old(self)@.cursor,
                ),
            ensures
                self@.input == old(self)@.input,
                self@.cursor == skip_blank(old(self)@.input, old(self)@.cursor),
            decreases self@.input.len() - self@.cursor.pos,
        {
            proof {
                use_type_invariant(&*self);
            }
            if self.pos >= self.input.len() {
                break ;
            }
            let s = self.input[self.pos];
            if s.blank {
                self.advance();
            } else if s.ch == '/' && self.pos + 1 < self.input.len() && self.input[self.pos
                + 1].ch == '/' {
                proof {
                    lemma_run_end(self@.input, self@.cursor, Run::Comment);
                }
                self.skip_run(Run::Comment);
            } else {
                break ;
            }
        }
    }

    /// The characters between two positions of the input.
    fn text_between(&self, from: usize, to: usize) -> (r: String)
        requires
            from <= to <= self@.input.len(),
        ensures
            r@ == chars_of(self@.input.subrange(from as int, to as int)),
    {
        let ghost want = chars_of(self@.input.subrange(from as int, to as int));
        let mut r = String::new();
        let mut i: usize = from;
        while i < to
            invariant
                from <= i <= to <= self.input@.len(),
                want == chars_of(self@.input.subrange(from as int, to as int)),
                r@ == want.take(i - from),
            decreases to - i,
        {
            push_char(&mut r, self.input[i].ch);
            assert(want.take(i - from).push(self.input@[i as int].ch) =~= want.take(i + 1 - from));
            i += 1;
        }
        assert(want.take(to - from) =~= want);
        r
    }

    /// The number that the digits between two positions denote, if it fits.
    fn number_between(&self, from: usize, to: usize) -> (r: Option<i32>)
        requires
            from <= to <= self@.input.len(),
        ensures
            match r {
                Some(n) => decimal_value(chars_of(self@.input.subrange(from as int, to as int)))
                    == n,
                None => decimal_value(chars_of(self@.input.subrange(from as int, to as int)))
                    > i32::MAX,
            },
    {
        let ghost digits = chars_of(self@.input.subrange(from as int, to as int));
        let mut value: i64 = 0;
        let mut i: usize = from;
        assert(digits.take(0) =~= Seq::<char>::empty());
        while i < to
            invariant
                from <= i <= to <= self.input@.len(),
                digits == chars_of(self@.input.subrange(from as int, to as int)),
                value == decimal_value(digits.take(i - from)),
                0 <= value <= i32::MAX,
            decreases to - i,
        {
            let d = digit_value_of(self.input[i].ch);
            proof {
                let next = digits.take(i + 1 - from);
                assert(next.drop_last() =~= digits.take(i - from));
                assert(next.last() == self.input@[i as int].ch);
            }
            value = value * 10 + d;
            if value > i32::MAX as i64 {
                proof {
                    lemma_decimal_value_take(digits, i + 1 - from);
                }
                return None;
            }
            i += 1;
        }
        assert(digits.take(to - from) =~= digits);
        Some(value as i32)
    }

    /// Scans the token at the cursor, which is inside the input.
    fn scan(&mut self) -> (r: Result<TokenType, LexError>)
        requires
            old(self)@.cursor.pos < old(self)@.input.len(),
        ensures
            final(self)@.input == old(self)@.input,
            match scan_token(old(self)@.input, old(self)@.cursor) {
                Ok(t) => r is Ok && r->Ok_0@ == t.kind && final(self)@.cursor == t.end,
                Err(e) => r == Err::<TokenType, LexError>(e),
            },
    {
        let begin = self.pos;
        let ch = match self.advance() {
            Some(c) => c,
            None => {
                return Err(LexError::UnterminatedString);
            },
        };
        let followed = match self.peek() {
            Some(c) => c == '=',
            None => false,
        };
        if let Some(kind) = single_of(ch) {
            return Ok(kind);
        }
        if let Some(kind) = paired_of(ch, followed) {
            if followed {
                self.advance();
            }
            return Ok(kind);
        }
        if ch == '!' {
            if followed {
                self.advance();
                return Ok(TokenType::Neq);
            }
            return Err(LexError::ExpectedEquals(self.line));
        }
        if ch == '"' {
            let open = self.pos;
            self.skip_run(Run::Text);
            proof {
                lemma_run_end(old(self)@.input, step(old(self)@.input, old(self)@.cursor), Run::Text);
                use_type_invariant(&*self);
            }
            if self.pos < self.input.len() {
                let content = self.text_between(open, self.pos);
                self.advance();
                return Ok(TokenType::String(content));
            }
            return Err(LexError::UnterminatedString);
        }
        if ch >= '0' && ch <= '9' {
            self.skip_run(Run::Digits);
            proof {
                lemma_run_end(old(self)@.input, step(old(self)@.input, old(self)@.cursor), Run::Digits);
                use_type_invariant(&*self);
            }
            return match self.number_between(begin, self.pos) {
                Some(n) => Ok(TokenType::Number(n)),
                None => Err(LexError::NumberTooLarge),
            };
        }
        if (ch >= 'a' && ch <= 'z') || (ch >= 'A' && ch <= 'Z') || ch == '_' {
            self.skip_run(Run::Name);
            proof {
                lemma_run_end(old(self)@.input, step(old(self)@.input, old(self)@.cursor), Run::Name);
                use_type_invariant(&*self);
            }
            let name = self.text_between(begin, self.pos);
            return Ok(word_of(name));
        }
        Err(LexError::UnknownCharacter(ch))
    }

    /// Turns the rest of the input into tokens. The last token marks the end
    /// of the input. Each token carries the line on which it ends. A lexer
    /// that fails stays where it was.
    pub fn tokenize(&mut self) -> (r: Result<Vec<Token>, LexError>)
        ensures
            final(self)@.input == old(self)@.input,
            match lex(old(self)@.input, old(self)@.cursor) {
                Ok(tokens) => r is Ok && token_views(r->Ok_0@) == tokens && final(self)@.cursor == (
                Cursor { pos: old(self)@.input.len(), line: tokens.last().line }),
                Err(e) => r == Err::<Vec<Token>, LexError>(e) && final(self)@ == old(self)@,
            },
    {
        proof {
            use_type_invariant(&*self);
        }
        let start = self.pos;
        let line = self.line;
        let ghost symbols = self.input@;
        match self.scan_all() {
            Ok(tokens) => Ok(tokens),
            Err(e) => {
                proof {
                    use_type_invariant(&*self);
                }
                assert(self@.input == symbols);
                self.pos = start;
                self.line = line;
                Err(e)
            },
        }
    }

    /// Scans tokens up to the end of the input.
    fn scan_all(&mut self) -> (r: Result<Vec<Token>, LexError>)
        ensures
            final(self)@.input == old(self)@.input,
            match lex(old(self)@.input, old(self)@.cursor) {
                Ok(tokens) => r is Ok && token_views(r->Ok_0@) == tokens && final(self)@.cursor == (
                Cursor { pos: old(self)@.input.len(), line: tokens.last().line }),
                Err(e) => r == Err::<Vec<Token>, LexError>(e),
            },
    {
        let mut tokens: Vec<Token> = Vec::new();
        let ghost input = self@.input;
        let ghost first = self@.cursor;
        assert(token_views(tokens@) =~= Seq::<TokenModel>::empty());
        loop
            invariant
                self@.input == input,
                input == old(self)@.input,
                first == old(self)@.cursor,
                lex(input, first) == match lex(input, self@.cursor) {
                    Ok(rest) => Ok::<Seq<TokenModel>, LexError>(token_views(tokens@) + rest),
                    Err(e) => Err(e),
                },
            decreases input.len() - self@.cursor.pos,
        {
            let ghost before = self@.cursor;
            let ghost so_far = token_views(tokens@);
            proof {
                use_type_invariant(&*self);
                lemma_skip_blank(input, before);
                match lex(input, before) {
                    Ok(rest) => {
                        assert(Seq::<TokenModel>::empty() + rest =~= rest);
                    },
                    Err(_) => {},
                }
            }
            self.skip_whitespace_and_comments();
            if self.peek().is_none() {
                let end = self.create_token(TokenType::EOF);
                tokens.push(end);
                proof {
                    assert(token_views(tokens@) =~= so_far + seq![
                        TokenModel { kind: TokenKind::EOF, line: self@.cursor.line },
                    ]);
                }
                return Ok(tokens);
            }
            proof {
                lemma_scan_token(input, self@.cursor);
            }
            let kind = match self.scan() {
                Ok(k) => k,
                Err(e) => {
                    return Err(e);
                },
            };
            let token = self.create_token(kind);
            proof {
                let model = TokenModel { kind: kind@, line: self@.cursor.line };
                match lex(input, self@.cursor) {
                    Ok(rest) => {
                        assert(so_far + (seq![model] + rest) =~= token_views(tokens@.push(token))
                            + rest);
                    },
                    Err(_) => {},
                }
            }
            tokens.push(token);
        }
    }
}

} // verus!
