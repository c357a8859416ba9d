use vstd::prelude::*;

use crate::error::Error;

verus! {

/// The kinds of token of the assembly language.
#[derive(Debug, Clone, Copy, PartialEq, Eq, Structural)]
pub enum TokenType {
    Directive,
    Identifier,
    String,
    DecNumber,
    HexNumber,
    BinNumber,
    Cp,
    Add,
    Sub,
    Mul,
    Div,
    Xor,
    And,
    Or,
    Not,
    Shl,
    Shr,
    Cmp,
    Be,
    Bne,
    Bg,
    Bge,
    Bl,
    Ble,
    Bc,
    Jmp,
    Call,
    Ret,
    Puts,
    Getc,
    Halt,
    Eof,
}

/// A token as the contracts see it: kind, lexeme, literal, line, position.
pub type TokenView = (TokenType, Seq<char>, Option<Seq<char>>, usize, usize);

/// A token of the assembly source.
pub struct Token {
    pub ttype: TokenType,
    pub lexeme: String,
    pub literal: Option<String>,
    pub line: usize,
    pub position: usize,
}

impl View for Token {
    type V = TokenView;

    open spec fn view(&self) -> TokenView {
        (self.ttype, self.lexeme@, match self.literal {
            Some(s) => Some(s@),
            None => None,
        }, self.line, self.position)
    }
}

impl Token {
    pub fn new(ttype: TokenType, lexeme: String, literal: Option<String>, line: usize, position: usize) -> (t: Self)
        ensures
            t.ttype == ttype,
            t.lexeme == lexeme,
            t.literal == literal,
            t.line == line,
            t.position == position,
    {
        Token { ttype, lexeme, line, literal, position }
    }
}

/// The character classes that the scanner consumes runs of.
#[derive(Debug, Clone, Copy, PartialEq, Eq, Structural)]
pub enum CharClass {
    Letter,
    HexDigit,
    DecDigit,
    BinDigit,
    IdentChar,
    NotNewline,
    NotQuote,
}

pub open spec fn is_letter(c: char) -> bool {
    ('a' <= c && c <= 'z') || ('A' <= c && c <= 'Z')
}

pub open spec fn is_digit(c: char) -> bool {
    '0' <= c && c <= '9'
}

pub open spec fn in_class(c: char, k: CharClass) -> bool {
    match k {
        CharClass::Letter => is_letter(c),
        CharClass::HexDigit => is_digit(c) || ('a' <= c && c <= 'f') || ('A' <= c && c <= 'F'),
        CharClass::DecDigit => is_digit(c),
        CharClass::BinDigit => c == '0' || c == '1',
        CharClass::IdentChar => is_letter(c) || is_digit(c) || c == '_',
        CharClass::NotNewline => c != '\n',
        CharClass::NotQuote => c != '"',
    }
}

/// The end of the longest run of characters of class `k` that starts at `i`.
pub open spec fn span(src: Seq<char>, i: int, k: CharClass) -> int
    decreases src.len() - i,
{
    if 0 <= i < src.len() && in_class(src[i], k) {
        span(src, i + 1, k)
    } else {
        i
    }
}

/// The number of line breaks in `s`.
pub open spec fn newlines(s: Seq<char>) -> nat
    decreases s.len(),
{
    if s.len() == 0 {
        0
    } else {
        newlines(s.drop_last()) + if s.last() == '\n' { 1nat } else { 0nat }
    }
}

/// The kind of a word: its keyword, or `Identifier`.
pub open spec fn keyword_type(w: Seq<char>) -> TokenType {
    if w == "cp"@ { TokenType::Cp }
    else if w == "add"@ { TokenType::Add }
    else if w == "sub"@ { TokenType::Sub }
    else if w == "mul"@ { TokenType::Mul }
    else if w == "div"@ { TokenType::Div }
    else if w == "xor"@ { TokenType::Xor }
    else if w == "and"@ { TokenType::And }
    else if w == "or"@ { TokenType::Or }
    else if w == "not"@ { TokenType::Not }
    else if w == "shl"@ { TokenType::Shl }
    else if w == "shr"@ { TokenType::Shr }
    else if w == "cmp"@ { TokenType::Cmp }
    else if w == "be"@ { TokenType::Be }
    else if w == "bne"@ { TokenType::Bne }
    else if w == "bg"@ { TokenType::Bg }
    else if w == "bge"@ { TokenType::Bge }
    else if w == "bl"@ { TokenType::Bl }
    else if w == "ble"@ { TokenType::Ble }
    else if w == "bc"@ { TokenType::Bc }
    else if w == "jmp"@ { TokenType::Jmp }
    else if w == "call"@ { TokenType::Call }
    else if w == "ret"@ { TokenType::Ret }
    else if w == "puts"@ { TokenType::Puts }
    else if w == "getc"@ { TokenType::Getc }
    else if w == "halt"@ { TokenType::Halt }
    else { TokenType::Identifier }
}

/// What scanning one token from position `i` yields.
pub struct ScanStep {
    pub token: Option<TokenView>,
    pub error: Option<Error>,
    pub next: int,
    pub line: int,
}

/// A token spanning `src[start..j]` on line `line`, with the given kind and literal.
pub open spec fn emit(src: Seq<char>, t: TokenType, start: int, j: int, literal: Option<Seq<char>>, line: int) -> ScanStep {
    ScanStep { token: Some((t, src.subrange(start, j), literal, line as usize, start as usize)), error: None, next: j, line }
}

/// Skipping a comment: the position moves to the end of the line.
pub open spec fn comment_step(src: Seq<char>, cur: int, line: int) -> ScanStep {
    ScanStep { token: None, error: None, next: span(src, cur, CharClass::NotNewline), line }
}

/// A token that starts at `start` and goes on with the run of class `k` from
/// `cur`; its literal is the whole lexeme.
pub open spec fn run_step(src: Seq<char>, t: TokenType, start: int, cur: int, k: CharClass, line: int) -> ScanStep {
    let j = span(src, cur, k);
    emit(src, t, start, j, Some(src.subrange(start, j)), line)
}

/// A word that starts at `start` and goes on with the word characters from
/// `cur`; a keyword gets its own kind.
pub open spec fn word_step(src: Seq<char>, start: int, cur: int, line: int) -> ScanStep {
    let j = span(src, cur, CharClass::IdentChar);
    emit(src, keyword_type(src.subrange(start, j)), start, j, None, line)
}

/// A string literal whose opening quote was consumed just before `cur`: its
/// literal runs up to the closing quote, or to the end of the source, where
/// the token comes with an `UnterminatedString` error.
pub open spec fn string_step(src: Seq<char>, start: int, cur: int, line: int) -> ScanStep {
    let j = span(src, cur, CharClass::NotQuote);
    let l2 = line + newlines(src.subrange(cur, j));
    if j >= src.len() {
        ScanStep {
            token: Some((TokenType::String, src.subrange(start, j), Some(src.subrange(cur, j)), l2 as usize, start as usize)),
            error: Some(Error::UnterminatedString(l2 as usize)),
            next: j,
            line: l2,
        }
    } else {
        emit(src, TokenType::String, start, j + 1, Some(src.subrange(cur, j)), l2)
    }
}

/// Scans the token whose first character is `src[i]`, on line `line`,
/// with the token start at `start`.
pub open spec fn next_token(src: Seq<char>, start: int, i: int, line: int) -> ScanStep {
    let c = src[i];
    if c == ' ' || c == '\r' || c == '\t' {
        ScanStep { token: None, error: None, next: i + 1, line }
    } else if c == ';' {
        comment_step(src, i + 1, line)
    } else if c == '.' {
        run_step(src, TokenType::Directive, start, i + 1, CharClass::Letter, line)
    } else if c == '$' {
        run_step(src, TokenType::HexNumber, start, i + 1, CharClass::HexDigit, line)
    } else if c == '#' {
        run_step(src, TokenType::DecNumber, start, i + 1, CharClass::DecDigit, line)
    } else if c == '!' {
        run_step(src, TokenType::BinNumber, start, i + 1, CharClass::BinDigit, line)
    } else if is_letter(c) {
        word_step(src, start, i + 1, line)
    } else if c == '"' {
        string_step(src, start, i + 1, line)
    } else if c == '\n' {
        ScanStep { token: None, error: None, next: i + 1, line: line + 1 }
    } else {
        ScanStep { token: None, error: Some(Error::InvalidCharacter(c)), next: i + 1, line }
    }
}

pub open spec fn opt_seq<T>(o: Option<T>) -> Seq<T> {
    match o {
        Some(x) => seq![x],
        None => seq![],
    }
}

/// The tokens and errors of `src[i..]`, scanned from line `line`, and the
/// line reached at the end.
pub open spec fn lex(src: Seq<char>, i: int, line: int) -> (Seq<TokenView>, Seq<Error>, int)
    decreases src.len() - i,
{
    if 0 <= i < src.len() {
        let st = next_token(src, i, i, line);
        if i < st.next <= src.len() {
            let (ts, es, end) = lex(src, st.next, st.line);
            (opt_seq(st.token) + ts, opt_seq(st.error) + es, end)
        } else {
            (seq![], seq![], line)
        }
    } else {
        (seq![], seq![], line)
    }
}

proof fn lemma_span_bounds(src: Seq<char>, i: int, k: CharClass)
    requires
        0 <= i <= src.len(),
    ensures
        i <= span(src, i, k) <= src.len(),
    decreases src.len() - i,
{
    if i < src.len() && in_class(src[i], k) {
        lemma_span_bounds(src, i + 1, k);
    }
}

proof fn lemma_newlines_bound(s: Seq<char>)
    ensures
        newlines(s) <= s.len(),
    decreases s.len(),
{
    if s.len() > 0 {
        lemma_newlines_bound(s.drop_last());
    }
}

/// Each scanned token moves forward and stays within the source.
pub proof fn lemma_scan_progress(src: Seq<char>, start: int, i: int, line: int)
    requires
        0 <= start <= i < src.len(),
    ensures
        i < next_token(src, start, i, line).next <= src.len(),
        line <= next_token(src, start, i, line).line <= line + (next_token(src, start, i, line).next - i),
{
    lemma_span_bounds(src, i + 1, CharClass::NotNewline);
    lemma_span_bounds(src, i + 1, CharClass::Letter);
    lemma_span_bounds(src, i + 1, CharClass::HexDigit);
    lemma_span_bounds(src, i + 1, CharClass::DecDigit);
    lemma_span_bounds(src, i + 1, CharClass::BinDigit);
    lemma_span_bounds(src, i + 1, CharClass::IdentChar);
    lemma_span_bounds(src, i + 1, CharClass::NotQuote);
    let j = span(src, i + 1, CharClass::NotQuote);
    lemma_newlines_bound(src.subrange(i + 1, j));
    if src[i] == '"' && j < src.len() {
        assert(src[j] == '"') by {
            lemma_span_stops(src, i + 1, CharClass::NotQuote);
        }
    }
}

proof fn lemma_span_stops(src: Seq<char>, i: int, k: CharClass)
    requires
        0 <= i <= src.len(),
    ensures
        span(src, i, k) < src.len() ==> !in_class(src[span(src, i, k)], k),
    decreases src.len() - i,
{
    if i < src.len() && in_class(src[i], k) {
        lemma_span_stops(src, i + 1, k);
    }
}

/// The scanner of the assembly language: it walks the source once and
/// collects its tokens, and an error for each character that starts none.
pub struct Scanner {
    pub source: String,
    pub chars: Vec<char>,
    pub tokens: Vec<Token>,
    pub errors: Vec<Error>,
    pub start_idx: usize,
    pub current_idx: usize,
    pub line: usize,
}

impl Scanner {
    pub open spec fn wf(&self) -> bool {
        &&& self.chars@ == self.source@
        &&& self.chars@.len() <= usize::MAX
        &&& self.start_idx <= self.current_idx <= self.chars@.len()
        &&& self.line <= self.current_idx
    }

    pub open spec fn tokens_view(&self) -> Seq<TokenView> {
        self.tokens@.map_values(|t: Token| t@)
    }

    /// Everything but the position, the line and the output stays.
    pub open spec fn same_input(&self, other: &Scanner) -> bool {
        &&& self.source == other.source
        &&& self.chars@ == other.chars@
        &&& self.start_idx == other.start_idx
    }

    /// A scanner at the start of `source`, with no tokens yet.
    pub fn new(source: String) -> (s: Self)
        ensures
            s.wf(),
            s.source == source,
            s.tokens@.len() == 0,
            s.errors@.len() == 0,
            s.start_idx == 0,
            s.current_idx == 0,
            s.line == 0,
    {
        let n = source.as_str().unicode_len();
        let mut chars: Vec<char> = Vec::new();
        let mut i: usize = 0;
        while i < n
            invariant
                n == source@.len(),
                i <= n,
                chars@ == source@.take(i as int),
            decreases n - i,
        {
            chars.push(source.as_str().get_char(i));
            i = i + 1;
            assert(chars@ =~= source@.take(i as int));
        }
        assert(chars@ =~= source@);
        Scanner { source, chars, tokens: Vec::new(), errors: Vec::new(), start_idx: 0, current_idx: 0, line: 0 }
    }

    pub fn at_end(&self) -> (r: bool)
        ensures
            r == (self.current_idx >= self.chars@.len()),
    {
        self.current_idx >= self.chars.len()
    }

    /// The tokens scanned so far.
    pub fn tokens(self) -> (t: Vec<Token>)
        ensures
            t == self.tokens,
    {
        self.tokens
    }

    /// The next character to scan, or `'\0'` at the end.
    pub fn peek(&self) -> (c: char)
        requires
            self.wf(),
        ensures
            c == if self.current_idx < self.chars@.len() { self.chars@[self.current_idx as int] } else { '\0' },
    {
        if self.current_idx >= self.chars.len() {
            return '\0';
        }
        self.chars[self.current_idx]
    }

    /// Consumes the next character if it is `expected`.
    pub fn matches(&mut self, expected: char) -> (r: bool)
        requires
            old(self).wf(),
        ensures
            final(self).wf(),
            final(self).same_input(old(self)),
            r == (old(self).current_idx < old(self).chars@.len() && old(self).chars@[old(self).current_idx as int]
                == expected),
            final(self).current_idx == old(self).current_idx + if r { 1int } else { 0int },
            final(self).line == old(self).line,
            final(self).tokens == old(self).tokens,
            final(self).errors == old(self).errors,
    {
        if self.at_end() || self.peek() != expected {
            return false;
        }
        self.current_idx = self.current_idx + 1;
        true
    }

    /// Consumes and returns the next character.
    pub fn advance(&mut self) -> (c: char)
        requires
            old(self).wf(),
            old(self).current_idx < old(self).chars@.len(),
        ensures
            final(self).wf(),
            final(self).same_input(old(self)),
            c == old(self).chars@[old(self).current_idx as int],
            final(self).current_idx == old(self).current_idx + 1,
            final(self).line == old(self).line,
            final(self).tokens == old(self).tokens,
            final(self).errors == old(self).errors,
    {
        let c = self.chars[self.current_idx];
        self.current_idx = self.current_idx + 1;
        c
    }

    /// Appends a token whose lexeme is the text from the token start to the
    /// current position.
    pub fn add_literal(&mut self, t: TokenType, literal: Option<String>)
        requires
            old(self).wf(),
        ensures
            final(self).wf(),
            final(self).same_input(old(self)),
            final(self).current_idx == old(self).current_idx,
            final(self).line == old(self).line,
            final(self).errors == old(self).errors,
            final(self).tokens_view() == old(self).tokens_view().push((
                t,
                old(self).chars@.subrange(old(self).start_idx as int, old(self).current_idx as int),
                match literal {
                    Some(s) => Some(s@),
                    None => None,
                },
                old(self).line,
                old(self).start_idx,
            )),
    {
        let text = self.source.as_str().substring_char(self.start_idx, self.current_idx).to_owned();
        let tok = Token::new(t, text, literal, self.line, self.start_idx);
        self.tokens.push(tok);
        assert(self.tokens_view() =~= old(self).tokens_view().push(tok@));
    }

    /// Appends a token without a literal.
    pub fn add_token(&mut self, t: TokenType)
        requires
            old(self).wf(),
        ensures
            final(self).wf(),
            final(self).same_input(old(self)),
            final(self).current_idx == old(self).current_idx,
            final(self).line == old(self).line,
            final(self).errors == old(self).errors,
            final(self).tokens_view() == old(self).tokens_view().push((
                t,
                old(self).chars@.subrange(old(self).start_idx as int, old(self).current_idx as int),
                None,
                old(self).line,
                old(self).start_idx,
            )),
    {
        self.add_literal(t, None);
    }

    /// This scanner is `old` after the scan step `st`: position and line
    /// moved on, and the step's token and error appended.
    pub open spec fn applied(&self, old: &Scanner, st: ScanStep) -> bool {
        &&& self.wf()
        &&& self.same_input(old)
        &&& self.current_idx == st.next
        &&& self.line == st.line
        &&& self.tokens_view() == old.tokens_view() + opt_seq(st.token)
        &&& self.errors@ == old.errors@ + opt_seq(st.error)
    }

    /// Skips a comment: everything up to the end of the line.
    pub fn consume_comment(&mut self)
        requires
            old(self).wf(),
        ensures
            final(self).applied(old(self), comment_step(old(self).chars@, old(self).current_idx as int, old(self).line as int)),
    {
        self.consume_while(CharClass::NotNewline);
        assert(self.tokens_view() =~= old(self).tokens_view() + seq![]);
        assert(self.errors@ =~= old(self).errors@ + seq![]);
    }

    /// Scans the run of class `k` at the current position and appends a
    /// token from the token start, with the whole lexeme as its literal.
    fn consume_run(&mut self, t: TokenType, k: CharClass)
        requires
            old(self).wf(),
        ensures
            final(self).applied(
                old(self),
                run_step(old(self).chars@, t, old(self).start_idx as int, old(self).current_idx as int, k, old(self).line as int),
            ),
    {
        self.consume_while(k);
        proof {
            lemma_span_bounds(self.chars@, old(self).current_idx as int, k);
        }
        let lit = self.lexeme();
        self.add_literal(t, Some(lit));
        assert(self.errors@ =~= old(self).errors@ + seq![]);
        assert(self.tokens_view() =~= old(self).tokens_view() + opt_seq(
            run_step(old(self).chars@, t, old(self).start_idx as int, old(self).current_idx as int, k, old(self).line as int).token,
        ));
    }

    /// Scans a directive: the letters that follow, as one `Directive` token.
    pub fn consume_directive(&mut self)
        requires
            old(self).wf(),
        ensures
            final(self).applied(
                old(self),
                run_step(old(self).chars@, TokenType::Directive, old(self).start_idx as int, old(self).current_idx as int, CharClass::Letter, old(self).line as int),
            ),
    {
        self.consume_run(TokenType::Directive, CharClass::Letter);
    }

    /// Scans a hexadecimal number: the hex digits that follow.
    pub fn consume_hex_number(&mut self)
        requires
            old(self).wf(),
        ensures
            final(self).applied(
                old(self),
                run_step(old(self).chars@, TokenType::HexNumber, old(self).start_idx as int, old(self).current_idx as int, CharClass::HexDigit, old(self).line as int),
            ),
    {
        self.consume_run(TokenType::HexNumber, CharClass::HexDigit);
    }

    /// Scans a decimal number: the digits that follow.
    pub fn consume_dec_number(&mut self)
        requires
            old(self).wf(),
        ensures
            final(self).applied(
                old(self),
                run_step(old(self).chars@, TokenType::DecNumber, old(self).start_idx as int, old(self).current_idx as int, CharClass::DecDigit, old(self).line as int),
            ),
    {
        self.consume_run(TokenType::DecNumber, CharClass::DecDigit);
    }

    /// Scans a binary number: the `0` and `1` digits that follow.
    pub fn consume_bin_number(&mut self)
        requires
            old(self).wf(),
        ensures
            final(self).applied(
                old(self),
                run_step(old(self).chars@, TokenType::BinNumber, old(self).start_idx as int, old(self).current_idx as int, CharClass::BinDigit, old(self).line as int),
            ),
    {
        self.consume_run(TokenType::BinNumber, CharClass::BinDigit);
    }

    /// Scans the rest of a word (letters, digits and `_`); a keyword gets its own kind.
    pub fn consume_identifier(&mut self)
        requires
            old(self).wf(),
        ensures
            final(self).applied(
                old(self),
                word_step(old(self).chars@, old(self).start_idx as int, old(self).current_idx as int, old(self).line as int),
            ),
    {
        self.consume_while(CharClass::IdentChar);
        proof {
            lemma_span_bounds(self.chars@, old(self).current_idx as int, CharClass::IdentChar);
        }
        let t = self.keyword();
        self.add_token(t);
        assert(self.errors@ =~= old(self).errors@ + seq![]);
        assert(self.tokens_view() =~= old(self).tokens_view() + opt_seq(
            word_step(old(self).chars@, old(self).start_idx as int, old(self).current_idx as int, old(self).line as int).token,
        ));
    }

    /// Scans a string literal whose opening quote was just consumed, up to
    /// its closing quote; the literal is the text between the quotes, and
    /// line breaks inside count as lines. Without a closing quote the string
    /// runs to the end of the source and an `UnterminatedString` error is
    /// reported as well.
    pub fn consume_string(&mut self)
        requires
            old(self).wf(),
        ensures
            final(self).applied(
                old(self),
                string_step(old(self).chars@, old(self).start_idx as int, old(self).current_idx as int, old(self).line as int),
            ),
    {
        let ghost src = self.chars@;
        let ghost i = old(self).current_idx as int;
        let ghost line0 = self.line as int;
        let body_start = self.current_idx;
        while !self.at_end() && self.peek() != '"'
            invariant
                self.wf(),
                self.same_input(old(self)),
                self.chars@ == src,
                i <= self.current_idx,
                body_start == i,
                span(src, i, CharClass::NotQuote) == span(src, self.current_idx as int, CharClass::NotQuote),
                self.line == line0 + newlines(src.subrange(i, self.current_idx as int)),
                self.tokens == old(self).tokens,
                self.errors == old(self).errors,
            decreases src.len() - self.current_idx,
        {
            let ghost cur = self.current_idx as int;
            assert(src.subrange(i, cur + 1).drop_last() =~= src.subrange(i, cur));
            proof {
                lemma_newlines_bound(src.subrange(i, cur));
            }
            let c = self.advance();
            if c == '\n' {
                self.line = self.line + 1;
            }
        }
        let lit = self.source.as_str().substring_char(body_start, self.current_idx).to_owned();
        if self.at_end() {
            self.add_literal(TokenType::String, Some(lit));
            self.errors.push(Error::UnterminatedString(self.line));
            assert(self.errors@ =~= old(self).errors@ + seq![Error::UnterminatedString(self.line)]);
        } else {
            self.advance();
            self.add_literal(TokenType::String, Some(lit));
            assert(self.errors@ =~= old(self).errors@ + seq![]);
        }
        assert(self.tokens_view() =~= old(self).tokens_view() + opt_seq(
            string_step(old(self).chars@, old(self).start_idx as int, old(self).current_idx as int, old(self).line as int).token,
        ));
    }

    /// Scans the token whose first character is at the current position;
    /// a token it appends starts at the token start.
    pub fn scan_token(&mut self)
        requires
            old(self).wf(),
            old(self).current_idx < old(self).chars@.len(),
        ensures
            final(self).applied(
                old(self),
                next_token(old(self).chars@, old(self).start_idx as int, old(self).current_idx as int, old(self).line as int),
            ),
    {
        proof {
            lemma_scan_progress(self.chars@, self.start_idx as int, self.current_idx as int, self.line as int);
        }
        let c = self.advance();
        if c == ' ' || c == '\r' || c == '\t' {
        } else if c == ';' {
            self.consume_comment();
            return;
        } else if c == '.' {
            self.consume_directive();
            return;
        } else if c == '$' {
            self.consume_hex_number();
            return;
        } else if c == '#' {
            self.consume_dec_number();
            return;
        } else if c == '!' {
            self.consume_bin_number();
            return;
        } else if ('a' <= c && c <= 'z') || ('A' <= c && c <= 'Z') {
            self.consume_identifier();
            return;
        } else if c == '"' {
            self.consume_string();
            return;
        } else if c == '\n' {
            self.line = self.line + 1;
        } else {
            self.errors.push(Error::InvalidCharacter(c));
            assert(self.tokens_view() =~= old(self).tokens_view() + seq![]);
            assert(self.errors@ =~= old(self).errors@ + seq![Error::InvalidCharacter(c)]);
            return;
        }
        assert(self.tokens_view() =~= old(self).tokens_view() + seq![]);
        assert(self.errors@ =~= old(self).errors@ + seq![]);
    }

    /// Scans the rest of the source; each token starts where its first
    /// character is.
    pub fn scan_tokens(&mut self)
        requires
            old(self).wf(),
        ensures
            final(self).wf(),
            final(self).source == old(self).source,
            final(self).current_idx == old(self).chars@.len(),
            final(self).tokens_view() == old(self).tokens_view() + lex(
                old(self).chars@,
                old(self).current_idx as int,
                old(self).line as int,
            ).0,
            final(self).errors@ == old(self).errors@ + lex(old(self).chars@, old(self).current_idx as int, old(self).line as int).1,
            final(self).line == lex(old(self).chars@, old(self).current_idx as int, old(self).line as int).2,
    {
        let ghost src = self.chars@;
        let ghost all = lex(src, self.current_idx as int, self.line as int);
        while !self.at_end()
            invariant
                self.wf(),
                self.source == old(self).source,
                self.chars@ == src,
                old(self).tokens_view() + all.0 == self.tokens_view() + lex(src, self.current_idx as int, self.line as int).0,
                old(self).errors@ + all.1 == self.errors@ + lex(src, self.current_idx as int, self.line as int).1,
                all.2 == lex(src, self.current_idx as int, self.line as int).2,
            decreases src.len() - self.current_idx,
        {
            let ghost before = *self;
            proof {
                lemma_scan_progress(src, self.current_idx as int, self.current_idx as int, self.line as int);
            }
            self.start_idx = self.current_idx;
            self.scan_token();
            proof {
                let st = next_token(src, before.current_idx as int, before.current_idx as int, before.line as int);
                let rest = lex(src, st.next, st.line);
                assert(lex(src, before.current_idx as int, before.line as int) == (opt_seq(st.token) + rest.0, opt_seq(st.error) + rest.1, rest.2));
                assert(before.tokens_view() + (opt_seq(st.token) + rest.0) =~= (before.tokens_view() + opt_seq(st.token)) + rest.0);
                assert(before.errors@ + (opt_seq(st.error) + rest.1) =~= (before.errors@ + opt_seq(st.error)) + rest.1);
            }
        }
        assert(lex(src, self.current_idx as int, self.line as int).0 =~= seq![]);
        assert(old(self).tokens_view() + all.0 =~= self.tokens_view() + seq![]);
        assert(old(self).errors@ + all.1 =~= self.errors@ + seq![]);
    }

    /// The text from the token start to the current position.
    fn lexeme(&self) -> (s: String)
        requires
            self.wf(),
        ensures
            s@ == self.chars@.subrange(self.start_idx as int, self.current_idx as int),
    {
        self.source.as_str().substring_char(self.start_idx, self.current_idx).to_owned()
    }

    /// Consumes the longest run of characters of class `k`.
    fn consume_while(&mut self, k: CharClass)
        requires
            old(self).wf(),
        ensures
            final(self).wf(),
            final(self).same_input(old(self)),
            final(self).current_idx == span(old(self).chars@, old(self).current_idx as int, k),
            final(self).line == old(self).line,
            final(self).tokens == old(self).tokens,
            final(self).errors == old(self).errors,
    {
        let ghost src = self.chars@;
        let ghost i0 = self.current_idx as int;
        while !self.at_end() && Self::in_class_exec(self.peek(), k)
            invariant
                self.wf(),
                self.same_input(old(self)),
                self.chars@ == src,
                i0 <= self.current_idx,
                span(src, i0, k) == span(src, self.current_idx as int, k),
                self.line == old(self).line,
                self.tokens == old(self).tokens,
                self.errors == old(self).errors,
            decreases src.len() - self.current_idx,
        {
            self.advance();
        }
    }

    fn in_class_exec(c: char, k: CharClass) -> (r: bool)
        ensures
            r == in_class(c, k),
    {
        let letter = ('a' <= c && c <= 'z') || ('A' <= c && c <= 'Z');
        let digit = '0' <= c && c <= '9';
        match k {
            CharClass::Letter => letter,
            CharClass::HexDigit => digit || ('a' <= c && c <= 'f') || ('A' <= c && c <= 'F'),
            CharClass::DecDigit => digit,
            CharClass::BinDigit => c == '0' || c == '1',
            CharClass::IdentChar => letter || digit || c == '_',
            CharClass::NotNewline => c != '\n',
            CharClass::NotQuote => c != '"',
        }
    }

    /// Whether the text from the token start to the current position is `k`.
    fn word_is(&self, k: &str) -> (r: bool)
        requires
            self.wf(),
        ensures
            r == (self.chars@.subrange(self.start_idx as int, self.current_idx as int) == k@),
    {
        let n = k.unicode_len();
        let ghost w = self.chars@.subrange(self.start_idx as int, self.current_idx as int);
        if n != self.current_idx - self.start_idx {
            return false;
        }
        let mut j: usize = 0;
        while j < n
            invariant
                self.wf(),
                n == k@.len(),
                n == w.len(),
                w == self.chars@.subrange(self.start_idx as int, self.current_idx as int),
                j <= n,
                forall|x: int| 0 <= x < j ==> w[x] == k@[x],
            decreases n - j,
        {
            if self.chars[self.start_idx + j] != k.get_char(j) {
                assert(w[j as int] != k@[j as int]);
                return false;
            }
            j = j + 1;
        }
        assert(w =~= k@);
        true
    }

    /// The kind of the word from the token start to the current position.
    fn keyword(&self) -> (t: TokenType)
        requires
            self.wf(),
        ensures
            t == keyword_type(self.chars@.subrange(self.start_idx as int, self.current_idx as int)),
    {
        if self.word_is("cp") { TokenType::Cp }
        else if self.word_is("add") { TokenType::Add }
        else if self.word_is("sub") { TokenType::Sub }
        else if self.word_is("mul") { TokenType::Mul }
        else if self.word_is("div") { TokenType::Div }
        else if self.word_is("xor") { TokenType::Xor }
        else if self.word_is("and") { TokenType::And }
        else if self.word_is("or") { TokenType::Or }
        else if self.word_is("not") { TokenType::Not }
        else if self.word_is("shl") { TokenType::Shl }
        else if self.word_is("shr") { TokenType::Shr }
        else if self.word_is("cmp") { TokenType::Cmp }
        else if self.word_is("be") { TokenType::Be }
        else if self.word_is("bne") { TokenType::Bne }
        else if self.word_is("bg") { TokenType::Bg }
        else if self.word_is("bge") { TokenType::Bge }
        else if self.word_is("bl") { TokenType::Bl }
        else if self.word_is("ble") { TokenType::Ble }
        else if self.word_is("bc") { TokenType::Bc }
        else if self.word_is("jmp") { TokenType::Jmp }
        else if self.word_is("call") { TokenType::Call }
        else if self.word_is("ret") { TokenType::Ret }
        else if self.word_is("puts") { TokenType::Puts }
        else if self.word_is("getc") { TokenType::Getc }
        else if self.word_is("halt") { TokenType::Halt }
        else { TokenType::Identifier }
    }
}

} // verus!
