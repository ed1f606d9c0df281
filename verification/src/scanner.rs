//! The tokenizer: a state machine that is fed one character at a time.
use vstd::prelude::*;
use crate::error::LexError;
use crate::text::{all_digits, bounded_digits_value, chars_of, digits_value, is_blank, is_digit, same_text};
use crate::token::{tokens_view, Keyword, Token, TokenView};

verus! {

/// What the scanner is in the middle of.
#[derive(Clone, Copy, Debug, PartialEq, Eq, Structural)]
pub enum State {
    /// Between tokens.
    Empty,
    /// Inside a line comment, up to the next newline.
    Comment,
    /// After `:`, `.` or `/`, which the next character resolves.
    Unclear,
    /// Inside a string literal, right after a backslash.
    ReadingEscape,
    /// Inside a string literal.
    ReadingString,
    /// Inside an integer literal.
    ReadingInt,
    /// Inside an identifier or keyword.
    ReadingWord,
}

/// The scanner as a mathematical value.
pub struct ScannerView {
    /// The tokens completed so far.
    pub tokens: Seq<TokenView>,
    /// The characters collected for the token being read.
    pub buffer: Seq<char>,
    pub state: State,
    /// The first error met; once set, nothing changes any more.
    pub error: Option<LexError>,
}

/// A scanner: it is fed characters by `consume` and gives up its tokens in
/// `into_tokens`.
pub struct Scanner {
    tokens: Vec<Token>,
    buffer: String,
    state: State,
    error: Option<LexError>,
}

/// Digits `0` to `9`.
pub open spec fn integral(c: char) -> bool {
    is_digit(c)
}

/// Letters of the basic Latin alphabet, digits and the underscore.
pub open spec fn alphanumeric(c: char) -> bool {
    integral(c) || ('a' <= c && c <= 'z') || ('A' <= c && c <= 'Z') || c == '_'
}

/// The characters that start more than one token, or a comment.
pub open spec fn unclear(c: char) -> bool {
    c == ':' || c == '/' || c == '.'
}

/// The operator symbols.
pub open spec fn operator_symbol(c: char) -> bool {
    c == '+' || c == '-' || c == '*' || c == '/' || c == '&' || c == '!' || c == '=' || c == '<'
}

/// Whether `c` ends the token that is being read in `state`.
pub open spec fn ends_reading(state: State, c: char) -> bool {
    match state {
        State::ReadingInt => !integral(c),
        State::ReadingString => c == '"',
        State::ReadingWord => !alphanumeric(c),
        _ => false,
    }
}

/// The value of an integer literal: `None` where it is no run of at least
/// one digit or exceeds the 32-bit signed range.
pub open spec fn literal_value(digits: Seq<char>) -> Option<int> {
    if digits.len() > 0 && all_digits(digits) && digits_value(digits) <= 2147483647 {
        Some(digits_value(digits) as int)
    } else {
        None
    }
}

/// The token that a word is: a truth value, a keyword, or else an
/// identifier.
pub open spec fn word_value(word: Seq<char>) -> TokenView {
    if word == "true"@ {
        TokenView::Bool(true)
    } else if word == "false"@ {
        TokenView::Bool(false)
    } else if word == "var"@ {
        TokenView::Reserved(Keyword::Var)
    } else if word == "for"@ {
        TokenView::Reserved(Keyword::For)
    } else if word == "end"@ {
        TokenView::Reserved(Keyword::End)
    } else if word == "in"@ {
        TokenView::Reserved(Keyword::In)
    } else if word == "do"@ {
        TokenView::Reserved(Keyword::Do)
    } else if word == "read"@ {
        TokenView::Reserved(Keyword::Read)
    } else if word == "print"@ {
        TokenView::Reserved(Keyword::Print)
    } else if word == "int"@ {
        TokenView::Reserved(Keyword::Int)
    } else if word == "string"@ {
        TokenView::Reserved(Keyword::String)
    } else if word == "bool"@ {
        TokenView::Reserved(Keyword::Bool)
    } else if word == "assert"@ {
        TokenView::Reserved(Keyword::Assert)
    } else {
        TokenView::Identifier(word)
    }
}

/// What a character stands for after a backslash inside a string literal:
/// `\"`, `\\` and `\n` are escapes, any other pair is kept as it is.
pub open spec fn escaped(c: char) -> Seq<char> {
    if c == '"' || c == '\\' {
        seq![c]
    } else if c == 'n' {
        seq!['\n']
    } else {
        seq!['\\', c]
    }
}

/// The token that `:`, `.` or `/` is when the next character does not
/// extend it.
pub open spec fn prefix_value(stored: char) -> TokenView {
    if stored == ':' {
        TokenView::TypeDecl
    } else if stored == '.' {
        TokenView::Dot
    } else {
        TokenView::Operator(stored)
    }
}

impl ScannerView {
    /// A scanner that has seen nothing.
    pub open spec fn initial() -> ScannerView {
        ScannerView { tokens: Seq::empty(), buffer: Seq::empty(), state: State::Empty, error: None }
    }

    /// Between tokens, with `token` added.
    pub open spec fn emit(self, token: TokenView) -> ScannerView {
        ScannerView {
            tokens: self.tokens.push(token),
            buffer: Seq::empty(),
            state: State::Empty,
            error: self.error,
        }
    }

    /// In `state`, with `buffer` collected.
    pub open spec fn enter(self, state: State, buffer: Seq<char>) -> ScannerView {
        ScannerView { tokens: self.tokens, buffer, state, error: self.error }
    }

    /// Stopped by `error`.
    pub open spec fn fail(self, error: LexError) -> ScannerView {
        ScannerView {
            tokens: self.tokens,
            buffer: Seq::empty(),
            state: State::Empty,
            error: Some(error),
        }
    }

    /// What the buffer holds fits the state: nothing between tokens and
    /// in a comment, one character after an ambiguous one.
    pub open spec fn well_formed(self) -> bool {
        &&& self.state == State::Unclear ==> self.buffer.len() == 1
        &&& self.state == State::Empty || self.state == State::Comment ==> self.buffer.len() == 0
    }

    /// One character met between tokens.
    pub open spec fn idle_step(self, c: char) -> ScannerView {
        if c == '"' {
            self.enter(State::ReadingString, Seq::empty())
        } else if integral(c) {
            self.enter(State::ReadingInt, seq![c])
        } else if alphanumeric(c) {
            self.enter(State::ReadingWord, seq![c])
        } else if unclear(c) {
            self.enter(State::Unclear, seq![c])
        } else if operator_symbol(c) {
            self.emit(TokenView::Operator(c))
        } else if c == ')' {
            self.emit(TokenView::CloseParen)
        } else if c == '(' {
            self.emit(TokenView::OpenParen)
        } else if c == ';' {
            self.emit(TokenView::EndStatement)
        } else if is_blank(c) {
            self.enter(State::Empty, Seq::empty())
        } else {
            self.fail(LexError::IllegalCharacter(c))
        }
    }

    /// The token being read is complete: it joins the tokens, or the
    /// scanner fails where an integer literal is out of range.
    pub open spec fn complete(self) -> ScannerView {
        match self.state {
            State::ReadingInt => match literal_value(self.buffer) {
                Some(i) => self.emit(TokenView::Int(i)),
                None => self.fail(LexError::IntegerOutOfRange),
            },
            State::ReadingString => self.emit(TokenView::String(self.buffer)),
            State::ReadingWord => self.emit(word_value(self.buffer)),
            _ => self,
        }
    }

    /// A character handled between tokens, unless the scanner has failed.
    pub open spec fn resume(self, c: char) -> ScannerView {
        if self.error is Some {
            self
        } else {
            self.idle_step(c)
        }
    }

    /// The scanner after one more character.
    ///
    /// The character that ends an integer or a word is then read as the
    /// start of what follows; the quote that ends a string is used up.
    pub open spec fn step(self, c: char) -> ScannerView {
        if self.error is Some {
            self
        } else {
            match self.state {
                State::Empty => self.idle_step(c),
                State::Comment => if c == '\n' {
                    self.enter(State::Empty, Seq::empty())
                } else {
                    self
                },
                State::Unclear => {
                    let stored = self.buffer[0];
                    if stored == ':' && c == '=' {
                        self.emit(TokenView::Assignment)
                    } else if stored == '/' && c == '/' {
                        self.enter(State::Comment, Seq::empty())
                    } else if stored == '.' && c == '.' {
                        self.emit(TokenView::Range)
                    } else {
                        self.emit(prefix_value(stored)).idle_step(c)
                    }
                },
                State::ReadingEscape => self.enter(State::ReadingString, self.buffer + escaped(c)),
                State::ReadingString => if c == '\\' {
                    self.enter(State::ReadingEscape, self.buffer)
                } else if c == '"' {
                    self.complete()
                } else {
                    self.enter(State::ReadingString, self.buffer.push(c))
                },
                State::ReadingInt | State::ReadingWord => if ends_reading(self.state, c) {
                    self.complete().resume(c)
                } else {
                    self.enter(self.state, self.buffer.push(c))
                },
            }
        }
    }

    /// The scanner after the first `n` characters of `input`.
    pub open spec fn feed(input: Seq<char>, n: nat) -> ScannerView
        decreases n,
    {
        if n == 0 {
            ScannerView::initial()
        } else {
            ScannerView::feed(input, (n - 1) as nat).step(input[n - 1])
        }
    }

    /// What the scanner has to show when the input ends here: its tokens
    /// between tokens or inside a comment, an error anywhere else.
    pub open spec fn finish(self) -> Result<Seq<TokenView>, LexError> {
        match self.error {
            Some(e) => Err(e),
            None => match self.state {
                State::Empty | State::Comment => Ok(self.tokens),
                State::Unclear => Err(LexError::UnterminatedPrefix(self.buffer[0])),
                State::ReadingInt => Err(LexError::UnterminatedInteger),
                State::ReadingString | State::ReadingEscape => Err(LexError::UnterminatedString),
                State::ReadingWord => Err(LexError::UnterminatedWord),
            },
        }
    }
}

/// The tokens of a source text, or the first lexical error in it.
pub open spec fn scan_result(input: Seq<char>) -> Result<Seq<TokenView>, LexError> {
    ScannerView::feed(input, input.len()).finish()
}

/// Whether `short` is the beginning of `long`.
pub open spec fn begins<T>(short: Seq<T>, long: Seq<T>) -> bool {
    short.len() <= long.len() && long.take(short.len() as int) == short
}

/// A character adds tokens and takes none away, and it leaves a
/// well-formed scanner well-formed.
pub proof fn lemma_step_adds_tokens(scanner: ScannerView, c: char)
    requires
        scanner.well_formed(),
    ensures
        begins(scanner.tokens, scanner.step(c).tokens),
        scanner.step(c).tokens.len() <= scanner.tokens.len() + 2,
        scanner.step(c).well_formed(),
{
    let next = scanner.step(c);
    let n = scanner.tokens.len() as int;
    assert(scanner.tokens.push(prefix_value(c)).take(n) =~= scanner.tokens);
    assert forall|first: TokenView, second: TokenView|
        (#[trigger] scanner.tokens.push(first).push(second)).take(n) == scanner.tokens by {
        assert(scanner.tokens.push(first).push(second).take(n) =~= scanner.tokens);
    }
    assert forall|first: TokenView| (#[trigger] scanner.tokens.push(first)).take(n)
        == scanner.tokens by {
        assert(scanner.tokens.push(first).take(n) =~= scanner.tokens);
    }
    assert(scanner.tokens.take(n) =~= scanner.tokens);
}

/// Once the scanner has failed, no character changes it: the first error
/// is the one that the scan ends with.
pub proof fn lemma_error_is_final(scanner: ScannerView, c: char)
    requires
        scanner.error is Some,
    ensures
        scanner.step(c) == scanner,
        scanner.finish() == Err::<Seq<TokenView>, LexError>(scanner.error->0),
{
}

/// Blanks between tokens are skipped.
pub proof fn lemma_blank_is_skipped(scanner: ScannerView, c: char)
    requires
        scanner.well_formed(),
        scanner.error is None,
        scanner.state == State::Empty,
        is_blank(c),
    ensures
        scanner.step(c) == scanner,
{
    assert(scanner.buffer =~= Seq::empty());
}

/// Whether a scan ended as the model says.
pub open spec fn scan_matches(
    result: Result<Vec<Token>, LexError>,
    expected: Result<Seq<TokenView>, LexError>,
) -> bool {
    match result {
        Ok(tokens) => expected == Ok::<Seq<TokenView>, LexError>(tokens_view(tokens@)),
        Err(e) => expected == Err::<Seq<TokenView>, LexError>(e),
    }
}

/// Whether the character is a digit.
pub fn is_integral(c: char) -> (b: bool)
    ensures
        b == integral(c),
{
    '0' <= c && c <= '9'
}

/// Whether the character may stand in an identifier or keyword.
pub fn is_alphanumeric(c: char) -> (b: bool)
    ensures
        b == alphanumeric(c),
{
    is_integral(c) || ('a' <= c && c <= 'z') || ('A' <= c && c <= 'Z') || c == '_'
}

/// Whether the character starts more than one token, or a comment.
pub fn is_unclear(c: char) -> (b: bool)
    ensures
        b == unclear(c),
{
    c == ':' || c == '/' || c == '.'
}

/// Whether the character is an operator symbol.
pub fn is_operator(c: char) -> (b: bool)
    ensures
        b == operator_symbol(c),
{
    c == '+' || c == '-' || c == '*' || c == '/' || c == '&' || c == '!' || c == '=' || c == '<'
}

/// Whether `c` ends the integer, string or word that is being read.
pub fn read_end(state: &State, c: char) -> (b: bool)
    ensures
        b == ends_reading(*state, c),
{
    match state {
        State::ReadingInt => !is_integral(c),
        State::ReadingString => c == '"',
        State::ReadingWord => !is_alphanumeric(c),
        _ => false,
    }
}

/// The value of an integer literal, where it has one.
pub fn try_int(digits: &String) -> (value: Option<i32>)
    ensures
        value is Some <==> literal_value(digits@) is Some,
        value is Some ==> value->0 == literal_value(digits@)->0,
{
    let chars = chars_of(digits.as_str());
    assert(chars@.skip(0) =~= digits@);
    if chars.len() == 0 {
        return None;
    }
    match bounded_digits_value(&chars, 0, 2147483647) {
        Some(v) => Some(v as i32),
        None => None,
    }
}

/// Sorts a word into truth value, keyword or identifier.
pub fn word_token(word: String) -> (token: Token)
    ensures
        token@ == word_value(word@),
{
    let w = word.as_str();
    if same_text(w, "true") {
        Token::Bool(true)
    } else if same_text(w, "false") {
        Token::Bool(false)
    } else if same_text(w, "var") {
        Token::Reserved(Keyword::Var)
    } else if same_text(w, "for") {
        Token::Reserved(Keyword::For)
    } else if same_text(w, "end") {
        Token::Reserved(Keyword::End)
    } else if same_text(w, "in") {
        Token::Reserved(Keyword::In)
    } else if same_text(w, "do") {
        Token::Reserved(Keyword::Do)
    } else if same_text(w, "read") {
        Token::Reserved(Keyword::Read)
    } else if same_text(w, "print") {
        Token::Reserved(Keyword::Print)
    } else if same_text(w, "int") {
        Token::Reserved(Keyword::Int)
    } else if same_text(w, "string") {
        Token::Reserved(Keyword::String)
    } else if same_text(w, "bool") {
        Token::Reserved(Keyword::Bool)
    } else if same_text(w, "assert") {
        Token::Reserved(Keyword::Assert)
    } else {
        Token::Identifier(word)
    }
}

impl View for Scanner {
    type V = ScannerView;

    closed spec fn view(&self) -> ScannerView {
        ScannerView {
            tokens: tokens_view(self.tokens@),
            buffer: self.buffer@,
            state: self.state,
            error: self.error,
        }
    }
}

impl Scanner {
    /// A scanner that has seen nothing.
    pub fn new() -> (scanner: Scanner)
        ensures
            scanner@ == ScannerView::initial(),
    {
        let scanner = Scanner {
            tokens: Vec::new(),
            buffer: String::new(),
            state: State::Empty,
            error: None,
        };
        assert(scanner@.tokens =~= Seq::empty());
        scanner
    }

    /// Adds a token and goes back between tokens.
    fn emit(&mut self, token: Token)
        ensures
            final(self)@ == old(self)@.emit(token@),
    {
        self.tokens.push(token);
        self.buffer = String::new();
        self.state = State::Empty;
        assert(self@.tokens =~= old(self)@.tokens.push(token@));
    }

    /// Stops the scan with `error`.
    fn fail(&mut self, error: LexError)
        ensures
            final(self)@ == old(self)@.fail(error),
    {
        self.buffer = String::new();
        self.state = State::Empty;
        self.error = Some(error);
    }

    /// Changes the state and keeps the buffer.
    fn enter(&mut self, state: State)
        ensures
            final(self)@ == old(self)@.enter(state, old(self)@.buffer),
    {
        self.state = state;
    }

    /// Starts a token with its first character.
    fn start(&mut self, state: State, c: char)
        requires
            old(self)@.buffer.len() == 0,
        ensures
            final(self)@ == old(self)@.enter(state, seq![c]),
    {
        self.buffer.push(c);
        self.state = state;
        assert(self@.buffer =~= seq![c]);
    }

    /// Handles a character met between tokens.
    fn consume_idle(&mut self, c: char)
        requires
            old(self)@.buffer.len() == 0,
            old(self)@.state == State::Empty,
        ensures
            final(self)@ == old(self)@.idle_step(c),
            final(self)@.well_formed(),
    {
        if c == '"' {
            self.enter(State::ReadingString);
            assert(self@.buffer =~= Seq::empty());
        } else if is_integral(c) {
            self.start(State::ReadingInt, c);
        } else if is_alphanumeric(c) {
            self.start(State::ReadingWord, c);
        } else if is_unclear(c) {
            self.start(State::Unclear, c);
        } else if is_operator(c) {
            self.emit(Token::Operator(c));
        } else if c == ')' {
            self.emit(Token::CloseParen);
        } else if c == '(' {
            self.emit(Token::OpenParen);
        } else if c == ';' {
            self.emit(Token::EndStatement);
        } else if crate::text::blank(c) {
            assert(self@.buffer =~= Seq::empty());
        } else {
            self.fail(LexError::IllegalCharacter(c));
        }
    }

    /// Completes the integer, string or word that is being read.
    fn add_token(&mut self)
        requires
            old(self)@.state == State::ReadingInt || old(self)@.state == State::ReadingString
                || old(self)@.state == State::ReadingWord,
        ensures
            final(self)@ == old(self)@.complete(),
            final(self)@.buffer.len() == 0,
            final(self)@.state == State::Empty,
    {
        let mut text = String::new();
        std::mem::swap(&mut self.buffer, &mut text);
        match self.state {
            State::ReadingInt => match try_int(&text) {
                Some(i) => self.emit(Token::Int(i)),
                None => self.fail(LexError::IntegerOutOfRange),
            },
            State::ReadingString => self.emit(Token::String(text)),
            _ => {
                let token = word_token(text);
                self.emit(token)
            },
        }
    }

    /// Feeds the scanner one character of the source text.
    pub fn consume(&mut self, c: char)
        requires
            old(self)@.well_formed(),
        ensures
            final(self)@ == old(self)@.step(c),
            final(self)@.well_formed(),
    {
        if self.error.is_some() {
            return ;
        }
        match self.state {
            State::Empty => {
                self.consume_idle(c);
            },
            State::Comment => {
                if c == '\n' {
                    self.state = State::Empty;
                    assert(self@.buffer =~= Seq::empty());
                }
            },
            State::Unclear => {
                let stored = self.buffer.as_str().get_char(0);
                if stored == ':' && c == '=' {
                    self.emit(Token::Assignment);
                } else if stored == '/' && c == '/' {
                    self.buffer = String::new();
                    self.state = State::Comment;
                } else if stored == '.' && c == '.' {
                    self.emit(Token::Range);
                } else {
                    if stored == ':' {
                        self.emit(Token::TypeDecl);
                    } else if stored == '.' {
                        self.emit(Token::Dot);
                    } else {
                        self.emit(Token::Operator(stored));
                    }
                    self.consume_idle(c);
                }
            },
            State::ReadingEscape => {
                if c == '"' || c == '\\' {
                    self.buffer.push(c);
                } else if c == 'n' {
                    self.buffer.push('\n');
                } else {
                    self.buffer.push('\\');
                    self.buffer.push(c);
                }
                self.state = State::ReadingString;
                assert(self@.buffer =~= old(self)@.buffer + escaped(c));
            },
            State::ReadingString => {
                if c == '\\' {
                    self.state = State::ReadingEscape;
                } else if c == '"' {
                    self.add_token();
                } else {
                    self.buffer.push(c);
                }
            },
            State::ReadingInt | State::ReadingWord => {
                if read_end(&self.state, c) {
                    self.add_token();
                    if self.error.is_none() {
                        self.consume_idle(c);
                    }
                } else {
                    self.buffer.push(c);
                }
            },
        }
    }

    /// Ends the scan: the tokens, if the input may end here.
    pub fn into_tokens(self) -> (result: Result<Vec<Token>, LexError>)
        requires
            self@.well_formed(),
        ensures
            scan_matches(result, self@.finish()),
    {
        match self.error {
            Some(e) => Err(e),
            None => match self.state {
                State::Empty | State::Comment => Ok(self.tokens),
                State::Unclear => Err(
                    LexError::UnterminatedPrefix(self.buffer.as_str().get_char(0)),
                ),
                State::ReadingInt => Err(LexError::UnterminatedInteger),
                State::ReadingString | State::ReadingEscape => Err(LexError::UnterminatedString),
                State::ReadingWord => Err(LexError::UnterminatedWord),
            },
        }
    }
}

/// Splits a source text into its tokens.
pub fn scan(input: &str) -> (result: Result<Vec<Token>, LexError>)
    ensures
        scan_matches(result, scan_result(input@)),
{
    let mut scanner = Scanner::new();
    for c in it: input.chars()
        invariant
            it.seq() == input@,
            scanner@.well_formed(),
            scanner@ == ScannerView::feed(input@, it.index() as nat),
    {
        scanner.consume(c);
    }
    scanner.into_tokens()
}

} // verus!
