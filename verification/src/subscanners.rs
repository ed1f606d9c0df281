//! Scanners for one kind of token each: they are fed the characters of one
//! token and tell where it ends.
use vstd::prelude::*;
use crate::scanner::{
    alphanumeric, escaped, integral, is_alphanumeric, is_integral, literal_value, try_int,
    word_token, word_value,
};
use crate::token::{Token, TokenView};

verus! {

/// Collects an identifier or keyword.
pub struct WordScanner {
    buffer: String,
}

impl View for WordScanner {
    type V = Seq<char>;

    closed spec fn view(&self) -> Seq<char> {
        self.buffer@
    }
}

impl WordScanner {
    /// A scanner that has collected nothing.
    pub fn new() -> (scanner: WordScanner)
        ensures
            scanner@ == Seq::<char>::empty(),
    {
        WordScanner { buffer: String::new() }
    }

    /// Takes `c` where it belongs to a word; says whether the word is over.
    pub fn consume(&mut self, c: char) -> (over: bool)
        ensures
            over == !alphanumeric(c),
            final(self)@ == (if over {
                old(self)@
            } else {
                old(self)@.push(c)
            }),
    {
        if is_alphanumeric(c) {
            self.buffer.push(c);
            false
        } else {
            true
        }
    }

    /// The truth value, keyword or identifier that was collected.
    pub fn into_token(self) -> (token: Token)
        ensures
            token@ == word_value(self@),
    {
        word_token(self.buffer)
    }
}

/// Collects an integer literal.
pub struct IntScanner {
    buffer: String,
}

impl View for IntScanner {
    type V = Seq<char>;

    closed spec fn view(&self) -> Seq<char> {
        self.buffer@
    }
}

impl IntScanner {
    /// A scanner that has collected nothing.
    pub fn new() -> (scanner: IntScanner)
        ensures
            scanner@ == Seq::<char>::empty(),
    {
        IntScanner { buffer: String::new() }
    }

    /// Takes `c` where it is a digit; says whether the literal is over.
    pub fn consume(&mut self, c: char) -> (over: bool)
        ensures
            over == !integral(c),
            final(self)@ == (if over {
                old(self)@
            } else {
                old(self)@.push(c)
            }),
    {
        if is_integral(c) {
            self.buffer.push(c);
            false
        } else {
            true
        }
    }

    /// Whether the digits collected are a literal that 32 bits hold.
    pub fn is_literal(&self) -> (b: bool)
        ensures
            b == literal_value(self@) is Some,
    {
        try_int(&self.buffer).is_some()
    }

    /// The integer that was collected.
    pub fn into_token(self) -> (token: Token)
        requires
            literal_value(self@) is Some,
        ensures
            token@ == TokenView::Int(literal_value(self@)->0),
    {
        Token::Int(try_int(&self.buffer).unwrap())
    }
}

/// The state of a string scanner as a mathematical value.
pub struct StringScannerView {
    /// The characters of the literal so far, escapes resolved.
    pub buffer: Seq<char>,
    /// Whether the last character was a backslash that starts an escape.
    pub escaping: bool,
}

impl StringScannerView {
    /// The state after one more character of the literal. The closing
    /// quote changes nothing.
    pub open spec fn step(self, c: char) -> StringScannerView {
        if self.escaping {
            StringScannerView { buffer: self.buffer + escaped(c), escaping: false }
        } else if c == '"' {
            self
        } else if c == '\\' {
            StringScannerView { buffer: self.buffer, escaping: true }
        } else {
            StringScannerView { buffer: self.buffer.push(c), escaping: false }
        }
    }
}

/// Collects a string literal after its opening quote.
pub struct StringScanner {
    buffer: String,
    escaping: bool,
}

impl View for StringScanner {
    type V = StringScannerView;

    closed spec fn view(&self) -> StringScannerView {
        StringScannerView { buffer: self.buffer@, escaping: self.escaping }
    }
}

impl StringScanner {
    /// A scanner right after the opening quote.
    pub fn new() -> (scanner: StringScanner)
        ensures
            scanner@ == (StringScannerView { buffer: Seq::empty(), escaping: false }),
    {
        StringScanner { buffer: String::new(), escaping: false }
    }

    /// The literal that was collected.
    pub fn into_token(self) -> (token: Token)
        ensures
            token@ == TokenView::String(self@.buffer),
    {
        Token::String(self.buffer)
    }

    /// Takes one character of the literal; says whether it was the closing
    /// quote.
    pub fn consume(&mut self, c: char) -> (over: bool)
        ensures
            over == (!old(self)@.escaping && c == '"'),
            final(self)@ == old(self)@.step(c),
    {
        if self.escaping {
            self.push_escaped(c);
            return false;
        }
        if c == '"' {
            true
        } else {
            if c == '\\' {
                self.escaping = true;
            } else {
                self.buffer.push(c);
            }
            false
        }
    }

    /// Takes the character after a backslash.
    fn push_escaped(&mut self, c: char)
        ensures
            final(self)@ == (StringScannerView {
                buffer: old(self)@.buffer + escaped(c),
                escaping: false,
            }),
    {
        if c == '\\' || c == '"' {
            self.buffer.push(c);
        } else if c == 'n' {
            self.buffer.push('\n');
        } else {
            self.buffer.push('\\');
            self.buffer.push(c);
        }
        self.escaping = false;
        assert(self@.buffer =~= old(self)@.buffer + escaped(c));
    }
}

/// Where a comment scanner stands.
#[derive(Clone, Copy, Debug, PartialEq, Eq, Structural)]
pub enum CommentState {
    /// In a comment that the next newline ends.
    Line,
    /// In a comment that `*/` ends.
    Multiline,
    /// In such a comment, right after a `*`.
    MultilineEnding,
}

/// The state after one more character of a comment, and whether the
/// comment is over. After `*`, only `/` ends the comment; any other
/// character, a second `*` too, leads back into it.
pub open spec fn comment_step(state: CommentState, c: char) -> (CommentState, bool) {
    match state {
        CommentState::Line => (state, c == '\n'),
        CommentState::Multiline => if c == '*' {
            (CommentState::MultilineEnding, false)
        } else {
            (state, false)
        },
        CommentState::MultilineEnding => if c == '/' {
            (state, true)
        } else {
            (CommentState::Multiline, false)
        },
    }
}

/// Skips a comment.
pub struct CommentScanner {
    pub state: CommentState,
}

impl CommentScanner {
    /// Takes one character of the comment; says whether the comment is
    /// over.
    pub fn consume(&mut self, c: char) -> (over: bool)
        ensures
            (final(self).state, over) == comment_step(old(self).state, c),
    {
        match self.state {
            CommentState::Line => c == '\n',
            CommentState::Multiline => {
                if c == '*' {
                    self.state = CommentState::MultilineEnding;
                }
                false
            },
            CommentState::MultilineEnding => {
                if c == '/' {
                    true
                } else {
                    self.state = CommentState::Multiline;
                    false
                }
            },
        }
    }
}

} // verus!
