//! Text assembly with optional bold and underline escapes for terminals.
use vstd::prelude::*;
use vstd::string::*;

verus! {

/// Escape sequence that starts bold text.
pub const BOLD: &'static str = "\x1B[1m";

/// Escape sequence that starts underlined text.
pub const UNDERLINE: &'static str = "\x1B[4m";

/// Escape sequence that ends styled text.
pub const RESET: &'static str = "\x1B[0m";

/// `s` in bold when writing for a terminal, else `s` itself.
pub open spec fn bold_text(is_terminal: bool, s: Seq<char>) -> Seq<char> {
    if is_terminal {
        BOLD@ + s + RESET@
    } else {
        s
    }
}

/// `s` in bold and underlined when writing for a terminal, else `s` itself.
pub open spec fn bold_underline_text(is_terminal: bool, s: Seq<char>) -> Seq<char> {
    if is_terminal {
        BOLD@ + UNDERLINE@ + s + RESET@
    } else {
        s
    }
}

/// Accumulates text.
#[derive(Debug)]
pub struct Formatter {
    text: String,
    is_terminal: bool,
}

impl View for Formatter {
    type V = Seq<char>;

    closed spec fn view(&self) -> Seq<char> {
        self.text@
    }
}

impl Formatter {
    /// Whether styles are written.
    pub closed spec fn for_terminal(&self) -> bool {
        self.is_terminal
    }

    /// Makes an empty formatter; styles are written only when `is_terminal` holds.
    pub fn new(is_terminal: bool) -> (r: Self)
        ensures
            r@ == Seq::<char>::empty(),
            r.for_terminal() == is_terminal,
    {
        Formatter { text: String::new(), is_terminal }
    }

    /// Whether styles are written.
    pub fn is_terminal(&self) -> (r: bool)
        ensures
            r == self.for_terminal(),
    {
        self.is_terminal
    }

    /// Appends `s`.
    pub fn write(&mut self, s: &str)
        ensures
            final(self)@ == old(self)@ + s@,
            final(self).for_terminal() == old(self).for_terminal(),
    {
        self.text.append(s);
    }

    /// Returns `s` in bold (when writing for a terminal).
    pub fn bold(&self, s: &str) -> (r: String)
        ensures
            r@ == bold_text(self.for_terminal(), s@),
    {
        if self.is_terminal {
            let mut r = String::from_str(BOLD);
            r.append(s);
            r.append(RESET);
            r
        } else {
            String::from_str(s)
        }
    }

    /// Returns `s` in bold and underlined (when writing for a terminal).
    pub fn bold_underline(&self, s: &str) -> (r: String)
        ensures
            r@ == bold_underline_text(self.for_terminal(), s@),
    {
        if self.is_terminal {
            let mut r = String::from_str(BOLD);
            r.append(UNDERLINE);
            r.append(s);
            r.append(RESET);
            r
        } else {
            String::from_str(s)
        }
    }

    /// Hands out the text.
    pub fn finish(self) -> (r: String)
        ensures
            r@ == self@,
    {
        self.text
    }
}

} // verus!
