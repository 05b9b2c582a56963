//! Colour annotation of diagnostic text.
//!
//! A diagnostic marks three kinds of text: its header, the data that caused
//! the failure, and the data that was required instead. Each kind is shown in
//! one fixed terminal colour, by wrapping the text in ANSI escape codes.

use vstd::prelude::*;
use crate::text::{
    contains_text, lemma_occurs_after_lead, lemma_occurs_before_tail, lemma_occurs_in_itself,
    occurs_at,
};

verus! {

/// The terminal colours that diagnostics are painted in.
#[derive(Debug, Clone, Copy, PartialEq, Eq, Structural)]
pub enum Tint {
    Red,
    Green,
    Yellow,
}

/// What a highlighted piece of a diagnostic stands for.
#[derive(Debug, Clone, Copy, PartialEq, Eq, Structural)]
pub enum Role {
    /// The fixed title that opens every diagnostic.
    Header,
    /// The failing side: operand types, bad identifiers, received counts.
    Faulty,
    /// The required side: expected counts and types.
    Expected,
}

impl Role {
    /// The colour that this role is shown in.
    pub open spec fn tint_of(self) -> Tint {
        match self {
            Role::Header => Tint::Red,
            Role::Faulty => Tint::Yellow,
            Role::Expected => Tint::Green,
        }
    }

    /// Returns the colour that this role is shown in.
    pub fn tint(self) -> (tint: Tint)
        ensures
            tint == self.tint_of(),
    {
        match self {
            Role::Header => Tint::Red,
            Role::Faulty => Tint::Yellow,
            Role::Expected => Tint::Green,
        }
    }
}

/// The escape code that switches the terminal's foreground to `tint`.
pub open spec fn start_code(tint: Tint) -> Seq<char> {
    match tint {
        Tint::Red => "\x1B[31m"@,
        Tint::Green => "\x1B[32m"@,
        Tint::Yellow => "\x1B[33m"@,
    }
}

/// The escape code that returns the terminal to its normal style.
pub open spec fn reset_code() -> Seq<char> {
    "\x1B[0m"@
}

/// `text` between the code that starts `tint` and the code that resets it.
pub open spec fn painted(tint: Tint, text: Seq<char>) -> Seq<char> {
    start_code(tint) + text + reset_code()
}

/// `text` in the colour of `role`.
pub open spec fn highlighted(role: Role, text: Seq<char>) -> Seq<char> {
    painted(role.tint_of(), text)
}

/// Highlighting keeps the text: it stands, unchanged, right after the code
/// that starts the colour.
pub proof fn lemma_highlighted_holds_text(role: Role, text: Seq<char>)
    ensures
        occurs_at(highlighted(role, text), text, start_code(role.tint_of()).len() as int),
        contains_text(highlighted(role, text), text),
{
    let start = start_code(role.tint_of());
    lemma_occurs_in_itself(text);
    lemma_occurs_after_lead(start, text, text, 0);
    lemma_occurs_before_tail(start + text, reset_code(), text, start.len() as int);
}

/// Paints `text` in `tint`: calls `nu_ansi_term::Color::paint` and formats the
/// painted string through its `Display`.
///
/// Not proved here, taken from that crate: a string painted in a plain
/// foreground colour is written as the colour's prefix (`ESC [ 3 1 m` for red,
/// `3 2` for green, `3 3` for yellow), then the text as it is, then the reset
/// suffix `ESC [ 0 m`.
#[verifier::external_body]
fn paint(tint: Tint, text: &str) -> (out: String)
    ensures
        out@ == painted(tint, text@),
{
    let color = match tint {
        Tint::Red => nu_ansi_term::Color::Red,
        Tint::Green => nu_ansi_term::Color::Green,
        Tint::Yellow => nu_ansi_term::Color::Yellow,
    };
    color.paint(text).to_string()
}

/// Wraps `text` in the colour of `role`.
pub fn highlight(role: Role, text: &str) -> (out: String)
    ensures
        out@ == highlighted(role, text@),
{
    paint(role.tint(), text)
}

} // verus!
