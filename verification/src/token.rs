//! A minimal model of the tokens the grammar engine hands back inside its
//! failure reports. The one value the error taxonomy singles out is the
//! indent token.

use vstd::prelude::*;
use vstd::string::StringExecFns;

verus! {

/// A token carried by an engine failure report.
#[derive(Debug, PartialEq)]
pub enum Tok {
    /// The distinguished indentation token.
    Indent,
    /// The end of an indented block.
    Dedent,
    /// The end of a logical line.
    Newline,
    /// The end of the input.
    EndOfFile,
    /// Any other token, carried as its source text.
    Name(String),
}

/// The text a token renders as in user-facing messages.
pub open spec fn tok_text(t: Tok) -> Seq<char> {
    match t {
        Tok::Indent => "indent"@,
        Tok::Dedent => "dedent"@,
        Tok::Newline => "newline"@,
        Tok::EndOfFile => "EOF"@,
        Tok::Name(s) => "'"@ + s@ + "'"@,
    }
}

/// The text a token renders as in diagnostics that echo its structure.
pub open spec fn tok_debug_text(t: Tok) -> Seq<char> {
    match t {
        Tok::Indent => "Indent"@,
        Tok::Dedent => "Dedent"@,
        Tok::Newline => "Newline"@,
        Tok::EndOfFile => "EndOfFile"@,
        Tok::Name(s) => "Name(\""@ + s@ + "\")"@,
    }
}

impl Tok {
    /// Renders the token for user-facing messages.
    pub fn text(&self) -> (r: String)
        ensures
            r@ == tok_text(*self),
    {
        match self {
            Tok::Indent => String::from_str("indent"),
            Tok::Dedent => String::from_str("dedent"),
            Tok::Newline => String::from_str("newline"),
            Tok::EndOfFile => String::from_str("EOF"),
            Tok::Name(s) => {
                let mut r = String::from_str("'");
                r.append(s.as_str());
                r.append("'");
                assert(r@ =~= tok_text(*self));
                r
            },
        }
    }

    /// Renders the token for diagnostics that echo its structure.
    pub fn debug_text(&self) -> (r: String)
        ensures
            r@ == tok_debug_text(*self),
    {
        match self {
            Tok::Indent => String::from_str("Indent"),
            Tok::Dedent => String::from_str("Dedent"),
            Tok::Newline => String::from_str("Newline"),
            Tok::EndOfFile => String::from_str("EndOfFile"),
            Tok::Name(s) => {
                let mut r = String::from_str("Name(\"");
                r.append(s.as_str());
                r.append("\")");
                assert(r@ =~= tok_debug_text(*self));
                r
            },
        }
    }
}

} // verus!
