//! The closed error taxonomy: lexical, f-string and parse failures, the
//! conversion of the grammar engine's failure reports, and the
//! classification predicates callers branch on.

use vstd::prelude::*;
use vstd::string::StringExecFns;

use crate::location::{location_text, Location};
use crate::token::{tok_debug_text, tok_text, Tok};
use lalrpop_util::ParseError as EngineReport;

verus! {

/// An error found during lexical scanning.
#[derive(Debug, PartialEq)]
pub struct LexicalError {
    pub error: LexicalErrorType,
    pub location: Location,
}

/// The reasons the tokenizer can refuse to produce a token stream.
#[derive(Debug, PartialEq)]
pub enum LexicalErrorType {
    StringError,
    UnicodeError,
    NestingError,
    IndentationError,
    TabError,
    DefaultArgumentError,
    PositionalArgumentError,
    DuplicateKeywordArgumentError,
    UnrecognizedToken { tok: char },
    FStringError(FStringErrorType),
    LineContinuationError,
    EOF,
    OtherError(String),
}

/// An error found while parsing an interpolated-string literal.
#[derive(Debug, PartialEq)]
pub struct FStringError {
    pub error: FStringErrorType,
    pub location: Location,
}

/// The reasons an interpolated-string literal can fail to parse. A
/// syntactically invalid inner expression carries the parse failure it
/// produced, boxed so the nesting does not grow this enum.
#[derive(Debug, PartialEq)]
pub enum FStringErrorType {
    UnclosedLbrace,
    UnopenedRbrace,
    ExpectedRbrace,
    InvalidExpression(Box<ParseErrorType>),
    InvalidConversionFlag,
    EmptyExpression,
    MismatchedDelimiter,
    ExpressionNestedTooDeeply,
}

/// An error found during parsing.
#[derive(Debug, PartialEq)]
pub struct ParseError {
    pub error: ParseErrorType,
    pub location: Location,
}

/// The reasons the grammar can reject the token stream, with lexical
/// failures flattened in as one variant.
#[derive(Debug, PartialEq)]
pub enum ParseErrorType {
    /// The parser encountered an unexpected end of input.
    EOF,
    /// The parser encountered an extra token.
    ExtraToken(Tok),
    /// The parser encountered an invalid token.
    InvalidToken,
    /// The parser encountered an unexpected token, with the expected token's
    /// name when exactly one was expected.
    UnrecognizedToken(Tok, Option<String>),
    /// The tokenizer failed; the failure surfaced through the engine's
    /// user-error channel.
    Lexical(LexicalErrorType),
}

/// The message a lexical failure renders as.
pub open spec fn lexical_text(e: LexicalErrorType) -> Seq<char>
    decreases e,
{
    match e {
        LexicalErrorType::StringError => "Got unexpected string"@,
        LexicalErrorType::UnicodeError => "Got unexpected unicode"@,
        LexicalErrorType::NestingError => "Got unexpected nesting"@,
        LexicalErrorType::IndentationError => "unindent does not match any outer indentation level"@,
        LexicalErrorType::TabError => "inconsistent use of tabs and spaces in indentation"@,
        LexicalErrorType::DefaultArgumentError => "non-default argument follows default argument"@,
        LexicalErrorType::PositionalArgumentError => "positional argument follows keyword argument"@,
        LexicalErrorType::DuplicateKeywordArgumentError => "keyword argument repeated"@,
        LexicalErrorType::UnrecognizedToken { tok } => "Got unexpected token "@ + seq![tok],
        LexicalErrorType::FStringError(err) => "Got error in f-string: "@ + fstring_text(err),
        LexicalErrorType::LineContinuationError => "unexpected character after line continuation character"@,
        LexicalErrorType::EOF => "unexpected EOF while parsing"@,
        LexicalErrorType::OtherError(msg) => msg@,
    }
}

/// The message an f-string failure renders as.
pub open spec fn fstring_text(e: FStringErrorType) -> Seq<char>
    decreases e,
{
    match e {
        FStringErrorType::UnclosedLbrace => "Unclosed '{'"@,
        FStringErrorType::UnopenedRbrace => "Unopened '}'"@,
        FStringErrorType::ExpectedRbrace => "Expected '}' after conversion flag."@,
        FStringErrorType::InvalidExpression(err) => "Invalid expression: "@ + parse_type_text(*err),
        FStringErrorType::InvalidConversionFlag => "Invalid conversion flag"@,
        FStringErrorType::EmptyExpression => "Empty expression"@,
        FStringErrorType::MismatchedDelimiter => "Mismatched delimiter"@,
        FStringErrorType::ExpressionNestedTooDeeply => "expressions nested too deeply"@,
    }
}

/// The single-name hint is the indent token's name.
pub open spec fn is_indent_hint(expected: Option<String>) -> bool {
    match expected {
        Some(name) => name@ == "Indent"@,
        None => false,
    }
}

/// The message a parse failure renders as. An unexpected indent token, and a
/// single expectation of one, render as indentation diagnoses instead of the
/// generic wording.
pub open spec fn parse_type_text(e: ParseErrorType) -> Seq<char>
    decreases e,
{
    match e {
        ParseErrorType::EOF => "Got unexpected EOF"@,
        ParseErrorType::ExtraToken(tok) => "Got extraneous token: "@ + tok_debug_text(tok),
        ParseErrorType::InvalidToken => "Got invalid token"@,
        ParseErrorType::UnrecognizedToken(tok, expected) => {
            if tok == Tok::Indent {
                "unexpected indent"@
            } else if is_indent_hint(expected) {
                "expected an indented block"@
            } else {
                "Got unexpected token "@ + tok_text(tok)
            }
        },
        ParseErrorType::Lexical(err) => lexical_text(err),
    }
}

/// The message a located parse failure renders as.
pub open spec fn parse_error_text(e: ParseError) -> Seq<char> {
    parse_type_text(e.error) + " at "@ + location_text(e.location)
}

/// Relies on char's ToString implementation: the rendering of a character is
/// that one character.
#[verifier::external_body]
fn char_string(c: char) -> (r: String)
    ensures
        r@ == seq![c],
{
    c.to_string()
}

impl LexicalErrorType {
    /// Renders the failure's message.
    pub fn text(&self) -> (r: String)
        ensures
            r@ == lexical_text(*self),
        decreases self,
    {
        match self {
            LexicalErrorType::StringError => String::from_str("Got unexpected string"),
            LexicalErrorType::UnicodeError => String::from_str("Got unexpected unicode"),
            LexicalErrorType::NestingError => String::from_str("Got unexpected nesting"),
            LexicalErrorType::IndentationError => String::from_str(
                "unindent does not match any outer indentation level",
            ),
            LexicalErrorType::TabError => String::from_str(
                "inconsistent use of tabs and spaces in indentation",
            ),
            LexicalErrorType::DefaultArgumentError => String::from_str(
                "non-default argument follows default argument",
            ),
            LexicalErrorType::PositionalArgumentError => String::from_str(
                "positional argument follows keyword argument",
            ),
            LexicalErrorType::DuplicateKeywordArgumentError => String::from_str(
                "keyword argument repeated",
            ),
            LexicalErrorType::UnrecognizedToken { tok } => {
                let mut r = String::from_str("Got unexpected token ");
                r.append(char_string(*tok).as_str());
                r
            },
            LexicalErrorType::FStringError(err) => {
                let mut r = String::from_str("Got error in f-string: ");
                r.append(err.text().as_str());
                r
            },
            LexicalErrorType::LineContinuationError => String::from_str(
                "unexpected character after line continuation character",
            ),
            LexicalErrorType::EOF => String::from_str("unexpected EOF while parsing"),
            LexicalErrorType::OtherError(msg) => msg.clone(),
        }
    }

    /// The underlying cause, for diagnostic cause chains: an f-string
    /// failure's nested reason, and nothing otherwise.
    pub fn cause(&self) -> (r: Option<&FStringErrorType>)
        ensures
            match *self {
                LexicalErrorType::FStringError(e) => r matches Some(c) && *c == e,
                _ => r is None,
            },
    {
        match self {
            LexicalErrorType::FStringError(e) => Some(e),
            _ => None,
        }
    }
}

impl FStringErrorType {
    /// Renders the failure's message.
    pub fn text(&self) -> (r: String)
        ensures
            r@ == fstring_text(*self),
        decreases self,
    {
        match self {
            FStringErrorType::UnclosedLbrace => String::from_str("Unclosed '{'"),
            FStringErrorType::UnopenedRbrace => String::from_str("Unopened '}'"),
            FStringErrorType::ExpectedRbrace => String::from_str(
                "Expected '}' after conversion flag.",
            ),
            FStringErrorType::InvalidExpression(err) => {
                let mut r = String::from_str("Invalid expression: ");
                r.append(err.text().as_str());
                r
            },
            FStringErrorType::InvalidConversionFlag => String::from_str("Invalid conversion flag"),
            FStringErrorType::EmptyExpression => String::from_str("Empty expression"),
            FStringErrorType::MismatchedDelimiter => String::from_str("Mismatched delimiter"),
            FStringErrorType::ExpressionNestedTooDeeply => String::from_str(
                "expressions nested too deeply",
            ),
        }
    }

    /// The underlying cause, for diagnostic cause chains: an invalid inner
    /// expression's parse failure, and nothing otherwise.
    pub fn cause(&self) -> (r: Option<&ParseErrorType>)
        ensures
            match *self {
                FStringErrorType::InvalidExpression(e) => r matches Some(c) && *c == *e,
                _ => r is None,
            },
    {
        match self {
            FStringErrorType::InvalidExpression(e) => Some(&**e),
            _ => None,
        }
    }
}

impl ParseErrorType {
    /// Renders the failure's message.
    pub fn text(&self) -> (r: String)
        ensures
            r@ == parse_type_text(*self),
        decreases self,
    {
        match self {
            ParseErrorType::EOF => String::from_str("Got unexpected EOF"),
            ParseErrorType::ExtraToken(tok) => {
                let mut r = String::from_str("Got extraneous token: ");
                r.append(tok.debug_text().as_str());
                r
            },
            ParseErrorType::InvalidToken => String::from_str("Got invalid token"),
            ParseErrorType::UnrecognizedToken(tok, expected) => {
                if matches!(tok, Tok::Indent) {
                    String::from_str("unexpected indent")
                } else if indent_hint(expected) {
                    String::from_str("expected an indented block")
                } else {
                    let mut r = String::from_str("Got unexpected token ");
                    r.append(tok.text().as_str());
                    r
                }
            },
            ParseErrorType::Lexical(err) => err.text(),
        }
    }

    /// The underlying cause, for diagnostic cause chains: a flattened lexical
    /// failure, and nothing otherwise.
    pub fn cause(&self) -> (r: Option<&LexicalErrorType>)
        ensures
            match *self {
                ParseErrorType::Lexical(e) => r matches Some(c) && *c == e,
                _ => r is None,
            },
    {
        match self {
            ParseErrorType::Lexical(e) => Some(e),
            _ => None,
        }
    }

    /// Whether this failure reflects indentation: the tokenizer's own
    /// indentation failure, an unexpected indent token, or a single
    /// expectation of one. Callers use it to decide that more input, not a
    /// hard failure, is the likely remedy.
    pub open spec fn spec_is_indentation_error(self) -> bool {
        match self {
            ParseErrorType::Lexical(LexicalErrorType::IndentationError) => true,
            ParseErrorType::UnrecognizedToken(token, expected) => token == Tok::Indent
                || is_indent_hint(expected),
            _ => false,
        }
    }

    /// Whether this failure reflects indentation.
    pub fn is_indentation_error(&self) -> (r: bool)
        ensures
            r == self.spec_is_indentation_error(),
    {
        match self {
            ParseErrorType::Lexical(LexicalErrorType::IndentationError) => true,
            ParseErrorType::UnrecognizedToken(token, expected) => matches!(token, Tok::Indent)
                || indent_hint(expected),
            _ => false,
        }
    }

    /// Whether this failure is the tokenizer's tab failure, and nothing else.
    pub fn is_tab_error(&self) -> (r: bool)
        ensures
            r == (self matches ParseErrorType::Lexical(LexicalErrorType::TabError)),
    {
        matches!(self, ParseErrorType::Lexical(LexicalErrorType::TabError))
    }
}

/// Whether the expected-token hint names the indent token.
fn indent_hint(expected: &Option<String>) -> (r: bool)
    ensures
        r == is_indent_hint(*expected),
{
    match expected {
        Some(name) => *name == String::from_str("Indent"),
        None => false,
    }
}

impl ParseError {
    /// Renders the failure as "{message} at {location}".
    pub fn text(&self) -> (r: String)
        ensures
            r@ == parse_error_text(*self),
    {
        let mut r = self.error.text();
        r.append(" at ");
        r.append(self.location.text().as_str());
        assert(r@ =~= parse_error_text(*self));
        r
    }

    /// The underlying cause, for diagnostic cause chains: the flattened
    /// lexical failure if there is one.
    pub fn cause(&self) -> (r: Option<&LexicalErrorType>)
        ensures
            match self.error {
                ParseErrorType::Lexical(e) => r matches Some(c) && *c == e,
                _ => r is None,
            },
    {
        self.error.cause()
    }
}

/// The failure reports the grammar engine can produce, as a closed shape the
/// conversion is total over.
pub enum EngineError {
    /// The engine found a token invalid at a position.
    InvalidToken { location: Location },
    /// The engine hit the end of the input where the grammar expected more.
    UnrecognizedEof { location: Location },
    /// The engine found a token the grammar does not allow here, with the
    /// names of the tokens it expected instead.
    UnrecognizedToken { token: Tok, location: Location, expected: Vec<String> },
    /// The engine found a token after the input should have ended.
    ExtraToken { token: Tok, location: Location },
    /// The tokenizer itself failed; the engine passes the failure through.
    User { error: LexicalError },
}

/// The hint surfaced to the user: the single expected token name when the
/// engine expected exactly one, and nothing when the expectation was absent
/// or ambiguous.
pub open spec fn expected_hint(expected: Seq<String>) -> Option<String> {
    if expected.len() == 1 {
        Some(expected[0])
    } else {
        None
    }
}

/// What converting each engine failure shape yields: an invalid token and an
/// unexpected end of input both collapse to `EOF` at the engine's position; an
/// extra or unrecognized token keeps the token and the engine's position; a
/// tokenizer failure is flattened, keeping its own position.
pub open spec fn converted(e: EngineError) -> ParseError {
    match e {
        EngineError::InvalidToken { location } => ParseError {
            error: ParseErrorType::EOF,
            location,
        },
        EngineError::UnrecognizedEof { location } => ParseError {
            error: ParseErrorType::EOF,
            location,
        },
        EngineError::UnrecognizedToken { token, location, expected } => ParseError {
            error: ParseErrorType::UnrecognizedToken(token, expected_hint(expected@)),
            location,
        },
        EngineError::ExtraToken { token, location } => ParseError {
            error: ParseErrorType::ExtraToken(token),
            location,
        },
        EngineError::User { error } => ParseError {
            error: ParseErrorType::Lexical(error.error),
            location: error.location,
        },
    }
}

/// Declares lalrpop_util::ParseError, the engine's failure report, so that it
/// can stand in signatures here. Its values stay opaque; `engine_error_shape`
/// recovers their shape.
#[verifier::external_type_specification]
#[verifier::external_body]
#[verifier::reject_recursive_types(L)]
#[verifier::reject_recursive_types(T)]
#[verifier::reject_recursive_types(E)]
pub struct ExEngineReport<L, T, E>(EngineReport<L, T, E>);

/// The shape of an engine report: which of the five variants it is, with the
/// fields the conversion reads. A report's shape is a function of the report
/// alone.
pub uninterp spec fn engine_shape(err: EngineReport<Location, Tok, LexicalError>) -> EngineError;

/// The engine report whose user-failure slot holds the given lexical error,
/// a function of that error alone.
pub uninterp spec fn user_report_of(e: LexicalError) -> EngineReport<Location, Tok, LexicalError>;

/// Relies on lalrpop_util::ParseError: the match tells its five variants
/// apart and moves their fields across unchanged; of a token's span only the
/// start is kept.
#[verifier::external_body]
fn engine_error_shape(err: EngineReport<Location, Tok, LexicalError>) -> (r:
    EngineError)
    ensures
        r == engine_shape(err),
{
    match err {
        EngineReport::InvalidToken { location } => EngineError::InvalidToken {
            location,
        },
        EngineReport::UnrecognizedEof { location, expected: _ } =>
            EngineError::UnrecognizedEof { location },
        EngineReport::UnrecognizedToken { token, expected } =>
            EngineError::UnrecognizedToken { token: token.1, location: token.0, expected },
        EngineReport::ExtraToken { token } => EngineError::ExtraToken {
            token: token.1,
            location: token.0,
        },
        EngineReport::User { error } => EngineError::User { error },
    }
}

/// Relies on lalrpop_util::ParseError::User: the constructor stores the error
/// it is given.
#[verifier::external_body]
fn user_engine_error(error: LexicalError) -> (r: EngineReport<Location, Tok, LexicalError>)
    ensures
        r == user_report_of(error),
{
    EngineReport::User { error }
}

impl ParseError {
    /// Converts an engine failure report into the domain taxonomy.
    pub fn from_engine(err: EngineError) -> (r: ParseError)
        ensures
            r == converted(err),
    {
        match err {
            EngineError::InvalidToken { location } => ParseError {
                error: ParseErrorType::EOF,
                location,
            },
            EngineError::UnrecognizedEof { location } => ParseError {
                error: ParseErrorType::EOF,
                location,
            },
            EngineError::UnrecognizedToken { token, location, expected } => {
                let hint = if expected.len() == 1 {
                    Some(expected[0].clone())
                } else {
                    None
                };
                ParseError { error: ParseErrorType::UnrecognizedToken(token, hint), location }
            },
            EngineError::ExtraToken { token, location } => ParseError {
                error: ParseErrorType::ExtraToken(token),
                location,
            },
            EngineError::User { error } => ParseError {
                error: ParseErrorType::Lexical(error.error),
                location: error.location,
            },
        }
    }

    /// Converts a failure report of the lalrpop engine. The report's shape
    /// is recovered by `engine_error_shape`; the conversion itself is
    /// `from_engine`, which pins the result for every shape.
    pub fn from_lalrpop(err: EngineReport<Location, Tok, LexicalError>) -> (r:
        ParseError)
        ensures
            r == converted(engine_shape(err)),
    {
        ParseError::from_engine(engine_error_shape(err))
    }
}

impl FStringError {
    /// The lexical-failure shape an f-string failure converts into: the same
    /// location, with the reason wrapped as `LexicalErrorType::FStringError`.
    pub open spec fn as_lexical(self) -> LexicalError {
        LexicalError {
            error: LexicalErrorType::FStringError(self.error),
            location: self.location,
        }
    }

    /// Wraps the f-string failure as a lexical failure at the same location,
    /// so it can flow through the engine's user-error channel like any other
    /// tokenizer failure.
    pub fn into_lexical(self) -> (r: LexicalError)
        ensures
            r == self.as_lexical(),
    {
        LexicalError {
            error: LexicalErrorType::FStringError(self.error),
            location: self.location,
        }
    }

    /// Hands the f-string failure to the lalrpop engine as its user-failure
    /// report, built from the wrapped lexical failure by `user_engine_error`.
    pub fn into_engine(self) -> (r: EngineReport<Location, Tok, LexicalError>)
        ensures
            r == user_report_of(self.as_lexical()),
    {
        user_engine_error(self.into_lexical())
    }
}

impl From<EngineError> for ParseError {
    /// Converts an engine failure report, as `from_engine` does.
    fn from(err: EngineError) -> (r: ParseError) {
        ParseError::from_engine(err)
    }
}

impl vstd::std_specs::convert::FromSpecImpl<EngineError> for ParseError {
    open spec fn obeys_from_spec() -> bool {
        true
    }

    open spec fn from_spec(e: EngineError) -> ParseError {
        converted(e)
    }
}

impl From<FStringError> for LexicalError {
    /// Wraps an f-string failure, as `into_lexical` does.
    fn from(err: FStringError) -> (r: LexicalError) {
        err.into_lexical()
    }
}

impl vstd::std_specs::convert::FromSpecImpl<FStringError> for LexicalError {
    open spec fn obeys_from_spec() -> bool {
        true
    }

    open spec fn from_spec(e: FStringError) -> LexicalError {
        e.as_lexical()
    }
}

/// Law: the one-vs-many expected-token rule. A set of exactly one expected
/// name is surfaced as the hint; an empty or ambiguous set is not.
pub proof fn lemma_expected_hint(expected: Seq<String>)
    ensures
        expected.len() == 1 ==> expected_hint(expected) == Some(expected[0]),
        expected.len() != 1 ==> expected_hint(expected) is None,
{
}

/// Law: converting an f-string failure into the lexical shape keeps the
/// nested reason intact; in particular, a parse failure carried inside
/// `InvalidExpression` comes through structurally unchanged.
pub proof fn lemma_as_lexical_preserves_nested(err: FStringError, inner: Box<ParseErrorType>)
    requires
        err.error == FStringErrorType::InvalidExpression(inner),
    ensures
        err.as_lexical() == (LexicalError {
            error: LexicalErrorType::FStringError(FStringErrorType::InvalidExpression(inner)),
            location: err.location,
        }),
{
}

/// Law: an f-string failure that flows through the engine's user-error
/// channel converts back into a parse failure that still carries the
/// f-string reason, at the f-string failure's own location.
pub proof fn lemma_fstring_round_trip(err: FStringError)
    ensures
        converted(EngineError::User { error: err.as_lexical() }) == (ParseError {
            error: ParseErrorType::Lexical(LexicalErrorType::FStringError(err.error)),
            location: err.location,
        }),
{
}

} // verus!
