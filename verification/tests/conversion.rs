//! Conversion of the engine's failure reports, the classification
//! predicates, mode parsing, and the f-string nesting round trip.

use lalrpop_util::ParseError as EngineReport;
use parser_errors::error::{
    EngineError, FStringError, FStringErrorType, LexicalError, LexicalErrorType, ParseError,
    ParseErrorType,
};
use parser_errors::location::Location;
use parser_errors::mode::Mode;
use parser_errors::token::Tok;

fn loc(row: usize, column: usize) -> Location {
    Location::new(row, column)
}

#[test]
fn invalid_token_converts_to_eof() {
    let report: EngineReport<Location, Tok, LexicalError> =
        EngineReport::InvalidToken { location: loc(2, 5) };
    let error = ParseError::from_lalrpop(report);
    assert_eq!(error.error, ParseErrorType::EOF);
    assert_eq!(error.location, loc(2, 5));
}

#[test]
fn unrecognized_eof_converts_to_eof() {
    let report: EngineReport<Location, Tok, LexicalError> = EngineReport::UnrecognizedEof {
        location: loc(9, 1),
        expected: vec![String::from("Newline"), String::from("Indent")],
    };
    let error = ParseError::from_lalrpop(report);
    assert_eq!(error.error, ParseErrorType::EOF);
    assert_eq!(error.location, loc(9, 1));
}

#[test]
fn extra_token_keeps_token_and_start_position() {
    let report: EngineReport<Location, Tok, LexicalError> = EngineReport::ExtraToken {
        token: (loc(4, 7), Tok::Dedent, loc(4, 8)),
    };
    let error = ParseError::from_lalrpop(report);
    assert_eq!(error.error, ParseErrorType::ExtraToken(Tok::Dedent));
    assert_eq!(error.location, loc(4, 7));
}

#[test]
fn user_error_keeps_inner_location() {
    let report: EngineReport<Location, Tok, LexicalError> = EngineReport::User {
        error: LexicalError {
            error: LexicalErrorType::TabError,
            location: loc(6, 3),
        },
    };
    let error = ParseError::from_lalrpop(report);
    assert_eq!(error.error, ParseErrorType::Lexical(LexicalErrorType::TabError));
    assert_eq!(error.location, loc(6, 3));
}

#[test]
fn one_expected_token_becomes_the_hint() {
    let report: EngineReport<Location, Tok, LexicalError> = EngineReport::UnrecognizedToken {
        token: (loc(1, 1), Tok::Newline, loc(1, 2)),
        expected: vec![String::from("Indent")],
    };
    let error = ParseError::from_lalrpop(report);
    assert_eq!(
        error.error,
        ParseErrorType::UnrecognizedToken(Tok::Newline, Some(String::from("Indent")))
    );
    assert_eq!(error.location, loc(1, 1));
}

#[test]
fn zero_or_many_expected_tokens_give_no_hint() {
    for expected in [
        vec![],
        vec![String::from("Indent"), String::from("Newline")],
        vec![String::from("a"), String::from("b"), String::from("c")],
    ] {
        let report: EngineReport<Location, Tok, LexicalError> = EngineReport::UnrecognizedToken {
            token: (loc(1, 1), Tok::Newline, loc(1, 2)),
            expected,
        };
        let error = ParseError::from_lalrpop(report);
        assert_eq!(
            error.error,
            ParseErrorType::UnrecognizedToken(Tok::Newline, None)
        );
    }
}

#[test]
fn from_engine_matches_each_shape() {
    let error = ParseError::from_engine(EngineError::InvalidToken { location: loc(1, 2) });
    assert_eq!(error.error, ParseErrorType::EOF);
    assert_eq!(error.location, loc(1, 2));

    let error = ParseError::from_engine(EngineError::UnrecognizedEof { location: loc(3, 4) });
    assert_eq!(error.error, ParseErrorType::EOF);
    assert_eq!(error.location, loc(3, 4));

    let error = ParseError::from_engine(EngineError::ExtraToken {
        token: Tok::Indent,
        location: loc(5, 6),
    });
    assert_eq!(error.error, ParseErrorType::ExtraToken(Tok::Indent));
    assert_eq!(error.location, loc(5, 6));
}

#[test]
fn is_indentation_error_covers_the_three_shapes() {
    assert!(ParseErrorType::Lexical(LexicalErrorType::IndentationError).is_indentation_error());
    assert!(ParseErrorType::UnrecognizedToken(Tok::Indent, None).is_indentation_error());
    assert!(
        ParseErrorType::UnrecognizedToken(Tok::Newline, Some(String::from("Indent")))
            .is_indentation_error()
    );

    assert!(!ParseErrorType::Lexical(LexicalErrorType::TabError).is_indentation_error());
    assert!(!ParseErrorType::EOF.is_indentation_error());
    assert!(!ParseErrorType::InvalidToken.is_indentation_error());
    assert!(!ParseErrorType::ExtraToken(Tok::Indent).is_indentation_error());
    assert!(
        !ParseErrorType::UnrecognizedToken(Tok::Newline, Some(String::from("Newline")))
            .is_indentation_error()
    );
    assert!(!ParseErrorType::UnrecognizedToken(Tok::Newline, None).is_indentation_error());
}

#[test]
fn is_tab_error_only_for_lexical_tab_error() {
    assert!(ParseErrorType::Lexical(LexicalErrorType::TabError).is_tab_error());

    assert!(!ParseErrorType::Lexical(LexicalErrorType::IndentationError).is_tab_error());
    assert!(!ParseErrorType::EOF.is_tab_error());
    assert!(!ParseErrorType::InvalidToken.is_tab_error());
    assert!(!ParseErrorType::ExtraToken(Tok::Indent).is_tab_error());
    assert!(!ParseErrorType::UnrecognizedToken(Tok::Indent, None).is_tab_error());
}

#[test]
fn mode_parses_the_three_names() {
    assert_eq!(Mode::parse("exec").unwrap(), Mode::Program);
    assert_eq!(Mode::parse("single").unwrap(), Mode::Program);
    assert_eq!(Mode::parse("eval").unwrap(), Mode::Statement);
    assert!(Mode::parse("Exec").is_err());
    assert!(Mode::parse("").is_err());
    assert!(Mode::parse("foo").is_err());
}

#[test]
fn mode_parses_through_from_str() {
    assert_eq!("exec".parse::<Mode>().unwrap(), Mode::Program);
    assert_eq!("eval".parse::<Mode>().unwrap(), Mode::Statement);
    assert!("evall".parse::<Mode>().is_err());
}

#[test]
fn fstring_error_nesting_round_trip() {
    let inner = || {
        ParseErrorType::UnrecognizedToken(
            Tok::Name(String::from("x")),
            Some(String::from("Newline")),
        )
    };
    let err = FStringError {
        error: FStringErrorType::InvalidExpression(Box::new(inner())),
        location: loc(7, 8),
    };
    let lexical = err.into_lexical();
    assert_eq!(lexical.location, loc(7, 8));
    assert_eq!(
        lexical.error,
        LexicalErrorType::FStringError(FStringErrorType::InvalidExpression(Box::new(inner())))
    );
}

#[test]
fn fstring_error_through_engine_channel() {
    let err = FStringError {
        error: FStringErrorType::UnclosedLbrace,
        location: loc(2, 2),
    };
    let report = err.into_engine();
    let error = ParseError::from_lalrpop(report);
    assert_eq!(
        error.error,
        ParseErrorType::Lexical(LexicalErrorType::FStringError(
            FStringErrorType::UnclosedLbrace
        ))
    );
    assert_eq!(error.location, loc(2, 2));
}

#[test]
fn from_trait_mirrors_the_conversions() {
    let error = ParseError::from(EngineError::UnrecognizedEof { location: loc(8, 9) });
    assert_eq!(error.error, ParseErrorType::EOF);
    assert_eq!(error.location, loc(8, 9));

    let lexical = LexicalError::from(FStringError {
        error: FStringErrorType::UnopenedRbrace,
        location: loc(1, 3),
    });
    assert_eq!(
        lexical.error,
        LexicalErrorType::FStringError(FStringErrorType::UnopenedRbrace)
    );
    assert_eq!(lexical.location, loc(1, 3));
}

#[test]
fn cause_chain_is_structural() {
    let parse = ParseErrorType::Lexical(LexicalErrorType::FStringError(
        FStringErrorType::InvalidExpression(Box::new(ParseErrorType::EOF)),
    ));
    let lexical = parse.cause().expect("a lexical cause");
    let fstring = lexical.cause().expect("an f-string cause");
    let inner = fstring.cause().expect("a nested parse cause");
    assert_eq!(*inner, ParseErrorType::EOF);
    assert!(ParseErrorType::EOF.cause().is_none());
    assert!(LexicalErrorType::TabError.cause().is_none());
    assert!(FStringErrorType::EmptyExpression.cause().is_none());
}
