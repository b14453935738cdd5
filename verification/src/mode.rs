//! Selection of the parsing entry point, parsed from a fixed set of strings.

use vstd::prelude::*;
use vstd::string::StringExecFns;

verus! {

/// Which entry point the parser starts from.
#[derive(Clone, Copy, PartialEq, Eq, Structural, Debug)]
pub enum Mode {
    /// Parse a whole program.
    Program,
    /// Parse a single statement.
    Statement,
}

/// The rejection of a string that names no mode.
#[derive(Debug)]
pub struct ModeParseError {
    _priv: (),
}

impl Mode {
    /// Parses a mode name: "exec" and "single" select `Program`, "eval"
    /// selects `Statement`, and anything else is rejected.
    pub fn parse(s: &str) -> (r: Result<Mode, ModeParseError>)
        ensures
            s@ == "exec"@ || s@ == "single"@ ==> r == Ok::<Mode, ModeParseError>(Mode::Program),
            s@ == "eval"@ ==> r == Ok::<Mode, ModeParseError>(Mode::Statement),
            s@ != "exec"@ && s@ != "single"@ && s@ != "eval"@ ==> r is Err,
    {
        proof {
            reveal_strlit("exec");
            reveal_strlit("single");
            reveal_strlit("eval");
            assert("eval"@[1] == 'v' && "exec"@[1] == 'x');
            assert("eval"@.len() == 4 && "single"@.len() == 6);
            assert("eval"@ != "exec"@ && "eval"@ != "single"@);
        }
        let owned = s.to_owned();
        if owned == String::from_str("exec") || owned == String::from_str("single") {
            Ok(Mode::Program)
        } else if owned == String::from_str("eval") {
            Ok(Mode::Statement)
        } else {
            Err(ModeParseError { _priv: () })
        }
    }
}

impl core::str::FromStr for Mode {
    type Err = ModeParseError;

    fn from_str(s: &str) -> Result<Mode, ModeParseError> {
        Mode::parse(s)
    }
}

impl ModeParseError {
    /// The fixed message a rejected mode string reports.
    pub fn text(&self) -> (r: String)
        ensures
            r@ == "mode should be \"exec\", \"eval\", or \"single\""@,
    {
        String::from_str("mode should be \"exec\", \"eval\", or \"single\"")
    }
}

} // verus!
