use vstd::prelude::*;
use vstd::string::*;

use crate::error::OpenPageError;

verus! {

/// Which side of a web page carries out page operations: the browser
/// driver tab, or the plain HTTP session.
#[derive(Clone, Copy, Debug, PartialEq, Eq, Structural)]
pub enum WebMode {
    Driver,
    Session,
}

/// The short code of a mode: `"d"` for driver, `"s"` for session.
pub open spec fn mode_code(mode: WebMode) -> Seq<char> {
    match mode {
        WebMode::Driver => seq!['d'],
        WebMode::Session => seq!['s'],
    }
}

/// The mode named by a code, ignoring ASCII case; `None` for any other text.
pub open spec fn mode_from_code(code: Seq<char>) -> Option<WebMode> {
    if code == seq!['d'] || code == seq!['D'] {
        Some(WebMode::Driver)
    } else if code == seq!['s'] || code == seq!['S'] {
        Some(WebMode::Session)
    } else {
        None
    }
}

pub open spec fn other_mode(mode: WebMode) -> WebMode {
    match mode {
        WebMode::Driver => WebMode::Session,
        WebMode::Session => WebMode::Driver,
    }
}

impl WebMode {
    pub fn as_str(self) -> (code: &'static str)
        ensures
            code@ == mode_code(self),
    {
        proof {
            reveal_strlit("d");
            reveal_strlit("s");
        }
        match self {
            WebMode::Driver => "d",
            WebMode::Session => "s",
        }
    }

    /// Reads a mode code, ignoring ASCII case: `d` is driver, `s` is session.
    pub fn parse(code: &str) -> (mode: Result<WebMode, OpenPageError>)
        ensures
            match mode_from_code(code@) {
                Some(m) => mode matches Ok(r) && r == m,
                None => mode matches Err(OpenPageError::InvalidMode(text)) && text@ == code@,
            },
    {
        if code.unicode_len() == 1 {
            let c = code.get_char(0);
            proof {
                assert(code@ =~= seq![c]);
            }
            if c == 'd' || c == 'D' {
                return Ok(WebMode::Driver);
            }
            if c == 's' || c == 'S' {
                return Ok(WebMode::Session);
            }
        }
        Err(OpenPageError::InvalidMode(code.to_owned()))
    }

    pub fn toggled(self) -> (other: WebMode)
        ensures
            other == other_mode(self),
    {
        match self {
            WebMode::Driver => WebMode::Session,
            WebMode::Session => WebMode::Driver,
        }
    }
}

} // verus!
