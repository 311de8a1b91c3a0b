//! Closed enumerations of the ledger: token codes and request status.
use vstd::prelude::*;
use crate::text::str_equal;

verus! {

/// The tokens a transfer can move. Unrecognised codes fall back to `TokenA`.
#[derive(Clone, Copy, Debug, PartialEq, Eq, Structural)]
pub enum TokenCode {
    TokenA,
    TokenB,
    TokenC,
    TokenD,
    TokenE,
}

impl TokenCode {
    /// The registry key of this token.
    pub open spec fn spec_name(self) -> Seq<char> {
        match self {
            TokenCode::TokenA => "token_a"@,
            TokenCode::TokenB => "token_b"@,
            TokenCode::TokenC => "token_c"@,
            TokenCode::TokenD => "token_d"@,
            TokenCode::TokenE => "token_e"@,
        }
    }

    /// The token a registry key stands for; any other key means `TokenA`.
    pub open spec fn spec_from_name(name: Seq<char>) -> TokenCode {
        if name == "token_b"@ {
            TokenCode::TokenB
        } else if name == "token_c"@ {
            TokenCode::TokenC
        } else if name == "token_d"@ {
            TokenCode::TokenD
        } else if name == "token_e"@ {
            TokenCode::TokenE
        } else {
            TokenCode::TokenA
        }
    }

    /// The registry key of this token.
    pub fn name(&self) -> (r: &'static str)
        ensures
            r@ == self.spec_name(),
    {
        match self {
            TokenCode::TokenA => "token_a",
            TokenCode::TokenB => "token_b",
            TokenCode::TokenC => "token_c",
            TokenCode::TokenD => "token_d",
            TokenCode::TokenE => "token_e",
        }
    }

    /// Resolves a registry key such as `token_c`; unknown keys give `TokenA`.
    pub fn from_name(name: &str) -> (r: TokenCode)
        ensures
            r == Self::spec_from_name(name@),
    {
        if str_equal(name, "token_b") {
            TokenCode::TokenB
        } else if str_equal(name, "token_c") {
            TokenCode::TokenC
        } else if str_equal(name, "token_d") {
            TokenCode::TokenD
        } else if str_equal(name, "token_e") {
            TokenCode::TokenE
        } else {
            TokenCode::TokenA
        }
    }

    /// Resolves the short code carried on the wire (`a` for `token_a`).
    pub fn from_wire(code: &str) -> (r: TokenCode)
        ensures
            r == Self::spec_from_name("token_"@ + code@),
    {
        let name = String::from_str("token_").concat(code);
        Self::from_name(name.as_str())
    }
}

/// The lifecycle state of a ledger row.
#[derive(Clone, Copy, Debug, PartialEq, Eq, Structural)]
pub enum StatusChoice {
    Pending,
    Success,
    Fail,
}

impl StatusChoice {
    pub open spec fn spec_text(self) -> Seq<char> {
        match self {
            StatusChoice::Pending => "pending"@,
            StatusChoice::Success => "success"@,
            StatusChoice::Fail => "fail"@,
        }
    }

    /// The text stored in the `status` column.
    pub fn as_str(&self) -> (r: &'static str)
        ensures
            r@ == self.spec_text(),
    {
        match self {
            StatusChoice::Pending => "pending",
            StatusChoice::Success => "success",
            StatusChoice::Fail => "fail",
        }
    }
}

} // verus!
