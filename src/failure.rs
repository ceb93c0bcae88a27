//! Why a step, and so an installation run, failed.
use vstd::prelude::*;

verus! {

/// The decimal digit `d` as a character.
pub open spec fn digit_char(d: nat) -> char {
    "0123456789"@[d as int]
}

/// The decimal notation of `n`, without leading zeros.
pub open spec fn decimal(n: nat) -> Seq<char>
    decreases n,
{
    if n < 10 {
        seq![digit_char(n)]
    } else {
        decimal(n / 10).push(digit_char(n % 10))
    }
}

/// The decimal notation of `n`, with a leading `-` when negative.
pub open spec fn signed_decimal(n: int) -> Seq<char> {
    if n < 0 {
        seq!['-'] + decimal((-n) as nat)
    } else {
        decimal(n as nat)
    }
}

fn digit_text(d: u64) -> (r: &'static str)
    requires
        d < 10,
    ensures
        r@ == seq![digit_char(d as nat)],
{
    proof {
        reveal_strlit("0123456789");
    }
    match d {
        0 => {
            proof {
                reveal_strlit("0");
            }
            "0"
        },
        1 => {
            proof {
                reveal_strlit("1");
            }
            "1"
        },
        2 => {
            proof {
                reveal_strlit("2");
            }
            "2"
        },
        3 => {
            proof {
                reveal_strlit("3");
            }
            "3"
        },
        4 => {
            proof {
                reveal_strlit("4");
            }
            "4"
        },
        5 => {
            proof {
                reveal_strlit("5");
            }
            "5"
        },
        6 => {
            proof {
                reveal_strlit("6");
            }
            "6"
        },
        7 => {
            proof {
                reveal_strlit("7");
            }
            "7"
        },
        8 => {
            proof {
                reveal_strlit("8");
            }
            "8"
        },
        _ => {
            proof {
                reveal_strlit("9");
            }
            "9"
        },
    }
}

/// The decimal notation of `n`.
pub fn decimal_text(n: u64) -> (r: String)
    ensures
        r@ == decimal(n as nat),
    decreases n,
{
    if n < 10 {
        digit_text(n).to_owned()
    } else {
        let mut r = decimal_text(n / 10);
        r.append(digit_text(n % 10));
        r
    }
}

/// The decimal notation of `n`, with a leading `-` when negative.
pub fn signed_decimal_text(n: i32) -> (r: String)
    ensures
        r@ == signed_decimal(n as int),
{
    if n < 0 {
        let magnitude: u64 = (0i64 - n as i64) as u64;
        let mut r = "-".to_owned();
        proof {
            reveal_strlit("-");
        }
        r.append(decimal_text(magnitude).as_str());
        r
    } else {
        decimal_text(n as u64)
    }
}

/// A failure of one step. Steps return it to the sequencer, which hands it back
/// to the caller unchanged.
#[derive(PartialEq, Eq, Debug)]
pub enum Failure {
    /// The login has fewer than 4 characters; `length` is its length.
    LoginTooShort { length: usize },
    /// The login is longer than 30 characters.
    LoginInvalid,
    /// The password has fewer than 4 characters; `length` is its length.
    PasswordTooShort { length: usize },
    /// The virtual environment's activate script is not where it should be.
    ActivateScriptMissing { path: String },
    /// An external command, run for `operation`, exited unsuccessfully.
    CommandFailed { operation: String, exit_code: i32, stderr: String },
    /// An external operation could not be carried out at all.
    Io { operation: String, detail: String },
}

impl Failure {
    /// The message shown to the user.
    pub open spec fn text(&self) -> Seq<char> {
        match self {
            Failure::LoginTooShort { length } => "User login is too short. Minimum length is 4 characters. Current length: "@
                + decimal(*length as nat),
            Failure::LoginInvalid => "User login is not valid or not specified. Installation script stopped"@,
            Failure::PasswordTooShort { length } => "User password is too short. Minimum length is 4 characters. Current length: "@
                + decimal(*length as nat),
            Failure::ActivateScriptMissing { path } => "Virtual environment activate script not found: "@
                + path@,
            Failure::CommandFailed { operation, exit_code, stderr } => operation@
                + ": Command failed with exit code "@ + signed_decimal(*exit_code as int) + ": "@
                + stderr@,
            Failure::Io { operation, detail } => operation@ + ": "@ + detail@,
        }
    }

    pub fn message(&self) -> (r: String)
        ensures
            r@ == self.text(),
    {
        match self {
            Failure::LoginTooShort { length } => {
                let mut r =
                    "User login is too short. Minimum length is 4 characters. Current length: ".to_owned();
                r.append(decimal_text(*length as u64).as_str());
                r
            },
            Failure::LoginInvalid => {
                "User login is not valid or not specified. Installation script stopped".to_owned()
            },
            Failure::PasswordTooShort { length } => {
                let mut r =
                    "User password is too short. Minimum length is 4 characters. Current length: ".to_owned();
                r.append(decimal_text(*length as u64).as_str());
                r
            },
            Failure::ActivateScriptMissing { path } => {
                let mut r = "Virtual environment activate script not found: ".to_owned();
                r.append(path.as_str());
                r
            },
            Failure::CommandFailed { operation, exit_code, stderr } => {
                let mut r = operation.clone();
                r.append(": Command failed with exit code ");
                r.append(signed_decimal_text(*exit_code).as_str());
                r.append(": ");
                r.append(stderr.as_str());
                r
            },
            Failure::Io { operation, detail } => {
                let mut r = operation.clone();
                r.append(": ");
                r.append(detail.as_str());
                r
            },
        }
    }
}

} // verus!
