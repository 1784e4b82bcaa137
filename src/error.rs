use vstd::prelude::*;

verus! {

/// Why an operation on the wallpaper failed.
#[derive(Debug, PartialEq, Eq)]
pub enum WallpaperError {
    /// The desktop environment is not one that this library knows.
    UnsupportedDesktop,
    /// The desktop environment is known, but the operation is not written for it.
    Unimplemented,
    /// A command ended without success; `code` is its exit code, or -1 where it had none.
    Exited { command: String, code: i32 },
    /// A settings tool printed nothing but white space where a value was expected.
    EmptyOutput,
}

/// The code that an exit status is reported with: its exit code, or -1 where
/// the process had none (it was ended by a signal).
pub open spec fn reported_code(code: Option<i32>) -> i32 {
    match code {
        Some(k) => k,
        None => -1i32,
    }
}

/// `e` is the failure of `command` that ended with `code`.
pub open spec fn is_exit_error(e: WallpaperError, command: Seq<char>, code: Option<i32>) -> bool {
    match e {
        WallpaperError::Exited { command: c, code: k } => c@ == command && k == reported_code(code),
        _ => false,
    }
}

/// The failure of `command`, which ended with `code`.
pub fn exit_error(command: &str, code: Option<i32>) -> (e: WallpaperError)
    ensures
        is_exit_error(e, command@, code),
{
    let k: i32 = match code {
        Some(k) => k,
        None => -1,
    };
    WallpaperError::Exited { command: String::from_str(command), code: k }
}

/// The decimal digit for `d`, below 10.
pub open spec fn digit(d: nat) -> char {
    "0123456789"@[d as int]
}

/// The decimal digits of `n`, without leading zeros.
pub open spec fn digits(n: nat) -> Seq<char>
    decreases n,
{
    if n < 10 {
        seq![digit(n)]
    } else {
        digits(n / 10) + seq![digit(n % 10)]
    }
}

/// `k` written in decimal, with a minus sign where it is negative.
pub open spec fn decimal(k: int) -> Seq<char> {
    if k < 0 {
        seq!['-'] + digits((-k) as nat)
    } else {
        digits(k as nat)
    }
}

/// `k` written in decimal.
fn decimal_string(k: i32) -> (r: String)
    ensures
        r@ == decimal(k as int),
{
    proof {
        reveal_strlit("0123456789");
        reveal_strlit("-");
    }
    let table = "0123456789";
    let magnitude: u64 = if k < 0 {
        (-(k as i64)) as u64
    } else {
        k as u64
    };
    let mut n: u64 = magnitude;
    let d = (n % 10) as usize;
    let mut out = String::from_str(table.substring_char(d, d + 1));
    n = n / 10;
    while n > 0
        invariant
            table@ == "0123456789"@,
            table@.len() == 10,
            digits(magnitude as nat) == if n == 0 {
                out@
            } else {
                digits(n as nat) + out@
            },
        decreases n,
    {
        let d = (n % 10) as usize;
        let front = String::from_str(table.substring_char(d, d + 1));
        let ghost before = out@;
        out = front.concat(out.as_str());
        assert(digits(n as nat) + before =~= if n / 10 == 0 {
            out@
        } else {
            digits((n / 10) as nat) + out@
        });
        n = n / 10;
    }
    if k < 0 {
        let sign = String::from_str("-");
        sign.concat(out.as_str())
    } else {
        out
    }
}

impl WallpaperError {
    /// The text that reports this error.
    pub open spec fn message_spec(&self) -> Seq<char> {
        match self {
            WallpaperError::UnsupportedDesktop => "unsupported desktop"@,
            WallpaperError::Unimplemented => "TODO"@,
            WallpaperError::Exited { command, code } => command@ + " exited with status code "@
                + decimal(*code as int),
            WallpaperError::EmptyOutput => "empty output"@,
        }
    }

    /// The text that reports this error, such as
    /// `dconf exited with status code 1`.
    pub fn message(&self) -> (r: String)
        ensures
            r@ == self.message_spec(),
    {
        match self {
            WallpaperError::UnsupportedDesktop => String::from_str("unsupported desktop"),
            WallpaperError::Unimplemented => String::from_str("TODO"),
            WallpaperError::Exited { command, code } => {
                let mut text = command.clone();
                text.append(" exited with status code ");
                let number = decimal_string(*code);
                text.append(number.as_str());
                text
            },
            WallpaperError::EmptyOutput => String::from_str("empty output"),
        }
    }
}

} // verus!
