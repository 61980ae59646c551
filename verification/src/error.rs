use libc::c_int;
use vstd::prelude::*;
use vstd::string::StringExecFns;

verus! {

/// The decimal digit that stands for `d`.
pub open spec fn digit_char(d: int) -> char {
    if d == 0 {
        '0'
    } else if d == 1 {
        '1'
    } else if d == 2 {
        '2'
    } else if d == 3 {
        '3'
    } else if d == 4 {
        '4'
    } else if d == 5 {
        '5'
    } else if d == 6 {
        '6'
    } else if d == 7 {
        '7'
    } else if d == 8 {
        '8'
    } else {
        '9'
    }
}

/// The digits of a natural number in base ten, most significant first, without leading zeros.
pub open spec fn digits(n: nat) -> Seq<char>
    decreases n,
{
    if n < 10 {
        seq![digit_char(n as int)]
    } else {
        digits(n / 10).push(digit_char((n % 10) as int))
    }
}

/// An integer written in base ten, with a minus sign in front where it is negative.
pub open spec fn decimal(n: int) -> Seq<char> {
    if n < 0 {
        seq!['-'] + digits((-n) as nat)
    } else {
        digits(n as nat)
    }
}

/// The text that stands for a status code when the session has none of its own.
pub open spec fn generic_message(major: int) -> Seq<char> {
    "Kerberos Error: "@ + decimal(major)
}

fn digit_str(d: u64) -> (text: &'static str)
    requires
        d < 10,
    ensures
        text@ == seq![digit_char(d as int)],
{
    proof {
        reveal_strlit("0");
        reveal_strlit("1");
        reveal_strlit("2");
        reveal_strlit("3");
        reveal_strlit("4");
        reveal_strlit("5");
        reveal_strlit("6");
        reveal_strlit("7");
        reveal_strlit("8");
        reveal_strlit("9");
    }
    let text: &'static str = if d == 0 {
        "0"
    } else if d == 1 {
        "1"
    } else if d == 2 {
        "2"
    } else if d == 3 {
        "3"
    } else if d == 4 {
        "4"
    } else if d == 5 {
        "5"
    } else if d == 6 {
        "6"
    } else if d == 7 {
        "7"
    } else if d == 8 {
        "8"
    } else {
        "9"
    };
    assert(text@ =~= seq![digit_char(d as int)]);
    text
}

fn digits_string(n: u64) -> (text: String)
    ensures
        text@ == digits(n as nat),
    decreases n,
{
    if n < 10 {
        String::from_str(digit_str(n))
    } else {
        let head = digits_string(n / 10);
        let text = head.concat(digit_str(n % 10));
        assert(text@ =~= digits(n as nat));
        text
    }
}

/// Writes a status code in base ten.
pub fn decimal_string(n: c_int) -> (text: String)
    ensures
        text@ == decimal(n as int),
{
    if n < 0 {
        proof {
            reveal_strlit("-");
        }
        let magnitude: u64 = (-(n as i64)) as u64;
        let tail = digits_string(magnitude);
        let text = String::from_str("-").concat(tail.as_str());
        assert(text@ =~= decimal(n as int));
        text
    } else {
        digits_string(n as u64)
    }
}

/// A failure that the native library reported: its status code, and the text
/// that the session held for it, where that text was fetched and could be read.
#[derive(Debug, Clone, PartialEq, Eq)]
pub struct Krb5Error {
    major: c_int,
    diagnostic: Option<String>,
}

/// What a `Krb5Error` holds, as plain values.
pub struct Krb5ErrorView {
    pub major: c_int,
    pub diagnostic: Option<Seq<char>>,
}

impl Krb5ErrorView {
    /// The text shown for the failure: the session's own where there is one,
    /// else the generic one that names the code.
    pub open spec fn description(self) -> Seq<char> {
        match self.diagnostic {
            Some(text) => text,
            None => generic_message(self.major as int),
        }
    }
}

/// The view of an optional text.
pub open spec fn text_view(text: Option<String>) -> Option<Seq<char>> {
    match text {
        Some(s) => Some(s@),
        None => None,
    }
}

impl View for Krb5Error {
    type V = Krb5ErrorView;

    closed spec fn view(&self) -> Krb5ErrorView {
        Krb5ErrorView { major: self.major, diagnostic: text_view(self.diagnostic) }
    }
}

impl Krb5Error {
    /// A failure with no text of the session's: there was none to ask, or none to read.
    pub fn new(major: c_int) -> (e: Krb5Error)
        ensures
            e@ == (Krb5ErrorView { major, diagnostic: None }),
    {
        Krb5Error { major, diagnostic: None }
    }

    /// A failure together with what the session's diagnostic fetch gave for it.
    pub fn from_context(message: Option<String>, major: c_int) -> (e: Krb5Error)
        ensures
            e@ == (Krb5ErrorView { major, diagnostic: text_view(message) }),
    {
        match message {
            Some(msg) => Krb5Error { major, diagnostic: Some(msg) },
            None => Krb5Error::new(major),
        }
    }

    /// The status code of the native call that failed.
    pub fn major(&self) -> (major: c_int)
        ensures
            major == self@.major,
    {
        self.major
    }

    /// The session's text for the failure, where it has one.
    pub fn diagnostic(&self) -> (text: Option<&String>)
        ensures
            text matches Some(s) ==> self@.diagnostic == Some(s@),
            text is None <==> self@.diagnostic is None,
    {
        self.diagnostic.as_ref()
    }

    /// The text shown for the failure.
    pub fn description(&self) -> (text: String)
        ensures
            text@ == self@.description(),
    {
        match &self.diagnostic {
            Some(msg) => msg.clone(),
            None => {
                let number = decimal_string(self.major);
                String::from_str("Kerberos Error: ").concat(number.as_str())
            },
        }
    }
}

/// Why an operation of this library failed.
#[derive(Debug, Clone, PartialEq, Eq)]
pub enum Error {
    /// The native library reported a failure.
    Krb5(Krb5Error),
    /// The bytes that the native library handed back are no UTF-8 text.
    FromUtf8,
    /// The name holds a zero byte, at this index, and so cannot be a C string.
    Nul(usize),
}

/// What an `Error` holds, as plain values.
pub enum ErrorView {
    Krb5(Krb5ErrorView),
    FromUtf8,
    Nul(usize),
}

impl ErrorView {
    /// The text shown for the failure.
    pub open spec fn description(self) -> Seq<char> {
        match self {
            ErrorView::Krb5(e) => e.description(),
            ErrorView::FromUtf8 => "invalid utf-8"@,
            ErrorView::Nul(_) => "nul byte found in data"@,
        }
    }

    /// The status code, where the native library reported the failure.
    pub open spec fn code(self) -> Option<c_int> {
        match self {
            ErrorView::Krb5(e) => Some(e.major),
            _ => None,
        }
    }
}

impl View for Error {
    type V = ErrorView;

    open spec fn view(&self) -> ErrorView {
        match self {
            Error::Krb5(e) => ErrorView::Krb5(e@),
            Error::FromUtf8 => ErrorView::FromUtf8,
            Error::Nul(at) => ErrorView::Nul(*at),
        }
    }
}

impl Error {
    /// The text shown for the failure.
    pub fn description(&self) -> (text: String)
        ensures
            text@ == self@.description(),
    {
        match self {
            Error::Krb5(e) => e.description(),
            Error::FromUtf8 => String::from_str("invalid utf-8"),
            Error::Nul(_) => String::from_str("nul byte found in data"),
        }
    }

    /// The status code, where the native library reported the failure.
    pub fn code(&self) -> (code: Option<c_int>)
        ensures
            code == self@.code(),
    {
        match self {
            Error::Krb5(e) => Some(e.major()),
            _ => None,
        }
    }
}

} // verus!
