use crate::error::{text_view, Error};
use libc::c_int;
use vstd::prelude::*;
use vstd::slice::slice_to_vec;
use vstd::string::StringSliceAdditionalSpecFns;
use vstd::utf8::{decode_utf8, valid_utf8};

verus! {

/// A session handle of the native library: the address it handed out, zero for none.
#[allow(non_camel_case_types)]
#[derive(Clone, Copy, Debug, PartialEq, Eq, Structural)]
pub struct krb5_context {
    pub addr: usize,
}

/// An identity handle of the native library: the address of the parsed
/// principal, zero while nothing has been parsed into it.
#[allow(non_camel_case_types)]
#[derive(Clone, Copy, Debug, PartialEq, Eq, Structural)]
pub struct krb5_principal {
    pub addr: usize,
}

impl krb5_context {
    /// The handle that stands for no session.
    pub fn null() -> (handle: krb5_context)
        ensures
            handle.addr == 0,
    {
        krb5_context { addr: 0 }
    }

    pub open spec fn spec_is_null(&self) -> bool {
        self.addr == 0
    }

    #[verifier::when_used_as_spec(spec_is_null)]
    pub fn is_null(&self) -> (null: bool)
        ensures
            null == (self.addr == 0),
    {
        self.addr == 0
    }
}

impl krb5_principal {
    /// The handle of an identity that has not been parsed yet.
    pub fn null() -> (handle: krb5_principal)
        ensures
            handle.addr == 0,
    {
        krb5_principal { addr: 0 }
    }

    pub open spec fn spec_is_null(&self) -> bool {
        self.addr == 0
    }

    #[verifier::when_used_as_spec(spec_is_null)]
    pub fn is_null(&self) -> (null: bool)
        ensures
            null == (self.addr == 0),
    {
        self.addr == 0
    }
}

/// One operation of the native library, with the arguments to hand it. The
/// library decides which operation comes next; whoever holds the native
/// library performs it and answers with a `Reply`.
#[derive(Debug, Clone, PartialEq, Eq)]
pub enum Call {
    /// `krb5_init_context`: open a session.
    InitContext,
    /// `krb5_free_context`: close the session.
    FreeContext { context: krb5_context },
    /// `krb5_parse_name`: parse the C string `name` into an identity.
    ParseName { context: krb5_context, name: Vec<u8> },
    /// `krb5_free_principal`: release an identity.
    FreePrincipal { context: krb5_context, val: krb5_principal },
    /// `krb5_aname_to_localname`: write the local name of `aname` as a C
    /// string of at most `size` bytes into `lname`.
    AnameToLocalname { context: krb5_context, aname: krb5_principal, size: c_int, lname: Vec<u8> },
    /// `krb5_get_error_message`: the session's text for a status code.
    GetErrorMessage { context: krb5_context, code: c_int },
    /// `krb5_clear_error_message`: empty the session's diagnostic slot.
    ClearErrorMessage { context: krb5_context },
    /// `krb5_free_error_message`: release a text that was fetched.
    FreeErrorMessage { context: krb5_context, message: usize },
}

/// What a `Call` holds, as plain values.
pub enum CallView {
    InitContext,
    FreeContext { context: krb5_context },
    ParseName { context: krb5_context, name: Seq<u8> },
    FreePrincipal { context: krb5_context, val: krb5_principal },
    AnameToLocalname { context: krb5_context, aname: krb5_principal, size: c_int, lname: Seq<u8> },
    GetErrorMessage { context: krb5_context, code: c_int },
    ClearErrorMessage { context: krb5_context },
    FreeErrorMessage { context: krb5_context, message: usize },
}

impl View for Call {
    type V = CallView;

    open spec fn view(&self) -> CallView {
        match self {
            Call::InitContext => CallView::InitContext,
            Call::FreeContext { context } => CallView::FreeContext { context: *context },
            Call::ParseName { context, name } => CallView::ParseName {
                context: *context,
                name: name@,
            },
            Call::FreePrincipal { context, val } => CallView::FreePrincipal {
                context: *context,
                val: *val,
            },
            Call::AnameToLocalname { context, aname, size, lname } => CallView::AnameToLocalname {
                context: *context,
                aname: *aname,
                size: *size,
                lname: lname@,
            },
            Call::GetErrorMessage { context, code } => CallView::GetErrorMessage {
                context: *context,
                code: *code,
            },
            Call::ClearErrorMessage { context } => CallView::ClearErrorMessage {
                context: *context,
            },
            Call::FreeErrorMessage { context, message } => CallView::FreeErrorMessage {
                context: *context,
                message: *message,
            },
        }
    }
}

impl CallView {
    /// The session that the operation works on; none for the one that opens it.
    pub open spec fn context(self) -> Option<krb5_context> {
        match self {
            CallView::InitContext => None,
            CallView::FreeContext { context } => Some(context),
            CallView::ParseName { context, .. } => Some(context),
            CallView::FreePrincipal { context, .. } => Some(context),
            CallView::AnameToLocalname { context, .. } => Some(context),
            CallView::GetErrorMessage { context, .. } => Some(context),
            CallView::ClearErrorMessage { context } => Some(context),
            CallView::FreeErrorMessage { context, .. } => Some(context),
        }
    }
}

/// What came back from a native operation: its status code, the handle it
/// produced and the bytes it left behind. An operation fills in what it has
/// and leaves the rest at zero and empty.
///
/// | operation | `code` | `handle` | `data` |
/// |---|---|---|---|
/// | `InitContext` | status | the session | |
/// | `ParseName` | status | the identity | |
/// | `AnameToLocalname` | status | | the buffer after the call |
/// | `GetErrorMessage` | | the text's address | the bytes at that address |
#[derive(Debug, Clone, PartialEq, Eq)]
pub struct Reply {
    pub code: c_int,
    pub handle: usize,
    pub data: Vec<u8>,
}

/// What a `Reply` holds, as plain values.
pub struct ReplyView {
    pub code: c_int,
    pub handle: usize,
    pub data: Seq<u8>,
}

impl View for Reply {
    type V = ReplyView;

    open spec fn view(&self) -> ReplyView {
        ReplyView { code: self.code, handle: self.handle, data: self.data@ }
    }
}

/// Whether a zero byte occurs in `bytes`.
pub open spec fn has_nul(bytes: Seq<u8>) -> bool {
    bytes.contains(0u8)
}

/// The length of the C string that `bytes` starts with: the index of the first
/// zero byte, or the whole length where no byte is zero.
pub open spec fn c_strlen(bytes: Seq<u8>) -> int {
    match bytes.index_of_first(0u8) {
        Some(at) => at,
        None => bytes.len() as int,
    }
}

/// The C string that `bytes` starts with, without its terminator.
pub open spec fn c_str(bytes: Seq<u8>) -> Seq<u8> {
    bytes.subrange(0, c_strlen(bytes))
}

/// The text of the C string that `bytes` starts with, where it is UTF-8.
pub open spec fn c_text(bytes: Seq<u8>) -> Option<Seq<char>> {
    if valid_utf8(c_str(bytes)) {
        Some(decode_utf8(c_str(bytes)))
    } else {
        None
    }
}

/// `c_strlen` is the one index within the bounds below which no byte is zero
/// and at which, where it lies inside, a zero byte stands.
pub proof fn lemma_c_strlen(bytes: Seq<u8>)
    ensures
        0 <= c_strlen(bytes) <= bytes.len(),
        forall|i: int| 0 <= i < c_strlen(bytes) ==> bytes[i] != 0,
        c_strlen(bytes) < bytes.len() ==> bytes[c_strlen(bytes)] == 0,
        has_nul(bytes) <==> c_strlen(bytes) < bytes.len(),
{
    bytes.index_of_first_ensures(0u8);
}

/// An index with a zero byte at it and none below it is `c_strlen`; so is the
/// length where no byte is zero.
pub proof fn lemma_c_strlen_unique(bytes: Seq<u8>, n: int)
    requires
        0 <= n <= bytes.len(),
        forall|i: int| 0 <= i < n ==> bytes[i] != 0,
        n < bytes.len() ==> bytes[n] == 0,
    ensures
        c_strlen(bytes) == n,
{
    lemma_c_strlen(bytes);
    let m = c_strlen(bytes);
    if m < n {
        assert(bytes[m] != 0);
    } else if n < m {
        assert(bytes[n] != 0);
    }
}

/// Measures the C string that `bytes` starts with.
pub fn strlen(bytes: &[u8]) -> (n: usize)
    ensures
        n == c_strlen(bytes@),
{
    let mut n: usize = 0;
    while n < bytes.len() && bytes[n] != 0
        invariant
            n <= bytes.len(),
            forall|i: int| 0 <= i < n ==> bytes@[i] != 0,
        decreases bytes.len() - n,
    {
        n += 1;
    }
    proof {
        lemma_c_strlen_unique(bytes@, n as int);
    }
    n
}

/// Decodes bytes as UTF-8 with `String::from_utf8` of the standard library,
/// which gives the text exactly where the bytes are well-formed UTF-8 and fails
/// otherwise.
#[verifier::external_body]
pub(crate) fn string_from_utf8(bytes: Vec<u8>) -> (text: Option<String>)
    ensures
        valid_utf8(bytes@) ==> text.is_some() && text.unwrap()@ == decode_utf8(bytes@),
        !valid_utf8(bytes@) ==> text.is_none(),
{
    String::from_utf8(bytes).ok()
}

/// Copies the C string that `raw` starts with into an owned text. Gives nothing
/// where the string is not UTF-8.
pub fn c_to_string(raw: &[u8]) -> (text: Option<String>)
    ensures
        text_view(text) == c_text(raw@),
{
    let len = strlen(raw);
    let mut bytes = slice_to_vec(raw);
    proof {
        lemma_c_strlen(raw@);
    }
    bytes.truncate(len);
    string_from_utf8(bytes)
}

/// Converts a name to the C string that the native library takes: its bytes
/// with a terminator behind them. A name that holds a zero byte has no such
/// form; the error gives the index of the first one.
pub fn to_c_string(name: &str) -> (cname: Result<Vec<u8>, Error>)
    ensures
        !has_nul(name.spec_bytes()) ==> cname.is_ok() && cname.unwrap()@
            == name.spec_bytes().push(0u8),
        has_nul(name.spec_bytes()) ==> cname.is_err() && cname.unwrap_err() == Error::Nul(
            c_strlen(name.spec_bytes()) as usize,
        ),
{
    let bytes = name.as_bytes();
    let len = strlen(bytes);
    proof {
        lemma_c_strlen(bytes@);
    }
    if len < bytes.len() {
        Err(Error::Nul(len))
    } else {
        let mut cname = slice_to_vec(bytes);
        cname.push(0u8);
        Ok(cname)
    }
}

} // verus!
