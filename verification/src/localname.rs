use crate::context::{
    MessageStage, MessageStageView, MessageStep, MessageStepView, MAX_USERNAME,
};
use crate::error::{Error, ErrorView, Krb5Error, Krb5ErrorView};
use crate::ffi::{
    c_str, c_strlen, c_text, has_nul, krb5_context, krb5_principal, lemma_c_strlen,
    string_from_utf8, strlen, Call, CallView, Reply, ReplyView,
};
use crate::principal::{Principal, PrincipalView};
use libc::c_int;
use vstd::prelude::*;
use vstd::utf8::{decode_utf8_encode_utf8, encode_utf8, valid_utf8};

verus! {

/// The byte that fills the output buffer in front of its terminator. It occurs
/// in no UTF-8 text, so a buffer that the native library left untouched reads
/// as no name at all, not as the empty one.
pub const FILLER: u8 = 0xFF;

/// The view of what a lookup gives.
pub open spec fn outcome_view(outcome: Result<String, Error>) -> Result<Seq<char>, ErrorView> {
    match outcome {
        Ok(lname) => Ok(lname@),
        Err(e) => Err(e@),
    }
}

/// The output buffer as it is handed to the native library: `MAX_USERNAME`
/// bytes, the last one a terminator, the others the filler.
pub open spec fn fresh_buffer() -> Seq<u8> {
    Seq::new((MAX_USERNAME - 1) as nat, |i: int| FILLER).push(0u8)
}

/// The part of an output buffer that the native library was given to write:
/// all but the terminator that the buffer was made with, so the first
/// `MAX_USERNAME - 1` bytes.
pub open spec fn usable(lname: Seq<u8>) -> Seq<u8> {
    if lname.len() > MAX_USERNAME - 1 {
        lname.subrange(0, MAX_USERNAME - 1)
    } else {
        lname
    }
}

/// The local name that an output buffer holds: the text in front of the first
/// zero byte of its usable part.
pub open spec fn localname_of(lname: Seq<u8>) -> Result<Seq<char>, ErrorView> {
    match c_text(usable(lname)) {
        Some(text) => Ok(text),
        None => Err(ErrorView::FromUtf8),
    }
}

/// Makes the output buffer for one lookup.
pub fn localname_buffer() -> (lname: Vec<u8>)
    ensures
        lname@ == fresh_buffer(),
{
    let mut lname: Vec<u8> = Vec::with_capacity(MAX_USERNAME as usize);
    let mut filled: usize = 0;
    while filled < (MAX_USERNAME - 1) as usize
        invariant
            filled <= MAX_USERNAME - 1,
            lname@ == Seq::new(filled as nat, |i: int| FILLER),
        decreases MAX_USERNAME - 1 - filled,
    {
        lname.push(FILLER);
        filled += 1;
        assert(lname@ =~= Seq::new(filled as nat, |i: int| FILLER));
    }
    lname.push(0u8);
    lname
}

/// Reads the local name out of the output buffer as the native library left
/// it: cuts the buffer at its first zero byte, at the latest where its own
/// terminator stood, and decodes what stands in front.
pub fn decode_localname(lname: Vec<u8>) -> (outcome: Result<String, Error>)
    ensures
        outcome_view(outcome) == localname_of(lname@),
{
    let mut bytes = lname;
    bytes.truncate((MAX_USERNAME - 1) as usize);
    assert(bytes@ == usable(lname@));
    let len = strlen(bytes.as_slice());
    proof {
        lemma_c_strlen(bytes@);
    }
    bytes.truncate(len);
    assert(bytes@ == c_str(usable(lname@)));
    match string_from_utf8(bytes) {
        Some(text) => Ok(text),
        None => Err(Error::FromUtf8),
    }
}

/// A local name is the usable part of the buffer up to its first zero byte,
/// read as UTF-8: it holds no zero byte and takes at most `MAX_USERNAME - 1`
/// bytes.
pub proof fn lemma_localname_bounded(lname: Seq<u8>)
    ensures
        localname_of(lname) matches Ok(text) ==> {
            &&& encode_utf8(text) == c_str(usable(lname))
            &&& encode_utf8(text).len() <= MAX_USERNAME - 1
            &&& !has_nul(encode_utf8(text))
        },
        localname_of(lname) matches Err(e) ==> e == ErrorView::FromUtf8 && !valid_utf8(
            c_str(usable(lname)),
        ),
{
    let bytes = c_str(usable(lname));
    lemma_c_strlen(usable(lname));
    if valid_utf8(bytes) {
        decode_utf8_encode_utf8(bytes);
        if has_nul(bytes) {
            let at = choose|at: int| 0 <= at < bytes.len() && bytes[at] == 0u8;
            assert(usable(lname)[at] == 0u8);
        }
    }
}

enum Stage<'a> {
    Parse { principal: Principal<'a> },
    Translate { principal: Principal<'a> },
    Diagnose { principal: Principal<'a>, major: c_int, fetch: MessageStage },
    Release { outcome: Result<String, Error> },
}

/// A lookup of a local name under way in one session. It holds the identity
/// from the moment the name goes to be parsed until the operation that
/// releases it is handed out, which comes last on every path.
pub struct Localname<'a> {
    stage: Stage<'a>,
}

/// How far a lookup has come, as plain values.
pub enum LocalnameView {
    /// The name is being parsed into the identity.
    Parse { principal: PrincipalView },
    /// The identity is being translated.
    Translate { principal: PrincipalView },
    /// A native operation failed with status `major`, and the session's text
    /// for it is being fetched.
    Diagnose { principal: PrincipalView, major: c_int, fetch: MessageStageView },
    /// The outcome is known, and the identity is being released.
    Release { outcome: Result<Seq<char>, ErrorView> },
}

/// Where a lookup goes next.
pub enum LocalnameStep<'a> {
    /// It goes on: perform the operation, and resume with its reply.
    Call(Localname<'a>, Call),
    /// It has ended, with the local name or the failure.
    Done(Result<String, Error>),
}

/// What a `LocalnameStep` holds, as plain values.
pub enum LocalnameStepView {
    Call(LocalnameView, CallView),
    Done(Result<Seq<char>, ErrorView>),
}

/// The first step of a lookup in session `ctx` for a name of these bytes. A
/// name with a zero byte in it ends the lookup at once, before any native
/// operation; any other goes to be parsed, as a C string, into an empty
/// identity.
pub open spec fn start(ctx: krb5_context, name: Seq<u8>) -> LocalnameStepView {
    if has_nul(name) {
        LocalnameStepView::Done(Err(ErrorView::Nul(c_strlen(name) as usize)))
    } else {
        LocalnameStepView::Call(
            LocalnameView::Parse {
                principal: PrincipalView { context: ctx, princ: krb5_principal { addr: 0 } },
            },
            CallView::ParseName { context: ctx, name: name.push(0u8) },
        )
    }
}

/// The step after a native operation failed with status `major`: the
/// session's text for it is asked for.
pub open spec fn diagnose(principal: PrincipalView, major: c_int) -> LocalnameStepView {
    LocalnameStepView::Call(
        LocalnameView::Diagnose { principal, major, fetch: MessageStageView::Get },
        CallView::GetErrorMessage { context: principal.context, code: major },
    )
}

/// The step once the outcome is known: the identity is released, in the
/// session that it came from.
pub open spec fn release(
    principal: PrincipalView,
    outcome: Result<Seq<char>, ErrorView>,
) -> LocalnameStepView {
    LocalnameStepView::Call(
        LocalnameView::Release { outcome },
        CallView::FreePrincipal { context: principal.context, val: principal.princ },
    )
}

impl LocalnameView {
    /// The step that the lookup takes on a reply.
    pub open spec fn resume(self, reply: ReplyView) -> LocalnameStepView {
        match self {
            LocalnameView::Parse { principal } => {
                let parsed = PrincipalView {
                    context: principal.context,
                    princ: krb5_principal { addr: reply.handle },
                };
                if reply.code != 0 {
                    diagnose(parsed, reply.code)
                } else {
                    LocalnameStepView::Call(
                        LocalnameView::Translate { principal: parsed },
                        CallView::AnameToLocalname {
                            context: parsed.context,
                            aname: parsed.princ,
                            size: (MAX_USERNAME - 1) as c_int,
                            lname: fresh_buffer(),
                        },
                    )
                }
            },
            LocalnameView::Translate { principal } => {
                if reply.code != 0 {
                    diagnose(principal, reply.code)
                } else {
                    release(principal, localname_of(reply.data))
                }
            },
            LocalnameView::Diagnose { principal, major, fetch } => {
                match fetch.resume(principal.context, reply) {
                    MessageStepView::Call(stage, call) => LocalnameStepView::Call(
                        LocalnameView::Diagnose { principal, major, fetch: stage },
                        call,
                    ),
                    MessageStepView::Done(text) => release(
                        principal,
                        Err(ErrorView::Krb5(Krb5ErrorView { major, diagnostic: text })),
                    ),
                }
            },
            LocalnameView::Release { outcome } => LocalnameStepView::Done(outcome),
        }
    }
}

impl<'a> View for Localname<'a> {
    type V = LocalnameView;

    closed spec fn view(&self) -> LocalnameView {
        match self.stage {
            Stage::Parse { principal } => LocalnameView::Parse { principal: principal@ },
            Stage::Translate { principal } => LocalnameView::Translate { principal: principal@ },
            Stage::Diagnose { principal, major, fetch } => LocalnameView::Diagnose {
                principal: principal@,
                major,
                fetch: fetch@,
            },
            Stage::Release { outcome } => LocalnameView::Release {
                outcome: outcome_view(outcome),
            },
        }
    }
}

impl<'a> View for LocalnameStep<'a> {
    type V = LocalnameStepView;

    open spec fn view(&self) -> LocalnameStepView {
        match self {
            LocalnameStep::Call(lookup, call) => LocalnameStepView::Call(lookup@, call@),
            LocalnameStep::Done(outcome) => LocalnameStepView::Done(outcome_view(*outcome)),
        }
    }
}

impl<'a> Localname<'a> {
    /// The lookup that waits for `cname`, a C string, to be parsed into `principal`.
    pub(crate) fn parse(principal: Principal<'a>, cname: Vec<u8>) -> (step: LocalnameStep<'a>)
        ensures
            step@ == LocalnameStepView::Call(
                LocalnameView::Parse { principal: principal@ },
                CallView::ParseName { context: principal@.context, name: cname@ },
            ),
    {
        let context = principal.context().ctx;
        LocalnameStep::Call(
            Localname { stage: Stage::Parse { principal } },
            Call::ParseName { context, name: cname },
        )
    }

    fn diagnose(principal: Principal<'a>, major: c_int) -> (step: LocalnameStep<'a>)
        ensures
            step@ == diagnose(principal@, major),
    {
        let (fetch, call) = MessageStage::begin(principal.context(), major);
        LocalnameStep::Call(Localname { stage: Stage::Diagnose { principal, major, fetch } }, call)
    }

    fn release(principal: Principal<'a>, outcome: Result<String, Error>) -> (step: LocalnameStep<
        'a,
    >)
        ensures
            step@ == release(principal@, outcome_view(outcome)),
    {
        let call = principal.release();
        LocalnameStep::Call(Localname { stage: Stage::Release { outcome } }, call)
    }

    /// Takes the reply to the operation that was last handed out.
    pub fn resume(self, reply: Reply) -> (step: LocalnameStep<'a>)
        ensures
            step@ == self@.resume(reply@),
    {
        match self.stage {
            Stage::Parse { principal } => {
                let mut principal = principal;
                principal.set_handle(krb5_principal { addr: reply.handle });
                if reply.code != 0 {
                    Localname::diagnose(principal, reply.code)
                } else {
                    let context = principal.context().ctx;
                    let aname = principal.handle();
                    LocalnameStep::Call(
                        Localname { stage: Stage::Translate { principal } },
                        Call::AnameToLocalname {
                            context,
                            aname,
                            size: MAX_USERNAME - 1,
                            lname: localname_buffer(),
                        },
                    )
                }
            },
            Stage::Translate { principal } => {
                if reply.code != 0 {
                    Localname::diagnose(principal, reply.code)
                } else {
                    Localname::release(principal, decode_localname(reply.data))
                }
            },
            Stage::Diagnose { principal, major, fetch } => {
                match fetch.resume(principal.context(), reply) {
                    MessageStep::Call(stage, call) => LocalnameStep::Call(
                        Localname { stage: Stage::Diagnose { principal, major, fetch: stage } },
                        call,
                    ),
                    MessageStep::Done(text) => Localname::release(
                        principal,
                        Err(Error::Krb5(Krb5Error::from_context(text, major))),
                    ),
                }
            },
            Stage::Release { outcome } => LocalnameStep::Done(outcome),
        }
    }
}

} // verus!
