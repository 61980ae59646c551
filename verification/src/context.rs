use crate::error::{text_view, Error, ErrorView, Krb5Error, Krb5ErrorView};
use crate::ffi::{
    c_text, c_to_string, krb5_context, to_c_string, Call, CallView, Reply, ReplyView,
};
use crate::localname::{start, Localname, LocalnameStep};
use crate::principal::Principal;
use libc::c_int;
use vstd::prelude::*;
use vstd::string::StringSliceAdditionalSpecFns;

verus! {

/// The size of the buffer that a local name is written into, terminator
/// included.
pub const MAX_USERNAME: c_int = 256;

/// A live session of the native library.
#[derive(Debug)]
pub struct Context {
    pub ctx: krb5_context,
}

/// The view of what creating a session gives.
pub open spec fn created(made: Result<Context, Error>) -> Result<krb5_context, ErrorView> {
    match made {
        Ok(context) => Ok(context.ctx),
        Err(e) => Err(e@),
    }
}

/// The text behind a fetched diagnostic: none behind a null address, else
/// what the C string at it reads as.
pub open spec fn message_text(raw: usize, data: Seq<u8>) -> Option<Seq<char>> {
    if raw == 0 {
        None
    } else {
        c_text(data)
    }
}

/// How far a diagnostic fetch has come.
#[derive(Debug)]
pub enum MessageStage {
    /// The text has been asked for.
    Get,
    /// The text is here, and the session's slot is being cleared.
    Clear { raw: usize, data: Vec<u8> },
    /// The text has been copied, and the native one is being released.
    Free { text: Option<String> },
}

/// What a `MessageStage` holds, as plain values.
pub enum MessageStageView {
    Get,
    Clear { raw: usize, data: Seq<u8> },
    Free { text: Option<Seq<char>> },
}

/// Where a diagnostic fetch goes next.
pub enum MessageStepView {
    /// It goes on: the stage it is in, and the operation to perform.
    Call(MessageStageView, CallView),
    /// It has ended, with the text or none.
    Done(Option<Seq<char>>),
}

impl MessageStageView {
    /// The step that a fetch in session `ctx` takes on a reply: after the
    /// text comes the clearing of the slot, then the release of the native
    /// text, then the end.
    pub open spec fn resume(self, ctx: krb5_context, reply: ReplyView) -> MessageStepView {
        match self {
            MessageStageView::Get => MessageStepView::Call(
                MessageStageView::Clear { raw: reply.handle, data: reply.data },
                CallView::ClearErrorMessage { context: ctx },
            ),
            MessageStageView::Clear { raw, data } => MessageStepView::Call(
                MessageStageView::Free { text: message_text(raw, data) },
                CallView::FreeErrorMessage { context: ctx, message: raw },
            ),
            MessageStageView::Free { text } => MessageStepView::Done(text),
        }
    }
}

impl View for MessageStage {
    type V = MessageStageView;

    open spec fn view(&self) -> MessageStageView {
        match self {
            MessageStage::Get => MessageStageView::Get,
            MessageStage::Clear { raw, data } => MessageStageView::Clear { raw: *raw, data: data@ },
            MessageStage::Free { text } => MessageStageView::Free { text: text_view(*text) },
        }
    }
}

/// Where a diagnostic fetch goes next.
#[derive(Debug)]
pub enum MessageStep {
    /// It goes on: the stage it is in, and the operation to perform.
    Call(MessageStage, Call),
    /// It has ended, with the text or none.
    Done(Option<String>),
}

impl View for MessageStep {
    type V = MessageStepView;

    open spec fn view(&self) -> MessageStepView {
        match self {
            MessageStep::Call(stage, call) => MessageStepView::Call(stage@, call@),
            MessageStep::Done(text) => MessageStepView::Done(text_view(*text)),
        }
    }
}

impl MessageStage {
    /// The first stage of a fetch in session `ctx`, and the operation that
    /// asks for the text of `code`.
    pub fn begin(ctx: &Context, code: c_int) -> (start: (MessageStage, Call))
        ensures
            start.0@ == MessageStageView::Get,
            start.1@ == (CallView::GetErrorMessage { context: ctx.ctx, code }),
    {
        (MessageStage::Get, Call::GetErrorMessage { context: ctx.ctx, code })
    }

    /// Takes the reply to the operation that was last handed out, in session `ctx`.
    pub fn resume(self, ctx: &Context, reply: Reply) -> (step: MessageStep)
        ensures
            step@ == self@.resume(ctx.ctx, reply@),
    {
        match self {
            MessageStage::Get => MessageStep::Call(
                MessageStage::Clear { raw: reply.handle, data: reply.data },
                Call::ClearErrorMessage { context: ctx.ctx },
            ),
            MessageStage::Clear { raw, data } => {
                let text = if raw == 0 {
                    None
                } else {
                    c_to_string(data.as_slice())
                };
                MessageStep::Call(
                    MessageStage::Free { text },
                    Call::FreeErrorMessage { context: ctx.ctx, message: raw },
                )
            },
            MessageStage::Free { text } => MessageStep::Done(text),
        }
    }
}

impl Context {
    /// Wraps what opening a session gave: the session where the status is
    /// zero, else the failure. A failed opening leaves no session to ask for a
    /// text, so the failure carries none.
    pub fn new(err: c_int, kcontext: krb5_context) -> (made: Result<Context, Error>)
        ensures
            err == 0 ==> created(made) == Ok::<krb5_context, ErrorView>(kcontext),
            err != 0 ==> created(made) == Err::<krb5_context, ErrorView>(
                ErrorView::Krb5(Krb5ErrorView { major: err, diagnostic: None }),
            ),
    {
        if err == 0 {
            Ok(Context { ctx: kcontext })
        } else {
            Err(Error::Krb5(Krb5Error::new(err)))
        }
    }

    /// Gives up the session: the operation that closes it. The session is
    /// consumed, so it is closed once, and what borrows it has ended before.
    pub fn release(self) -> (call: Call)
        ensures
            call@ == (CallView::FreeContext { context: self.ctx }),
    {
        Call::FreeContext { context: self.ctx }
    }

    /// Starts fetching the session's text for a status code: the fetch to
    /// resume, and the operation that asks for the text.
    pub fn error_message(&self, code: c_int) -> (start: (ErrorMessage<'_>, Call))
        ensures
            start.0@ == (ErrorMessageView { context: self.ctx, stage: MessageStageView::Get }),
            start.1@ == (CallView::GetErrorMessage { context: self.ctx, code }),
    {
        let (stage, call) = MessageStage::begin(self, code);
        (ErrorMessage { ctx: self, stage }, call)
    }

    /// Starts looking up the local name of `name`: the first step of the
    /// lookup. A name with a zero byte in it fails here, before any native
    /// operation and before an identity exists.
    pub fn localname(&self, name: &str) -> (step: LocalnameStep<'_>)
        ensures
            step@ == start(self.ctx, name.spec_bytes()),
    {
        match to_c_string(name) {
            Err(e) => LocalnameStep::Done(Err(e)),
            Ok(cname) => Localname::parse(Principal::new(self), cname),
        }
    }
}

/// A diagnostic fetch under way in one session: asking for the text empties
/// nothing by itself, so the fetch goes on to clear the session's slot, copies
/// the text and releases the native one.
#[derive(Debug)]
pub struct ErrorMessage<'a> {
    ctx: &'a Context,
    stage: MessageStage,
}

/// What an `ErrorMessage` holds, as plain values.
pub struct ErrorMessageView {
    pub context: krb5_context,
    pub stage: MessageStageView,
}

/// Where a diagnostic fetch goes next.
#[derive(Debug)]
pub enum ErrorMessageStep<'a> {
    /// It goes on: perform the operation, and resume with its reply.
    Call(ErrorMessage<'a>, Call),
    /// It has ended, with the text or none.
    Done(Option<String>),
}

/// What an `ErrorMessageStep` holds, as plain values.
pub enum ErrorMessageStepView {
    Call(ErrorMessageView, CallView),
    Done(Option<Seq<char>>),
}

impl ErrorMessageView {
    /// The step that the fetch takes on a reply.
    pub open spec fn resume(self, reply: ReplyView) -> ErrorMessageStepView {
        match self.stage.resume(self.context, reply) {
            MessageStepView::Call(stage, call) => ErrorMessageStepView::Call(
                ErrorMessageView { context: self.context, stage },
                call,
            ),
            MessageStepView::Done(text) => ErrorMessageStepView::Done(text),
        }
    }
}

impl<'a> View for ErrorMessage<'a> {
    type V = ErrorMessageView;

    closed spec fn view(&self) -> ErrorMessageView {
        ErrorMessageView { context: self.ctx.ctx, stage: self.stage@ }
    }
}

impl<'a> View for ErrorMessageStep<'a> {
    type V = ErrorMessageStepView;

    open spec fn view(&self) -> ErrorMessageStepView {
        match self {
            ErrorMessageStep::Call(fetch, call) => ErrorMessageStepView::Call(fetch@, call@),
            ErrorMessageStep::Done(text) => ErrorMessageStepView::Done(text_view(*text)),
        }
    }
}

impl<'a> ErrorMessage<'a> {
    /// Takes the reply to the operation that was last handed out.
    pub fn resume(self, reply: Reply) -> (step: ErrorMessageStep<'a>)
        ensures
            step@ == self@.resume(reply@),
    {
        let ctx = self.ctx;
        match self.stage.resume(ctx, reply) {
            MessageStep::Call(stage, call) => ErrorMessageStep::Call(
                ErrorMessage { ctx, stage },
                call,
            ),
            MessageStep::Done(text) => ErrorMessageStep::Done(text),
        }
    }
}

} // verus!
