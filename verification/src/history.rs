use crate::context::{
    message_text, ErrorMessageStepView, ErrorMessageView, MessageStageView, MAX_USERNAME,
};
use crate::error::{ErrorView, Krb5ErrorView};
use crate::ffi::{c_strlen, has_nul, krb5_context, krb5_principal, CallView, ReplyView};
use crate::localname::{fresh_buffer, localname_of, start, LocalnameStepView, LocalnameView};
use crate::principal::PrincipalView;
use libc::c_int;
use vstd::prelude::*;

verus! {

/// The operations that a lookup hands out from `step` on, in order, while
/// `replies` come in one after the other. The operation that the last reply
/// leads to is handed out too; it is still unanswered.
pub open spec fn calls(step: LocalnameStepView, replies: Seq<ReplyView>) -> Seq<CallView>
    decreases replies.len(),
{
    match step {
        LocalnameStepView::Done(_) => Seq::empty(),
        LocalnameStepView::Call(lookup, call) => {
            if replies.len() == 0 {
                seq![call]
            } else {
                seq![call] + calls(lookup.resume(replies[0]), replies.drop_first())
            }
        },
    }
}

/// What the lookup has given once `replies` have come in: its outcome where
/// it has ended, nothing while it still waits for a reply.
pub open spec fn outcome(step: LocalnameStepView, replies: Seq<ReplyView>) -> Option<
    Result<Seq<char>, ErrorView>,
>
    decreases replies.len(),
{
    match step {
        LocalnameStepView::Done(outcome) => Some(outcome),
        LocalnameStepView::Call(lookup, _) => {
            if replies.len() == 0 {
                None
            } else {
                outcome(lookup.resume(replies[0]), replies.drop_first())
            }
        },
    }
}

/// How many replies a lookup at `step` takes at most before it ends.
pub open spec fn replies_needed(step: LocalnameStepView) -> nat {
    match step {
        LocalnameStepView::Done(_) => 0,
        LocalnameStepView::Call(lookup, _) => match lookup {
            LocalnameView::Parse { .. } => 6,
            LocalnameView::Translate { .. } => 5,
            LocalnameView::Diagnose { fetch, .. } => match fetch {
                MessageStageView::Get => 4,
                MessageStageView::Clear { .. } => 3,
                MessageStageView::Free { .. } => 2,
            },
            LocalnameView::Release { .. } => 1,
        },
    }
}

/// Whether `step` is one that a lookup in session `ctx` takes once its name
/// has gone to be parsed and left `princ` behind: it names that session and
/// that identity, and releases the identity exactly when the outcome is known.
pub open spec fn parsed_step(
    step: LocalnameStepView,
    ctx: krb5_context,
    princ: krb5_principal,
) -> bool {
    match step {
        LocalnameStepView::Done(_) => true,
        LocalnameStepView::Call(lookup, call) => {
            let held = PrincipalView { context: ctx, princ };
            &&& call.context() == Some(ctx)
            &&& match lookup {
                LocalnameView::Parse { .. } => false,
                LocalnameView::Translate { principal } => {
                    &&& principal == held
                    &&& call is AnameToLocalname
                },
                LocalnameView::Diagnose { principal, fetch, .. } => {
                    &&& principal == held
                    &&& match fetch {
                        MessageStageView::Get => call is GetErrorMessage,
                        MessageStageView::Clear { .. } => call is ClearErrorMessage,
                        MessageStageView::Free { .. } => call is FreeErrorMessage,
                    }
                },
                LocalnameView::Release { .. } => call == (CallView::FreePrincipal {
                    context: ctx,
                    val: princ,
                }),
            }
        },
    }
}

proof fn lemma_parsed_step_resume(
    lookup: LocalnameView,
    call: CallView,
    reply: ReplyView,
    ctx: krb5_context,
    princ: krb5_principal,
)
    requires
        parsed_step(LocalnameStepView::Call(lookup, call), ctx, princ),
    ensures
        parsed_step(lookup.resume(reply), ctx, princ),
        replies_needed(lookup.resume(reply)) < replies_needed(
            LocalnameStepView::Call(lookup, call),
        ),
        lookup is Release <==> lookup.resume(reply) is Done,
{
}

proof fn lemma_parsed_calls(
    step: LocalnameStepView,
    replies: Seq<ReplyView>,
    ctx: krb5_context,
    princ: krb5_principal,
)
    requires
        parsed_step(step, ctx, princ),
    ensures
        forall|i: int|
            0 <= i < calls(step, replies).len() ==> {
                &&& (#[trigger] calls(step, replies)[i]).context() == Some(ctx)
                &&& !(calls(step, replies)[i] is FreeContext)
                &&& !(calls(step, replies)[i] is ParseName)
                &&& calls(step, replies)[i] is FreePrincipal ==> {
                    &&& i == calls(step, replies).len() - 1
                    &&& calls(step, replies)[i] == (CallView::FreePrincipal {
                        context: ctx,
                        val: princ,
                    })
                }
            },
        step is Call ==> calls(step, replies).len() >= 1,
        step is Call && outcome(step, replies) is Some ==> calls(step, replies).last()
            is FreePrincipal,
        replies.len() >= replies_needed(step) ==> outcome(step, replies) is Some,
    decreases replies.len(),
{
    match step {
        LocalnameStepView::Done(_) => {},
        LocalnameStepView::Call(lookup, call) => {
            if replies.len() > 0 {
                let next = lookup.resume(replies[0]);
                let rest = replies.drop_first();
                lemma_parsed_step_resume(lookup, call, replies[0], ctx, princ);
                lemma_parsed_calls(next, rest, ctx, princ);
                let tail = calls(next, rest);
                let all = calls(step, replies);
                assert(all == seq![call] + tail);
                assert(all[0] == call);
                assert forall|i: int| 0 <= i < all.len() implies {
                    &&& (#[trigger] all[i]).context() == Some(ctx)
                    &&& !(all[i] is FreeContext)
                    &&& !(all[i] is ParseName)
                    &&& all[i] is FreePrincipal ==> {
                        &&& i == all.len() - 1
                        &&& all[i] == (CallView::FreePrincipal { context: ctx, val: princ })
                    }
                } by {
                    if i > 0 {
                        assert(all[i] == tail[i - 1]);
                    }
                }
                if outcome(step, replies) is Some && tail.len() > 0 {
                    assert(all.last() == tail.last());
                }
            }
        },
    }
}

/// A lookup ends within six replies, whatever they are.
pub proof fn lemma_lookup_ends(ctx: krb5_context, name: Seq<u8>, replies: Seq<ReplyView>)
    requires
        replies.len() >= 6,
    ensures
        outcome(start(ctx, name), replies) is Some,
{
    lemma_lookup(ctx, name, replies);
}

/// What holds of every lookup, whatever the name and whatever the replies.
/// Every operation that it hands out names its own session, and none of them
/// opens or closes a session. A name with a zero byte in it leads to no
/// operation at all. Any other name is parsed first, and only first. The
/// identity is released at most once, by the last operation handed out, in the
/// session of the lookup and with the handle that parsing left behind; and a
/// lookup that has ended has released it.
pub proof fn lemma_lookup(ctx: krb5_context, name: Seq<u8>, replies: Seq<ReplyView>)
    ensures
        forall|i: int|
            0 <= i < calls(start(ctx, name), replies).len() ==> {
                &&& (#[trigger] calls(start(ctx, name), replies)[i]).context() == Some(ctx)
                &&& !(calls(start(ctx, name), replies)[i] is FreeContext)
                &&& (calls(start(ctx, name), replies)[i] is ParseName <==> i == 0)
            },
        forall|i: int|
            0 <= i < calls(start(ctx, name), replies).len() && #[trigger] calls(
                start(ctx, name),
                replies,
            )[i] is FreePrincipal ==> {
                &&& i == calls(start(ctx, name), replies).len() - 1
                &&& replies.len() >= 1
                &&& calls(start(ctx, name), replies)[i] == (CallView::FreePrincipal {
                    context: ctx,
                    val: krb5_principal { addr: replies[0].handle },
                })
            },
        has_nul(name) <==> calls(start(ctx, name), replies).len() == 0,
        !has_nul(name) && outcome(start(ctx, name), replies) is Some ==> calls(
            start(ctx, name),
            replies,
        ).last() is FreePrincipal,
        replies.len() >= 6 ==> outcome(start(ctx, name), replies) is Some,
{
    let first = start(ctx, name);
    match first {
        LocalnameStepView::Done(_) => {},
        LocalnameStepView::Call(lookup, call) => {
            if replies.len() > 0 {
                let princ = krb5_principal { addr: replies[0].handle };
                let next = lookup.resume(replies[0]);
                let rest = replies.drop_first();
                assert(parsed_step(next, ctx, princ));
                lemma_parsed_calls(next, rest, ctx, princ);
                let tail = calls(next, rest);
                let all = calls(first, replies);
                assert(all == seq![call] + tail);
                assert(all[0] == call);
                assert forall|i: int| 0 <= i < all.len() implies {
                    &&& (#[trigger] all[i]).context() == Some(ctx)
                    &&& !(all[i] is FreeContext)
                    &&& (all[i] is ParseName <==> i == 0)
                    &&& all[i] is FreePrincipal ==> {
                        &&& i == all.len() - 1
                        &&& all[i] == (CallView::FreePrincipal { context: ctx, val: princ })
                    }
                } by {
                    if i > 0 {
                        assert(all[i] == tail[i - 1]);
                    }
                }
                assert(all.last() == tail.last());
            }
        },
    }
}

/// A name with a zero byte in it fails as such, with the index of the first
/// one, and the lookup hands out no operation, whatever replies are offered.
pub proof fn lemma_nul_name(ctx: krb5_context, name: Seq<u8>, replies: Seq<ReplyView>)
    requires
        has_nul(name),
    ensures
        calls(start(ctx, name), replies) == Seq::<CallView>::empty(),
        outcome(start(ctx, name), replies) == Some(
            Err::<Seq<char>, ErrorView>(ErrorView::Nul(c_strlen(name) as usize)),
        ),
{
}

/// The failure that a native operation's status `major` becomes, with what
/// the diagnostic fetch that follows it was answered.
pub open spec fn native_failure(major: c_int, fetched: ReplyView) -> Result<Seq<char>, ErrorView> {
    Err(
        ErrorView::Krb5(
            Krb5ErrorView { major, diagnostic: message_text(fetched.handle, fetched.data) },
        ),
    )
}

/// The three operations of a diagnostic fetch in session `ctx` for status
/// `code`, where asking for the text was answered with `fetched`.
pub open spec fn fetch_calls(ctx: krb5_context, code: c_int, fetched: ReplyView) -> Seq<CallView> {
    seq![
        CallView::GetErrorMessage { context: ctx, code },
        CallView::ClearErrorMessage { context: ctx },
        CallView::FreeErrorMessage { context: ctx, message: fetched.handle },
    ]
}

/// Where parsing fails, the lookup fetches the session's text for the status,
/// releases the identity and ends with that status and that text. Nothing is
/// translated.
pub proof fn lemma_parse_failure(ctx: krb5_context, name: Seq<u8>, replies: Seq<ReplyView>)
    requires
        !has_nul(name),
        replies.len() >= 5,
        replies[0].code != 0,
    ensures
        calls(start(ctx, name), replies) == seq![
            CallView::ParseName { context: ctx, name: name.push(0u8) },
        ] + fetch_calls(ctx, replies[0].code, replies[1]) + seq![
            CallView::FreePrincipal {
                context: ctx,
                val: krb5_principal { addr: replies[0].handle },
            },
        ],
        outcome(start(ctx, name), replies) == Some(native_failure(replies[0].code, replies[1])),
{
    reveal_with_fuel(calls, 6);
    reveal_with_fuel(outcome, 6);
    let r1 = replies.drop_first();
    let r2 = r1.drop_first();
    let r3 = r2.drop_first();
    let r4 = r3.drop_first();
    assert(r1[0] == replies[1]);
    assert(calls(start(ctx, name), replies) =~= seq![
        CallView::ParseName { context: ctx, name: name.push(0u8) },
    ] + fetch_calls(ctx, replies[0].code, replies[1]) + seq![
        CallView::FreePrincipal { context: ctx, val: krb5_principal { addr: replies[0].handle } },
    ]);
}

/// Where parsing succeeds and translating fails, the lookup fetches the
/// session's text for the status, releases the identity and ends with that
/// status and that text. The buffer is not read.
pub proof fn lemma_translate_failure(ctx: krb5_context, name: Seq<u8>, replies: Seq<ReplyView>)
    requires
        !has_nul(name),
        replies.len() >= 6,
        replies[0].code == 0,
        replies[1].code != 0,
    ensures
        calls(start(ctx, name), replies) == seq![
            CallView::ParseName { context: ctx, name: name.push(0u8) },
            CallView::AnameToLocalname {
                context: ctx,
                aname: krb5_principal { addr: replies[0].handle },
                size: (MAX_USERNAME - 1) as c_int,
                lname: fresh_buffer(),
            },
        ] + fetch_calls(ctx, replies[1].code, replies[2]) + seq![
            CallView::FreePrincipal {
                context: ctx,
                val: krb5_principal { addr: replies[0].handle },
            },
        ],
        outcome(start(ctx, name), replies) == Some(native_failure(replies[1].code, replies[2])),
{
    reveal_with_fuel(calls, 7);
    reveal_with_fuel(outcome, 7);
    let r1 = replies.drop_first();
    let r2 = r1.drop_first();
    let r3 = r2.drop_first();
    let r4 = r3.drop_first();
    let r5 = r4.drop_first();
    assert(r1[0] == replies[1]);
    assert(r2[0] == replies[2]);
    assert(calls(start(ctx, name), replies) =~= seq![
        CallView::ParseName { context: ctx, name: name.push(0u8) },
        CallView::AnameToLocalname {
            context: ctx,
            aname: krb5_principal { addr: replies[0].handle },
            size: (MAX_USERNAME - 1) as c_int,
            lname: fresh_buffer(),
        },
    ] + fetch_calls(ctx, replies[1].code, replies[2]) + seq![
        CallView::FreePrincipal { context: ctx, val: krb5_principal { addr: replies[0].handle } },
    ]);
}

/// Where parsing and translating succeed, the lookup reads the local name out
/// of the buffer as it came back, up to its first zero byte, releases the
/// identity and ends with that name, or with the failure to decode it.
pub proof fn lemma_translated(ctx: krb5_context, name: Seq<u8>, replies: Seq<ReplyView>)
    requires
        !has_nul(name),
        replies.len() >= 3,
        replies[0].code == 0,
        replies[1].code == 0,
    ensures
        calls(start(ctx, name), replies) == seq![
            CallView::ParseName { context: ctx, name: name.push(0u8) },
            CallView::AnameToLocalname {
                context: ctx,
                aname: krb5_principal { addr: replies[0].handle },
                size: (MAX_USERNAME - 1) as c_int,
                lname: fresh_buffer(),
            },
            CallView::FreePrincipal {
                context: ctx,
                val: krb5_principal { addr: replies[0].handle },
            },
        ],
        outcome(start(ctx, name), replies) == Some(localname_of(replies[1].data)),
{
    reveal_with_fuel(calls, 4);
    reveal_with_fuel(outcome, 4);
    let r1 = replies.drop_first();
    let r2 = r1.drop_first();
    assert(r1[0] == replies[1]);
    assert(calls(start(ctx, name), replies) =~= seq![
        CallView::ParseName { context: ctx, name: name.push(0u8) },
        CallView::AnameToLocalname {
            context: ctx,
            aname: krb5_principal { addr: replies[0].handle },
            size: (MAX_USERNAME - 1) as c_int,
            lname: fresh_buffer(),
        },
        CallView::FreePrincipal { context: ctx, val: krb5_principal { addr: replies[0].handle } },
    ]);
}

/// The first step of a diagnostic fetch in session `ctx` for status `code`.
pub open spec fn start_fetch(ctx: krb5_context, code: c_int) -> ErrorMessageStepView {
    ErrorMessageStepView::Call(
        ErrorMessageView { context: ctx, stage: MessageStageView::Get },
        CallView::GetErrorMessage { context: ctx, code },
    )
}

/// The operations that a diagnostic fetch hands out from `step` on, in order,
/// while `replies` come in one after the other.
pub open spec fn message_calls(step: ErrorMessageStepView, replies: Seq<ReplyView>) -> Seq<
    CallView,
>
    decreases replies.len(),
{
    match step {
        ErrorMessageStepView::Done(_) => Seq::empty(),
        ErrorMessageStepView::Call(fetch, call) => {
            if replies.len() == 0 {
                seq![call]
            } else {
                seq![call] + message_calls(fetch.resume(replies[0]), replies.drop_first())
            }
        },
    }
}

/// What the fetch has given once `replies` have come in: the text or none
/// where it has ended, nothing while it still waits for a reply.
pub open spec fn message_outcome(step: ErrorMessageStepView, replies: Seq<ReplyView>) -> Option<
    Option<Seq<char>>,
>
    decreases replies.len(),
{
    match step {
        ErrorMessageStepView::Done(text) => Some(text),
        ErrorMessageStepView::Call(fetch, _) => {
            if replies.len() == 0 {
                None
            } else {
                message_outcome(fetch.resume(replies[0]), replies.drop_first())
            }
        },
    }
}

/// A diagnostic fetch asks for the text, clears the session's slot, releases
/// the native text, and ends with the text that the first reply held: its C
/// string read as UTF-8, or none where the address is null or the bytes are no
/// UTF-8.
pub proof fn lemma_fetch(ctx: krb5_context, code: c_int, replies: Seq<ReplyView>)
    requires
        replies.len() >= 3,
    ensures
        message_calls(start_fetch(ctx, code), replies) == fetch_calls(ctx, code, replies[0]),
        message_outcome(start_fetch(ctx, code), replies) == Some(
            message_text(replies[0].handle, replies[0].data),
        ),
{
    reveal_with_fuel(message_calls, 4);
    reveal_with_fuel(message_outcome, 4);
    let r1 = replies.drop_first();
    let r2 = r1.drop_first();
    assert(message_calls(start_fetch(ctx, code), replies) =~= fetch_calls(
        ctx,
        code,
        replies[0],
    ));
}

/// Every operation of a diagnostic fetch names the session of the fetch, and
/// none of them opens or closes a session or touches an identity.
pub proof fn lemma_fetch_calls(
    ctx: krb5_context,
    code: c_int,
    replies: Seq<ReplyView>,
    i: int,
)
    requires
        0 <= i < message_calls(start_fetch(ctx, code), replies).len(),
    ensures
        message_calls(start_fetch(ctx, code), replies)[i].context() == Some(ctx),
        !(message_calls(start_fetch(ctx, code), replies)[i] is FreeContext),
        !(message_calls(start_fetch(ctx, code), replies)[i] is FreePrincipal),
{
    reveal_with_fuel(message_calls, 4);
    let r1 = replies.drop_first();
    let r2 = r1.drop_first();
}

/// Whether some lookup in session `ctx` hands out `call`.
pub open spec fn lookup_hands_out(ctx: krb5_context, call: CallView) -> bool {
    exists|name: Seq<u8>, replies: Seq<ReplyView>, i: int|
        0 <= i < calls(start(ctx, name), replies).len() && #[trigger] calls(
            start(ctx, name),
            replies,
        )[i] == call
}

/// Whether some diagnostic fetch in session `ctx` hands out `call`.
pub open spec fn fetch_hands_out(ctx: krb5_context, call: CallView) -> bool {
    exists|code: c_int, replies: Seq<ReplyView>, i: int|
        0 <= i < message_calls(start_fetch(ctx, code), replies).len() && #[trigger] message_calls(
            start_fetch(ctx, code),
            replies,
        )[i] == call
}

/// Whether `history` is the record of the native operations of one session
/// with handle `ctx`. The session is opened first. Lookups and fetches borrow
/// the session, so what they hand out comes next, in any order and however
/// far each of them gets. `Context::release` consumes the session, so where
/// the session is `closed` the operation that closes it comes last.
pub open spec fn session_history(ctx: krb5_context, history: Seq<CallView>, closed: bool) -> bool {
    let during = if closed {
        history.len() - 1
    } else {
        history.len() as int
    };
    &&& 1 <= during
    &&& history[0] == CallView::InitContext
    &&& closed ==> history.last() == (CallView::FreeContext { context: ctx })
    &&& forall|i: int|
        1 <= i < during ==> lookup_hands_out(ctx, #[trigger] history[i]) || fetch_hands_out(
            ctx,
            history[i],
        )
}

/// A session is opened once, at the start of its record, and closed at most
/// once: exactly once where it has been released, and then by the last
/// operation of the record.
pub proof fn lemma_session_closed_once(ctx: krb5_context, history: Seq<CallView>, closed: bool)
    requires
        session_history(ctx, history, closed),
    ensures
        forall|i: int|
            0 <= i < history.len() ==> (#[trigger] history[i] is InitContext <==> i == 0),
        forall|i: int|
            0 <= i < history.len() ==> (#[trigger] history[i] is FreeContext <==> closed && i
                == history.len() - 1),
{
    assert forall|i: int| 0 <= i < history.len() implies (#[trigger] history[i] is InitContext
        <==> i == 0) && (history[i] is FreeContext <==> closed && i == history.len() - 1) by {
        lemma_session_operation(ctx, history, closed, i);
    }
}

/// No identity is released after its session: in the record of a session, no
/// operation follows the one that closes it, and every release of an identity
/// names this session.
pub proof fn lemma_release_order(
    ctx: krb5_context,
    history: Seq<CallView>,
    closed: bool,
    i: int,
    j: int,
)
    requires
        session_history(ctx, history, closed),
        0 <= i < j < history.len(),
    ensures
        !(history[i] is FreeContext),
        history[j] is FreePrincipal ==> history[j].context() == Some(ctx),
{
    lemma_session_operation(ctx, history, closed, i);
    lemma_session_operation(ctx, history, closed, j);
}

proof fn lemma_session_operation(ctx: krb5_context, history: Seq<CallView>, closed: bool, i: int)
    requires
        session_history(ctx, history, closed),
        0 <= i < history.len(),
    ensures
        history[i] is InitContext <==> i == 0,
        history[i] is FreeContext <==> closed && i == history.len() - 1,
        i > 0 ==> history[i].context() == Some(ctx),
{
    let last = if closed {
        history.len() - 1
    } else {
        history.len() as int
    };
    if 1 <= i < last {
        let call = history[i];
        if lookup_hands_out(ctx, call) {
            let (name, replies, k) = choose|name: Seq<u8>, replies: Seq<ReplyView>, k: int|
                0 <= k < calls(start(ctx, name), replies).len() && #[trigger] calls(
                    start(ctx, name),
                    replies,
                )[k] == call;
            lemma_lookup(ctx, name, replies);
        } else {
            let (code, replies, k) = choose|code: c_int, replies: Seq<ReplyView>, k: int|
                0 <= k < message_calls(start_fetch(ctx, code), replies).len()
                    && #[trigger] message_calls(start_fetch(ctx, code), replies)[k] == call;
            lemma_fetch_calls(ctx, code, replies, k);
        }
    }
}

} // verus!
