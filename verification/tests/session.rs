use krb5::context::{Context, ErrorMessageStep, MAX_USERNAME};
use krb5::error::{decimal_string, Error, Krb5Error};
use krb5::ffi::{c_to_string, krb5_context, krb5_principal, strlen, to_c_string, Call, Reply};
use krb5::localname::{decode_localname, localname_buffer, LocalnameStep, FILLER};
use krb5::principal::Principal;

/// A stand-in for the native library: it keeps translation rules, hands out
/// handles, holds one diagnostic slot and records every operation it is asked
/// to perform.
struct FakeKrb5 {
    rules: Vec<(String, String)>,
    init_status: i32,
    parse_failure: Option<(i32, String)>,
    next_handle: usize,
    contexts: Vec<usize>,
    principals: Vec<(usize, usize, String)>,
    messages: Vec<(usize, Vec<u8>)>,
    slot: Option<String>,
    raw_localname: Option<Vec<u8>>,
    log: Vec<Call>,
}

const NO_TRANSLATION: i32 = -1765328227;

const NOT_ENOUGH_SPACE: i32 = -1765328228;

impl FakeKrb5 {
    fn new() -> FakeKrb5 {
        FakeKrb5 {
            rules: Vec::new(),
            init_status: 0,
            parse_failure: None,
            next_handle: 0x1000,
            contexts: Vec::new(),
            principals: Vec::new(),
            messages: Vec::new(),
            slot: None,
            raw_localname: None,
            log: Vec::new(),
        }
    }

    fn with_rule(aname: &str, lname: &str) -> FakeKrb5 {
        let mut fake = FakeKrb5::new();
        fake.rules.push((aname.to_string(), lname.to_string()));
        fake
    }

    fn fresh(&mut self) -> usize {
        self.next_handle += 0x10;
        self.next_handle
    }

    fn count(&self, wanted: fn(&Call) -> bool) -> usize {
        self.log.iter().filter(|call| wanted(call)).count()
    }

    fn perform(&mut self, call: Call) -> Reply {
        self.log.push(call.clone());
        let nothing = Reply { code: 0, handle: 0, data: Vec::new() };
        match call {
            Call::InitContext => {
                if self.init_status != 0 {
                    return Reply { code: self.init_status, handle: 0, data: Vec::new() };
                }
                let handle = self.fresh();
                self.contexts.push(handle);
                Reply { code: 0, handle, data: Vec::new() }
            }
            Call::FreeContext { context } => {
                let at = self.contexts.iter().position(|c| *c == context.addr);
                self.contexts.remove(at.expect("the session is live"));
                assert!(self.principals.iter().all(|p| p.0 != context.addr));
                nothing
            }
            Call::ParseName { context, name } => {
                assert!(self.contexts.contains(&context.addr));
                assert_eq!(name.last(), Some(&0u8));
                assert_eq!(strlen(&name), name.len() - 1);
                if let Some((code, text)) = self.parse_failure.clone() {
                    self.slot = Some(text);
                    return Reply { code, handle: 0, data: Vec::new() };
                }
                let text = String::from_utf8(name[..name.len() - 1].to_vec()).unwrap();
                let handle = self.fresh();
                self.principals.push((context.addr, handle, text));
                Reply { code: 0, handle, data: Vec::new() }
            }
            Call::FreePrincipal { context, val } => {
                assert!(self.contexts.contains(&context.addr));
                if val.addr != 0 {
                    let at = self.principals.iter().position(|p| p.0 == context.addr && p.1 == val.addr);
                    self.principals.remove(at.expect("the identity is live in this session"));
                }
                nothing
            }
            Call::AnameToLocalname { context, aname, size, lname } => {
                assert!(self.contexts.contains(&context.addr));
                assert_eq!(lname.len(), size as usize + 1);
                assert_eq!(lname[size as usize], 0u8);
                let held = self.principals.iter().find(|p| p.0 == context.addr && p.1 == aname.addr);
                let name = held.expect("the identity is live in this session").2.clone();
                let mut data = lname;
                if let Some(raw) = self.raw_localname.clone() {
                    data[..raw.len()].copy_from_slice(&raw);
                    return Reply { code: 0, handle: 0, data };
                }
                match self.rules.iter().find(|rule| rule.0 == name) {
                    None => {
                        self.slot = Some(format!("No translation available for requested principal {}", name));
                        Reply { code: NO_TRANSLATION, handle: 0, data }
                    }
                    Some(rule) => {
                        let local = rule.1.as_bytes();
                        if local.len() + 1 > size as usize {
                            self.slot = Some("Insufficient space to return complete information".to_string());
                            return Reply { code: NOT_ENOUGH_SPACE, handle: 0, data };
                        }
                        data[..local.len()].copy_from_slice(local);
                        data[local.len()] = 0;
                        Reply { code: 0, handle: 0, data }
                    }
                }
            }
            Call::GetErrorMessage { context, code } => {
                assert!(self.contexts.contains(&context.addr));
                let text = match &self.slot {
                    Some(text) => text.clone(),
                    None => format!("Unknown code {}", code),
                };
                let mut data = text.into_bytes();
                data.push(0);
                let handle = self.fresh();
                self.messages.push((handle, data.clone()));
                Reply { code: 0, handle, data }
            }
            Call::ClearErrorMessage { context } => {
                assert!(self.contexts.contains(&context.addr));
                self.slot = None;
                nothing
            }
            Call::FreeErrorMessage { context, message } => {
                assert!(self.contexts.contains(&context.addr));
                let at = self.messages.iter().position(|m| m.0 == message);
                self.messages.remove(at.expect("the text is live"));
                nothing
            }
        }
    }

    fn open(&mut self) -> Result<Context, Error> {
        let reply = self.perform(Call::InitContext);
        Context::new(reply.code, krb5_context { addr: reply.handle })
    }

    fn close(&mut self, ctx: Context) {
        let call = ctx.release();
        self.perform(call);
    }

    fn localname(&mut self, ctx: &Context, name: &str) -> Result<String, Error> {
        let mut step = ctx.localname(name);
        loop {
            match step {
                LocalnameStep::Done(outcome) => return outcome,
                LocalnameStep::Call(lookup, call) => {
                    let reply = self.perform(call);
                    step = lookup.resume(reply);
                }
            }
        }
    }

    fn error_message(&mut self, ctx: &Context, code: i32) -> Option<String> {
        let (fetch, call) = ctx.error_message(code);
        let mut step = ErrorMessageStep::Call(fetch, call);
        loop {
            match step {
                ErrorMessageStep::Done(text) => return text,
                ErrorMessageStep::Call(fetch, call) => {
                    let reply = self.perform(call);
                    step = fetch.resume(reply);
                }
            }
        }
    }
}

fn is_init(call: &Call) -> bool {
    matches!(call, Call::InitContext)
}

fn is_free_context(call: &Call) -> bool {
    matches!(call, Call::FreeContext { .. })
}

fn is_parse(call: &Call) -> bool {
    matches!(call, Call::ParseName { .. })
}

fn is_translate(call: &Call) -> bool {
    matches!(call, Call::AnameToLocalname { .. })
}

fn is_free_principal(call: &Call) -> bool {
    matches!(call, Call::FreePrincipal { .. })
}

fn is_get_message(call: &Call) -> bool {
    matches!(call, Call::GetErrorMessage { .. })
}

#[test]
fn create_context() {
    let mut native = FakeKrb5::new();
    let reply = native.perform(Call::InitContext);
    assert!(Context::new(reply.code, krb5_context { addr: reply.handle }).is_ok());
}

#[test]
fn translate_localname_ok() {
    let mut native = FakeKrb5::with_rule("user@EXAMPLE.COM", "user");
    let ctx = native.open();
    let ctx = ctx.unwrap();
    let localname = native.localname(&ctx, "user@EXAMPLE.COM");
    assert_eq!(localname.unwrap(), "user");
}

#[test]
#[should_panic(expected = "No translation")]
fn translate_localname_err() {
    let mut native = FakeKrb5::new();
    let ctx = native.open();
    let ctx = ctx.unwrap();
    let localname = native.localname(&ctx, "user@EXAMPLE.COM");
    localname.unwrap();
}

#[test]
fn create_context_failure_carries_no_text() {
    let mut native = FakeKrb5::new();
    native.init_status = 12;
    let made = native.open();
    let e = made.unwrap_err();
    assert_eq!(e, Error::Krb5(Krb5Error::new(12)));
    assert_eq!(e.code(), Some(12));
    assert_eq!(e.description(), "Kerberos Error: 12");
    assert_eq!(native.log, vec![Call::InitContext]);
}

#[test]
fn context_wraps_the_handle_it_is_given() {
    let ctx = Context::new(0, krb5_context { addr: 0x2a }).unwrap();
    assert_eq!(ctx.ctx, krb5_context { addr: 0x2a });
    assert_eq!(ctx.release(), Call::FreeContext { context: krb5_context { addr: 0x2a } });
}

#[test]
fn session_is_released_exactly_once() {
    let mut native = FakeKrb5::with_rule("user@EXAMPLE.COM", "user");
    let ctx = native.open().unwrap();
    let handle = ctx.ctx;
    assert_eq!(native.localname(&ctx, "user@EXAMPLE.COM").unwrap(), "user");
    assert!(native.localname(&ctx, "other@EXAMPLE.COM").is_err());
    native.close(ctx);
    assert_eq!(native.count(is_init), 1);
    assert_eq!(native.count(is_free_context), 1);
    assert_eq!(native.log.last(), Some(&Call::FreeContext { context: handle }));
    assert!(native.contexts.is_empty());
}

#[test]
fn failed_creation_releases_nothing() {
    let mut native = FakeKrb5::new();
    native.init_status = -1;
    assert!(native.open().is_err());
    assert_eq!(native.count(is_init), 1);
    assert_eq!(native.count(is_free_context), 0);
}

#[test]
fn embedded_nul_fails_before_any_native_call() {
    let mut native = FakeKrb5::with_rule("user@EXAMPLE.COM", "user");
    let ctx = native.open().unwrap();
    let before = native.log.len();
    let outcome = native.localname(&ctx, "user\0@EXAMPLE.COM");
    assert_eq!(outcome, Err(Error::Nul(4)));
    assert_eq!(native.log.len(), before);
    assert_eq!(native.count(is_parse), 0);
    assert_eq!(native.count(is_translate), 0);
    assert_eq!(native.count(is_free_principal), 0);
    assert!(matches!(ctx.localname("\0"), LocalnameStep::Done(Err(Error::Nul(0)))));
    assert!(matches!(ctx.localname("a\0b\0"), LocalnameStep::Done(Err(Error::Nul(1)))));
}

#[test]
fn parse_failure_carries_the_configured_message() {
    let mut native = FakeKrb5::new();
    native.parse_failure = Some((-1765328250, "Malformed representation of principal".to_string()));
    let ctx = native.open().unwrap();
    let outcome = native.localname(&ctx, "a@b@c");
    let expected = Krb5Error::from_context(
        Some("Malformed representation of principal".to_string()),
        -1765328250,
    );
    assert_eq!(outcome, Err(Error::Krb5(expected)));
    assert_eq!(native.count(is_parse), 1);
    assert_eq!(native.count(is_translate), 0);
    assert_eq!(native.count(is_get_message), 1);
    assert_eq!(native.count(is_free_principal), 1);
    assert!(native.slot.is_none());
    assert!(native.messages.is_empty());
    let cname = b"a@b@c\0".to_vec();
    let message = match &native.log[2] {
        Call::GetErrorMessage { .. } => 0,
        _ => 1,
    };
    assert_eq!(message, 0);
    assert_eq!(native.log[1], Call::ParseName { context: ctx.ctx, name: cname });
    assert_eq!(native.log[3], Call::ClearErrorMessage { context: ctx.ctx });
    assert!(matches!(native.log[4], Call::FreeErrorMessage { .. }));
    assert_eq!(
        native.log[5],
        Call::FreePrincipal { context: ctx.ctx, val: krb5_principal { addr: 0 } }
    );
    assert_eq!(native.log.len(), 6);
}

#[test]
fn missing_rule_gives_no_translation() {
    let mut native = FakeKrb5::new();
    let ctx = native.open().unwrap();
    let outcome = native.localname(&ctx, "user@EXAMPLE.COM");
    let e = outcome.unwrap_err();
    assert_eq!(e.code(), Some(NO_TRANSLATION));
    assert!(e.description().contains("No translation"));
    match e {
        Error::Krb5(inner) => {
            assert_eq!(inner.major(), NO_TRANSLATION);
            assert!(inner.diagnostic().unwrap().contains("No translation"));
        }
        _ => panic!("a native failure was expected"),
    }
    assert_eq!(native.count(is_free_principal), 1);
    assert!(native.principals.is_empty());
    assert!(native.messages.is_empty());
}

#[test]
fn localname_is_cut_at_the_first_terminator() {
    let mut native = FakeKrb5::new();
    native.raw_localname = Some(b"abc\0garbage".to_vec());
    let ctx = native.open().unwrap();
    assert_eq!(native.localname(&ctx, "user@EXAMPLE.COM").unwrap(), "abc");
}

#[test]
fn identity_is_released_before_its_session() {
    let mut native = FakeKrb5::with_rule("user@EXAMPLE.COM", "user");
    let ctx = native.open().unwrap();
    let handle = ctx.ctx;
    let _ = native.localname(&ctx, "user@EXAMPLE.COM");
    let _ = native.localname(&ctx, "nobody@EXAMPLE.COM");
    let _ = native.localname(&ctx, "nul\0byte");
    native.close(ctx);
    let closed = native.log.iter().position(is_free_context).unwrap();
    assert_eq!(closed, native.log.len() - 1);
    let mut released: usize = 0;
    for (at, call) in native.log.iter().enumerate() {
        if let Call::FreePrincipal { context, .. } = call {
            assert!(at < closed);
            assert_eq!(*context, handle);
            released += 1;
        }
    }
    assert_eq!(released, 2);
    assert_eq!(native.count(is_parse), 2);
    assert!(native.principals.is_empty());
}

#[test]
fn lookup_hands_out_parse_translate_release() {
    let ctx = Context::new(0, krb5_context { addr: 7 }).unwrap();
    let (lookup, call) = match ctx.localname("user@EXAMPLE.COM") {
        LocalnameStep::Call(lookup, call) => (lookup, call),
        LocalnameStep::Done(_) => panic!("the lookup has only started"),
    };
    assert_eq!(
        call,
        Call::ParseName { context: ctx.ctx, name: b"user@EXAMPLE.COM\0".to_vec() }
    );
    let parsed = Reply { code: 0, handle: 0x99, data: Vec::new() };
    let (lookup, call) = match lookup.resume(parsed) {
        LocalnameStep::Call(lookup, call) => (lookup, call),
        LocalnameStep::Done(_) => panic!("the identity is still to be translated"),
    };
    let mut expected = vec![0xFFu8; 255];
    expected.push(0);
    assert_eq!(
        call,
        Call::AnameToLocalname {
            context: ctx.ctx,
            aname: krb5_principal { addr: 0x99 },
            size: 255,
            lname: expected,
        }
    );
    let mut data = vec![0xFFu8; 256];
    data[..5].copy_from_slice(b"user\0");
    let translated = Reply { code: 0, handle: 0, data };
    let (lookup, call) = match lookup.resume(translated) {
        LocalnameStep::Call(lookup, call) => (lookup, call),
        LocalnameStep::Done(_) => panic!("the identity is still to be released"),
    };
    assert_eq!(
        call,
        Call::FreePrincipal { context: ctx.ctx, val: krb5_principal { addr: 0x99 } }
    );
    let done = lookup.resume(Reply { code: 0, handle: 0, data: Vec::new() });
    match done {
        LocalnameStep::Done(outcome) => assert_eq!(outcome, Ok("user".to_string())),
        LocalnameStep::Call(..) => panic!("the lookup has ended"),
    }
}

#[test]
fn translate_failure_is_not_retried() {
    let long = "x".repeat(255);
    let mut native = FakeKrb5::with_rule("user@EXAMPLE.COM", &long);
    let ctx = native.open().unwrap();
    let e = native.localname(&ctx, "user@EXAMPLE.COM").unwrap_err();
    assert_eq!(e.code(), Some(NOT_ENOUGH_SPACE));
    assert_eq!(e.description(), "Insufficient space to return complete information");
    assert_eq!(native.count(is_translate), 1);
    assert_eq!(native.count(is_free_principal), 1);
    assert_eq!(native.log.len(), 7);
}

#[test]
fn longest_name_that_fits_comes_back_whole() {
    let long = "y".repeat(254);
    let mut native = FakeKrb5::with_rule("user@EXAMPLE.COM", &long);
    let ctx = native.open().unwrap();
    assert_eq!(native.localname(&ctx, "user@EXAMPLE.COM").unwrap(), long);
}

#[test]
fn undecodable_localname_is_an_encoding_failure() {
    let mut native = FakeKrb5::new();
    native.raw_localname = Some(vec![b'a', 0xC3, 0x28, 0]);
    let ctx = native.open().unwrap();
    let outcome = native.localname(&ctx, "user@EXAMPLE.COM");
    assert_eq!(outcome, Err(Error::FromUtf8));
    assert_eq!(native.count(is_free_principal), 1);
    assert_eq!(native.count(is_get_message), 0);
    assert!(native.principals.is_empty());
}

#[test]
fn untouched_buffer_is_no_name() {
    let mut native = FakeKrb5::new();
    native.raw_localname = Some(Vec::new());
    let ctx = native.open().unwrap();
    assert_eq!(native.localname(&ctx, "user@EXAMPLE.COM"), Err(Error::FromUtf8));
}

#[test]
fn empty_localname_is_valid_when_written() {
    let mut native = FakeKrb5::new();
    native.raw_localname = Some(vec![0]);
    let ctx = native.open().unwrap();
    assert_eq!(native.localname(&ctx, "user@EXAMPLE.COM"), Ok(String::new()));
}

#[test]
fn non_ascii_localname_is_decoded() {
    let mut native = FakeKrb5::with_rule("zoë@EXAMPLE.COM", "zoë");
    let ctx = native.open().unwrap();
    assert_eq!(native.localname(&ctx, "zoë@EXAMPLE.COM").unwrap(), "zoë");
    assert_eq!(
        native.log[1],
        Call::ParseName { context: ctx.ctx, name: "zoë@EXAMPLE.COM\0".as_bytes().to_vec() }
    );
}

#[test]
fn diagnostic_is_fetched_cleared_and_freed() {
    let mut native = FakeKrb5::new();
    let ctx = native.open().unwrap();
    native.slot = Some("Cannot contact any KDC".to_string());
    let text = native.error_message(&ctx, 5);
    assert_eq!(text, Some("Cannot contact any KDC".to_string()));
    assert!(native.slot.is_none());
    assert!(native.messages.is_empty());
    assert_eq!(native.log[1], Call::GetErrorMessage { context: ctx.ctx, code: 5 });
    assert_eq!(native.log[2], Call::ClearErrorMessage { context: ctx.ctx });
    assert!(matches!(native.log[3], Call::FreeErrorMessage { .. }));
    assert_eq!(native.log.len(), 4);
    let again = native.error_message(&ctx, 5);
    assert_eq!(again, Some("Unknown code 5".to_string()));
}

#[test]
fn null_or_undecodable_diagnostic_is_none() {
    let ctx = Context::new(0, krb5_context { addr: 3 }).unwrap();
    let (fetch, _) = ctx.error_message(9);
    let step = fetch.resume(Reply { code: 0, handle: 0, data: b"ignored\0".to_vec() });
    let (fetch, call) = match step {
        ErrorMessageStep::Call(fetch, call) => (fetch, call),
        ErrorMessageStep::Done(_) => panic!("the slot is still to be cleared"),
    };
    assert_eq!(call, Call::ClearErrorMessage { context: ctx.ctx });
    let step = fetch.resume(Reply { code: 0, handle: 0, data: Vec::new() });
    let (fetch, call) = match step {
        ErrorMessageStep::Call(fetch, call) => (fetch, call),
        ErrorMessageStep::Done(_) => panic!("the text is still to be released"),
    };
    assert_eq!(call, Call::FreeErrorMessage { context: ctx.ctx, message: 0 });
    match fetch.resume(Reply { code: 0, handle: 0, data: Vec::new() }) {
        ErrorMessageStep::Done(text) => assert_eq!(text, None),
        ErrorMessageStep::Call(..) => panic!("the fetch has ended"),
    }

    let mut native = FakeKrb5::new();
    native.parse_failure = Some((77, "unused".to_string()));
    let ctx = native.open().unwrap();
    let mut step = ctx.localname("user");
    let mut replies: Vec<Reply> = vec![
        Reply { code: 77, handle: 0, data: Vec::new() },
        Reply { code: 0, handle: 0x50, data: vec![0xFF, 0xFE, 0] },
        Reply { code: 0, handle: 0, data: Vec::new() },
        Reply { code: 0, handle: 0, data: Vec::new() },
        Reply { code: 0, handle: 0, data: Vec::new() },
    ];
    replies.reverse();
    let outcome = loop {
        match step {
            LocalnameStep::Done(outcome) => break outcome,
            LocalnameStep::Call(lookup, _) => step = lookup.resume(replies.pop().unwrap()),
        }
    };
    let e = outcome.unwrap_err();
    assert_eq!(e, Error::Krb5(Krb5Error::new(77)));
    assert_eq!(e.description(), "Kerberos Error: 77");
    assert!(replies.is_empty());
}

#[test]
fn principal_starts_empty_and_is_released_in_its_session() {
    let ctx = Context::new(0, krb5_context { addr: 0x40 }).unwrap();
    let mut princ = Principal::new(&ctx);
    assert!(princ.handle().is_null());
    assert_eq!(princ.handle(), krb5_principal::null());
    assert_eq!(princ.context().ctx, ctx.ctx);
    princ.set_handle(krb5_principal { addr: 0x41 });
    assert!(!princ.handle().is_null());
    assert_eq!(
        princ.release(),
        Call::FreePrincipal { context: krb5_context { addr: 0x40 }, val: krb5_principal { addr: 0x41 } }
    );
    let empty = Principal::new(&ctx);
    assert_eq!(
        empty.release(),
        Call::FreePrincipal { context: krb5_context { addr: 0x40 }, val: krb5_principal { addr: 0 } }
    );
    assert!(krb5_context::null().is_null());
    assert!(!ctx.ctx.is_null());
}

#[test]
fn strlen_stops_at_the_first_zero() {
    assert_eq!(strlen(b"abc\0garbage"), 3);
    assert_eq!(strlen(b"\0"), 0);
    assert_eq!(strlen(b""), 0);
    assert_eq!(strlen(b"no terminator"), 13);
    assert_eq!(strlen(b"a\0\0"), 1);
}

#[test]
fn c_to_string_reads_up_to_the_terminator() {
    assert_eq!(c_to_string(b"abc\0garbage"), Some("abc".to_string()));
    assert_eq!(c_to_string(b"\0"), Some(String::new()));
    assert_eq!(c_to_string("gr\u{fc}n\0".as_bytes()), Some("gr\u{fc}n".to_string()));
    assert_eq!(c_to_string(&[0x80, 0]), None);
    assert_eq!(c_to_string(&[b'o', b'k', 0, 0x80]), Some("ok".to_string()));
}

#[test]
fn to_c_string_appends_the_terminator() {
    assert_eq!(to_c_string("user@EXAMPLE.COM"), Ok(b"user@EXAMPLE.COM\0".to_vec()));
    assert_eq!(to_c_string(""), Ok(vec![0u8]));
    assert_eq!(to_c_string("ab\0cd"), Err(Error::Nul(2)));
    assert_eq!(to_c_string("tail\0"), Err(Error::Nul(4)));
}

#[test]
fn buffer_is_filled_and_terminated() {
    let lname = localname_buffer();
    assert_eq!(MAX_USERNAME, 256);
    assert_eq!(FILLER, 0xFF);
    assert_eq!(lname.len(), 256);
    assert_eq!(lname[255], 0);
    assert!(lname[..255].iter().all(|b| *b == 0xFF));
    assert_eq!(strlen(&lname), 255);
}

#[test]
fn decode_localname_cuts_and_decodes() {
    assert_eq!(decode_localname(b"abc\0garbage".to_vec()), Ok("abc".to_string()));
    assert_eq!(decode_localname(b"whole".to_vec()), Ok("whole".to_string()));
    assert_eq!(decode_localname(vec![0]), Ok(String::new()));
    assert_eq!(decode_localname(vec![0xFF, 0]), Err(Error::FromUtf8));
    assert_eq!(decode_localname(vec![b'a', 0, 0xFF]), Ok("a".to_string()));
    assert_eq!(decode_localname(localname_buffer()), Err(Error::FromUtf8));
}

#[test]
fn localname_never_runs_past_the_usable_part() {
    let long = vec![b'a'; 300];
    assert_eq!(decode_localname(long), Ok("a".repeat(255)));
    let mut overwritten = vec![b'b'; 256];
    overwritten[255] = b'!';
    assert_eq!(decode_localname(overwritten), Ok("b".repeat(255)));
    let mut native = FakeKrb5::new();
    native.raw_localname = Some(vec![b'c'; 256]);
    let ctx = native.open().unwrap();
    assert_eq!(native.localname(&ctx, "user@EXAMPLE.COM"), Ok("c".repeat(255)));
}

#[test]
fn decimal_string_writes_base_ten() {
    assert_eq!(decimal_string(0), "0");
    assert_eq!(decimal_string(7), "7");
    assert_eq!(decimal_string(10), "10");
    assert_eq!(decimal_string(-1), "-1");
    assert_eq!(decimal_string(1234567890), "1234567890");
    assert_eq!(decimal_string(i32::MAX), "2147483647");
    assert_eq!(decimal_string(i32::MIN), "-2147483648");
    assert_eq!(decimal_string(-1765328227), "-1765328227");
}

#[test]
fn descriptions_name_the_code_or_the_text() {
    assert_eq!(Krb5Error::new(-1765328227).description(), "Kerberos Error: -1765328227");
    assert_eq!(Krb5Error::new(0).description(), "Kerberos Error: 0");
    assert_eq!(Krb5Error::new(3).major(), 3);
    assert_eq!(Krb5Error::new(3).diagnostic(), None);
    let told = Krb5Error::from_context(Some("Decrypt integrity check failed".to_string()), 31);
    assert_eq!(told.description(), "Decrypt integrity check failed");
    assert_eq!(told.major(), 31);
    assert_eq!(told.diagnostic(), Some(&"Decrypt integrity check failed".to_string()));
    assert_eq!(Krb5Error::from_context(None, 31), Krb5Error::new(31));
    assert_eq!(Error::Krb5(told).description(), "Decrypt integrity check failed");
    assert_eq!(Error::FromUtf8.description(), "invalid utf-8");
    assert_eq!(Error::Nul(3).description(), "nul byte found in data");
    assert_eq!(Error::FromUtf8.code(), None);
    assert_eq!(Error::Nul(3).code(), None);
}
