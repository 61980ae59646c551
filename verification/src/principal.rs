use crate::context::Context;
use crate::ffi::{krb5_context, krb5_principal, Call, CallView};
use vstd::prelude::*;

verus! {

/// An identity of the native library, bound to the session that it is parsed
/// in. It borrows the session, so the session cannot be released while the
/// identity is held; `release` consumes it, so it is released once.
#[derive(Debug)]
pub struct Principal<'a> {
    princ: krb5_principal,
    ctx: &'a Context,
}

/// What a `Principal` holds, as plain values: the handle of its session and
/// its own.
pub struct PrincipalView {
    pub context: krb5_context,
    pub princ: krb5_principal,
}

impl<'a> View for Principal<'a> {
    type V = PrincipalView;

    closed spec fn view(&self) -> PrincipalView {
        PrincipalView { context: self.ctx.ctx, princ: self.princ }
    }
}

impl<'a> Principal<'a> {
    /// An identity of `ctx` into which nothing has been parsed yet.
    pub fn new(ctx: &'a Context) -> (principal: Principal<'a>)
        ensures
            principal@ == (PrincipalView { context: ctx.ctx, princ: krb5_principal { addr: 0 } }),
    {
        Principal { princ: krb5_principal::null(), ctx }
    }

    /// The session that the identity belongs to.
    pub fn context(&self) -> (ctx: &'a Context)
        ensures
            ctx.ctx == self@.context,
    {
        self.ctx
    }

    /// The native handle, null while nothing has been parsed.
    pub fn handle(&self) -> (princ: krb5_principal)
        ensures
            princ == self@.princ,
    {
        self.princ
    }

    /// Takes over the handle that parsing left behind.
    pub fn set_handle(&mut self, princ: krb5_principal)
        ensures
            final(self)@ == (PrincipalView { context: old(self)@.context, princ }),
    {
        self.princ = princ;
    }

    /// Gives up the identity: the operation that releases it, in the session
    /// that it came from. An identity that was never parsed is released the
    /// same way.
    pub fn release(self) -> (call: Call)
        ensures
            call@ == (CallView::FreePrincipal { context: self@.context, val: self@.princ }),
    {
        Call::FreePrincipal { context: self.ctx.ctx, val: self.princ }
    }
}

} // verus!
