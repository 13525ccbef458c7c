//! The broker's access rule: only clients whose identifier starts with
//! `ac_` may connect.
//!
//! The broker calls its authentication hooks in turn, handing each the
//! verdict of the ones before. This module decides what the access hook
//! answers; the broker types are converted to and from the plain ones here
//! where the hook is registered.
use vstd::prelude::*;
use crate::text::{has_prefix, spec_has_prefix};

verus! {

/// The event a hook is called for, as far as the access rule reads it.
pub enum HookEvent {
    /// A client asks to connect under `client_id`.
    ClientAuthenticate { client_id: String },
    /// Any other broker event.
    Other,
}

/// What the hooks called earlier concluded for the same event.
#[derive(PartialEq, Eq, Structural)]
pub enum PriorVerdict {
    /// An earlier hook refused the client (bad user name or password, or not
    /// authorized).
    Refused,
    /// No earlier hook refused the client (no verdict, or another one).
    NotRefused,
}

/// The verdict the access hook hands on.
#[derive(PartialEq, Eq, Structural)]
pub enum AclVerdict {
    /// The verdict received from the earlier hooks, passed on as it came.
    Unchanged,
    /// The client may connect, without superuser rights.
    Allow,
    /// The client is refused as not authorized.
    NotAuthorized,
}

/// The answer of the access hook: whether the broker goes on to the next
/// hooks, and the verdict it hands on.
pub struct HookAnswer {
    pub proceed: bool,
    pub verdict: AclVerdict,
}

/// The access rule over plain values.
pub open spec fn acl_answer(event: HookEvent, prior: PriorVerdict) -> (bool, AclVerdict) {
    match event {
        HookEvent::ClientAuthenticate { client_id } => {
            if prior == PriorVerdict::Refused {
                (false, AclVerdict::Unchanged)
            } else if spec_has_prefix(client_id@, "ac_"@) {
                (false, AclVerdict::Allow)
            } else {
                (false, AclVerdict::NotAuthorized)
            }
        },
        HookEvent::Other => (true, AclVerdict::Unchanged),
    }
}

/// The authentication hook of the access plug-in.
pub struct AclHandler {}

impl AclHandler {
    /// Answers one hook call. For a connection attempt the broker stops
    /// after this hook: an earlier refusal is passed on unchanged, a client
    /// whose identifier starts with `ac_` is allowed, and any other client
    /// is refused. Every other event is passed on untouched to the next
    /// hooks.
    pub fn hook(&self, event: &HookEvent, prior: PriorVerdict) -> (a: HookAnswer)
        ensures
            (a.proceed, a.verdict) == acl_answer(*event, prior),
    {
        match event {
            HookEvent::ClientAuthenticate { client_id } => {
                if prior == PriorVerdict::Refused {
                    HookAnswer { proceed: false, verdict: AclVerdict::Unchanged }
                } else if has_prefix(client_id.as_str(), "ac_") {
                    HookAnswer { proceed: false, verdict: AclVerdict::Allow }
                } else {
                    HookAnswer { proceed: false, verdict: AclVerdict::NotAuthorized }
                }
            },
            HookEvent::Other => HookAnswer { proceed: true, verdict: AclVerdict::Unchanged },
        }
    }
}

/// A refusal by an earlier hook is never overturned, and no connection
/// attempt reaches the hooks after this one.
pub proof fn lemma_refusal_stands(event: HookEvent)
    ensures
        acl_answer(event, PriorVerdict::Refused).1 == AclVerdict::Unchanged,
        event is ClientAuthenticate ==> !acl_answer(event, PriorVerdict::Refused).0
            && !acl_answer(event, PriorVerdict::NotRefused).0,
{
}

/// A client that no earlier hook refused is allowed exactly when its
/// identifier starts with `ac_`, and refused otherwise.
pub proof fn lemma_allowed_iff_prefixed(client_id: String)
    ensures
        (acl_answer(HookEvent::ClientAuthenticate { client_id }, PriorVerdict::NotRefused).1
            == AclVerdict::Allow) <==> spec_has_prefix(client_id@, "ac_"@),
        (acl_answer(HookEvent::ClientAuthenticate { client_id }, PriorVerdict::NotRefused).1
            == AclVerdict::NotAuthorized) <==> !spec_has_prefix(client_id@, "ac_"@),
{
}

/// Events other than connection attempts go through the hook untouched.
pub proof fn lemma_other_events_pass(prior: PriorVerdict)
    ensures
        acl_answer(HookEvent::Other, prior) == (true, AclVerdict::Unchanged),
{
}

} // verus!
