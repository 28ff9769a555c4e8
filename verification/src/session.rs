//! The approval orchestrator: one session per change event.
//!
//! A session is a state machine. Its driver performs the action the session
//! asks for — a store lookup, a gateway call, a sleep — and hands back what
//! happened; the session decides everything else. The flow: resolve the
//! request's context and the linked identity, open a private channel, send
//! the prompt and attach the two reaction markers, poll the markers for a
//! bounded window, apply the decision to durable state, send a confirmation
//! where one is owed, and finally — after the linger window — delete the
//! prompt and any confirmation, whatever else happened. Every session ends in
//! a terminal state: `Cleaned`, or an abort that names what failed.

use vstd::prelude::*;
use crate::database::DatabaseError;
use crate::embed::ConfirmationKind;
use crate::embed::EmbedData;
use crate::embed::confirmation_colour;
use crate::embed::confirmation_embed;
use crate::embed::confirmation_text;
use crate::embed::login_title;
use crate::embed::prompt_embed;
use crate::embed::prompt_text;
use crate::event::ChangeEvent;
use crate::event::Decision;
use crate::event::parse_request_id;
use crate::event::payload_value;
use crate::event::valid_request_payload;
use crate::poller::POLL_CYCLES;
use crate::poller::POLL_INTERVAL_SECS;
use crate::poller::cycle_decision;
use crate::poller::decide_cycle;

verus! {

/// Seconds between the decision and the cleanup of the messages.
pub const LINGER_WINDOW_SECS: u64 = 30;

/// The two reaction markers attached to the prompt.
#[derive(Clone, Copy, Debug, PartialEq, Eq, Structural)]
pub enum Marker {
    Approve,
    Deny,
}

/// What ended a session early. Failed lookups end it before anything
/// external was created; failed gateway calls end it mid-prompt.
#[derive(Clone, Copy, Debug, PartialEq, Eq, Structural)]
pub enum AbortReason {
    /// The event's payload was not a request identifier.
    PayloadInvalid,
    /// The request's account or address could not be resolved.
    ContextLookup,
    /// The linked identity was absent or empty.
    IdentityLookup,
    /// The private channel could not be opened.
    ChannelOpen,
    /// The prompt could not be sent.
    PromptSend,
    /// A reaction marker could not be attached.
    ReactionAttach,
    /// A reactor list could not be read during the poll.
    ReactionRead,
}

#[derive(Clone, Copy, Debug, PartialEq, Eq, Structural)]
pub enum SessionStep {
    ResolvingContext,
    ResolvingIdentity,
    OpeningChannel,
    SendingPrompt,
    AttachingApprove,
    AttachingDeny,
    Polling,
    CheckingAuthStatus,
    DeletingStaleAuth,
    InsertingAuth,
    SendingConfirmation,
    Lingering,
    DeletingPrompt,
    DeletingConfirmation,
    Cleaned,
    Aborted(AbortReason),
}

/// The durable context of an authentication request.
#[derive(Clone, Debug)]
pub struct RequestContext {
    pub subject_account: String,
    pub origin_address: String,
}

/// What the driver reports back after performing the requested action.
#[derive(Debug)]
pub enum SessionResponse {
    Context(Result<RequestContext, DatabaseError>),
    Identity(Result<String, DatabaseError>),
    /// The handle of the opened channel, or nothing on a gateway failure.
    ChannelOpened(Option<u64>),
    /// The handle of the sent prompt, or nothing on a gateway failure.
    PromptSent(Option<u64>),
    /// Whether attaching the marker succeeded.
    ReactionAttached(bool),
    /// One cycle's reactor counts, approve then deny, or nothing when either
    /// read failed.
    ReactionCounts(Option<(u64, u64)>),
    AuthStatus(Result<bool, DatabaseError>),
    StaleAuthDeleted(Result<(), DatabaseError>),
    AuthInserted(Result<(), DatabaseError>),
    /// The handle of the sent confirmation, or nothing on a gateway failure.
    ConfirmationSent(Option<u64>),
    /// The linger window has passed.
    Waited,
    /// Whether deleting the prompt succeeded.
    PromptDeleted(bool),
    /// Whether deleting the confirmation succeeded.
    ConfirmationDeleted(bool),
}

/// What the session asks its driver to do next.
#[derive(Debug)]
pub enum SessionAction {
    /// Look up the request's account and address by its identifier.
    FetchContext { request_id: i32 },
    /// Look up the identity linked to the account.
    FetchIdentity { subject_account: String },
    /// Open a private one-to-one channel with the identity.
    OpenChannel { discord_identity: String },
    /// Send the prompt on the channel.
    SendPrompt { channel: u64, content: EmbedData },
    /// Attach a reaction marker to the prompt.
    AttachReaction { prompt: u64, marker: Marker },
    /// Sleep the given delay, then read both markers' reactor counts.
    ReadReactions { prompt: u64, delay_secs: u64 },
    /// Ask whether the identity is authenticated from the address.
    CheckAuthStatus { discord_identity: String, origin_address: String },
    /// Delete any stale authentication of the identity.
    DeleteStaleAuth { discord_identity: String },
    /// Store a fresh authentication linking the identity to the request.
    InsertAuth { discord_identity: String, request_id: i32 },
    /// Send the confirmation on the channel.
    SendConfirmation { channel: u64, content: EmbedData },
    /// Wait out the linger window.
    Wait { secs: u64 },
    /// Delete the prompt message; a failure is swallowed.
    DeletePrompt { prompt: u64 },
    /// Delete the confirmation message; a failure is swallowed.
    DeleteConfirmation { confirmation: u64 },
}

/// One approval session: the event it serves and everything resolved so far.
pub struct ApprovalSession {
    pub step: SessionStep,
    pub event: ChangeEvent,
    pub request_id: i32,
    pub subject_account: String,
    pub origin_address: String,
    pub discord_identity: String,
    pub channel: u64,
    pub prompt: u64,
    /// Sampling cycles left of the poll window; meaningful while polling.
    pub cycles_left: u64,
    pub decision: Option<Decision>,
    pub confirmation_kind: Option<ConfirmationKind>,
    pub confirmation: Option<u64>,
}

impl ApprovalSession {
    /// A session is over once it is cleaned or aborted.
    pub open spec fn is_terminal(self) -> bool {
        self.step is Cleaned || self.step is Aborted
    }

    pub open spec fn wf(self) -> bool {
        self.step is Polling ==> 1 <= self.cycles_left <= POLL_CYCLES
    }

    /// How far the session still has to go. Every step strictly decreases
    /// this rank, so a driven session always reaches a terminal state.
    pub open spec fn rank(self) -> int {
        match self.step {
            SessionStep::Cleaned => 0,
            SessionStep::Aborted(_) => 0,
            SessionStep::DeletingConfirmation => 1,
            SessionStep::DeletingPrompt => 2,
            SessionStep::Lingering => 3,
            SessionStep::SendingConfirmation => 4,
            SessionStep::InsertingAuth => 5,
            SessionStep::DeletingStaleAuth => 6,
            SessionStep::CheckingAuthStatus => 7,
            SessionStep::Polling => 8 + self.cycles_left,
            SessionStep::AttachingDeny => 39,
            SessionStep::AttachingApprove => 40,
            SessionStep::SendingPrompt => 41,
            SessionStep::OpeningChannel => 42,
            SessionStep::ResolvingIdentity => 43,
            SessionStep::ResolvingContext => 44,
        }
    }

    /// Which kind of report the session is waiting for.
    pub open spec fn expects(self, response: SessionResponse) -> bool {
        match self.step {
            SessionStep::ResolvingContext => response is Context,
            SessionStep::ResolvingIdentity => response is Identity,
            SessionStep::OpeningChannel => response is ChannelOpened,
            SessionStep::SendingPrompt => response is PromptSent,
            SessionStep::AttachingApprove => response is ReactionAttached,
            SessionStep::AttachingDeny => response is ReactionAttached,
            SessionStep::Polling => response is ReactionCounts,
            SessionStep::CheckingAuthStatus => response is AuthStatus,
            SessionStep::DeletingStaleAuth => response is StaleAuthDeleted,
            SessionStep::InsertingAuth => response is AuthInserted,
            SessionStep::SendingConfirmation => response is ConfirmationSent,
            SessionStep::Lingering => response is Waited,
            SessionStep::DeletingPrompt => response is PromptDeleted,
            SessionStep::DeletingConfirmation => response is ConfirmationDeleted,
            SessionStep::Cleaned => false,
            SessionStep::Aborted(_) => false,
        }
    }

    /// Opens a session for one dequeued event. A payload that is no request
    /// identifier aborts at once — nothing external exists yet, so that is
    /// already a clean end; otherwise the first action is the context lookup.
    pub fn start(event: ChangeEvent) -> (r: (ApprovalSession, Option<SessionAction>))
        ensures
            r.0.wf(),
            r.0.event == event,
            r.0.decision is None,
            r.0.confirmation is None,
            valid_request_payload(event.payload@) ==> r.0.step is ResolvingContext
                && r.0.request_id == payload_value(event.payload@)
                && r.1 == Some(SessionAction::FetchContext { request_id: r.0.request_id }),
            !valid_request_payload(event.payload@) ==> r.0.step == SessionStep::Aborted(
                AbortReason::PayloadInvalid,
            ) && r.1 is None,
    {
        let parsed = parse_request_id(event.payload.as_str());
        match parsed {
            Some(request_id) => {
                let session = ApprovalSession {
                    step: SessionStep::ResolvingContext,
                    event,
                    request_id,
                    subject_account: String::new(),
                    origin_address: String::new(),
                    discord_identity: String::new(),
                    channel: 0,
                    prompt: 0,
                    cycles_left: 0,
                    decision: None,
                    confirmation_kind: None,
                    confirmation: None,
                };
                (session, Some(SessionAction::FetchContext { request_id }))
            },
            None => {
                let session = ApprovalSession {
                    step: SessionStep::Aborted(AbortReason::PayloadInvalid),
                    event,
                    request_id: 0,
                    subject_account: String::new(),
                    origin_address: String::new(),
                    discord_identity: String::new(),
                    channel: 0,
                    prompt: 0,
                    cycles_left: 0,
                    decision: None,
                    confirmation_kind: None,
                    confirmation: None,
                };
                (session, None)
            },
        }
    }

    /// Digests the report of the last action and says what to do next; no
    /// action means the session reached a terminal state.
    pub fn step(&mut self, response: SessionResponse) -> (action: Option<SessionAction>)
        requires
            old(self).wf(),
            !old(self).is_terminal(),
            old(self).expects(response),
        ensures
            final(self).wf(),
            final(self).rank() < old(self).rank(),
            final(self).is_terminal() <==> action is None,
            final(self).event == old(self).event,
            final(self).request_id == old(self).request_id,
            !(old(self).step is ResolvingContext) ==> final(self).subject_account == old(
                self,
            ).subject_account && final(self).origin_address == old(self).origin_address,
            !(old(self).step is ResolvingIdentity) ==> final(self).discord_identity == old(
                self,
            ).discord_identity,
            !(old(self).step is OpeningChannel) ==> final(self).channel == old(self).channel,
            !(old(self).step is SendingPrompt) ==> final(self).prompt == old(self).prompt,
            !(old(self).step is Polling) ==> final(self).decision == old(self).decision,
            !(old(self).step is Polling || old(self).step is CheckingAuthStatus || old(
                self,
            ).step is InsertingAuth) ==> final(self).confirmation_kind == old(
                self,
            ).confirmation_kind,
            !(old(self).step is SendingConfirmation) ==> final(self).confirmation == old(
                self,
            ).confirmation,
            old(self).step is ResolvingContext ==> (match response {
                SessionResponse::Context(res) => match res {
                    Ok(ctx) => final(self).step is ResolvingIdentity
                        && final(self).subject_account == ctx.subject_account
                        && final(self).origin_address == ctx.origin_address
                        && action == Some(SessionAction::FetchIdentity {
                            subject_account: ctx.subject_account,
                        }),
                    Err(_) => final(self).step == SessionStep::Aborted(AbortReason::ContextLookup),
                },
                _ => true,
            }),
            old(self).step is ResolvingIdentity ==> (match response {
                SessionResponse::Identity(res) => match res {
                    Ok(id) => (id@.len() > 0 ==> final(self).step is OpeningChannel
                        && final(self).discord_identity == id
                        && action == Some(SessionAction::OpenChannel { discord_identity: id }))
                        && (id@.len() == 0 ==> final(self).step == SessionStep::Aborted(
                            AbortReason::IdentityLookup,
                        )),
                    Err(_) => final(self).step == SessionStep::Aborted(AbortReason::IdentityLookup),
                },
                _ => true,
            }),
            old(self).step is OpeningChannel ==> (match response {
                SessionResponse::ChannelOpened(handle) => match handle {
                    Some(ch) => final(self).step is SendingPrompt && final(self).channel == ch
                        && (action matches Some(SessionAction::SendPrompt { channel, content })
                            && channel == ch
                            && (content.title matches Some(t) && t@ == login_title())
                            && (content.description matches Some(d) && d@ == prompt_text(
                                old(self).subject_account@,
                            ))
                            && content.colour is None),
                    None => final(self).step == SessionStep::Aborted(AbortReason::ChannelOpen),
                },
                _ => true,
            }),
            old(self).step is SendingPrompt ==> (match response {
                SessionResponse::PromptSent(handle) => match handle {
                    Some(msg) => final(self).step is AttachingApprove && final(self).prompt == msg
                        && action == Some(SessionAction::AttachReaction {
                            prompt: msg,
                            marker: Marker::Approve,
                        }),
                    None => final(self).step == SessionStep::Aborted(AbortReason::PromptSend),
                },
                _ => true,
            }),
            old(self).step is AttachingApprove ==> (match response {
                SessionResponse::ReactionAttached(ok) => if ok {
                    final(self).step is AttachingDeny && action == Some(
                        SessionAction::AttachReaction {
                            prompt: old(self).prompt,
                            marker: Marker::Deny,
                        },
                    )
                } else {
                    final(self).step == SessionStep::Aborted(AbortReason::ReactionAttach)
                },
                _ => true,
            }),
            old(self).step is AttachingDeny ==> (match response {
                SessionResponse::ReactionAttached(ok) => if ok {
                    final(self).step is Polling && final(self).cycles_left == POLL_CYCLES
                        && action == Some(SessionAction::ReadReactions {
                            prompt: old(self).prompt,
                            delay_secs: 0,
                        })
                } else {
                    final(self).step == SessionStep::Aborted(AbortReason::ReactionAttach)
                },
                _ => true,
            }),
            old(self).step is Polling ==> (match response {
                SessionResponse::ReactionCounts(counts) => match counts {
                    None => final(self).step == SessionStep::Aborted(AbortReason::ReactionRead),
                    Some(sample) => {
                        &&& cycle_decision(sample.0, sample.1) == Some(Decision::Approved)
                            ==> final(self).step is CheckingAuthStatus && final(self).decision
                            == Some(Decision::Approved) && action == Some(
                            SessionAction::CheckAuthStatus {
                                discord_identity: old(self).discord_identity,
                                origin_address: old(self).origin_address,
                            },
                        )
                        &&& cycle_decision(sample.0, sample.1) == Some(Decision::Denied)
                            ==> final(self).step is SendingConfirmation && final(self).decision
                            == Some(Decision::Denied) && final(self).confirmation_kind == Some(
                            ConfirmationKind::Denied,
                        ) && is_confirmation(action, old(self).channel, ConfirmationKind::Denied)
                        &&& cycle_decision(sample.0, sample.1) is None && old(self).cycles_left > 1
                            ==> final(self).step is Polling && final(self).cycles_left == old(
                            self,
                        ).cycles_left - 1 && action == Some(SessionAction::ReadReactions {
                            prompt: old(self).prompt,
                            delay_secs: POLL_INTERVAL_SECS,
                        })
                        &&& cycle_decision(sample.0, sample.1) is None && old(self).cycles_left
                            == 1 ==> final(self).step is Lingering && final(self).decision == Some(
                            Decision::TimedOut,
                        ) && final(self).confirmation_kind is None && action == Some(
                            SessionAction::Wait { secs: LINGER_WINDOW_SECS },
                        )
                    },
                },
                _ => true,
            }),
            old(self).step is CheckingAuthStatus ==> (match response {
                SessionResponse::AuthStatus(res) => match res {
                    Ok(authenticated) => if authenticated {
                        final(self).step is SendingConfirmation && final(self).confirmation_kind
                            == Some(ConfirmationKind::AlreadyAuthenticated) && is_confirmation(
                            action,
                            old(self).channel,
                            ConfirmationKind::AlreadyAuthenticated,
                        )
                    } else {
                        final(self).step is DeletingStaleAuth && action == Some(
                            SessionAction::DeleteStaleAuth {
                                discord_identity: old(self).discord_identity,
                            },
                        )
                    },
                    // A store failure here is logged and the session still
                    // proceeds to cleanup, with no confirmation owed.
                    Err(_) => final(self).step is Lingering && final(self).confirmation_kind
                        is None && action == Some(SessionAction::Wait {
                        secs: LINGER_WINDOW_SECS,
                    }),
                },
                _ => true,
            }),
            old(self).step is DeletingStaleAuth ==> (match response {
                // The stale entry may or may not have existed; either way the
                // fresh authentication is stored next.
                SessionResponse::StaleAuthDeleted(_) => final(self).step is InsertingAuth
                    && action == Some(SessionAction::InsertAuth {
                        discord_identity: old(self).discord_identity,
                        request_id: old(self).request_id,
                    }),
                _ => true,
            }),
            old(self).step is InsertingAuth ==> (match response {
                SessionResponse::AuthInserted(res) => match res {
                    Ok(_) => final(self).step is SendingConfirmation
                        && final(self).confirmation_kind == Some(ConfirmationKind::Approved)
                        && is_confirmation(action, old(self).channel, ConfirmationKind::Approved),
                    Err(_) => final(self).step is SendingConfirmation
                        && final(self).confirmation_kind == Some(ConfirmationKind::InternalError)
                        && is_confirmation(
                            action,
                            old(self).channel,
                            ConfirmationKind::InternalError,
                        ),
                },
                _ => true,
            }),
            old(self).step is SendingConfirmation ==> (match response {
                // A failed confirmation send leaves nothing to delete later;
                // the session still lingers and cleans up the prompt.
                SessionResponse::ConfirmationSent(handle) => final(self).step is Lingering
                    && final(self).confirmation == handle && action == Some(SessionAction::Wait {
                    secs: LINGER_WINDOW_SECS,
                }),
                _ => true,
            }),
            old(self).step is Lingering ==> (match response {
                SessionResponse::Waited => final(self).step is DeletingPrompt && action == Some(
                    SessionAction::DeletePrompt { prompt: old(self).prompt },
                ),
                _ => true,
            }),
            old(self).step is DeletingPrompt ==> (match response {
                // Whether or not the deletion succeeded, the session moves
                // on: a failure is logged by the driver and swallowed here.
                SessionResponse::PromptDeleted(_) => match old(self).confirmation {
                    Some(c) => final(self).step is DeletingConfirmation && action == Some(
                        SessionAction::DeleteConfirmation { confirmation: c },
                    ),
                    None => final(self).step is Cleaned,
                },
                _ => true,
            }),
            old(self).step is DeletingConfirmation ==> (match response {
                SessionResponse::ConfirmationDeleted(_) => final(self).step is Cleaned,
                _ => true,
            }),
    {
        match self.step {
            SessionStep::ResolvingContext => match response {
                SessionResponse::Context(res) => match res {
                    Ok(ctx) => {
                        let act = SessionAction::FetchIdentity {
                            subject_account: ctx.subject_account.clone(),
                        };
                        self.subject_account = ctx.subject_account;
                        self.origin_address = ctx.origin_address;
                        self.step = SessionStep::ResolvingIdentity;
                        Some(act)
                    },
                    Err(_) => {
                        self.step = SessionStep::Aborted(AbortReason::ContextLookup);
                        None
                    },
                },
                _ => None,
            },
            SessionStep::ResolvingIdentity => match response {
                SessionResponse::Identity(res) => match res {
                    Ok(id) => {
                        if id.as_str().is_empty() {
                            self.step = SessionStep::Aborted(AbortReason::IdentityLookup);
                            None
                        } else {
                            let act = SessionAction::OpenChannel {
                                discord_identity: id.clone(),
                            };
                            self.discord_identity = id;
                            self.step = SessionStep::OpeningChannel;
                            Some(act)
                        }
                    },
                    Err(_) => {
                        self.step = SessionStep::Aborted(AbortReason::IdentityLookup);
                        None
                    },
                },
                _ => None,
            },
            SessionStep::OpeningChannel => match response {
                SessionResponse::ChannelOpened(handle) => match handle {
                    Some(ch) => {
                        self.channel = ch;
                        self.step = SessionStep::SendingPrompt;
                        Some(SessionAction::SendPrompt {
                            channel: ch,
                            content: prompt_embed(self.subject_account.as_str()),
                        })
                    },
                    None => {
                        self.step = SessionStep::Aborted(AbortReason::ChannelOpen);
                        None
                    },
                },
                _ => None,
            },
            SessionStep::SendingPrompt => match response {
                SessionResponse::PromptSent(handle) => match handle {
                    Some(msg) => {
                        self.prompt = msg;
                        self.step = SessionStep::AttachingApprove;
                        Some(SessionAction::AttachReaction { prompt: msg, marker: Marker::Approve })
                    },
                    None => {
                        self.step = SessionStep::Aborted(AbortReason::PromptSend);
                        None
                    },
                },
                _ => None,
            },
            SessionStep::AttachingApprove => match response {
                SessionResponse::ReactionAttached(ok) => {
                    if ok {
                        self.step = SessionStep::AttachingDeny;
                        Some(SessionAction::AttachReaction {
                            prompt: self.prompt,
                            marker: Marker::Deny,
                        })
                    } else {
                        self.step = SessionStep::Aborted(AbortReason::ReactionAttach);
                        None
                    }
                },
                _ => None,
            },
            SessionStep::AttachingDeny => match response {
                SessionResponse::ReactionAttached(ok) => {
                    if ok {
                        self.cycles_left = POLL_CYCLES;
                        self.step = SessionStep::Polling;
                        Some(SessionAction::ReadReactions { prompt: self.prompt, delay_secs: 0 })
                    } else {
                        self.step = SessionStep::Aborted(AbortReason::ReactionAttach);
                        None
                    }
                },
                _ => None,
            },
            SessionStep::Polling => match response {
                SessionResponse::ReactionCounts(counts) => match counts {
                    None => {
                        self.step = SessionStep::Aborted(AbortReason::ReactionRead);
                        None
                    },
                    Some((approve, deny)) => match decide_cycle(approve, deny) {
                        Some(Decision::Approved) => {
                            self.decision = Some(Decision::Approved);
                            self.step = SessionStep::CheckingAuthStatus;
                            Some(SessionAction::CheckAuthStatus {
                                discord_identity: self.discord_identity.clone(),
                                origin_address: self.origin_address.clone(),
                            })
                        },
                        Some(Decision::Denied) => {
                            self.decision = Some(Decision::Denied);
                            self.confirmation_kind = Some(ConfirmationKind::Denied);
                            self.step = SessionStep::SendingConfirmation;
                            Some(SessionAction::SendConfirmation {
                                channel: self.channel,
                                content: confirmation_embed(ConfirmationKind::Denied),
                            })
                        },
                        Some(Decision::TimedOut) => None,
                        None => {
                            if self.cycles_left == 1 {
                                self.decision = Some(Decision::TimedOut);
                                self.confirmation_kind = None;
                                self.step = SessionStep::Lingering;
                                Some(SessionAction::Wait { secs: LINGER_WINDOW_SECS })
                            } else {
                                self.cycles_left = self.cycles_left - 1;
                                Some(SessionAction::ReadReactions {
                                    prompt: self.prompt,
                                    delay_secs: POLL_INTERVAL_SECS,
                                })
                            }
                        },
                    },
                },
                _ => None,
            },
            SessionStep::CheckingAuthStatus => match response {
                SessionResponse::AuthStatus(res) => match res {
                    Ok(authenticated) => {
                        if authenticated {
                            self.confirmation_kind = Some(ConfirmationKind::AlreadyAuthenticated);
                            self.step = SessionStep::SendingConfirmation;
                            Some(SessionAction::SendConfirmation {
                                channel: self.channel,
                                content: confirmation_embed(ConfirmationKind::AlreadyAuthenticated),
                            })
                        } else {
                            self.step = SessionStep::DeletingStaleAuth;
                            Some(SessionAction::DeleteStaleAuth {
                                discord_identity: self.discord_identity.clone(),
                            })
                        }
                    },
                    Err(_) => {
                        self.confirmation_kind = None;
                        self.step = SessionStep::Lingering;
                        Some(SessionAction::Wait { secs: LINGER_WINDOW_SECS })
                    },
                },
                _ => None,
            },
            SessionStep::DeletingStaleAuth => match response {
                SessionResponse::StaleAuthDeleted(_) => {
                    self.step = SessionStep::InsertingAuth;
                    Some(SessionAction::InsertAuth {
                        discord_identity: self.discord_identity.clone(),
                        request_id: self.request_id,
                    })
                },
                _ => None,
            },
            SessionStep::InsertingAuth => match response {
                SessionResponse::AuthInserted(res) => {
                    let kind = match res {
                        Ok(_) => ConfirmationKind::Approved,
                        Err(_) => ConfirmationKind::InternalError,
                    };
                    self.confirmation_kind = Some(kind);
                    self.step = SessionStep::SendingConfirmation;
                    Some(SessionAction::SendConfirmation {
                        channel: self.channel,
                        content: confirmation_embed(kind),
                    })
                },
                _ => None,
            },
            SessionStep::SendingConfirmation => match response {
                SessionResponse::ConfirmationSent(handle) => {
                    self.confirmation = handle;
                    self.step = SessionStep::Lingering;
                    Some(SessionAction::Wait { secs: LINGER_WINDOW_SECS })
                },
                _ => None,
            },
            SessionStep::Lingering => match response {
                SessionResponse::Waited => {
                    self.step = SessionStep::DeletingPrompt;
                    Some(SessionAction::DeletePrompt { prompt: self.prompt })
                },
                _ => None,
            },
            SessionStep::DeletingPrompt => match response {
                SessionResponse::PromptDeleted(_) => match self.confirmation {
                    Some(c) => {
                        self.step = SessionStep::DeletingConfirmation;
                        Some(SessionAction::DeleteConfirmation { confirmation: c })
                    },
                    None => {
                        self.step = SessionStep::Cleaned;
                        None
                    },
                },
                _ => None,
            },
            SessionStep::DeletingConfirmation => match response {
                SessionResponse::ConfirmationDeleted(_) => {
                    self.step = SessionStep::Cleaned;
                    None
                },
                _ => None,
            },
            SessionStep::Cleaned => None,
            SessionStep::Aborted(_) => None,
        }
    }
}

/// Combines the two context lookups into the session's context: the session
/// needs both the subject account and the origin address, and either lookup
/// failing aborts it.
pub fn request_context(
    user: Result<String, DatabaseError>,
    address: Result<String, DatabaseError>,
) -> (r: Result<RequestContext, DatabaseError>)
    ensures
        user matches Ok(u) ==> (address matches Ok(a) ==> (r matches Ok(c) && c.subject_account
            == u && c.origin_address == a)),
        user matches Err(e) ==> r == Err::<RequestContext, DatabaseError>(e),
        user is Ok ==> (address matches Err(e) ==> r == Err::<RequestContext, DatabaseError>(e)),
{
    match (user, address) {
        (Ok(u), Ok(a)) => Ok(RequestContext { subject_account: u, origin_address: a }),
        (Err(e), _) => Err(e),
        (_, Err(e)) => Err(e),
    }
}

/// The action is the sending of this kind of confirmation on this channel:
/// right text, right colour, usual title.
pub open spec fn is_confirmation(
    action: Option<SessionAction>,
    channel: u64,
    kind: ConfirmationKind,
) -> bool {
    &&& action matches Some(SessionAction::SendConfirmation { channel: ch, content })
    &&& ch == channel
    &&& content.title matches Some(t) && t@ == login_title()
    &&& content.description matches Some(d) && d@ == confirmation_text(kind)
    &&& content.colour == Some(confirmation_colour(kind))
}

/// The rank of any well-formed session is bounded, and `step` strictly
/// decreases it: a driver that keeps performing the requested actions brings
/// every session to a terminal state — `Cleaned` or an abort — in at most
/// that many steps. No session is abandoned and none is processed twice,
/// since a terminal session takes no further step.
pub proof fn lemma_session_rank_bounded(s: ApprovalSession)
    requires
        s.wf(),
    ensures
        0 <= s.rank() <= 44,
        s.is_terminal() <==> s.rank() == 0,
{
}

proof fn lemma_rank_drops_along_chain(chain: Seq<ApprovalSession>, i: int)
    requires
        forall|j: int| 0 < j < chain.len() ==> (#[trigger] chain[j]).rank() < chain[j - 1].rank(),
        0 <= i < chain.len(),
    ensures
        chain[i].rank() <= chain[0].rank() - i,
    decreases i,
{
    if i > 0 {
        lemma_rank_drops_along_chain(chain, i - 1);
        assert(chain[i].rank() < chain[i - 1].rank());
    }
}

/// Every driven session reaches a terminal state. The states a driver sees
/// form a chain in which each session came from a step of the one before, and
/// `step` guarantees a strictly smaller rank; since the rank starts at no
/// more than its bound and never goes below zero, such a chain cannot go on:
/// it ends, and only a terminal session takes no further step.
pub proof fn lemma_session_terminates(chain: Seq<ApprovalSession>)
    requires
        forall|j: int| 0 <= j < chain.len() ==> (#[trigger] chain[j]).wf(),
        forall|j: int| 0 < j < chain.len() ==> (#[trigger] chain[j]).rank() < chain[j - 1].rank(),
    ensures
        chain.len() <= 45,
{
    if chain.len() > 45 {
        lemma_rank_drops_along_chain(chain, 45);
        lemma_session_rank_bounded(chain[0]);
        lemma_session_rank_bounded(chain[45]);
    }
}

} // verus!
