//! The request executor: every call to the service goes through it, and a
//! call whose token has expired is repeated after a reauthorization, up to a
//! fixed budget.

use vstd::prelude::*;
use crate::api::{ApiError, AuthReply};
use crate::config::{basic_auth, get_auth, Config};
use crate::error::Error;

verus! {

/// How many reauthorizations one call may cost.
pub const REAUTH_BUDGET: u8 = 5;

/// The only status that counts as success.
pub const STATUS_OK: u16 = 200;

/// Whether a response with this status is a success.
pub fn is_success(status: u16) -> (success: bool)
    ensures
        success == (status == STATUS_OK),
{
    status == STATUS_OK
}

/// Where one call through the executor stands.
#[derive(Clone, Copy, Debug, PartialEq, Eq, Structural)]
pub enum RetryPhase {
    /// The operation is being invoked.
    Invoking,
    /// The error body of a failed response is being read.
    ReadingError,
    /// The session is being reauthorized.
    Reauthorizing,
    /// The response was handed back to the caller.
    Returned,
    /// The reauthorization budget is spent.
    Exhausted,
    /// The service rejected the call for another reason than expiry.
    Rejected,
    /// The service refused to reauthorize.
    Refused,
}

/// The retry state of one call: the budget left and the reauthorizations made.
#[derive(Clone, Copy, Debug, PartialEq, Eq, Structural)]
pub struct Executor {
    pub phase: RetryPhase,
    pub loops: u8,
    pub reauthorizations: u8,
}

/// What happened to the call since the last action.
#[derive(Debug)]
pub enum RetryEvent {
    /// The operation returned a response with this status.
    Responded { status: u16 },
    /// The error body of the response from `url` was read.
    ErrorRead { error: ApiError, url: String },
    /// The authorization endpoint answered.
    Reauthorized(AuthReply),
}

/// What the caller has to do next for the call.
#[derive(Debug)]
pub enum RetryAction {
    /// Invoke the operation against the session as it is now.
    Invoke,
    /// Hand the response to the caller.
    Return,
    /// Read the structured error body of the response.
    ReadError,
    /// Authorize again, presenting this header.
    Reauthorize { authorization: String },
    /// Give up with this error.
    Fail(Error),
}

impl Executor {
    /// The state in which every call begins.
    pub open spec fn initial() -> Executor {
        Executor { phase: RetryPhase::Invoking, loops: REAUTH_BUDGET, reauthorizations: 0 }
    }

    /// Budget left and budget used add up, and an error is only looked into
    /// while budget is left.
    pub open spec fn wf(self) -> bool {
        &&& self.loops + self.reauthorizations == REAUTH_BUDGET
        &&& (self.phase == RetryPhase::ReadingError || self.phase == RetryPhase::Reauthorizing)
            ==> self.loops > 0
    }

    /// The state after a response with the given status. With no budget left
    /// the call is given up whatever the status.
    pub open spec fn responded(self, status: u16) -> Executor {
        Executor {
            phase: if self.loops == 0 {
                RetryPhase::Exhausted
            } else if status == STATUS_OK {
                RetryPhase::Returned
            } else {
                RetryPhase::ReadingError
            },
            ..self
        }
    }

    /// The state after an error body with the given code was read.
    pub open spec fn error_read(self, code: Seq<char>) -> Executor {
        Executor {
            phase: if code == "expired_auth_token"@ {
                RetryPhase::Reauthorizing
            } else {
                RetryPhase::Rejected
            },
            ..self
        }
    }

    /// The state after the authorization endpoint answered.
    pub open spec fn reauthorized(self, granted: bool) -> Executor {
        if granted {
            Executor {
                phase: RetryPhase::Invoking,
                loops: (self.loops - 1) as u8,
                reauthorizations: (self.reauthorizations + 1) as u8,
            }
        } else {
            Executor { phase: RetryPhase::Refused, ..self }
        }
    }

    /// The event is one that the phase waits for.
    pub open spec fn expects(self, event: RetryEvent) -> bool {
        match event {
            RetryEvent::Responded { .. } => self.phase == RetryPhase::Invoking,
            RetryEvent::ErrorRead { .. } => self.phase == RetryPhase::ReadingError,
            RetryEvent::Reauthorized(_) => self.phase == RetryPhase::Reauthorizing,
        }
    }

    /// Begins a call. The first thing to do is to invoke the operation.
    pub fn new() -> (retry: Executor)
        ensures
            retry == Executor::initial(),
            retry.wf(),
    {
        Executor { phase: RetryPhase::Invoking, loops: REAUTH_BUDGET, reauthorizations: 0 }
    }

    /// Takes in the status of a response.
    pub fn on_response(&mut self, status: u16) -> (action: RetryAction)
        requires
            old(self).wf(),
            old(self).phase == RetryPhase::Invoking,
        ensures
            final(self).wf(),
            *final(self) == old(self).responded(status),
            action == match final(self).phase {
                RetryPhase::Exhausted => RetryAction::Fail(Error::AuthExhausted),
                RetryPhase::Returned => RetryAction::Return,
                _ => RetryAction::ReadError,
            },
    {
        if self.loops == 0 {
            self.phase = RetryPhase::Exhausted;
            RetryAction::Fail(Error::AuthExhausted)
        } else if is_success(status) {
            self.phase = RetryPhase::Returned;
            RetryAction::Return
        } else {
            self.phase = RetryPhase::ReadingError;
            RetryAction::ReadError
        }
    }

    /// Takes in the error body of a failed response: an expired token is
    /// answered by reauthorizing with the stored key, anything else ends the
    /// call with the service's code and message and the address called.
    pub fn on_error_read(&mut self, cfg: &Config, error: ApiError, url: String) -> (action:
        RetryAction)
        requires
            old(self).wf(),
            old(self).phase == RetryPhase::ReadingError,
        ensures
            final(self).wf(),
            *final(self) == old(self).error_read(error.code@),
            final(self).phase == RetryPhase::Reauthorizing ==> (action matches RetryAction::Reauthorize {
                authorization,
            } && authorization@ == basic_auth(cfg.key_id@, cfg.key@)),
            final(self).phase == RetryPhase::Rejected ==> action == RetryAction::Fail(
                Error::Api { code: error.code, message: error.message, url },
            ),
    {
        let expired = "expired_auth_token".to_owned();
        if error.code == expired {
            self.phase = RetryPhase::Reauthorizing;
            RetryAction::Reauthorize {
                authorization: get_auth(cfg.key_id.as_str(), cfg.key.as_str()),
            }
        } else {
            self.phase = RetryPhase::Rejected;
            RetryAction::Fail(Error::Api { code: error.code, message: error.message, url })
        }
    }

    /// Takes in the answer of the authorization endpoint: granted, the session
    /// is refreshed, one unit of budget is spent and the operation is to be
    /// invoked again; refused, the call ends with the refusal.
    pub fn on_reauthorized(&mut self, cfg: &mut Config, reply: AuthReply) -> (action: RetryAction)
        requires
            old(self).wf(),
            old(self).phase == RetryPhase::Reauthorizing,
            old(cfg).wf(),
        ensures
            final(self).wf(),
            final(cfg).wf(),
            *final(self) == old(self).reauthorized(reply is Granted),
            final(cfg).key_id == old(cfg).key_id,
            final(cfg).key == old(cfg).key,
            match reply {
                AuthReply::Granted(granted) => {
                    &&& final(cfg).refreshed_by(old(cfg), &granted)
                    &&& action == RetryAction::Invoke
                },
                AuthReply::Refused(refusal) => {
                    &&& *final(cfg) == *old(cfg)
                    &&& action == RetryAction::Fail(
                        Error::Auth { code: refusal.code, message: refusal.message },
                    )
                },
            },
    {
        match cfg.reauth(reply) {
            Ok(()) => {
                self.loops = self.loops - 1;
                self.reauthorizations = self.reauthorizations + 1;
                self.phase = RetryPhase::Invoking;
                RetryAction::Invoke
            },
            Err(e) => {
                self.phase = RetryPhase::Refused;
                RetryAction::Fail(e)
            },
        }
    }

    /// One round of expiry: a failed response, an error body that names an
    /// expired token, and a reauthorization that is granted.
    pub open spec fn expired_once(self, status: u16) -> Executor {
        self.responded(status).error_read("expired_auth_token"@).reauthorized(true)
    }

    /// The state after `rounds` rounds of expiry.
    pub open spec fn after_expiries(self, rounds: nat, status: u16) -> Executor
        decreases rounds,
    {
        if rounds == 0 {
            self
        } else {
            self.after_expiries((rounds - 1) as nat, status).expired_once(status)
        }
    }
}

/// Within the budget every round of expiry costs one reauthorization and
/// leads back to invoking the operation.
pub proof fn lemma_expiries_are_recovered(rounds: nat, status: u16)
    requires
        rounds <= REAUTH_BUDGET,
        status != STATUS_OK,
    ensures
        Executor::initial().after_expiries(rounds, status) == (Executor {
            phase: RetryPhase::Invoking,
            loops: (REAUTH_BUDGET - rounds) as u8,
            reauthorizations: rounds as u8,
        }),
    decreases rounds,
{
    if rounds > 0 {
        lemma_expiries_are_recovered((rounds - 1) as nat, status);
    }
}

/// A call whose token expires fewer than five times in a row and which then
/// succeeds hands back that response, after exactly as many reauthorizations
/// as there were expiries.
pub proof fn lemma_retry_then_success(expiries: nat, status: u16)
    requires
        expiries < REAUTH_BUDGET,
        status != STATUS_OK,
    ensures
        Executor::initial().after_expiries(expiries, status).responded(STATUS_OK) == (Executor {
            phase: RetryPhase::Returned,
            loops: (REAUTH_BUDGET - expiries) as u8,
            reauthorizations: expiries as u8,
        }),
{
    lemma_expiries_are_recovered(expiries, status);
}

/// After five expiries in a row the budget is spent: whatever the next
/// response is, the call is given up.
pub proof fn lemma_five_expiries_exhaust(status: u16, last_status: u16)
    requires
        status != STATUS_OK,
    ensures
        Executor::initial().after_expiries(REAUTH_BUDGET as nat, status).responded(last_status) == (
        Executor { phase: RetryPhase::Exhausted, loops: 0, reauthorizations: REAUTH_BUDGET }),
{
    lemma_expiries_are_recovered(REAUTH_BUDGET as nat, status);
}

impl Config {
    /// Advances a call through the executor by one event and says what to do
    /// next. The session changes only when a reauthorization is granted.
    pub fn send_request_res(&mut self, retry: &mut Executor, event: RetryEvent) -> (action:
        RetryAction)
        requires
            old(self).wf(),
            old(retry).wf(),
            old(retry).expects(event),
        ensures
            final(self).wf(),
            final(retry).wf(),
            final(self).key_id == old(self).key_id,
            final(self).key == old(self).key,
            match event {
                RetryEvent::Responded { status } => {
                    &&& *final(self) == *old(self)
                    &&& *final(retry) == old(retry).responded(status)
                    &&& action == match final(retry).phase {
                        RetryPhase::Exhausted => RetryAction::Fail(Error::AuthExhausted),
                        RetryPhase::Returned => RetryAction::Return,
                        _ => RetryAction::ReadError,
                    }
                },
                RetryEvent::ErrorRead { error, url } => {
                    &&& *final(self) == *old(self)
                    &&& *final(retry) == old(retry).error_read(error.code@)
                    &&& final(retry).phase == RetryPhase::Reauthorizing ==> (
                    action matches RetryAction::Reauthorize { authorization } && authorization@
                        == basic_auth(old(self).key_id@, old(self).key@))
                    &&& final(retry).phase == RetryPhase::Rejected ==> action == RetryAction::Fail(
                        Error::Api { code: error.code, message: error.message, url },
                    )
                },
                RetryEvent::Reauthorized(reply) => {
                    &&& *final(retry) == old(retry).reauthorized(reply is Granted)
                    &&& match reply {
                        AuthReply::Granted(granted) => {
                            &&& final(self).refreshed_by(old(self), &granted)
                            &&& action == RetryAction::Invoke
                        },
                        AuthReply::Refused(refusal) => {
                            &&& *final(self) == *old(self)
                            &&& action == RetryAction::Fail(
                                Error::Auth { code: refusal.code, message: refusal.message },
                            )
                        },
                    }
                },
            },
    {
        match event {
            RetryEvent::Responded { status } => retry.on_response(status),
            RetryEvent::ErrorRead { error, url } => retry.on_error_read(self, error, url),
            RetryEvent::Reauthorized(reply) => retry.on_reauthorized(self, reply),
        }
    }
}

} // verus!
