//! The transport's one retry, as a rule the driver follows.
//!
//! The socket work itself happens outside the library; what is verified is
//! the decision rule: a request is sent, one timed window is awaited, and
//! on a timeout the identical bytes are resent once and awaited again. A
//! reply or an I/O failure ends the exchange at once; a second timeout is
//! fatal and nothing more is sent.
//!
//! A known ambiguity of the protocol: since the resent request carries the
//! same bytes, a straggler reply to the first send can arrive during the
//! second window and be taken as the resend's reply. The wire format
//! offers no way to tell the two apart, so the rule deliberately does not
//! try; the session id still guards against replies to other exchanges.

use vstd::prelude::*;

use crate::err::TransportError;

verus! {

/// What one timed receive window produced.
#[derive(Debug, PartialEq)]
pub enum RecvOutcome {
    /// A datagram arrived within the window.
    Reply(Vec<u8>),
    /// The window elapsed with nothing.
    TimedOut,
    /// The receive itself failed.
    Failed,
}

/// What the driver must do after a window closes.
#[derive(Debug, PartialEq)]
pub enum SendStep {
    /// Resend the identical request bytes and await one more window.
    Resend,
    /// The exchange is over, with the reply or with the error.
    Finish(Result<Vec<u8>, TransportError>),
}

/// The retry rule: `attempts` counts the sends so far. A reply finishes
/// with it; an I/O failure finishes with `Io`; a timeout after the first
/// send asks for one resend, and after the second finishes with `Timeout`.
pub open spec fn spec_send_step(attempts: int, outcome: RecvOutcome) -> (int, SendStep) {
    match outcome {
        RecvOutcome::Reply(b) => (attempts, SendStep::Finish(Ok(b))),
        RecvOutcome::Failed => (attempts, SendStep::Finish(Err(TransportError::Io))),
        RecvOutcome::TimedOut => {
            if attempts <= 1 {
                (2, SendStep::Resend)
            } else {
                (attempts, SendStep::Finish(Err(TransportError::Timeout)))
            }
        },
    }
}

/// One send-and-await exchange in progress.
pub struct SendAwait {
    /// How many times the request has been sent.
    pub attempts: u8,
}

impl SendAwait {
    /// The exchange is live: the request has gone out once or twice.
    pub open spec fn wf(self) -> bool {
        1 <= self.attempts <= 2
    }

    /// Begin an exchange: the driver has just sent the request once.
    pub fn begin() -> (s: Self)
        ensures
            s.wf(),
            s.attempts == 1,
    {
        SendAwait { attempts: 1 }
    }

    /// Feed the outcome of the window that just closed; follow the retry
    /// rule exactly.
    pub fn on_outcome(&mut self, outcome: RecvOutcome) -> (step: SendStep)
        requires
            old(self).wf(),
        ensures
            final(self).wf(),
            (final(self).attempts as int, step) == spec_send_step(
                old(self).attempts as int,
                outcome,
            ),
    {
        match outcome {
            RecvOutcome::Reply(b) => SendStep::Finish(Ok(b)),
            RecvOutcome::Failed => SendStep::Finish(Err(TransportError::Io)),
            RecvOutcome::TimedOut => {
                if self.attempts <= 1 {
                    self.attempts = 2;
                    SendStep::Resend
                } else {
                    SendStep::Finish(Err(TransportError::Timeout))
                }
            },
        }
    }
}

/// A reply that only arrives in the second window still succeeds: the
/// first timeout asks for one resend, and the resend's reply finishes the
/// exchange with that reply, transparently to the caller.
pub proof fn lemma_retry_masks_first_timeout(reply: Vec<u8>)
    ensures
        ({
            let (a1, s1) = spec_send_step(1, RecvOutcome::TimedOut);
            let (_a2, s2) = spec_send_step(a1, RecvOutcome::Reply(reply));
            s1 == SendStep::Resend && s2 == SendStep::Finish(Ok::<Vec<u8>, TransportError>(reply))
        }),
{
}

/// When both windows elapse without a reply, the exchange fails with
/// `Timeout`, and nothing further is sent.
pub proof fn lemma_double_timeout_fails()
    ensures
        ({
            let (a1, s1) = spec_send_step(1, RecvOutcome::TimedOut);
            let (_a2, s2) = spec_send_step(a1, RecvOutcome::TimedOut);
            s1 == SendStep::Resend && s2 == SendStep::Finish(
                Err::<Vec<u8>, TransportError>(TransportError::Timeout),
            )
        }),
{
}

} // verus!
