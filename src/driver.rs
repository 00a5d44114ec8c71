//! The stream driver: it turns the inbound event sequence into the outbound
//! reply sequence, one event at a time, draining replies before it reads on.
use vstd::prelude::*;
use crate::machine::{resumed, control_applied, CallOutcome, PendingCall, SmtpState};
use crate::reply::{ReadControl, SmtpReply, WriteControl};
use crate::session::SessionInfo;

verus! {

/// What the transport is to do next for the driver.
#[derive(Clone, Debug, PartialEq, Eq)]
pub enum DriverAction {
    /// Send this to the peer
    Emit(WriteControl),
    /// Read the next inbound event and hand it over
    NeedInput,
    /// Complete the collaborator call handed out and hand over its outcome
    Wait,
    /// The output has ended
    End,
}

/// Why an inbound event was refused.
#[derive(Clone, Copy, Debug, PartialEq, Eq, Structural)]
pub enum ControlError {
    /// A collaborator call is still awaited
    Wait,
    /// The session is over
    Ended,
}

/// A session driver: `Ready` while it holds the state, `Taken` once the
/// output has ended.
#[derive(Debug)]
pub struct StatefulSession {
    /// The session state; `None` once taken
    pub state: Option<SmtpState>,
    /// A read failed: the output ends once the queued replies are out
    pub ending: bool,
}

impl StatefulSession {
    pub fn new(state: SmtpState) -> (r: StatefulSession)
        ensures
            r.state == Some(state),
            !r.ending,
    {
        StatefulSession { state: Some(state), ending: false }
    }

    /// The next thing to do: queued replies go out first; then the output ends
    /// if it must, waits for an awaited call, or asks for input. A reply that
    /// shuts the connection down ends the session once it is out.
    pub fn poll_output(&mut self) -> (r: DriverAction)
        ensures
            match old(self).state {
                None => r is End && *final(self) == *old(self),
                Some(s) => if s.writes@.len() > 0 {
                    &&& r == DriverAction::Emit(s.writes@[0])
                    &&& final(self).ending == (old(self).ending || s.writes@[0] is Shutdown)
                    &&& final(self).state matches Some(t) && t.writes@ == s.writes@.drop_first()
                        && t.session == s.session && t.transaction == s.transaction
                        && t.awaiting == s.awaiting
                } else if old(self).ending {
                    r is End && final(self).state is None && final(self).ending
                } else if s.awaiting is Some {
                    r is Wait && *final(self) == *old(self)
                } else {
                    r is NeedInput && *final(self) == *old(self)
                },
            },
    {
        match self.state.take() {
            None => DriverAction::End,
            Some(mut s) => {
                if s.writes.len() > 0 {
                    let w = s.pop();
                    self.state = Some(s);
                    match w {
                        Some(w) => {
                            if let WriteControl::Shutdown(_) = w {
                                self.ending = true;
                            }
                            DriverAction::Emit(w)
                        },
                        None => DriverAction::End,
                    }
                } else if self.ending {
                    DriverAction::End
                } else if s.awaiting.is_some() {
                    self.state = Some(s);
                    DriverAction::Wait
                } else {
                    self.state = Some(s);
                    DriverAction::NeedInput
                }
            },
        }
    }

    /// Hands over what the input gave: `None` at its end, `Err` where reading
    /// failed. Returns the collaborator call to make, if any. Refused, with
    /// nothing changed, while a call is awaited (`Wait`) and once the session
    /// has ended or is ending (`Ended`).
    pub fn push_input(&mut self, input: Option<Result<ReadControl, ()>>) -> (r: Result<Option<PendingCall>, ControlError>)
        ensures
            match old(self).state {
                None => r == Err::<Option<PendingCall>, ControlError>(ControlError::Ended)
                    && *final(self) == *old(self),
                Some(s) => if old(self).ending {
                    r == Err::<Option<PendingCall>, ControlError>(ControlError::Ended)
                        && *final(self) == *old(self)
                } else if s.awaiting is Some {
                    r == Err::<Option<PendingCall>, ControlError>(ControlError::Wait)
                        && *final(self) == *old(self)
                } else {
                    match input {
                        None => r == Ok::<Option<PendingCall>, ControlError>(None)
                            && final(self).state is None && !final(self).ending,
                        Some(Err(())) => {
                            &&& r == Ok::<Option<PendingCall>, ControlError>(None)
                            &&& final(self).ending
                            &&& final(self).state matches Some(t)
                                && t.writes@ == s.writes@.push(WriteControl::Shutdown(SmtpReply::ProcesingError))
                                && t.session == s.session && t.transaction == s.transaction
                                && t.awaiting == s.awaiting
                        },
                        Some(Ok(ctl)) => {
                            &&& !final(self).ending
                            &&& r matches Ok(call) && final(self).state matches Some(t)
                                && control_applied(s, t, ctl, call)
                        },
                    }
                },
            },
    {
        if self.ending {
            return Err(ControlError::Ended);
        }
        match self.state.take() {
            None => Err(ControlError::Ended),
            Some(mut s) => {
                if s.awaiting.is_some() {
                    self.state = Some(s);
                    return Err(ControlError::Wait);
                }
                match input {
                    None => Ok(None),
                    Some(Err(())) => {
                        s.say(WriteControl::Shutdown(SmtpReply::ProcesingError));
                        self.ending = true;
                        self.state = Some(s);
                        Ok(None)
                    },
                    Some(Ok(ctl)) => {
                        let r = s.apply_control(ctl);
                        self.state = Some(s);
                        Ok(r)
                    },
                }
            },
        }
    }

    /// Hands over the outcome of the collaborator call.
    pub fn resume(&mut self, outcome: CallOutcome)
        ensures
            final(self).ending == old(self).ending,
            match old(self).state {
                None => final(self).state is None,
                Some(s) => final(self).state matches Some(t) && resumed(s, t, outcome),
            },
    {
        match self.state.take() {
            None => {},
            Some(mut s) => {
                s.resume(outcome);
                self.state = Some(s);
            },
        }
    }
}

} // verus!

verus! {

/// The session state lent to a handler for the length of one call.
#[derive(Debug)]
pub struct SmtpContext<'a> {
    pub session: &'a mut SmtpState,
}

impl<'a> SmtpContext<'a> {
    pub fn new(session: &'a mut SmtpState) -> (r: SmtpContext<'a>)
        ensures
            *r.session == *old(session),
    {
        SmtpContext { session }
    }
}

/// Starts a driver for each new session.
pub trait SessionService {
    fn start(&self, session: SessionInfo) -> StatefulSession;
}

} // verus!
