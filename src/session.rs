use vstd::prelude::*;
use crate::error::{classify, classify_spec, CommandError, CommandErrorModel, ErrorModel, SpindleError, TransportError};
use crate::protocol::{command_outcome, command_outcome_spec, read_view};
use crate::status::{DacalStatus, StatusModel};

verus! {

/// The mathematical value of a `Session`: the device id, the commands to
/// issue in order, how many were issued, and the first failure, if any.
pub struct SessionModel {
    pub id: u16,
    pub plan: Seq<u8>,
    pub issued: nat,
    pub failure: Option<ErrorModel>,
}

impl SessionModel {
    /// A session that has issued nothing yet.
    pub open spec fn start(id: u16, plan: Seq<u8>) -> SessionModel {
        SessionModel { id, plan, issued: 0, failure: None }
    }

    /// The command to issue next: the next one of the plan, until the plan
    /// is done or a command failed.
    pub open spec fn next_command(self) -> Option<u8> {
        if self.failure is None && self.issued < self.plan.len() {
            Some(self.plan[self.issued as int])
        } else {
            None
        }
    }

    /// The commands issued so far, in order.
    pub open spec fn issued_commands(self) -> Seq<u8> {
        self.plan.take(self.issued as int)
    }

    /// The session after the transfer of the next command read `read`.
    pub open spec fn respond(self, read: Result<Seq<u8>, TransportError>) -> SessionModel {
        SessionModel {
            issued: self.issued + 1,
            failure: match command_outcome_spec(read) {
                Ok(()) => None,
                Err(e) => Some(classify_spec(self.id, e)),
            },
            ..self
        }
    }

    /// The session after the transport handle could not be opened.
    pub open spec fn open_failed(self, error: TransportError) -> SessionModel {
        SessionModel {
            failure: Some(classify_spec(self.id, CommandErrorModel::Transport { error })),
            ..self
        }
    }

    /// What the operation comes to: success, or its first failure.
    pub open spec fn result(self) -> Result<(), ErrorModel> {
        match self.failure {
            None => Ok(()),
            Some(e) => Err(e),
        }
    }

    /// What a status query comes to: a reported status other than busy is
    /// the answer, not a failure.
    pub open spec fn status_result(self) -> Result<StatusModel, ErrorModel> {
        match self.failure {
            None => Ok(StatusModel::Ack),
            Some(ErrorModel::ErrorStatus { status }) => Ok(status),
            Some(e) => Err(e),
        }
    }
}

/// One operation on a spindle, run as a strictly sequential series of
/// commands over a transport handle held by the caller. The caller opens the
/// handle, issues each `next_command` and hands its result to `on_response`
/// until there is none left, then closes the handle and calls `finish` (or
/// `finish_status` for a status query).
pub struct Session {
    id: u16,
    plan: Vec<u8>,
    issued: usize,
    failure: Option<SpindleError>,
}

impl View for Session {
    type V = SessionModel;

    closed spec fn view(&self) -> SessionModel {
        SessionModel {
            id: self.id,
            plan: self.plan@,
            issued: self.issued as nat,
            failure: match self.failure {
                Some(e) => Some(e@),
                None => None,
            },
        }
    }
}

impl Session {
    /// The session's invariant: it never issues more commands than planned.
    pub open spec fn wf(&self) -> bool {
        self@.issued <= self@.plan.len()
    }

    pub(crate) fn start(id: u16, plan: Vec<u8>) -> (r: Session)
        ensures
            r.wf(),
            r@ == SessionModel::start(id, plan@),
    {
        Session { id, plan, issued: 0, failure: None }
    }

    /// The id of the spindle the session runs on.
    pub fn id(&self) -> (r: u16)
        ensures
            r == self@.id,
    {
        self.id
    }

    /// The command to issue next, or `None` once the session is over.
    pub fn next_command(&self) -> (r: Option<u8>)
        requires
            self.wf(),
        ensures
            r == self@.next_command(),
    {
        if self.failure.is_none() && self.issued < self.plan.len() {
            Some(self.plan[self.issued])
        } else {
            None
        }
    }

    /// Records what the transfer of the command from `next_command` read.
    pub fn on_response(&mut self, read: Result<Vec<u8>, TransportError>)
        requires
            old(self).wf(),
            old(self)@.next_command() is Some,
        ensures
            final(self).wf(),
            final(self)@ == old(self)@.respond(read_view(read)),
    {
        assert(self.issued < self.plan.len());
        let outcome = command_outcome(read);
        self.issued = self.issued + 1;
        match outcome {
            Ok(()) => {},
            Err(e) => {
                self.failure = Some(classify(self.id, e));
            },
        }
    }

    /// Records that the transport handle could not be opened, which ends
    /// the session before any command.
    pub fn open_failed(&mut self, error: TransportError)
        requires
            old(self).wf(),
        ensures
            final(self).wf(),
            final(self)@ == old(self)@.open_failed(error),
    {
        self.failure = Some(classify(self.id, CommandError::Transport { error }));
    }

    /// What the operation came to.
    pub fn finish(self) -> (r: Result<(), SpindleError>)
        requires
            self.wf(),
            self@.next_command() is None,
        ensures
            match r {
                Ok(()) => self@.result() == Ok::<(), ErrorModel>(()),
                Err(e) => self@.result() == Err::<(), ErrorModel>(e@),
            },
    {
        match self.failure {
            None => Ok(()),
            Some(e) => Err(e),
        }
    }

    /// What a status query came to: the status the device reported, unless
    /// the transfer failed or the device was busy.
    pub fn finish_status(self) -> (r: Result<DacalStatus, SpindleError>)
        requires
            self.wf(),
            self@.next_command() is None,
        ensures
            match r {
                Ok(s) => self@.status_result() == Ok::<StatusModel, ErrorModel>(s@),
                Err(e) => self@.status_result() == Err::<StatusModel, ErrorModel>(e@),
            },
    {
        match self.failure {
            None => Ok(DacalStatus::Ack),
            Some(SpindleError::ErrorStatus { status }) => Ok(status),
            Some(e) => Err(e),
        }
    }
}

} // verus!
