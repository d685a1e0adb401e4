//! The dispatch rules of the worker that owns the device session.
//!
//! The worker takes one command at a time. `Worker::begin` decides what to do
//! with it, `Worker::finish` turns what the device reported into the response
//! for the front end. Between the two the caller runs the operation; nothing
//! here waits or touches the device.

use vstd::prelude::*;
use crate::protocol::{
    response_view, CommandView, Outcome, OutcomeView, RPCCommand, RPCResponse, ResponseView, Step,
    StepView,
};
use crate::values::Timestamp;

verus! {

/// Why no device session came to be.
#[derive(Clone, Copy, Debug, PartialEq, Eq, Structural)]
pub enum SessionError {
    /// The instrument could not be reached.
    Connect,
    /// A sub-resource of the instrument could not be leased.
    Acquire,
}

/// What becomes of a command, given whether an exclusive operation is running.
///
/// While one is running, a capture is answered at once with an empty result and
/// a sweep is dropped. Every other command, and a sweep or capture that finds
/// the device free, is executed.
pub open spec fn decide(busy: bool, command: CommandView) -> StepView {
    if busy && command is PerformCapture {
        StepView::Reply(ResponseView::CaptureResult(Seq::empty()))
    } else if busy && command is SweepConfig {
        StepView::Skip
    } else {
        StepView::Execute(command)
    }
}

/// The exclusivity flag after a command was taken: a sweep or capture sets it,
/// nothing else changes it.
pub open spec fn busy_after_begin(busy: bool, command: CommandView) -> bool {
    busy || command.is_exclusive()
}

/// The exclusivity flag after a command's outcome was reported: the end of a
/// sweep or capture clears it, nothing else changes it.
pub open spec fn busy_after_finish(busy: bool, command: CommandView) -> bool {
    busy && !command.is_exclusive()
}

/// The response to `command` when the device reported `outcome`, or `None`
/// when nothing is sent.
///
/// An outcome of another kind than the command asks for counts as a failure. A
/// failed read or write is answered with an absent value and a failed capture
/// with an empty one; only a failed sweep is not answered. A clamped write of
/// the scale is a success and reports the effective scale. A written table is
/// reported as it was sent.
pub open spec fn response_for(command: CommandView, outcome: OutcomeView) -> Option<
    ResponseView,
> {
    match command {
        CommandView::SetFFTScale(_) => Some(
            ResponseView::FFTScale(
                match outcome {
                    OutcomeView::Scale(v) => Some(v),
                    OutcomeView::ScaleClamped(v) => Some(v),
                    _ => None,
                },
            ),
        ),
        CommandView::GetFFTScale => Some(
            ResponseView::FFTScale(
                match outcome {
                    OutcomeView::Scale(v) => Some(v),
                    _ => None,
                },
            ),
        ),
        CommandView::GetDACTable => Some(
            ResponseView::DACTable(
                match outcome {
                    OutcomeView::Table(t) => Some(t),
                    _ => None,
                },
            ),
        ),
        CommandView::SetDACTable(sent) => Some(
            ResponseView::DACTable(
                match outcome {
                    OutcomeView::TableStored => Some(sent),
                    _ => None,
                },
            ),
        ),
        CommandView::GetIFFreq | CommandView::SetIFFreq(_) => Some(
            ResponseView::IFFreq(
                match outcome {
                    OutcomeView::Frequency(f) => Some(f),
                    _ => None,
                },
            ),
        ),
        CommandView::GetIFAttens | CommandView::SetIFAttens(_) => Some(
            ResponseView::IFAttens(
                match outcome {
                    OutcomeView::Attenuations(a) => Some(a),
                    _ => None,
                },
            ),
        ),
        CommandView::SweepConfig(_) => match outcome {
            OutcomeView::Sweep(s) => Some(ResponseView::Sweep(s)),
            _ => None,
        },
        CommandView::PerformCapture => Some(
            ResponseView::CaptureResult(
                match outcome {
                    OutcomeView::Capture(d) => d,
                    _ => Seq::empty(),
                },
            ),
        ),
    }
}

/// The worker's own state: the exclusivity flag of its dispatch loop.
#[derive(Debug)]
pub struct Worker {
    operation_in_progress: bool,
}

impl Worker {
    /// Whether a sweep or a capture is running.
    pub closed spec fn busy(&self) -> bool {
        self.operation_in_progress
    }

    /// Opens the dispatch loop on the result of connecting to the instrument
    /// and leasing its sub-resources.
    ///
    /// With a session there is a worker, with no exclusive operation running,
    /// and the `Connected` response that announces it, stamped with the time
    /// given. Without one there is no worker, so no command is ever processed.
    pub fn start(session: Result<Timestamp, SessionError>) -> (r: Result<
        (Worker, RPCResponse),
        SessionError,
    >)
        ensures
            match session {
                Ok(at) => r is Ok && !r->Ok_0.0.busy() && r->Ok_0.1@ == ResponseView::Connected(
                    at,
                ),
                Err(e) => r == Err::<(Worker, RPCResponse), SessionError>(e),
            },
    {
        match session {
            Ok(at) => Ok((Worker { operation_in_progress: false }, RPCResponse::Connected(at))),
            Err(e) => Err(e),
        }
    }

    /// Whether a sweep or a capture is running.
    pub fn is_busy(&self) -> (b: bool)
        ensures
            b == self.busy(),
    {
        self.operation_in_progress
    }

    /// Takes the next command and decides what to do with it.
    pub fn begin(&mut self, command: RPCCommand) -> (step: Step)
        ensures
            step@ == decide(old(self).busy(), command@),
            final(self).busy() == busy_after_begin(old(self).busy(), command@),
    {
        if self.operation_in_progress {
            match command {
                RPCCommand::PerformCapture => Step::Reply(RPCResponse::CaptureResult(Vec::new())),
                RPCCommand::SweepConfig(_) => Step::Skip,
                other => Step::Execute(other),
            }
        } else {
            if command.is_exclusive() {
                self.operation_in_progress = true;
            }
            Step::Execute(command)
        }
    }

    /// Takes what the device reported for `command`, the command that `begin`
    /// handed out for execution, and gives the response to send, if there is
    /// one.
    pub fn finish(&mut self, command: RPCCommand, outcome: Outcome) -> (response: Option<
        RPCResponse,
    >)
        ensures
            response_view(response) == response_for(command@, outcome@),
            final(self).busy() == busy_after_finish(old(self).busy(), command@),
    {
        if command.is_exclusive() {
            self.operation_in_progress = false;
        }
        respond(command, outcome)
    }
}

/// The response to `command` when the device reported `outcome`, if one is
/// sent.
pub fn respond(command: RPCCommand, outcome: Outcome) -> (response: Option<RPCResponse>)
    ensures
        response_view(response) == response_for(command@, outcome@),
{
    match command {
        RPCCommand::SetFFTScale(_) => Some(
            RPCResponse::FFTScale(
                match outcome {
                    Outcome::Scale(v) => Some(v),
                    Outcome::ScaleClamped(v) => Some(v),
                    _ => None,
                },
            ),
        ),
        RPCCommand::GetFFTScale => Some(
            RPCResponse::FFTScale(
                match outcome {
                    Outcome::Scale(v) => Some(v),
                    _ => None,
                },
            ),
        ),
        RPCCommand::GetDACTable => Some(
            RPCResponse::DACTable(
                match outcome {
                    Outcome::Table(t) => Some(t),
                    _ => None,
                },
            ),
        ),
        RPCCommand::SetDACTable(sent) => Some(
            RPCResponse::DACTable(
                match outcome {
                    Outcome::TableStored => Some(sent),
                    _ => None,
                },
            ),
        ),
        RPCCommand::GetIFFreq | RPCCommand::SetIFFreq(_) => Some(
            RPCResponse::IFFreq(
                match outcome {
                    Outcome::Frequency(f) => Some(f),
                    _ => None,
                },
            ),
        ),
        RPCCommand::GetIFAttens | RPCCommand::SetIFAttens(_) => Some(
            RPCResponse::IFAttens(
                match outcome {
                    Outcome::Attenuations(a) => Some(a),
                    _ => None,
                },
            ),
        ),
        RPCCommand::SweepConfig(_) => match outcome {
            Outcome::Sweep(s) => Some(RPCResponse::Sweep(s)),
            _ => None,
        },
        RPCCommand::PerformCapture => Some(
            RPCResponse::CaptureResult(
                match outcome {
                    Outcome::Capture(d) => d,
                    _ => Vec::new(),
                },
            ),
        ),
    }
}

} // verus!
