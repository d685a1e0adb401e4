//! The messages of the bridge: commands from the front end, responses to it,
//! and what the device session reports back for one operation.

use vstd::prelude::*;
use crate::values::{Attens, DacTable, Hertz, Sample, SweepConfig, SweepConfigView, Timestamp};

verus! {

/// An operation that the front end asks of the instrument.
#[derive(Clone, Debug, PartialEq, Eq)]
pub enum RPCCommand {
    SetFFTScale(u16),
    GetFFTScale,
    GetDACTable,
    SetDACTable(DacTable),
    GetIFFreq,
    SetIFFreq(Hertz),
    GetIFAttens,
    SetIFAttens(Attens),
    SweepConfig(SweepConfig),
    PerformCapture,
}

/// Mathematical model of an `RPCCommand`.
pub enum CommandView {
    SetFFTScale(u16),
    GetFFTScale,
    GetDACTable,
    SetDACTable(Seq<Sample>),
    GetIFFreq,
    SetIFFreq(Hertz),
    GetIFAttens,
    SetIFAttens(Attens),
    SweepConfig(SweepConfigView),
    PerformCapture,
}

impl View for RPCCommand {
    type V = CommandView;

    open spec fn view(&self) -> CommandView {
        match *self {
            RPCCommand::SetFFTScale(v) => CommandView::SetFFTScale(v),
            RPCCommand::GetFFTScale => CommandView::GetFFTScale,
            RPCCommand::GetDACTable => CommandView::GetDACTable,
            RPCCommand::SetDACTable(t) => CommandView::SetDACTable(t@),
            RPCCommand::GetIFFreq => CommandView::GetIFFreq,
            RPCCommand::SetIFFreq(f) => CommandView::SetIFFreq(f),
            RPCCommand::GetIFAttens => CommandView::GetIFAttens,
            RPCCommand::SetIFAttens(a) => CommandView::SetIFAttens(a),
            RPCCommand::SweepConfig(c) => CommandView::SweepConfig(c@),
            RPCCommand::PerformCapture => CommandView::PerformCapture,
        }
    }
}

impl CommandView {
    /// Sweeps and captures are long-running and need the device to themselves.
    pub open spec fn is_exclusive(self) -> bool {
        self is SweepConfig || self is PerformCapture
    }
}

impl RPCCommand {
    /// Whether the command is a sweep or a capture.
    pub fn is_exclusive(&self) -> (b: bool)
        ensures
            b == self@.is_exclusive(),
    {
        match self {
            RPCCommand::SweepConfig(_) => true,
            RPCCommand::PerformCapture => true,
            _ => false,
        }
    }
}

/// What the worker reports to the front end. An absent value says that the
/// operation failed; an empty capture says the same of a capture.
#[derive(Clone, Debug, PartialEq, Eq)]
pub enum RPCResponse {
    Connected(Timestamp),
    FFTScale(Option<u16>),
    DACTable(Option<DacTable>),
    IFFreq(Option<Hertz>),
    IFAttens(Option<Attens>),
    Sweep(String),
    CaptureResult(Vec<Sample>),
}

/// Mathematical model of an `RPCResponse`.
pub enum ResponseView {
    Connected(Timestamp),
    FFTScale(Option<u16>),
    DACTable(Option<Seq<Sample>>),
    IFFreq(Option<Hertz>),
    IFAttens(Option<Attens>),
    Sweep(Seq<char>),
    CaptureResult(Seq<Sample>),
}

impl View for RPCResponse {
    type V = ResponseView;

    open spec fn view(&self) -> ResponseView {
        match *self {
            RPCResponse::Connected(t) => ResponseView::Connected(t),
            RPCResponse::FFTScale(v) => ResponseView::FFTScale(v),
            RPCResponse::DACTable(t) => ResponseView::DACTable(
                match t {
                    Some(t) => Some(t@),
                    None => None,
                },
            ),
            RPCResponse::IFFreq(f) => ResponseView::IFFreq(f),
            RPCResponse::IFAttens(a) => ResponseView::IFAttens(a),
            RPCResponse::Sweep(s) => ResponseView::Sweep(s@),
            RPCResponse::CaptureResult(d) => ResponseView::CaptureResult(d@),
        }
    }
}

/// The model of a response that may be absent.
pub open spec fn response_view(response: Option<RPCResponse>) -> Option<ResponseView> {
    match response {
        Some(r) => Some(r@),
        None => None,
    }
}

impl ResponseView {
    /// The response is of the kind that answers `command`.
    pub open spec fn answers(self, command: CommandView) -> bool {
        match command {
            CommandView::SetFFTScale(_) | CommandView::GetFFTScale => self is FFTScale,
            CommandView::GetDACTable | CommandView::SetDACTable(_) => self is DACTable,
            CommandView::GetIFFreq | CommandView::SetIFFreq(_) => self is IFFreq,
            CommandView::GetIFAttens | CommandView::SetIFAttens(_) => self is IFAttens,
            CommandView::SweepConfig(_) => self is Sweep,
            CommandView::PerformCapture => self is CaptureResult,
        }
    }

    /// The response carries no data: it reports a failed or refused operation.
    pub open spec fn is_failure(self) -> bool {
        match self {
            ResponseView::Connected(_) => false,
            ResponseView::FFTScale(v) => v is None,
            ResponseView::DACTable(t) => t is None,
            ResponseView::IFFreq(f) => f is None,
            ResponseView::IFAttens(a) => a is None,
            ResponseView::Sweep(_) => false,
            ResponseView::CaptureResult(d) => d.len() == 0,
        }
    }
}

/// What the device session reported for one operation.
///
/// A write of the scale has three outcomes, which stay apart here: accepted as
/// asked (`Scale`), accepted with another effective value (`ScaleClamped`), and
/// `Failed`. Whatever else went wrong is `Failed` too: an error of the transport,
/// a fault of the board, a capture that brought no raw samples.
#[derive(Clone, Debug, PartialEq, Eq)]
pub enum Outcome {
    /// The operation failed, in the transport or on the board.
    Failed,
    /// The scale that was read, or that a write took as it was asked.
    Scale(u16),
    /// The effective scale after the device coerced an out-of-range write.
    ScaleClamped(u16),
    /// The table that was read.
    Table(DacTable),
    /// The table was written.
    TableStored,
    /// The frequency that was read or that is now set.
    Frequency(Hertz),
    /// The attenuations that were read or that are now set.
    Attenuations(Attens),
    /// The result set of a finished sweep, as text.
    Sweep(String),
    /// The raw samples of a finished capture.
    Capture(Vec<Sample>),
}

/// Mathematical model of an `Outcome`.
pub enum OutcomeView {
    Failed,
    Scale(u16),
    ScaleClamped(u16),
    Table(Seq<Sample>),
    TableStored,
    Frequency(Hertz),
    Attenuations(Attens),
    Sweep(Seq<char>),
    Capture(Seq<Sample>),
}

impl View for Outcome {
    type V = OutcomeView;

    open spec fn view(&self) -> OutcomeView {
        match *self {
            Outcome::Failed => OutcomeView::Failed,
            Outcome::Scale(v) => OutcomeView::Scale(v),
            Outcome::ScaleClamped(v) => OutcomeView::ScaleClamped(v),
            Outcome::Table(t) => OutcomeView::Table(t@),
            Outcome::TableStored => OutcomeView::TableStored,
            Outcome::Frequency(f) => OutcomeView::Frequency(f),
            Outcome::Attenuations(a) => OutcomeView::Attenuations(a),
            Outcome::Sweep(s) => OutcomeView::Sweep(s@),
            Outcome::Capture(d) => OutcomeView::Capture(d@),
        }
    }
}

/// What the worker does with a command that it has taken from the queue.
#[derive(Clone, Debug, PartialEq, Eq)]
pub enum Step {
    /// Run the command against the device, then report its outcome.
    Execute(RPCCommand),
    /// Send this response at once; the device is not touched.
    Reply(RPCResponse),
    /// Do nothing; the device is not touched.
    Skip,
}

/// Mathematical model of a `Step`.
pub enum StepView {
    Execute(CommandView),
    Reply(ResponseView),
    Skip,
}

impl View for Step {
    type V = StepView;

    open spec fn view(&self) -> StepView {
        match *self {
            Step::Execute(c) => StepView::Execute(c@),
            Step::Reply(r) => StepView::Reply(r@),
            Step::Skip => StepView::Skip,
        }
    }
}

} // verus!
