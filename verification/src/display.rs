//! What the front end shows of the instrument, and how a response from the
//! worker changes it. Once per frame the front end looks for one response and
//! merges it; the last response written to a field is the one shown.

use vstd::prelude::*;
use vstd::string::StringExecFns;
use crate::protocol::{RPCResponse, ResponseView};
use crate::status::Status;
use crate::values::{Attens, DacTable, Hertz, Sample, Timestamp};

verus! {

/// The character of one decimal digit.
pub open spec fn digit(d: nat) -> char
    recommends
        d < 10,
{
    if d == 0 {
        '0'
    } else if d == 1 {
        '1'
    } else if d == 2 {
        '2'
    } else if d == 3 {
        '3'
    } else if d == 4 {
        '4'
    } else if d == 5 {
        '5'
    } else if d == 6 {
        '6'
    } else if d == 7 {
        '7'
    } else if d == 8 {
        '8'
    } else {
        '9'
    }
}

/// The decimal numeral of `n`, without leading zeros.
pub open spec fn decimal(n: nat) -> Seq<char>
    decreases n,
{
    if n < 10 {
        seq![digit(n)]
    } else {
        decimal(n / 10).push(digit(n % 10))
    }
}

/// The numeral of one digit.
fn digit_text(d: u16) -> (s: &'static str)
    requires
        d < 10,
    ensures
        s@ == seq![digit(d as nat)],
{
    proof {
        reveal_strlit("0");
        reveal_strlit("1");
        reveal_strlit("2");
        reveal_strlit("3");
        reveal_strlit("4");
        reveal_strlit("5");
        reveal_strlit("6");
        reveal_strlit("7");
        reveal_strlit("8");
        reveal_strlit("9");
    }
    let s = if d == 0 {
        "0"
    } else if d == 1 {
        "1"
    } else if d == 2 {
        "2"
    } else if d == 3 {
        "3"
    } else if d == 4 {
        "4"
    } else if d == 5 {
        "5"
    } else if d == 6 {
        "6"
    } else if d == 7 {
        "7"
    } else if d == 8 {
        "8"
    } else {
        "9"
    };
    assert(s@ =~= seq![digit(d as nat)]);
    s
}

/// The text that shows a scale: its decimal numeral.
pub fn scale_text(scale: u16) -> (s: String)
    ensures
        s@ == decimal(scale as nat),
    decreases scale,
{
    if scale < 10 {
        digit_text(scale).to_owned()
    } else {
        let mut s = scale_text(scale / 10);
        let unit = digit_text(scale % 10);
        s.append(unit);
        assert(s@ =~= decimal((scale / 10) as nat).push(digit((scale % 10) as nat)));
        s
    }
}

/// The measurement that the front end shows: the last sweep or capture that
/// brought data.
#[derive(Clone, Debug, PartialEq, Eq)]
pub enum Measurement {
    /// The result set of a sweep, as text.
    Sweep(String),
    /// The raw samples of a capture.
    Capture(Vec<Sample>),
}

/// Mathematical model of a `Measurement`.
pub enum MeasurementView {
    Sweep(Seq<char>),
    Capture(Seq<Sample>),
}

impl View for Measurement {
    type V = MeasurementView;

    open spec fn view(&self) -> MeasurementView {
        match *self {
            Measurement::Sweep(s) => MeasurementView::Sweep(s@),
            Measurement::Capture(d) => MeasurementView::Capture(d@),
        }
    }
}

/// Everything that the front end shows of the instrument.
#[derive(Debug)]
pub struct DisplayState {
    /// The status line.
    pub status: Status,
    /// The scale, as the text of its field.
    pub fft_scale: String,
    /// The waveform table last reported, if the last report brought one.
    pub dac_table: Option<DacTable>,
    /// The frequency last reported.
    pub if_freq: Option<Hertz>,
    /// The attenuations last reported.
    pub if_attens: Option<Attens>,
    /// When the worker reported its connection.
    pub connection_time: Option<Timestamp>,
    /// The error shown, if any.
    pub error_message: Option<String>,
    /// The measurement shown, if any.
    pub sweep_result: Option<Measurement>,
}

/// Mathematical model of a `DisplayState`.
pub struct DisplayView {
    pub status: Seq<char>,
    pub fft_scale: Seq<char>,
    pub dac_table: Option<Seq<Sample>>,
    pub if_freq: Option<Hertz>,
    pub if_attens: Option<Attens>,
    pub connection_time: Option<Timestamp>,
    pub error_message: Option<Seq<char>>,
    pub sweep_result: Option<MeasurementView>,
}

impl View for DisplayState {
    type V = DisplayView;

    open spec fn view(&self) -> DisplayView {
        DisplayView {
            status: self.status@,
            fft_scale: self.fft_scale@,
            dac_table: match self.dac_table {
                Some(t) => Some(t@),
                None => None,
            },
            if_freq: self.if_freq,
            if_attens: self.if_attens,
            connection_time: self.connection_time,
            error_message: match self.error_message {
                Some(m) => Some(m@),
                None => None,
            },
            sweep_result: match self.sweep_result {
                Some(m) => Some(m@),
                None => None,
            },
        }
    }
}

/// The display before anything was reported.
pub open spec fn blank() -> DisplayView {
    DisplayView {
        status: "Disconnected"@,
        fft_scale: Seq::empty(),
        dac_table: None,
        if_freq: None,
        if_attens: None,
        connection_time: None,
        error_message: None,
        sweep_result: None,
    }
}

/// The display after `response` was merged into it.
///
/// Each response writes the field of its kind and leaves the others. A scale
/// that could not be had shows as `0`. An empty capture shows as an error and
/// leaves the measurement; a capture with data replaces the measurement and
/// leaves the error.
pub open spec fn merged(d: DisplayView, response: ResponseView) -> DisplayView {
    match response {
        ResponseView::Connected(at) => DisplayView {
            status: "Connected"@,
            connection_time: Some(at),
            ..d
        },
        ResponseView::FFTScale(v) => DisplayView {
            fft_scale: match v {
                Some(v) => decimal(v as nat),
                None => decimal(0),
            },
            ..d
        },
        ResponseView::DACTable(t) => DisplayView { dac_table: t, ..d },
        ResponseView::IFFreq(f) => DisplayView { if_freq: f, ..d },
        ResponseView::IFAttens(a) => DisplayView { if_attens: a, ..d },
        ResponseView::Sweep(s) => DisplayView {
            sweep_result: Some(MeasurementView::Sweep(s)),
            ..d
        },
        ResponseView::CaptureResult(data) => if data.len() == 0 {
            DisplayView { error_message: Some("Capture failed: No data available."@), ..d }
        } else {
            DisplayView { sweep_result: Some(MeasurementView::Capture(data)), ..d }
        },
    }
}

/// The display after one look at the response queue: what was found is merged,
/// and with nothing found the display stays as it is.
pub open spec fn polled(d: DisplayView, found: Option<ResponseView>) -> DisplayView {
    match found {
        Some(r) => merged(d, r),
        None => d,
    }
}

impl DisplayState {
    /// The display before anything was reported.
    pub fn new() -> (d: DisplayState)
        ensures
            d@ == blank(),
    {
        DisplayState {
            status: Status::new(),
            fft_scale: String::new(),
            dac_table: None,
            if_freq: None,
            if_attens: None,
            connection_time: None,
            error_message: None,
            sweep_result: None,
        }
    }

    /// Merges one response into the display.
    pub fn merge(&mut self, response: RPCResponse)
        ensures
            final(self)@ == merged(old(self)@, response@),
    {
        match response {
            RPCResponse::Connected(at) => {
                self.status.update("Connected");
                self.connection_time = Some(at);
            },
            RPCResponse::FFTScale(v) => {
                self.fft_scale = match v {
                    Some(v) => scale_text(v),
                    None => scale_text(0),
                };
            },
            RPCResponse::DACTable(t) => {
                self.dac_table = t;
            },
            RPCResponse::IFFreq(f) => {
                self.if_freq = f;
            },
            RPCResponse::IFAttens(a) => {
                self.if_attens = a;
            },
            RPCResponse::Sweep(s) => {
                self.sweep_result = Some(Measurement::Sweep(s));
            },
            RPCResponse::CaptureResult(data) => {
                if data.len() == 0 {
                    self.error_message = Some("Capture failed: No data available.".to_owned());
                } else {
                    self.sweep_result = Some(Measurement::Capture(data));
                }
            },
        }
    }

    /// One look at the response queue, once per frame: `found` is what a
    /// receive that does not wait brought, if anything. Tells whether a
    /// response was merged.
    pub fn poll(&mut self, found: Option<RPCResponse>) -> (took: bool)
        ensures
            took == found is Some,
            final(self)@ == polled(
                old(self)@,
                match found {
                    Some(r) => Some(r@),
                    None => None,
                },
            ),
    {
        match found {
            Some(response) => {
                self.merge(response);
                true
            },
            None => false,
        }
    }
}

} // verus!
