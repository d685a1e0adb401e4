//! The rules by which the front end turns what was entered in its panels into
//! commands: which scales may be sent, how a frequency and a pair of
//! attenuations are formed, and how the frequencies of a sweep are laid out. Turning text into numbers is the
//! caller's part; a number that could not be read arrives here as `None`.

use vstd::prelude::*;
use crate::protocol::{CommandView, RPCCommand};
use crate::values::{
    lemma_whole_hertz, Attens, Hertz, PowerSetting, SweepConfig, SweepConfigView,
};

verus! {

/// The scales that the front end sends to the instrument.
pub open spec fn valid_scale(v: u16) -> bool {
    v == 4095 || v == 3967 || v == 1919 || v == 1911 || v == 1879 || v == 1877 || v == 1365 || v
        == 1301 || v == 277 || v == 273 || v == 257 || v == 1 || v == 0
}

/// Whether `v` is one of the scales that the front end sends.
pub fn is_valid_scale(v: u16) -> (b: bool)
    ensures
        b == valid_scale(v),
{
    v == 4095 || v == 3967 || v == 1919 || v == 1911 || v == 1879 || v == 1877 || v == 1365 || v
        == 1301 || v == 277 || v == 273 || v == 257 || v == 1 || v == 0
}

/// Shown for a scale that is no number or not one of the valid scales.
pub open spec fn invalid_scale_text() -> Seq<char> {
    "Invalid scale value. Please enter one of the valid values."@
}

/// Shown for a frequency whose parts are no numbers, or cannot be reduced.
pub open spec fn invalid_frequency_text() -> Seq<char> {
    "Invalid IF frequency. Enter valid numerator/denominator."@
}

/// Shown for attenuations of which one is no number.
pub open spec fn invalid_attens_text() -> Seq<char> {
    "Invalid IF attenuations. Enter valid input and output attenuations."@
}

/// Shown for a frequency list whose bounds or count are no numbers.
pub open spec fn unreadable_range_text() -> Seq<char> {
    "Invalid input: Enter valid numbers for initial/stopping frequency and count."@
}

/// Shown for a frequency list with fewer than two points or without extent.
pub open spec fn invalid_range_text() -> Seq<char> {
    "Invalid input: Count must be > 1 and initial frequency < stopping frequency."@
}

/// Shown for a sweep of which a setting is no number.
pub open spec fn invalid_sweep_text() -> Seq<char> {
    "Invalid input values."@
}

/// The command that applies the scale entered, or the error to show.
///
/// Only a valid scale is sent on.
pub fn scale_request(entered: Option<u16>) -> (r: Result<RPCCommand, String>)
    ensures
        entered is Some && valid_scale(entered->0) ==> r is Ok && r->Ok_0@
            == CommandView::SetFFTScale(entered->0),
        !(entered is Some && valid_scale(entered->0)) ==> r is Err && r->Err_0@
            == invalid_scale_text(),
{
    match entered {
        Some(v) => {
            if is_valid_scale(v) {
                Ok(RPCCommand::SetFFTScale(v))
            } else {
                Err("Invalid scale value. Please enter one of the valid values.".to_owned())
            }
        },
        None => Err("Invalid scale value. Please enter one of the valid values.".to_owned()),
    }
}

/// The parts entered give a frequency: both are numbers, and the fraction can
/// be reduced.
pub open spec fn frequency_entered(numer: Option<i64>, denom: Option<i64>) -> bool {
    numer is Some && denom is Some && Hertz::reducible(numer->0, denom->0)
}

/// The command that sets the frequency `numer / denom`, in lowest terms, or the
/// error to show.
pub fn frequency_request(numer: Option<i64>, denom: Option<i64>) -> (r: Result<
    RPCCommand,
    String,
>)
    ensures
        frequency_entered(numer, denom) ==> r is Ok && (r->Ok_0 matches RPCCommand::SetIFFreq(f)
            && f.wf() && f@.0 * denom->0 == numer->0 * f@.1),
        !frequency_entered(numer, denom) ==> r is Err && r->Err_0@ == invalid_frequency_text(),
{
    match (numer, denom) {
        (Some(n), Some(d)) => {
            if Hertz::can_reduce(n, d) {
                Ok(RPCCommand::SetIFFreq(Hertz::new(n, d)))
            } else {
                Err("Invalid IF frequency. Enter valid numerator/denominator.".to_owned())
            }
        },
        _ => Err("Invalid IF frequency. Enter valid numerator/denominator.".to_owned()),
    }
}

/// The command that sets the attenuations entered, or the error to show.
///
/// Both attenuations have to be numbers; each goes on as it was entered.
pub fn attens_request(input: Option<u32>, output: Option<u32>) -> (r: Result<RPCCommand, String>)
    ensures
        input is Some && output is Some ==> r is Ok && r->Ok_0@ == CommandView::SetIFAttens(
            Attens { input: input->0, output: output->0 },
        ),
        !(input is Some && output is Some) ==> r is Err && r->Err_0@ == invalid_attens_text(),
{
    match (input, output) {
        (Some(input), Some(output)) => Ok(RPCCommand::SetIFAttens(Attens { input, output })),
        _ => Err("Invalid IF attenuations. Enter valid input and output attenuations.".to_owned()),
    }
}

/// Point `i` of `count` points spread evenly from `start` to `stop`, rounded
/// down to a whole number of hertz.
pub open spec fn sweep_point(start: int, stop: int, count: int, i: int) -> int {
    start + (i * (stop - start)) / (count - 1)
}

/// The bounds and the count entered give a frequency list: all three are
/// numbers, there are at least two points, and the first lies below the last.
pub open spec fn range_entered(start: Option<i64>, stop: Option<i64>, count: Option<usize>) -> bool {
    start is Some && stop is Some && count is Some && count->0 > 1 && start->0 < stop->0
}

/// Every point of the list lies between its bounds, so it is a frequency that
/// fits the machine.
pub proof fn lemma_sweep_point_bounds(start: int, stop: int, count: int, i: int)
    requires
        start < stop,
        count > 1,
        0 <= i < count,
    ensures
        start <= sweep_point(start, stop, count, i) <= stop,
        i == 0 ==> sweep_point(start, stop, count, i) == start,
        i == count - 1 ==> sweep_point(start, stop, count, i) == stop,
{
    let span = stop - start;
    let last = count - 1;
    assert(0 <= (i * span) / last <= span) by (nonlinear_arith)
        requires
            0 <= i <= last,
            last > 0,
            span > 0,
    ;
    if i == 0 {
        assert((i * span) / last == 0) by (nonlinear_arith)
            requires
                i == 0,
                last > 0,
        ;
    }
    if i == last {
        assert((i * span) / last == span) by (nonlinear_arith)
            requires
                i == last,
                last > 0,
        ;
    }
}

/// The frequencies of a sweep: `count` points spread evenly from `start` to
/// `stop`, both included, each a whole number of hertz; or the error to show.
pub fn sweep_frequencies(start: Option<i64>, stop: Option<i64>, count: Option<usize>) -> (r: Result<
    Vec<Hertz>,
    String,
>)
    ensures
        range_entered(start, stop, count) ==> r is Ok && r->Ok_0@.len() == count->0 && forall|
            i: int,
        |
            0 <= i < count->0 ==> (#[trigger] r->Ok_0@[i]).view() == (
                sweep_point(start->0 as int, stop->0 as int, count->0 as int, i),
                1int,
            ),
        !range_entered(start, stop, count) ==> r is Err && r->Err_0@ == (if start is Some
            && stop is Some && count is Some {
            invalid_range_text()
        } else {
            unreadable_range_text()
        }),
{
    match (start, stop, count) {
        (Some(start), Some(stop), Some(count)) => {
            if count > 1 && start < stop {
                Ok(spread(start, stop, count))
            } else {
                Err(
                    "Invalid input: Count must be > 1 and initial frequency < stopping frequency.".to_owned(),
                )
            }
        },
        _ => Err(
            "Invalid input: Enter valid numbers for initial/stopping frequency and count.".to_owned(),
        ),
    }
}

/// `count` points spread evenly from `start` to `stop`.
///
/// The products are formed in 128 bits, where they cannot overflow.
fn spread(start: i64, stop: i64, count: usize) -> (freqs: Vec<Hertz>)
    requires
        count > 1,
        start < stop,
    ensures
        freqs@.len() == count,
        forall|i: int|
            0 <= i < count ==> (#[trigger] freqs@[i]).view() == (
                sweep_point(start as int, stop as int, count as int, i),
                1int,
            ),
{
    let span: u128 = (stop as i128 - start as i128) as u128;
    let last: u128 = (count - 1) as u128;
    let mut freqs: Vec<Hertz> = Vec::new();
    let mut i: usize = 0;
    while i < count
        invariant
            count > 1,
            start < stop,
            span == stop - start,
            last == count - 1,
            i <= count,
            freqs@.len() == i,
            forall|j: int|
                0 <= j < i ==> (#[trigger] freqs@[j]).view() == (
                    sweep_point(start as int, stop as int, count as int, j),
                    1int,
                ),
        decreases count - i,
    {
        proof {
            lemma_sweep_point_bounds(start as int, stop as int, count as int, i as int);
            assert(0 <= i * span <= 0xffff_ffff_ffff_ffff_ffff_ffff_ffff_ffff) by (nonlinear_arith)
                requires
                    0 <= i <= 0xffff_ffff_ffff_ffff,
                    0 <= span <= 0xffff_ffff_ffff_ffff,
            ;
        }
        let offset: u128 = (i as u128) * span / last;
        let hz: i64 = (start as i128 + offset as i128) as i64;
        let f = Hertz::new(hz, 1);
        proof {
            lemma_whole_hertz(f, hz as int);
        }
        freqs.push(f);
        i += 1;
    }
    freqs
}

/// Every setting of the sweep was entered as a number.
pub open spec fn sweep_entered(
    input_atten: Option<u32>,
    output_atten: Option<u32>,
    average: Option<u64>,
    fft_scale: Option<u16>,
) -> bool {
    input_atten is Some && output_atten is Some && average is Some && fft_scale is Some
}

/// The command that starts a sweep over `freqs` at the one power setting
/// entered, or the error to show.
pub fn sweep_request(
    freqs: Vec<Hertz>,
    input_atten: Option<u32>,
    output_atten: Option<u32>,
    average: Option<u64>,
    fft_scale: Option<u16>,
) -> (r: Result<RPCCommand, String>)
    ensures
        sweep_entered(input_atten, output_atten, average, fft_scale) ==> r is Ok && r->Ok_0@
            == CommandView::SweepConfig(
            SweepConfigView {
                freqs: freqs@,
                settings: seq![
                    PowerSetting {
                        attens: Attens { input: input_atten->0, output: output_atten->0 },
                        fft_scale: fft_scale->0,
                    },
                ],
                average: average->0,
            },
        ),
        !sweep_entered(input_atten, output_atten, average, fft_scale) ==> r is Err && r->Err_0@
            == invalid_sweep_text(),
{
    match (input_atten, output_atten, average, fft_scale) {
        (Some(input), Some(output), Some(average), Some(fft_scale)) => {
            let mut settings: Vec<PowerSetting> = Vec::new();
            settings.push(PowerSetting { attens: Attens { input, output }, fft_scale });
            assert(settings@ =~= seq![
                PowerSetting { attens: Attens { input, output }, fft_scale },
            ]);
            Ok(RPCCommand::SweepConfig(SweepConfig { freqs, settings, average }))
        },
        _ => Err("Invalid input values.".to_owned()),
    }
}

} // verus!
