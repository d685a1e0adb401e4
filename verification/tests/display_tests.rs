use readout_bridge::display::{scale_text, DisplayState, Measurement};
use readout_bridge::protocol::RPCResponse;
use readout_bridge::values::{Attens, DacTable, Hertz, Sample, Timestamp, DAC_TABLE_LEN};

fn table(fill: Sample) -> DacTable {
    match vec![fill; DAC_TABLE_LEN].into_boxed_slice().try_into() {
        Ok(t) => t,
        Err(_) => unreachable!(),
    }
}

#[test]
fn scale_text_is_the_decimal_numeral() {
    assert_eq!(scale_text(0), "0");
    assert_eq!(scale_text(7), "7");
    assert_eq!(scale_text(10), "10");
    assert_eq!(scale_text(99), "99");
    assert_eq!(scale_text(100), "100");
    assert_eq!(scale_text(0xF0F), "3855");
    assert_eq!(scale_text(4095), "4095");
    assert_eq!(scale_text(10000), "10000");
    assert_eq!(scale_text(u16::MAX), "65535");
}

#[test]
fn scale_text_agrees_with_std_on_every_scale() {
    for v in 0..=u16::MAX {
        assert_eq!(scale_text(v), v.to_string());
    }
}

#[test]
fn display_starts_blank() {
    let d = DisplayState::new();
    assert_eq!(d.status.status_message, "Disconnected");
    assert_eq!(d.fft_scale, "");
    assert_eq!(d.dac_table, None);
    assert_eq!(d.if_freq, None);
    assert_eq!(d.if_attens, None);
    assert_eq!(d.connection_time, None);
    assert_eq!(d.error_message, None);
    assert_eq!(d.sweep_result, None);
}

#[test]
fn poll_with_nothing_found_changes_nothing() {
    let mut d = DisplayState::new();
    assert!(!d.poll(None));
    assert_eq!(d.status.status_message, "Disconnected");
    assert_eq!(d.fft_scale, "");
    assert_eq!(d.connection_time, None);
    assert_eq!(d.error_message, None);
    assert_eq!(d.sweep_result, None);
    d.merge(RPCResponse::FFTScale(Some(277)));
    assert!(!d.poll(None));
    assert_eq!(d.fft_scale, "277");
}

#[test]
fn poll_merges_what_was_found() {
    let mut d = DisplayState::new();
    assert!(d.poll(Some(RPCResponse::FFTScale(Some(1911)))));
    assert_eq!(d.fft_scale, "1911");
}

#[test]
fn connected_sets_status_and_time() {
    let mut d = DisplayState::new();
    let at = Timestamp { secs: 12, nanos: 34 };
    d.merge(RPCResponse::Connected(at));
    assert_eq!(d.status.status_message, "Connected");
    assert_eq!(d.connection_time, Some(at));
    assert_eq!(d.fft_scale, "");
}

#[test]
fn failed_scale_shows_as_zero() {
    let mut d = DisplayState::new();
    d.merge(RPCResponse::FFTScale(Some(0xF0F)));
    assert_eq!(d.fft_scale, "3855");
    d.merge(RPCResponse::FFTScale(None));
    assert_eq!(d.fft_scale, "0");
}

#[test]
fn last_response_wins() {
    let mut d = DisplayState::new();
    let f1 = Hertz::new(1, 2);
    let f2 = Hertz::new(3, 4);
    d.merge(RPCResponse::IFFreq(Some(f1)));
    d.merge(RPCResponse::IFFreq(Some(f2)));
    assert_eq!(d.if_freq, Some(f2));
    d.merge(RPCResponse::IFFreq(None));
    assert_eq!(d.if_freq, None);
    let a1 = Attens { input: 1, output: 2 };
    let a2 = Attens { input: 3, output: 4 };
    d.merge(RPCResponse::IFAttens(Some(a1)));
    d.merge(RPCResponse::IFAttens(Some(a2)));
    assert_eq!(d.if_attens, Some(a2));
    d.merge(RPCResponse::IFAttens(None));
    assert_eq!(d.if_attens, None);
}

#[test]
fn table_is_kept_and_dropped() {
    let mut d = DisplayState::new();
    let t = table(Sample { re: 3, im: 4 });
    d.merge(RPCResponse::DACTable(Some(t.clone())));
    assert_eq!(d.dac_table, Some(t));
    d.merge(RPCResponse::DACTable(None));
    assert_eq!(d.dac_table, None);
}

#[test]
fn empty_capture_shows_an_error() {
    let mut d = DisplayState::new();
    d.merge(RPCResponse::Sweep("first".to_string()));
    d.merge(RPCResponse::CaptureResult(vec![]));
    assert_eq!(d.error_message, Some("Capture failed: No data available.".to_string()));
    assert_eq!(d.sweep_result, Some(Measurement::Sweep("first".to_string())));
}

#[test]
fn capture_with_data_replaces_the_measurement() {
    let mut d = DisplayState::new();
    d.merge(RPCResponse::CaptureResult(vec![]));
    d.merge(RPCResponse::Sweep("first".to_string()));
    let data = vec![Sample { re: 1, im: 2 }, Sample { re: -3, im: -4 }];
    d.merge(RPCResponse::CaptureResult(data.clone()));
    assert_eq!(d.sweep_result, Some(Measurement::Capture(data)));
    assert_eq!(d.error_message, Some("Capture failed: No data available.".to_string()));
    d.merge(RPCResponse::Sweep("second".to_string()));
    assert_eq!(d.sweep_result, Some(Measurement::Sweep("second".to_string())));
}

#[test]
fn one_response_per_frame_in_send_order() {
    let mut queue = std::collections::VecDeque::new();
    queue.push_back(RPCResponse::FFTScale(Some(1)));
    queue.push_back(RPCResponse::FFTScale(Some(257)));
    queue.push_back(RPCResponse::FFTScale(Some(4095)));
    let mut d = DisplayState::new();
    let mut shown = Vec::new();
    for _ in 0..5 {
        let took = d.poll(queue.pop_front());
        shown.push((took, d.fft_scale.clone()));
    }
    assert_eq!(
        shown,
        vec![
            (true, "1".to_string()),
            (true, "257".to_string()),
            (true, "4095".to_string()),
            (false, "4095".to_string()),
            (false, "4095".to_string()),
        ]
    );
}
