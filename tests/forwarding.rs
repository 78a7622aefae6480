use audio_forward::address::has_port;
use audio_forward::address::normalize_endpoint;
use audio_forward::chunker::fragment;
use audio_forward::chunker::fragment_count;
use audio_forward::chunker::FRAGMENT_MAX;
use audio_forward::device::occurs;
use audio_forward::device::DeviceChoice;
use audio_forward::device::DevicePolicy;
use audio_forward::lifecycle::first_action;
use audio_forward::lifecycle::next_action;
use audio_forward::lifecycle::sample_width;
use audio_forward::lifecycle::Controller;
use audio_forward::lifecycle::SampleFormat;
use audio_forward::lifecycle::StartAction;
use audio_forward::lifecycle::StartFailure;
use audio_forward::lifecycle::StartPhase;
use audio_forward::lifecycle::StartRequest;

fn names(list: &[&str]) -> Vec<String> {
    list.iter().map(|s| s.to_string()).collect()
}

#[test]
fn bare_host_gets_default_port() {
    assert_eq!(normalize_endpoint("192.168.1.5"), "192.168.1.5:5000");
}

#[test]
fn host_with_port_is_unchanged() {
    assert_eq!(normalize_endpoint("192.168.1.5:7000"), "192.168.1.5:7000");
}

#[test]
fn empty_target_gets_default_port() {
    assert_eq!(normalize_endpoint(""), ":5000");
}

#[test]
fn port_detection() {
    assert!(has_port("host:1"));
    assert!(has_port(":"));
    assert!(!has_port("host"));
    assert!(!has_port(""));
}

#[test]
fn fragment_counts_round_up() {
    assert_eq!(fragment_count(0), 0);
    assert_eq!(fragment_count(1), 1);
    assert_eq!(fragment_count(1399), 1);
    assert_eq!(fragment_count(1400), 1);
    assert_eq!(fragment_count(1401), 2);
    assert_eq!(fragment_count(2800), 2);
    assert_eq!(fragment_count(4000), 3);
    assert_eq!(fragment_count(usize::MAX), usize::MAX / 1400 + 1);
}

#[test]
fn fragments_reassemble_buffer() {
    let bytes: Vec<u8> = (0..4000u32).map(|i| (i % 251) as u8).collect();
    let n = fragment_count(bytes.len());
    assert_eq!(n, 3);
    let mut joined: Vec<u8> = Vec::new();
    for i in 0..n {
        let f = fragment(&bytes, i);
        if i + 1 < n {
            assert_eq!(f.len(), FRAGMENT_MAX);
        }
        joined.extend_from_slice(f);
    }
    assert_eq!(fragment(&bytes, 2).len(), 1200);
    assert_eq!(fragment(&bytes, 1)[0], bytes[1400]);
    assert_eq!(joined, bytes);
}

#[test]
fn exact_multiple_has_full_last_fragment() {
    let bytes = vec![7u8; 2800];
    assert_eq!(fragment_count(bytes.len()), 2);
    assert_eq!(fragment(&bytes, 1).len(), 1400);
}

#[test]
fn short_buffer_is_one_fragment() {
    let bytes = vec![1u8, 2, 3];
    assert_eq!(fragment_count(bytes.len()), 1);
    assert_eq!(fragment(&bytes, 0), &[1u8, 2, 3][..]);
}

#[test]
fn substring_search() {
    assert!(occurs("built-in monitor", "monitor"));
    assert!(occurs("abc", ""));
    assert!(occurs("monitor", "monitor"));
    assert!(!occurs("moni", "monitor"));
    assert!(!occurs("monitxr", "monitor"));
}

#[test]
fn standard_policy_patterns() {
    let p = DevicePolicy::standard();
    assert_eq!(p.patterns, names(&["monitor", "analog stereo"]));
    assert!(p.matches("built-in analog stereo"));
    assert!(!p.matches("usb microphone"));
}

#[test]
fn no_match_falls_back_to_default() {
    let p = DevicePolicy::standard();
    let devs = names(&["USB Microphone", "HDMI Output"]);
    assert_eq!(p.select_input_device(&devs, true), DeviceChoice::SystemDefault);
}

#[test]
fn no_match_and_no_default_is_no_device() {
    let p = DevicePolicy::standard();
    assert_eq!(p.select_input_device(&names(&["Webcam"]), false), DeviceChoice::NoDevice);
    assert_eq!(p.select_input_device(&Vec::new(), false), DeviceChoice::NoDevice);
    assert_eq!(p.select_input_device(&Vec::new(), true), DeviceChoice::SystemDefault);
}

#[test]
fn single_match_found_first_or_last() {
    let p = DevicePolicy::standard();
    let first = names(&["Monitor of Built-in Audio", "USB Microphone", "Webcam"]);
    assert_eq!(p.select_input_device(&first, true), DeviceChoice::Listed(0));
    let last = names(&["USB Microphone", "Webcam", "Built-in Audio Analog Stereo"]);
    assert_eq!(p.select_input_device(&last, true), DeviceChoice::Listed(2));
}

#[test]
fn first_of_several_matches_wins() {
    let p = DevicePolicy::standard();
    let devs = names(&["Webcam", "ANALOG STEREO", "monitor"]);
    assert_eq!(p.select_input_device(&devs, false), DeviceChoice::Listed(1));
}

#[test]
fn choose_device_compares_names_as_given() {
    let p = DevicePolicy::standard();
    let devs = names(&["MONITOR"]);
    assert_eq!(p.choose_device(&devs, true), DeviceChoice::SystemDefault);
    assert_eq!(p.select_input_device(&devs, true), DeviceChoice::Listed(0));
}

#[test]
fn sample_widths() {
    assert_eq!(sample_width(SampleFormat::F32), Some(4));
    assert_eq!(sample_width(SampleFormat::I16), Some(2));
    assert_eq!(sample_width(SampleFormat::U16), Some(2));
    assert_eq!(sample_width(SampleFormat::Other), None);
}

#[test]
fn successful_attempt_runs_every_step_then_installs() {
    let mut action = first_action();
    let mut steps = Vec::new();
    while let StartAction::Perform(p) = action {
        steps.push(p);
        action = next_action(p, true);
    }
    assert_eq!(
        steps,
        vec![
            StartPhase::Bind,
            StartPhase::Connect,
            StartPhase::SelectDevice,
            StartPhase::QueryConfig,
            StartPhase::CheckFormat,
            StartPhase::BuildStream,
            StartPhase::Play,
        ]
    );
    assert_eq!(action, StartAction::Install);
}

#[test]
fn each_failed_step_aborts_with_its_failure() {
    let cases = [
        (StartPhase::Bind, StartFailure::BindFailed),
        (StartPhase::Connect, StartFailure::ConnectFailed),
        (StartPhase::SelectDevice, StartFailure::NoDevice),
        (StartPhase::QueryConfig, StartFailure::ConfigUnavailable),
        (StartPhase::CheckFormat, StartFailure::UnsupportedFormat),
        (StartPhase::BuildStream, StartFailure::BuildFailed),
        (StartPhase::Play, StartFailure::PlayFailed),
    ];
    for (phase, failure) in cases {
        assert_eq!(next_action(phase, false), StartAction::Abort(failure));
        assert_eq!(failure.is_reported(), failure != StartFailure::UnsupportedFormat);
    }
}

#[test]
fn connect_failure_stops_before_device_query() {
    let mut controller: Controller<u32> = Controller::new();
    let mut action = first_action();
    let mut steps = Vec::new();
    while let StartAction::Perform(p) = action {
        steps.push(p);
        action = next_action(p, p != StartPhase::Connect);
    }
    assert_eq!(steps, vec![StartPhase::Bind, StartPhase::Connect]);
    assert_eq!(action, StartAction::Abort(StartFailure::ConnectFailed));
    assert!(!controller.is_running());
    assert_eq!(controller.stop(), None);
}

#[test]
fn start_while_running_keeps_stream() {
    let mut controller: Controller<u32> = Controller::new();
    match controller.request_start("10.0.0.2") {
        StartRequest::Proceed { endpoint } => assert_eq!(endpoint, "10.0.0.2:5000"),
        StartRequest::AlreadyRunning => panic!("idle controller reported running"),
    }
    assert_eq!(controller.install(1), None);
    assert!(controller.is_running());
    assert!(matches!(controller.request_start("10.0.0.3"), StartRequest::AlreadyRunning));
    assert_eq!(controller.install(2), Some(2));
    assert_eq!(controller.stop(), Some(1));
}

#[test]
fn stop_twice_stays_idle() {
    let mut controller: Controller<u32> = Controller::new();
    controller.install(5);
    assert_eq!(controller.stop(), Some(5));
    assert!(!controller.is_running());
    assert_eq!(controller.stop(), None);
    assert!(!controller.is_running());
}

#[test]
fn serialized_starts_install_one_stream() {
    let shared = std::sync::Arc::new(std::sync::Mutex::new(Controller::<u32>::new()));
    let mut installed = 0;
    for handle in [1u32, 2u32] {
        let mut c = shared.lock().unwrap();
        if let StartRequest::Proceed { .. } = c.request_start("host") {
            if c.install(handle).is_none() {
                installed += 1;
            }
        }
    }
    assert_eq!(installed, 1);
    assert_eq!(shared.lock().unwrap().stop(), Some(1));
}
