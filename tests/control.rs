use qrusst::control::{
    render_step, select_device, transform_step, wait_is_over, CaptureAction, CaptureEvent,
    CapturePhase, CaptureStage, DeviceChoice, RenderAction, TransformAction,
};
use qrusst::params::AudioConfig;

fn config(name: &str, rate: u32) -> AudioConfig {
    AudioConfig::new(name.to_string(), rate)
}

fn opened_for(action: CaptureAction) -> (String, u32) {
    match action {
        CaptureAction::Open(c) => (c.device_name, c.sample_rate),
        _ => panic!("expected an open"),
    }
}

#[test]
fn opens_then_parks() {
    let mut stage = CaptureStage::new();
    let a = stage.step(CaptureEvent::Start, false, &config("hw:0", 48000));
    assert_eq!(opened_for(a), ("hw:0".to_string(), 48000));
    assert_eq!(stage.phase, CapturePhase::Opening);
    let a = stage.step(CaptureEvent::Opened, false, &config("hw:0", 48000));
    assert!(matches!(a, CaptureAction::Park));
    assert_eq!(stage.phase, CapturePhase::Streaming);
}

#[test]
fn restart_reopens_with_configuration_seen_after_waking() {
    let mut stage = CaptureStage::new();
    stage.step(CaptureEvent::Start, false, &config("hw:0", 48000));
    stage.step(CaptureEvent::Opened, false, &config("hw:0", 48000));
    let woken = config("hw:2", 96000);
    let a = stage.step(CaptureEvent::Woken { restart: true }, false, &woken);
    assert!(matches!(a, CaptureAction::Close));
    let a = stage.step(CaptureEvent::Closed, false, &woken);
    assert_eq!(opened_for(a), ("hw:2".to_string(), 96000));
}

#[test]
fn spurious_wake_parks_again() {
    let mut stage = CaptureStage::new();
    stage.step(CaptureEvent::Start, false, &config("hw:0", 48000));
    stage.step(CaptureEvent::Opened, false, &config("hw:0", 48000));
    let a = stage.step(CaptureEvent::Woken { restart: false }, false, &config("hw:0", 48000));
    assert!(matches!(a, CaptureAction::Park));
    assert_eq!(stage.phase, CapturePhase::Streaming);
}

#[test]
fn failed_open_is_retried() {
    let mut stage = CaptureStage::new();
    stage.step(CaptureEvent::Start, false, &config("missing", 48000));
    let a = stage.step(CaptureEvent::OpenFailed, false, &config("hw:1", 44100));
    assert_eq!(opened_for(a), ("hw:1".to_string(), 44100));
    assert_eq!(stage.phase, CapturePhase::Opening);
}

#[test]
fn quit_closes_stream_then_exits() {
    let mut stage = CaptureStage::new();
    stage.step(CaptureEvent::Start, false, &config("hw:0", 48000));
    stage.step(CaptureEvent::Opened, false, &config("hw:0", 48000));
    let a = stage.step(CaptureEvent::Woken { restart: false }, true, &config("hw:0", 48000));
    assert!(matches!(a, CaptureAction::Close));
    let a = stage.step(CaptureEvent::Closed, true, &config("hw:0", 48000));
    assert!(matches!(a, CaptureAction::Exit));
    assert_eq!(stage.phase, CapturePhase::Finished);
    let a = stage.step(CaptureEvent::Start, false, &config("hw:0", 48000));
    assert!(matches!(a, CaptureAction::Exit));
}

#[test]
fn quit_while_opening_exits() {
    let mut stage = CaptureStage::new();
    stage.step(CaptureEvent::Start, false, &config("hw:0", 48000));
    let a = stage.step(CaptureEvent::OpenFailed, true, &config("hw:0", 48000));
    assert!(matches!(a, CaptureAction::Exit));
    let mut stage = CaptureStage::new();
    stage.step(CaptureEvent::Start, false, &config("hw:0", 48000));
    let a = stage.step(CaptureEvent::Opened, true, &config("hw:0", 48000));
    assert!(matches!(a, CaptureAction::Close));
}

#[test]
fn quit_before_start_exits() {
    let mut stage = CaptureStage::new();
    let a = stage.step(CaptureEvent::Start, true, &config("hw:0", 48000));
    assert!(matches!(a, CaptureAction::Exit));
}

#[test]
fn wait_ends_on_flag_or_quit() {
    assert!(!wait_is_over(false, false));
    assert!(wait_is_over(true, false));
    assert!(wait_is_over(false, true));
}

#[test]
fn render_decisions() {
    assert_eq!(render_step(false, false), RenderAction::Wait);
    assert_eq!(render_step(true, false), RenderAction::Render);
    assert_eq!(render_step(true, true), RenderAction::Exit);
    assert_eq!(render_step(false, true), RenderAction::Exit);
}

#[test]
fn transform_decisions() {
    assert_eq!(transform_step(true, false, 3, 3), TransformAction::Continue);
    assert_eq!(transform_step(true, false, 3, 4), TransformAction::Rebuild);
    assert_eq!(transform_step(true, true, 3, 3), TransformAction::Exit);
    assert_eq!(transform_step(false, false, 3, 3), TransformAction::Exit);
}

#[test]
fn first_device_with_the_name_is_chosen() {
    let names = vec!["default".to_string(), "hw:1".to_string(), "hw:1".to_string()];
    assert_eq!(select_device(&names, &"hw:1".to_string()), DeviceChoice::Listed(1));
    assert_eq!(select_device(&names, &"default".to_string()), DeviceChoice::Listed(0));
    assert_eq!(select_device(&names, &"hw:9".to_string()), DeviceChoice::Missing);
    assert_eq!(select_device(&Vec::new(), &"default".to_string()), DeviceChoice::Missing);
}

#[test]
fn no_device_name_means_host_default() {
    let names = vec!["hw:0".to_string()];
    assert_eq!(select_device(&names, &String::new()), DeviceChoice::HostDefault);
    assert_eq!(select_device(&Vec::new(), &String::new()), DeviceChoice::HostDefault);
}
