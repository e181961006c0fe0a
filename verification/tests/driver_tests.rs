use wgpu_n_body::driver::{Action, Driver, Event, Failure, Phase, Severity};
use wgpu_n_body::render::ExtractError;

fn run_frame(driver: &mut Driver, frame: u32) -> Action {
    assert_eq!(driver.phase(), Phase::Stepping);
    assert_eq!(driver.frame(), frame);
    assert_eq!(driver.advance(Event::Done), Action::Render { frame });
    assert_eq!(driver.advance(Event::Done), Action::MapStaging { frame });
    assert_eq!(driver.advance(Event::Done), Action::Extract { frame });
    assert_eq!(driver.advance(Event::Done), Action::Encode { frame });
    driver.advance(Event::Done)
}

#[test]
fn a_run_starts_with_the_step_of_frame_one() {
    let (driver, action) = Driver::begin();
    assert_eq!(action, Action::Step { frame: 1 });
    assert_eq!(driver.phase(), Phase::Stepping);
    assert_eq!(driver.frame(), 1);
    assert!(!driver.staging_is_mapped());
    assert!(!driver.is_stopped());
}

#[test]
fn an_iteration_steps_renders_maps_extracts_and_encodes() {
    let (mut driver, _) = Driver::begin();
    assert_eq!(driver.advance(Event::Done), Action::Render { frame: 1 });
    assert_eq!(driver.phase(), Phase::Rendering);
    assert_eq!(driver.advance(Event::Done), Action::MapStaging { frame: 1 });
    assert_eq!(driver.phase(), Phase::Mapping);
    assert_eq!(driver.advance(Event::Done), Action::Extract { frame: 1 });
    assert_eq!(driver.phase(), Phase::Extracting);
    assert_eq!(driver.advance(Event::Done), Action::Encode { frame: 1 });
    assert_eq!(driver.phase(), Phase::Encoding);
    assert_eq!(driver.advance(Event::Done), Action::Step { frame: 2 });
    assert_eq!(driver.phase(), Phase::Stepping);
    assert_eq!(driver.frame(), 2);
}

#[test]
fn frame_indices_go_up_by_one() {
    let (mut driver, _) = Driver::begin();
    for frame in 1..50u32 {
        assert_eq!(run_frame(&mut driver, frame), Action::Step { frame: frame + 1 });
    }
}

#[test]
fn staging_is_mapped_only_during_extraction() {
    let (mut driver, _) = Driver::begin();
    for _ in 0..3 {
        assert!(!driver.staging_is_mapped());
        driver.advance(Event::Done);
        assert!(!driver.staging_is_mapped());
        driver.advance(Event::Done);
        assert!(!driver.staging_is_mapped());
        assert_eq!(driver.phase(), Phase::Mapping);
        driver.advance(Event::Done);
        assert!(driver.staging_is_mapped());
        driver.advance(Event::Done);
        assert!(!driver.staging_is_mapped());
        driver.advance(Event::Done);
    }
}

#[test]
fn a_failed_mapping_skips_the_frame_and_leaves_a_gap() {
    let (mut driver, _) = Driver::begin();
    assert_eq!(run_frame(&mut driver, 1), Action::Step { frame: 2 });
    driver.advance(Event::Done);
    driver.advance(Event::Done);
    assert_eq!(
        driver.advance(Event::Failed(Failure::Mapping)),
        Action::Report { frame: 2, failure: Failure::Mapping }
    );
    assert_eq!(driver.phase(), Phase::Reporting);
    assert!(!driver.staging_is_mapped());
    assert_eq!(driver.advance(Event::Done), Action::Step { frame: 3 });
    assert_eq!(run_frame(&mut driver, 3), Action::Step { frame: 4 });
}

#[test]
fn a_bad_capture_skips_the_frame() {
    let (mut driver, _) = Driver::begin();
    driver.advance(Event::Done);
    driver.advance(Event::Done);
    driver.advance(Event::Done);
    assert!(driver.staging_is_mapped());
    assert_eq!(
        driver.advance(Event::Failed(Failure::Capture)),
        Action::Report { frame: 1, failure: Failure::Capture }
    );
    assert!(!driver.staging_is_mapped());
    assert_eq!(driver.advance(Event::Done), Action::Step { frame: 2 });
}

#[test]
fn a_failed_submission_ends_the_run() {
    let (mut driver, _) = Driver::begin();
    assert_eq!(
        driver.advance(Event::Failed(Failure::Submission)),
        Action::Stop { cause: Some(Failure::Submission) }
    );
    assert!(driver.is_stopped());
    assert_eq!(driver.advance(Event::Done), Action::Stop { cause: None });
    assert_eq!(driver.advance(Event::Failed(Failure::Mapping)), Action::Stop { cause: None });
    assert!(driver.is_stopped());
    assert_eq!(driver.frame(), 1);
}

#[test]
fn a_failed_render_ends_the_run() {
    let (mut driver, _) = Driver::begin();
    driver.advance(Event::Done);
    assert_eq!(
        driver.advance(Event::Failed(Failure::Submission)),
        Action::Stop { cause: Some(Failure::Submission) }
    );
    assert!(driver.is_stopped());
}

#[test]
fn a_failed_encoding_ends_the_run() {
    let (mut driver, _) = Driver::begin();
    driver.advance(Event::Done);
    driver.advance(Event::Done);
    driver.advance(Event::Done);
    driver.advance(Event::Done);
    assert_eq!(driver.phase(), Phase::Encoding);
    assert_eq!(
        driver.advance(Event::Failed(Failure::Encoding)),
        Action::Stop { cause: Some(Failure::Encoding) }
    );
    assert!(driver.is_stopped());
}

#[test]
fn a_lost_device_ends_the_run() {
    let (mut driver, _) = Driver::begin();
    assert_eq!(
        driver.advance(Event::Failed(Failure::Device)),
        Action::Stop { cause: Some(Failure::Device) }
    );
}

#[test]
fn only_extraction_failures_are_recoverable() {
    assert_eq!(Failure::Mapping.severity(), Severity::SkipFrame);
    assert_eq!(Failure::Capture.severity(), Severity::SkipFrame);
    assert_eq!(Failure::Device.severity(), Severity::AbortRun);
    assert_eq!(Failure::Submission.severity(), Severity::AbortRun);
    assert_eq!(Failure::Encoding.severity(), Severity::AbortRun);
}

#[test]
fn extraction_errors_map_to_run_failures() {
    assert_eq!(Failure::of_extraction(ExtractError::MapFailed), Failure::Mapping);
    assert_eq!(Failure::of_extraction(ExtractError::BadCapture), Failure::Capture);
}

#[test]
fn a_stop_request_waits_for_the_end_of_the_iteration() {
    let (mut driver, _) = Driver::begin();
    assert_eq!(run_frame(&mut driver, 1), Action::Step { frame: 2 });
    driver.advance(Event::Done);
    driver.request_stop();
    assert!(!driver.is_stopped());
    assert_eq!(driver.advance(Event::Done), Action::MapStaging { frame: 2 });
    assert_eq!(driver.advance(Event::Done), Action::Extract { frame: 2 });
    assert_eq!(driver.advance(Event::Done), Action::Encode { frame: 2 });
    assert_eq!(driver.advance(Event::Done), Action::Stop { cause: None });
    assert!(driver.is_stopped());
    assert_eq!(driver.frame(), 2);
}

#[test]
fn a_stop_request_also_holds_after_a_skipped_frame() {
    let (mut driver, _) = Driver::begin();
    driver.request_stop();
    driver.advance(Event::Done);
    driver.advance(Event::Done);
    assert_eq!(
        driver.advance(Event::Failed(Failure::Mapping)),
        Action::Report { frame: 1, failure: Failure::Mapping }
    );
    assert_eq!(driver.advance(Event::Done), Action::Stop { cause: None });
}
