use photobooth::CaptureOutcome;
use photobooth::CaptureStepError;
use photobooth::DeviceEvent;
use photobooth::DeviceFilePath;
use photobooth::DeviceRequest;
use photobooth::DeviceScript;
use photobooth::ProtocolState;
use photobooth::capture_and_save;
use photobooth::pending_request;
use photobooth::protocol_step;

fn on_device_path() -> DeviceFilePath {
    DeviceFilePath {
        folder: String::from("/store_00010001/DCIM/100CANON"),
        name: String::from("IMG_0001.JPG"),
    }
}

#[test]
fn capture_failure_stops_the_run_before_download() {
    let script = DeviceScript {
        capture: Err(-53),
        download: Ok(()),
        delete: Ok(()),
    };
    let (outcome, requests) = capture_and_save(script);
    assert_eq!(
        outcome,
        CaptureOutcome::Failed { error: CaptureStepError::CaptureFailed { status: -53 } }
    );
    assert_eq!(requests, vec![DeviceRequest::CapturePhoto]);
}

#[test]
fn download_failure_never_deletes_the_on_device_copy() {
    let script = DeviceScript {
        capture: Ok(on_device_path()),
        download: Err(-34),
        delete: Ok(()),
    };
    let (outcome, requests) = capture_and_save(script);
    assert_eq!(
        outcome,
        CaptureOutcome::Failed { error: CaptureStepError::DownloadFailed { status: -34 } }
    );
    assert_eq!(requests, vec![DeviceRequest::CapturePhoto, DeviceRequest::DownloadPhoto]);
    assert!(!requests.contains(&DeviceRequest::DeletePhoto));
}

#[test]
fn successful_download_deletes_exactly_once_afterwards() {
    let script = DeviceScript {
        capture: Ok(on_device_path()),
        download: Ok(()),
        delete: Ok(()),
    };
    let (outcome, requests) = capture_and_save(script);
    assert_eq!(outcome, CaptureOutcome::Saved { cleanup_ok: true });
    assert_eq!(
        requests,
        vec![DeviceRequest::CapturePhoto, DeviceRequest::DownloadPhoto, DeviceRequest::DeletePhoto]
    );
    let deletes = requests.iter().filter(|r| **r == DeviceRequest::DeletePhoto).count();
    assert_eq!(deletes, 1);
    assert_eq!(requests.last(), Some(&DeviceRequest::DeletePhoto));
}

#[test]
fn cleanup_failure_is_non_fatal() {
    let script = DeviceScript {
        capture: Ok(on_device_path()),
        download: Ok(()),
        delete: Err(-1),
    };
    let (outcome, requests) = capture_and_save(script);
    assert_eq!(outcome, CaptureOutcome::Saved { cleanup_ok: false });
    assert_eq!(
        requests,
        vec![DeviceRequest::CapturePhoto, DeviceRequest::DownloadPhoto, DeviceRequest::DeletePhoto]
    );
}

#[test]
fn protocol_walks_capture_download_delete_in_order() {
    let s0 = ProtocolState::AwaitingCapture;
    assert_eq!(pending_request(&s0), Some(DeviceRequest::CapturePhoto));

    let s1 = protocol_step(s0, DeviceEvent::CaptureDone { result: Ok(on_device_path()) });
    assert_eq!(s1, ProtocolState::AwaitingDownload { path: on_device_path() });
    assert_eq!(pending_request(&s1), Some(DeviceRequest::DownloadPhoto));

    let s2 = protocol_step(s1, DeviceEvent::DownloadDone { result: Ok(()) });
    assert_eq!(s2, ProtocolState::AwaitingDelete { path: on_device_path() });
    assert_eq!(pending_request(&s2), Some(DeviceRequest::DeletePhoto));

    let s3 = protocol_step(s2, DeviceEvent::DeleteDone { result: Ok(()) });
    assert_eq!(s3, ProtocolState::Done { outcome: CaptureOutcome::Saved { cleanup_ok: true } });
    assert_eq!(pending_request(&s3), None);
}

#[test]
fn protocol_ignores_a_report_that_answers_nothing_pending() {
    let s0 = ProtocolState::AwaitingCapture;
    let s1 = protocol_step(s0, DeviceEvent::DeleteDone { result: Ok(()) });
    assert_eq!(s1, ProtocolState::AwaitingCapture);
}

#[test]
fn protocol_download_failure_ends_the_run() {
    let s = ProtocolState::AwaitingDownload { path: on_device_path() };
    let t = protocol_step(s, DeviceEvent::DownloadDone { result: Err(-110) });
    assert_eq!(
        t,
        ProtocolState::Done {
            outcome: CaptureOutcome::Failed {
                error: CaptureStepError::DownloadFailed { status: -110 },
            },
        }
    );
    assert_eq!(pending_request(&t), None);
}
