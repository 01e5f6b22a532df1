use vstd::prelude::*;

use crate::jpeg::DecodeError;
use crate::jpeg::decode_jpeg_slice;
use crate::jpeg::decode_spec;
use crate::pixels::RgbaImage;

verus! {

/// Where a freshly captured image sits on the device's internal storage.
#[derive(Clone, Debug, PartialEq, Eq)]
pub struct DeviceFilePath {
    pub folder: String,
    pub name: String,
}

/// Which step of the capture protocol failed, with the status code the
/// device reported.
#[derive(Clone, Copy, Debug, PartialEq, Eq, Structural)]
pub enum CaptureStepError {
    CaptureFailed { status: i32 },
    DownloadFailed { status: i32 },
}

/// How one full capture run ended. A failed on-device cleanup is non-fatal:
/// the local copy is already written, so the run still counts as saved.
#[derive(Clone, Copy, Debug, PartialEq, Eq, Structural)]
pub enum CaptureOutcome {
    Saved { cleanup_ok: bool },
    Failed { error: CaptureStepError },
}

/// The capture protocol as a state machine: capture, then download, then
/// delete the on-device copy, in that order and only after the step before
/// succeeded.
#[derive(Debug, PartialEq, Eq)]
pub enum ProtocolState {
    AwaitingCapture,
    AwaitingDownload { path: DeviceFilePath },
    AwaitingDelete { path: DeviceFilePath },
    Done { outcome: CaptureOutcome },
}

/// What the device reported back for one protocol step. An `Err` carries the
/// device's status code.
#[derive(Debug, PartialEq, Eq)]
pub enum DeviceEvent {
    CaptureDone { result: Result<DeviceFilePath, i32> },
    DownloadDone { result: Result<(), i32> },
    DeleteDone { result: Result<(), i32> },
}

/// The device operation the protocol wants performed next. The file to
/// download or delete is the one named in the protocol state.
#[derive(Clone, Copy, Debug, PartialEq, Eq, Structural)]
pub enum DeviceRequest {
    CapturePhoto,
    DownloadPhoto,
    DeletePhoto,
}

/// How the protocol advances on one device report. An event that does not
/// answer the pending request leaves the state as it is.
pub open spec fn next_state(s: ProtocolState, e: DeviceEvent) -> ProtocolState {
    match (s, e) {
        (ProtocolState::AwaitingCapture, DeviceEvent::CaptureDone { result }) => match result {
            Ok(path) => ProtocolState::AwaitingDownload { path },
            Err(status) => ProtocolState::Done {
                outcome: CaptureOutcome::Failed {
                    error: CaptureStepError::CaptureFailed { status },
                },
            },
        },
        (ProtocolState::AwaitingDownload { path }, DeviceEvent::DownloadDone { result }) => match result {
            Ok(_) => ProtocolState::AwaitingDelete { path },
            Err(status) => ProtocolState::Done {
                outcome: CaptureOutcome::Failed {
                    error: CaptureStepError::DownloadFailed { status },
                },
            },
        },
        (ProtocolState::AwaitingDelete { .. }, DeviceEvent::DeleteDone { result }) => ProtocolState::Done {
            outcome: CaptureOutcome::Saved { cleanup_ok: result is Ok },
        },
        (other, _) => other,
    }
}

/// Advances the capture protocol by one device report, exactly as
/// `next_state` describes.
pub fn protocol_step(s: ProtocolState, e: DeviceEvent) -> (t: ProtocolState)
    ensures
        t == next_state(s, e),
{
    match (s, e) {
        (ProtocolState::AwaitingCapture, DeviceEvent::CaptureDone { result }) => match result {
            Ok(path) => ProtocolState::AwaitingDownload { path },
            Err(status) => ProtocolState::Done {
                outcome: CaptureOutcome::Failed {
                    error: CaptureStepError::CaptureFailed { status },
                },
            },
        },
        (ProtocolState::AwaitingDownload { path }, DeviceEvent::DownloadDone { result }) => match result {
            Ok(_) => ProtocolState::AwaitingDelete { path },
            Err(status) => ProtocolState::Done {
                outcome: CaptureOutcome::Failed {
                    error: CaptureStepError::DownloadFailed { status },
                },
            },
        },
        (ProtocolState::AwaitingDelete { path: _ }, DeviceEvent::DeleteDone { result }) => ProtocolState::Done {
            outcome: CaptureOutcome::Saved { cleanup_ok: result.is_ok() },
        },
        (other, _) => other,
    }
}

/// The device operation pending in a protocol state.
pub open spec fn spec_pending_request(s: ProtocolState) -> Option<DeviceRequest> {
    match s {
        ProtocolState::AwaitingCapture => Some(DeviceRequest::CapturePhoto),
        ProtocolState::AwaitingDownload { .. } => Some(DeviceRequest::DownloadPhoto),
        ProtocolState::AwaitingDelete { .. } => Some(DeviceRequest::DeletePhoto),
        ProtocolState::Done { .. } => None,
    }
}

/// Reports which device operation the protocol is waiting on, or `None` once
/// the run is over.
pub fn pending_request(s: &ProtocolState) -> (r: Option<DeviceRequest>)
    ensures
        r == spec_pending_request(*s),
{
    match s {
        ProtocolState::AwaitingCapture => Some(DeviceRequest::CapturePhoto),
        ProtocolState::AwaitingDownload { .. } => Some(DeviceRequest::DownloadPhoto),
        ProtocolState::AwaitingDelete { .. } => Some(DeviceRequest::DeletePhoto),
        ProtocolState::Done { .. } => None,
    }
}

/// One scripted device session: the reports the device would give to the
/// capture, download and delete requests, in that order. A run that stops
/// early never reaches the later reports.
#[derive(Debug, PartialEq, Eq)]
pub struct DeviceScript {
    pub capture: Result<DeviceFilePath, i32>,
    pub download: Result<(), i32>,
    pub delete: Result<(), i32>,
}

/// How a full capture run against a scripted session ends.
pub open spec fn capture_outcome_spec(script: DeviceScript) -> CaptureOutcome {
    match script.capture {
        Err(status) => CaptureOutcome::Failed {
            error: CaptureStepError::CaptureFailed { status },
        },
        Ok(_) => match script.download {
            Err(status) => CaptureOutcome::Failed {
                error: CaptureStepError::DownloadFailed { status },
            },
            Ok(_) => CaptureOutcome::Saved { cleanup_ok: script.delete is Ok },
        },
    }
}

/// Which device operations a full capture run against a scripted session
/// performs, in order. The delete request appears exactly when the download
/// step succeeded.
pub open spec fn capture_requests_spec(script: DeviceScript) -> Seq<DeviceRequest> {
    match script.capture {
        Err(_) => seq![DeviceRequest::CapturePhoto],
        Ok(_) => match script.download {
            Err(_) => seq![DeviceRequest::CapturePhoto, DeviceRequest::DownloadPhoto],
            Ok(_) => seq![
                DeviceRequest::CapturePhoto,
                DeviceRequest::DownloadPhoto,
                DeviceRequest::DeletePhoto,
            ],
        },
    }
}

/// Runs the whole capture protocol against one device session, given as the
/// reports the session makes: capture the image on the device, download it to
/// the destination, then delete the on-device copy.
///
/// Returns how the run ended together with the device operations performed,
/// in order. A failed step ends the run at once: in particular the on-device
/// copy is never deleted unless the download succeeded, and a failed delete
/// after a successful download is non-fatal.
pub fn capture_and_save(script: DeviceScript) -> (r: (CaptureOutcome, Vec<DeviceRequest>))
    ensures
        r.0 == capture_outcome_spec(script),
        r.1@ == capture_requests_spec(script),
        script.download is Err ==> !r.1@.contains(DeviceRequest::DeletePhoto),
{
    let mut requests: Vec<DeviceRequest> = Vec::new();
    let mut state = ProtocolState::AwaitingCapture;

    requests.push(DeviceRequest::CapturePhoto);
    state = protocol_step(state, DeviceEvent::CaptureDone { result: script.capture });

    if matches!(state, ProtocolState::AwaitingDownload { .. }) {
        requests.push(DeviceRequest::DownloadPhoto);
        state = protocol_step(state, DeviceEvent::DownloadDone { result: script.download });
    }

    if matches!(state, ProtocolState::AwaitingDelete { .. }) {
        requests.push(DeviceRequest::DeletePhoto);
        state = protocol_step(state, DeviceEvent::DeleteDone { result: script.delete });
    }

    let outcome = match state {
        ProtocolState::Done { outcome } => outcome,
        // the three steps above always leave the protocol finished, so this
        // arm is dead; the postconditions would not hold of it
        _ => CaptureOutcome::Failed {
            error: CaptureStepError::CaptureFailed { status: 0 },
        },
    };
    proof {
        assert(requests@ =~= capture_requests_spec(script));
    }
    (outcome, requests)
}

/// The protocol never asks for the on-device copy to be deleted unless the
/// step before was a download that the device reported successful: from any
/// state not already awaiting the delete, the delete becomes pending only on
/// a successful download report.
pub proof fn lemma_delete_only_after_download_success(s: ProtocolState, e: DeviceEvent)
    requires
        !(s matches ProtocolState::AwaitingDelete { .. }),
    ensures
        next_state(s, e) matches ProtocolState::AwaitingDelete { .. } ==> (
            s matches ProtocolState::AwaitingDownload { .. }
            && e matches DeviceEvent::DownloadDone { result: Ok(_) }
        ),
{
}

/// A download failure ends the run at once with a download error; the
/// protocol asks for nothing further.
pub proof fn lemma_download_failure_aborts(path: DeviceFilePath, status: i32)
    ensures
        next_state(
            ProtocolState::AwaitingDownload { path },
            DeviceEvent::DownloadDone { result: Err(status) },
        ) == (ProtocolState::Done {
            outcome: CaptureOutcome::Failed {
                error: CaptureStepError::DownloadFailed { status },
            },
        }),
        spec_pending_request(
            next_state(
                ProtocolState::AwaitingDownload { path },
                DeviceEvent::DownloadDone { result: Err(status) },
            ),
        ) is None,
{
}

/// A failed on-device cleanup is non-fatal: once the download has succeeded,
/// the run ends as saved whatever the delete step reports.
pub proof fn lemma_cleanup_failure_non_fatal(path: DeviceFilePath, result: Result<(), i32>)
    ensures
        next_state(
            ProtocolState::AwaitingDelete { path },
            DeviceEvent::DeleteDone { result },
        ) == (ProtocolState::Done {
            outcome: CaptureOutcome::Saved { cleanup_ok: result is Ok },
        }),
{
}

/// Running the protocol step machine over a scripted session, answering each
/// pending request with the script's report for it, ends in the same outcome
/// that `capture_and_save` returns.
pub proof fn lemma_script_run_matches_protocol(script: DeviceScript)
    ensures
        ({
            let s1 = next_state(
                ProtocolState::AwaitingCapture,
                DeviceEvent::CaptureDone { result: script.capture },
            );
            let s2 = if s1 matches ProtocolState::AwaitingDownload { .. } {
                next_state(s1, DeviceEvent::DownloadDone { result: script.download })
            } else {
                s1
            };
            let s3 = if s2 matches ProtocolState::AwaitingDelete { .. } {
                next_state(s2, DeviceEvent::DeleteDone { result: script.delete })
            } else {
                s2
            };
            s3 == (ProtocolState::Done { outcome: capture_outcome_spec(script) })
        }),
{
}

/// Why no preview frame came back: the device had none to give, or the bytes
/// it gave could not be decoded.
#[derive(Clone, Copy, Debug, PartialEq, Eq, Structural)]
pub enum PreviewError {
    Unavailable { status: i32 },
    Decode { error: DecodeError },
}

/// The bytes a preview fetch yielded, as plain values.
pub open spec fn fetched_view(fetched: Result<Vec<u8>, i32>) -> Result<Seq<u8>, i32> {
    match fetched {
        Ok(bytes) => Ok(bytes@),
        Err(status) => Err(status),
    }
}

/// What `get_preview_image` returns for one preview fetch.
pub open spec fn preview_spec(fetched: Result<Seq<u8>, i32>) -> Result<
    (u32, u32, Seq<u8>),
    PreviewError,
> {
    match fetched {
        Err(status) => Err(PreviewError::Unavailable { status }),
        Ok(bytes) => match decode_spec(bytes) {
            Ok(t) => Ok(t),
            Err(e) => Err(PreviewError::Decode { error: e }),
        },
    }
}

/// The plain values carried by a preview result.
pub open spec fn preview_result_view(r: Result<RgbaImage, PreviewError>) -> Result<
    (u32, u32, Seq<u8>),
    PreviewError,
> {
    match r {
        Ok(img) => Ok((img.width, img.height, img.data@)),
        Err(e) => Err(e),
    }
}

/// Turns one preview fetch into a raw pixel buffer: a device report that no
/// frame was available is surfaced as `Unavailable` with the device's status
/// code, and the fetched bytes are decoded as one JPEG frame. Nothing is
/// retained between calls.
pub fn get_preview_image(fetched: Result<Vec<u8>, i32>) -> (r: Result<RgbaImage, PreviewError>)
    ensures
        preview_result_view(r) == preview_spec(fetched_view(fetched)),
        r matches Ok(img) ==> img.wf(),
{
    match fetched {
        Err(status) => Err(PreviewError::Unavailable { status }),
        Ok(bytes) => match decode_jpeg_slice(bytes.as_slice()) {
            Ok(img) => Ok(img),
            Err(e) => Err(PreviewError::Decode { error: e }),
        },
    }
}

} // verus!
