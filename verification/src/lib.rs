mod capture;
mod jpeg;
mod pixels;
mod scene;

pub use capture::CaptureOutcome;
pub use capture::CaptureStepError;
pub use capture::DeviceEvent;
pub use capture::DeviceFilePath;
pub use capture::DeviceRequest;
pub use capture::DeviceScript;
pub use capture::PreviewError;
pub use capture::ProtocolState;
pub use capture::capture_and_save;
pub use capture::get_preview_image;
pub use capture::pending_request;
pub use capture::protocol_step;
pub use jpeg::DecodeError;
pub use jpeg::decode_jpeg_slice;
pub use jpeg::parse_header_dims;
pub use pixels::RgbaImage;
pub use scene::CaptureScene;
pub use scene::CountdownScene;
pub use scene::FrameRequest;
pub use scene::IdleScene;
pub use scene::InputEvent;
pub use scene::PreviewScene;
pub use scene::Scene;
pub use scene::SceneStack;
pub use scene::SceneSwitch;
pub use scene::SharedState;
pub use scene::COUNTDOWN_TICKS;
