//! Verified core of a webcam proxy for Linux: camera descriptions built from
//! udev properties, the set-up of a fixed `v4l2loopback` output device, the
//! negotiation of the capture format, and the frame-forwarding loop.

pub mod camera;
pub mod capabilities;
pub mod formats;
pub mod proxy;
pub mod text;
pub mod virtual_camera;

pub use camera::{Camera, CameraType};
pub use capabilities::CameraCapabilities;
