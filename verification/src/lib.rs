//! High level camera-control library with a verified core.
//!
//! The crate models a camera as a pair of session phases: a [`Camera`] may be
//! freely reconfigured, an [`AcquisitionBuffer`] is actively streaming and
//! exposes only the parameters that are safe to change live. Transitions
//! between the phases consume the source value, so calling a
//! configuration-only operation on a streaming session is a type error, not a
//! runtime check.
//!
//! The driver-visible state of the device — its parameter registers, the
//! reported grids and ranges, the single counter-selector register, whether
//! acquisition runs — is modelled explicitly by [`DeviceModel`], and every
//! operation carries a contract over that state. Fetched frames are
//! interpreted by [`Image`], a bounds-checked view of a strided pixel buffer
//! whose lifetime is tied to the session that produced it.

pub use self::camera::open_device;
pub use self::camera::open_device_manual_bandwidth;
pub use self::camera::AcquisitionBuffer;
pub use self::camera::Camera;
pub use self::device::DeviceModel;
pub use self::image::FrameHeader;
pub use self::image::Image;
pub use self::roi::Roi;

pub mod camera;
pub mod consts;
pub mod device;
pub mod image;
pub mod names;
pub mod params;
pub mod roi;
