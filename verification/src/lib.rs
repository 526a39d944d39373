//! Codec for the OCSD on-board sensor telemetry register layout: byte-exact
//! record types (system header, device header, sensor, aggregate device),
//! their checksums, and the addressing scheme that locates device slots
//! inside a shared memory buffer.

pub mod client;
pub mod data;
pub mod ocsd;
pub mod temperature;
pub mod wire;

pub use client::MappingError;
pub use client::OcsdContext;
pub use client::OcsdDeviceContext;
pub use ocsd::DeviceVersion;
pub use ocsd::MemoryMapped;
pub use ocsd::OcsdDevice;
pub use ocsd::OcsdDeviceHeader;
pub use ocsd::OcsdHeader;
pub use ocsd::OcsdSensor;
pub use ocsd::OcsdSensorLocation;
pub use ocsd::OcsdSensorStatus;
pub use ocsd::OcsdSensorType;
pub use ocsd::OcsdVersion;
pub use temperature::Celsius;
pub use temperature::TempOutOfRange;
