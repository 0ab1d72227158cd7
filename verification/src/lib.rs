//! USB / USB-C / USB Power Delivery diagnostics for Linux: the data model of
//! USB devices, Type-C ports, PD ports and cables, the decoders of their
//! descriptors, and the summaries and diagnostics built from them.

pub mod text;
pub mod fixed;
pub mod fs_path;
pub mod pd;
pub mod bos;
pub mod power;
pub mod typec;
pub mod vendor;
pub mod usbclass;
pub mod thunderbolt;
pub mod cable;
pub mod diagnostic;
pub mod usb;
pub mod classify;
pub mod version;
pub mod summary;
pub mod manager;
pub mod dbus;
pub mod render;
pub mod sysfs;
pub mod watch;
pub mod topology;
pub mod json;
pub mod theorems;

pub use cable::CableInfo;
pub use diagnostic::{Bottleneck, ChargingDiagnostic};
pub use power::{PdoType, PowerDataObject, PowerDeliveryPort};
pub use summary::{Category, DeviceSummary, Status};
pub use typec::{TypeCCable, TypeCIdentity, TypeCPartner, TypeCPort, TypeCPowerSupply};
pub use usb::{LinkSpeed, UsbDevice, UsbInterface};
pub use manager::{build_summaries, DeviceManager, Snapshot, SnapshotDiff, Sysfs};
