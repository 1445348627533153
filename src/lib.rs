//! Host facts for a kiosk desktop shell: a greeting that checks the call
//! boundary, the hardware profile, the taskbar clock and the mounted drives.
//!
//! Every operation is a read-only snapshot. The records are assembled by
//! verified code from the plain values that the host queries hand back.

pub mod clock;
pub mod drives;
pub mod greeting;
pub mod hardware;

pub use clock::{get_datetime, date_time_info, DateTimeInfo, LocalInstant};
pub use drives::{drives_of, list_drives, DriveInfo};
pub use greeting::greet;
pub use hardware::{get_hardware_profile, hardware_profile_from, trim_nul_chars, HardwareProfile};
