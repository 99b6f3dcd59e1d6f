//! Trust establishment and provisioning for USB-attached mobile devices.
//!
//! The library holds the decisions of the workflow: which device a request
//! resolves to, which host identity a new pairing is made under, whether a
//! stored trust record is reused, in which order the device's services are
//! driven, and what is delivered to the device. The transport itself (the
//! multiplexing daemon and the device's services) is driven by the caller,
//! who performs each action the library asks for and reports what came back.

pub mod error;
pub mod buid;
pub mod directory;
pub mod record;
pub mod names;
pub mod protocol;
pub mod negotiate;
pub mod upload;
pub mod developer_mode;
pub mod listing;
pub mod workflow;
pub mod folders;
