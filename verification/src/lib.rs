//! Resolution of the download and package-source settings of the desktop
//! shell: npm registry, GitHub relay prefix, and the persisted settings record.

pub mod accel;
pub mod constants;
pub mod external;
pub mod laws;
pub mod region;
pub mod setting;
pub mod text;
