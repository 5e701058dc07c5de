//! Information about an operating system: its type, version and bitness, worked out from
//! release files, command output and system values.

pub mod aix;
pub mod android;
pub mod bitness;
mod capture;
pub mod emscripten;
pub mod family;
pub mod file_release;
pub mod freebsd;
pub mod hurd;
pub mod illumos;
pub mod info;
pub mod ios;
pub mod linux;
pub mod lsb_release;
pub mod macos;
pub mod matcher;
pub mod os_info;
pub mod os_type;
pub mod redox;
pub mod rhel_release;
pub mod text;
pub mod uname;
pub mod unknown;
pub mod version;
pub mod win32_version;
pub mod windows;
pub mod windows_ver;

pub use bitness::Bitness;
pub use family::Family;
pub use info::Info;
pub use os_type::Type;
pub use version::{Version, VersionType};
