//! The verified core of MeatShell, a terminal for remote hosts.
//!
//! [`host_keys`] decides whether the key of an SSH server is trusted; [`rdp`] runs the tunnel of an
//! RDP session, with [`rdp_file`] for its `.rdp` file and [`launcher`] for the platform's client.
//! Neither touches the system: each is told what happened and says what to do next.
//! [`host_keys_laws`] and [`rdp_laws`] state what holds of whole checks and whole sessions.

pub mod host_keys;
pub mod host_keys_laws;
pub mod i18n;
pub mod keys;
pub mod launcher;
pub mod rdp;
pub mod rdp_file;
pub mod rdp_laws;
pub mod session;
pub mod text;
