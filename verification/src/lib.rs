//! Reading and writing the system proxy of macOS.

pub mod dialogue;
pub mod error;
pub mod host;
pub mod laws;
pub mod native;
pub mod networksetup;
pub mod parse;
pub mod preferences;
pub mod property;
pub mod proxy;
pub mod read;
pub mod services;
pub mod system;
pub mod text;
pub mod write;

pub use error::{Error, WriteProgress};
pub use property::{Dictionary, PropertyValue};
pub use proxy::{Autoproxy, ProxyConfig, ProxyEndpoint, ProxySnapshot, ProxyType, Sysproxy};
pub use system::{Action, CommandOutput, NetworkService, Reply, Step, StoreValue, Task};
