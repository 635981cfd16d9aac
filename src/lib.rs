//! A battery monitor: a small state machine, fed once per tick with the
//! battery's charge and status, that decides when to announce charging,
//! discharging, full, low and critical.

pub mod battery;
pub mod config;
pub mod error;
pub mod fsm;
pub mod laws;
pub mod monitor;
pub mod text;

pub use battery::{create_fsm, BatteryFsm, Data, State};
pub use config::{Config, Notification, NotificationConfig, Urgency, UserConfig};
pub use error::Error;
pub use fsm::{Fsm, FsmKey, FsmState};
pub use monitor::{parse_attribute, parse_status, Bato};
