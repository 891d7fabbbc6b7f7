//! SysWatch: the decision and rendering core of a remote system-monitoring
//! server. A client authenticates with a token, then sends command lines;
//! the server answers with reports on the machine (host, CPU, memory,
//! partitions, interfaces, busiest processes, uptime) or carries out
//! control commands (shutdown, reboot, lock, kill, shell commands, package
//! installation, downloads).
//!
//! The modules:
//! - `text`: decimal rendering, padding, trimming, ASCII case, UTF-8 offsets;
//! - `number`: parsing of unsigned 32-bit numbers;
//! - `uptime`: rendering of an uptime;
//! - `timestamp`: rendering of a local date and time;
//! - `report`: the snapshot model and its rendering;
//! - `collect`: assembly of a snapshot from raw readings;
//! - `command`: the command language;
//! - `response`: the answer to each command;
//! - `effect`: the outside work each command asks for;
//! - `session`: the client session protocol;
//! - `refresh`: the periodic refresh of the snapshot.

pub mod text;
pub mod number;
pub mod uptime;
pub mod timestamp;
pub mod report;
pub mod collect;
pub mod command;
pub mod response;
pub mod effect;
pub mod session;
pub mod refresh;

pub use uptime::format_uptime;
pub use command::{Command, parse_command};
pub use response::{answer, format_response, reply, serve_line};
pub use report::{CpuInfo, DiskInfo, Gauge, HostInfo, MemInfo, NetworkInfo, ProcessInfo, SystemSnapshot};
pub use collect::{SysWatchError, build_snapshot, top_processes};
pub use session::{Output, Phase, Session, Turn};
pub use refresh::{REFRESH_SECS, Refresh, refresh_step};
