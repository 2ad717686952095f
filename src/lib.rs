//! Resolution of task-runner command names through a chain of `.feltrc.toml`
//! files found by walking from the working directory up to the filesystem root.

pub mod chain;
pub mod dispatch;
pub mod record;
pub mod resolve;
pub mod table;

pub use record::{FeltRc, FeltRcCommand, FeltRcCommandSection, FeltRcFeltSection, FeltRcToml, toml_to_feltrc};
pub use resolve::{get_all_commands, get_command, uses_node_modules};
pub use chain::ChainWalk;
pub use dispatch::{dispatch, login_shell_or_default, shell_line, Dispatch};
