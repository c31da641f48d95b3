//! One module per command of the tool.

pub mod check;
pub mod deploy;
pub mod fork;
pub mod init;
pub mod run;
