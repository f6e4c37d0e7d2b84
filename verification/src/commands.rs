//! The commands of the tool and the lifecycle that they drive.

pub mod install;
pub mod upgrade;
pub mod delete;
pub mod template;
pub mod test;
pub mod list;
pub mod cli;
