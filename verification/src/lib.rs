//! Per-project development environments: a declarative list of required
//! software tools and environment variables is installed into a shared cache
//! and activated in the calling shell through printed `export` statements.

pub mod archive;
pub mod cfg;
pub mod cli;
pub mod environment;
pub mod error;
pub mod fs;
pub mod log;
pub mod memfs;
pub mod net;
pub mod run;
pub mod soft;
pub mod text;
pub mod var;
