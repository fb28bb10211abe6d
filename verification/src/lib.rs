//! Building blocks of `vx`, a small convenience wrapper for the XBPS package
//! manager: the command-line model, the choice of a privilege-elevation
//! command, the command lines handed to the XBPS tools, and the parsing of
//! their output.

pub mod cli;
mod host;
pub mod text;

pub mod xbps;
pub mod laws;
