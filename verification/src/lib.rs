//! Resolution core of an SSH shortcut manager.
//!
//! A declarative inventory maps environment names to machines (and,
//! optionally, forwarded resources).  The library turns an
//! `(environment, machine)` pair into the concrete argument list of an
//! `ssh`/`scp` invocation: a per-environment known-hosts override, an
//! optional jump-host option, and a destination string.  All lookups and
//! all argument assembly are verified; reading the inventory file,
//! reading process environment variables and launching the external
//! process are left to the (unverified) binary around the library.

pub mod decimal;
pub mod errors;
pub mod inventory;
pub mod plan;
pub mod strmap;
pub mod username;
