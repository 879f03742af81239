//! Core logic of a canary daemon: it seeds decoy files in chosen folders,
//! watches them, and answers any access with an escalating response.
//!
//! The library decides and computes; it touches neither disk nor network. A
//! driver does that work and reports back, one step at a time:
//! [`registration`] for a folder, [`response`] for a detection, [`daemon`] for
//! the start of the whole. [`encryption`] and [`folders`] read and write the
//! encrypted list of folders, [`canary`] draws the decoy files, and
//! [`settings`], [`logger`] and [`tool`] hold what their names say.

pub mod canary;
pub mod daemon;
pub mod encryption;
pub mod folders;
pub mod logger;
pub mod registration;
pub mod response;
pub mod settings;
pub mod text;
pub mod tool;
