//! Typed access to the kernel's per-processor and graphics controls, without
//! doing any I/O: the caller performs each read or write on the pseudo-file
//! tree and hands in what it gave.
//!
//! - [`sysfs`] says where each control lives, [`pseudofs`] how values are
//!   written down, read, and failures classified.
//! - [`cpu`], [`cpufreq`], [`intel_pstate`], [`i915`] and [`drm`] look after
//!   one kind of control each; [`online`], [`freq`] and [`epb`] do the same
//!   in the kernel's own units, with a default for what is not there.
//! - [`cli`] holds a request and [`transaction`] carries it out, one
//!   operation at a time; [`tree`] says what that comes to on a tree of
//!   files.
//! - [`report`] fills the tables that are shown and [`table`] lays them out.
//! - [`text`], [`units`] and [`utils`] hold what the others share.

pub mod cli;
pub mod cpu;
pub mod cpufreq;
pub mod drm;
pub mod epb;
pub mod freq;
pub mod i915;
pub mod intel_pstate;
pub mod online;
pub mod pseudofs;
pub mod report;
pub mod sysfs;
pub mod table;
pub mod text;
pub mod transaction;
pub mod tree;
pub mod units;
pub mod utils;
