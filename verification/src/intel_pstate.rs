//! The Intel P-state driver: the energy/performance bias and preference of
//! one processor, and the driver's mode.
//!
//! A getter takes what reading the control's file gave; a `try_set_` function
//! gives the write to perform, and the `set_` function beside it takes what
//! that write gave.

use crate::pseudofs;
use crate::pseudofs::{
    classified, deep, error_message, handle_io_error, is_absence, list_read, probed, text_read,
    u64_read, ErrorView, IoFailure, Put, PutView, Read, Write,
};
use crate::sysfs;
use crate::text::decimal;
use vstd::prelude::*;
use vstd::string::*;

verus! {

/// Why an operation of this module gave no value.
#[derive(Debug)]
pub enum Error {
    CpuxPseudofs(pseudofs::Error),
}

impl DeepView for Error {
    type V = ErrorView;

    open spec fn deep_view(&self) -> ErrorView {
        match self {
            Error::CpuxPseudofs(e) => e.deep_view(),
        }
    }
}

impl From<pseudofs::Error> for Error {
    fn from(e: pseudofs::Error) -> (r: Error) {
        Error::CpuxPseudofs(e)
    }
}

impl vstd::std_specs::convert::FromSpecImpl<pseudofs::Error> for Error {
    open spec fn obeys_from_spec() -> bool {
        true
    }

    open spec fn from_spec(e: pseudofs::Error) -> Error {
        Error::CpuxPseudofs(e)
    }
}

impl Error {
    /// The error in words, for a person to read.
    pub fn message(&self) -> (r: String)
        ensures
            r@ == error_message(self.deep_view()),
    {
        match self {
            Error::CpuxPseudofs(e) => e.message(),
        }
    }
}

fn lift<T>(result: Result<T, pseudofs::Error>) -> (r: Result<T, Error>)
    ensures
        match result {
            Ok(v) => r == Ok::<T, Error>(v),
            Err(e) => r == Err::<T, Error>(Error::CpuxPseudofs(e)),
        },
{
    match result {
        Ok(v) => Ok(v),
        Err(e) => Err(Error::CpuxPseudofs(e)),
    }
}

/// Turns absence into `None` and leaves every other error as it is.
fn allow_missing_files<T>(result: Result<T, Error>) -> (r: Result<Option<T>, Error>)
    ensures
        match result {
            Ok(v) => r == Ok::<Option<T>, Error>(Some(v)),
            Err(e) => if is_absence(e.deep_view()) {
                r == Ok::<Option<T>, Error>(None)
            } else {
                r == Err::<Option<T>, Error>(e)
            },
        },
{
    match result {
        Ok(v) => Ok(Some(v)),
        Err(Error::CpuxPseudofs(e)) => lift(pseudofs::allow_missing_files(Err(e))),
    }
}

/// The energy/performance bias hint, from what reading its file gave.
pub fn try_epb(cpu_id: u64, raw: Result<String, IoFailure>) -> (r: Result<u64, Error>)
    ensures
        deep(r) == u64_read(sysfs::intel_pstate_epb_path(cpu_id), deep(raw)),
{
    let path = sysfs::intel_pstate_epb(cpu_id);
    lift(<u64 as Read>::read(path.as_str(), raw))
}

/// The energy/performance bias hint, or `None` where the control is not there.
pub fn epb(cpu_id: u64, raw: Result<String, IoFailure>) -> (r: Result<Option<u64>, Error>)
    ensures
        deep(r) == probed(u64_read(sysfs::intel_pstate_epb_path(cpu_id), deep(raw))),
{
    allow_missing_files(try_epb(cpu_id, raw))
}

/// The write that sets the energy/performance bias hint.
pub fn try_set_epb(cpu_id: u64, val: u64) -> (r: Put)
    ensures
        r.deep_view() == (PutView {
            path: sysfs::intel_pstate_epb_path(cpu_id),
            text: decimal(val as nat),
        }),
{
    let path = sysfs::intel_pstate_epb(cpu_id);
    val.write(path.as_str())
}

/// What came of that write: `Some` if it was done, `None` where the control is not there.
pub fn set_epb(cpu_id: u64, raw: Result<(), IoFailure>) -> (r: Result<Option<()>, Error>)
    ensures
        deep(r) == probed(classified(sysfs::intel_pstate_epb_path(cpu_id), deep(raw))),
{
    let path = sysfs::intel_pstate_epb(cpu_id);
    allow_missing_files(lift(handle_io_error(path.as_str(), raw)))
}

/// The energy/performance preference, from what reading its file gave.
pub fn try_epp(cpu_id: u64, raw: Result<String, IoFailure>) -> (r: Result<String, Error>)
    ensures
        deep(r) == text_read(sysfs::intel_pstate_epp_path(cpu_id), deep(raw)),
{
    let path = sysfs::intel_pstate_epp(cpu_id);
    lift(<String as Read>::read(path.as_str(), raw))
}

/// The energy/performance preference, or `None` where the control is not there.
pub fn epp(cpu_id: u64, raw: Result<String, IoFailure>) -> (r: Result<Option<String>, Error>)
    ensures
        deep(r) == probed(text_read(sysfs::intel_pstate_epp_path(cpu_id), deep(raw))),
{
    allow_missing_files(try_epp(cpu_id, raw))
}

/// The write that sets the energy/performance preference.
pub fn try_set_epp(cpu_id: u64, val: &str) -> (r: Put)
    ensures
        r.deep_view() == (PutView { path: sysfs::intel_pstate_epp_path(cpu_id), text: val@ }),
{
    let path = sysfs::intel_pstate_epp(cpu_id);
    val.write(path.as_str())
}

/// What came of that write: `Some` if it was done, `None` where the control is not there.
pub fn set_epp(cpu_id: u64, raw: Result<(), IoFailure>) -> (r: Result<Option<()>, Error>)
    ensures
        deep(r) == probed(classified(sysfs::intel_pstate_epp_path(cpu_id), deep(raw))),
{
    let path = sysfs::intel_pstate_epp(cpu_id);
    allow_missing_files(lift(handle_io_error(path.as_str(), raw)))
}

/// The preferences that can be chosen, from what reading its file gave.
pub fn try_epps(cpu_id: u64, raw: Result<String, IoFailure>) -> (r: Result<Vec<String>, Error>)
    ensures
        deep(r) == list_read(sysfs::intel_pstate_epps_path(cpu_id), deep(raw)),
{
    let path = sysfs::intel_pstate_epps(cpu_id);
    lift(<Vec<String> as Read>::read(path.as_str(), raw))
}

/// The preferences that can be chosen, or `None` where the control is not there.
pub fn epps(cpu_id: u64, raw: Result<String, IoFailure>) -> (r: Result<Option<Vec<String>>, Error>)
    ensures
        deep(r) == probed(list_read(sysfs::intel_pstate_epps_path(cpu_id), deep(raw))),
{
    allow_missing_files(try_epps(cpu_id, raw))
}

/// The driver's mode, from what reading its file gave.
pub fn try_status(raw: Result<String, IoFailure>) -> (r: Result<String, Error>)
    ensures
        deep(r) == text_read(sysfs::intel_pstate_status_path(), deep(raw)),
{
    let path = sysfs::intel_pstate_status();
    lift(<String as Read>::read(path.as_str(), raw))
}

/// The driver's mode, or `None` where the control is not there.
pub fn status(raw: Result<String, IoFailure>) -> (r: Result<Option<String>, Error>)
    ensures
        deep(r) == probed(text_read(sysfs::intel_pstate_status_path(), deep(raw))),
{
    allow_missing_files(try_status(raw))
}

/// The write that sets the driver's mode.
pub fn try_set_status(val: &str) -> (r: Put)
    ensures
        r.deep_view() == (PutView { path: sysfs::intel_pstate_status_path(), text: val@ }),
{
    let path = sysfs::intel_pstate_status();
    val.write(path.as_str())
}

/// What came of that write: `Some` if it was done, `None` where the control is not there.
pub fn set_status(raw: Result<(), IoFailure>) -> (r: Result<Option<()>, Error>)
    ensures
        deep(r) == probed(classified(sysfs::intel_pstate_status_path(), deep(raw))),
{
    let path = sysfs::intel_pstate_status();
    allow_missing_files(lift(handle_io_error(path.as_str(), raw)))
}

} // verus!
