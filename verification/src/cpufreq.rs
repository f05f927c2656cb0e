//! Frequency scaling of one processor: the governor and the limits, which the
//! kernel counts in kilohertz.
//!
//! A getter takes what reading the control's file gave; a `try_set_` function
//! gives the write to perform, and the `set_` function beside it takes what
//! that write gave.

use crate::pseudofs;
use crate::pseudofs::{
    classified, deep, error_message, handle_io_error, hertz_read, hertz_text, is_absence,
    list_read, probed, text_read, ErrorView, IoFailure, Put, PutView, Read, Write,
};
use crate::sysfs;
use crate::units::{Hertz, HertzUnit};
use vstd::prelude::*;
use vstd::string::*;

verus! {

/// Why an operation of this module gave no value.
#[derive(Debug)]
pub enum Error {
    CpuxPseudofs(pseudofs::Error),
}

impl DeepView for Error {
    type V = ErrorView;

    open spec fn deep_view(&self) -> ErrorView {
        match self {
            Error::CpuxPseudofs(e) => e.deep_view(),
        }
    }
}

impl From<pseudofs::Error> for Error {
    fn from(e: pseudofs::Error) -> (r: Error) {
        Error::CpuxPseudofs(e)
    }
}

impl vstd::std_specs::convert::FromSpecImpl<pseudofs::Error> for Error {
    open spec fn obeys_from_spec() -> bool {
        true
    }

    open spec fn from_spec(e: pseudofs::Error) -> Error {
        Error::CpuxPseudofs(e)
    }
}

impl Error {
    /// The error in words, for a person to read.
    pub fn message(&self) -> (r: String)
        ensures
            r@ == error_message(self.deep_view()),
    {
        match self {
            Error::CpuxPseudofs(e) => e.message(),
        }
    }
}

fn lift<T>(result: Result<T, pseudofs::Error>) -> (r: Result<T, Error>)
    ensures
        match result {
            Ok(v) => r == Ok::<T, Error>(v),
            Err(e) => r == Err::<T, Error>(Error::CpuxPseudofs(e)),
        },
{
    match result {
        Ok(v) => Ok(v),
        Err(e) => Err(Error::CpuxPseudofs(e)),
    }
}

/// Turns absence into `None` and leaves every other error as it is.
fn allow_missing_files<T>(result: Result<T, Error>) -> (r: Result<Option<T>, Error>)
    ensures
        match result {
            Ok(v) => r == Ok::<Option<T>, Error>(Some(v)),
            Err(e) => if is_absence(e.deep_view()) {
                r == Ok::<Option<T>, Error>(None)
            } else {
                r == Err::<Option<T>, Error>(e)
            },
        },
{
    match result {
        Ok(v) => Ok(Some(v)),
        Err(Error::CpuxPseudofs(e)) => lift(pseudofs::allow_missing_files(Err(e))),
    }
}

/// The scaling governor, from what reading its file gave.
pub fn try_governor(cpu_id: u64, raw: Result<String, IoFailure>) -> (r: Result<String, Error>)
    ensures
        deep(r) == text_read(sysfs::cpufreq_governor_path(cpu_id), deep(raw)),
{
    let path = sysfs::cpufreq_governor(cpu_id);
    lift(<String as Read>::read(path.as_str(), raw))
}

/// The scaling governor, or `None` where the control is not there.
pub fn governor(cpu_id: u64, raw: Result<String, IoFailure>) -> (r: Result<Option<String>, Error>)
    ensures
        deep(r) == probed(text_read(sysfs::cpufreq_governor_path(cpu_id), deep(raw))),
{
    allow_missing_files(try_governor(cpu_id, raw))
}

/// The write that sets the scaling governor.
pub fn try_set_governor(cpu_id: u64, val: &str) -> (r: Put)
    ensures
        r.deep_view() == (PutView { path: sysfs::cpufreq_governor_path(cpu_id), text: val@ }),
{
    let path = sysfs::cpufreq_governor(cpu_id);
    val.write(path.as_str())
}

/// What came of that write: `Some` if it was done, `None` where the control is not there.
pub fn set_governor(cpu_id: u64, raw: Result<(), IoFailure>) -> (r: Result<Option<()>, Error>)
    ensures
        deep(r) == probed(classified(sysfs::cpufreq_governor_path(cpu_id), deep(raw))),
{
    let path = sysfs::cpufreq_governor(cpu_id);
    allow_missing_files(lift(handle_io_error(path.as_str(), raw)))
}

/// The governors that can be chosen, from what reading its file gave.
pub fn try_governors(cpu_id: u64, raw: Result<String, IoFailure>) -> (r: Result<Vec<String>, Error>)
    ensures
        deep(r) == list_read(sysfs::cpufreq_governors_path(cpu_id), deep(raw)),
{
    let path = sysfs::cpufreq_governors(cpu_id);
    lift(<Vec<String> as Read>::read(path.as_str(), raw))
}

/// The governors that can be chosen, or `None` where the control is not there.
pub fn governors(
    cpu_id: u64,
    raw: Result<String, IoFailure>,
) -> (r: Result<Option<Vec<String>>, Error>)
    ensures
        deep(r) == probed(list_read(sysfs::cpufreq_governors_path(cpu_id), deep(raw))),
{
    allow_missing_files(try_governors(cpu_id, raw))
}

/// The current frequency, from what reading its file gave.
pub fn try_cur(cpu_id: u64, raw: Result<String, IoFailure>) -> (r: Result<Hertz, Error>)
    ensures
        deep(r) == hertz_read(sysfs::cpufreq_cur_khz_path(cpu_id), deep(raw), HertzUnit::Khz),
{
    let path = sysfs::cpufreq_cur_khz(cpu_id);
    match <u64 as Read>::read(path.as_str(), raw) {
        Ok(khz) => Ok(Hertz::from_khz(khz)),
        Err(e) => Err(Error::CpuxPseudofs(e)),
    }
}

/// The current frequency, or `None` where the control is not there.
pub fn cur(cpu_id: u64, raw: Result<String, IoFailure>) -> (r: Result<Option<Hertz>, Error>)
    ensures
        deep(r) == probed(
            hertz_read(sysfs::cpufreq_cur_khz_path(cpu_id), deep(raw), HertzUnit::Khz),
        ),
{
    allow_missing_files(try_cur(cpu_id, raw))
}

/// The upper scaling limit, from what reading its file gave.
pub fn try_max(cpu_id: u64, raw: Result<String, IoFailure>) -> (r: Result<Hertz, Error>)
    ensures
        deep(r) == hertz_read(sysfs::cpufreq_max_khz_path(cpu_id), deep(raw), HertzUnit::Khz),
{
    let path = sysfs::cpufreq_max_khz(cpu_id);
    match <u64 as Read>::read(path.as_str(), raw) {
        Ok(khz) => Ok(Hertz::from_khz(khz)),
        Err(e) => Err(Error::CpuxPseudofs(e)),
    }
}

/// The upper scaling limit, or `None` where the control is not there.
pub fn max(cpu_id: u64, raw: Result<String, IoFailure>) -> (r: Result<Option<Hertz>, Error>)
    ensures
        deep(r) == probed(
            hertz_read(sysfs::cpufreq_max_khz_path(cpu_id), deep(raw), HertzUnit::Khz),
        ),
{
    allow_missing_files(try_max(cpu_id, raw))
}

/// The highest frequency of the hardware, from what reading its file gave.
pub fn try_max_limit(cpu_id: u64, raw: Result<String, IoFailure>) -> (r: Result<Hertz, Error>)
    ensures
        deep(r) == hertz_read(sysfs::cpufreq_max_khz_limit_path(cpu_id), deep(raw), HertzUnit::Khz),
{
    let path = sysfs::cpufreq_max_khz_limit(cpu_id);
    match <u64 as Read>::read(path.as_str(), raw) {
        Ok(khz) => Ok(Hertz::from_khz(khz)),
        Err(e) => Err(Error::CpuxPseudofs(e)),
    }
}

/// The highest frequency of the hardware, or `None` where the control is not there.
pub fn max_limit(cpu_id: u64, raw: Result<String, IoFailure>) -> (r: Result<Option<Hertz>, Error>)
    ensures
        deep(r) == probed(
            hertz_read(sysfs::cpufreq_max_khz_limit_path(cpu_id), deep(raw), HertzUnit::Khz),
        ),
{
    allow_missing_files(try_max_limit(cpu_id, raw))
}

/// The write that sets the upper scaling limit, in whole kilohertz.
pub fn try_set_max(cpu_id: u64, val: &Hertz) -> (r: Put)
    ensures
        r.deep_view() == (PutView {
            path: sysfs::cpufreq_max_khz_path(cpu_id),
            text: hertz_text(*val, HertzUnit::Khz),
        }),
{
    let path = sysfs::cpufreq_max_khz(cpu_id);
    val.khz().write(path.as_str())
}

/// What came of that write: `Some` if it was done, `None` where the control is not there.
pub fn set_max(cpu_id: u64, raw: Result<(), IoFailure>) -> (r: Result<Option<()>, Error>)
    ensures
        deep(r) == probed(classified(sysfs::cpufreq_max_khz_path(cpu_id), deep(raw))),
{
    let path = sysfs::cpufreq_max_khz(cpu_id);
    allow_missing_files(lift(handle_io_error(path.as_str(), raw)))
}

/// The lower scaling limit, from what reading its file gave.
pub fn try_min(cpu_id: u64, raw: Result<String, IoFailure>) -> (r: Result<Hertz, Error>)
    ensures
        deep(r) == hertz_read(sysfs::cpufreq_min_khz_path(cpu_id), deep(raw), HertzUnit::Khz),
{
    let path = sysfs::cpufreq_min_khz(cpu_id);
    match <u64 as Read>::read(path.as_str(), raw) {
        Ok(khz) => Ok(Hertz::from_khz(khz)),
        Err(e) => Err(Error::CpuxPseudofs(e)),
    }
}

/// The lower scaling limit, or `None` where the control is not there.
pub fn min(cpu_id: u64, raw: Result<String, IoFailure>) -> (r: Result<Option<Hertz>, Error>)
    ensures
        deep(r) == probed(
            hertz_read(sysfs::cpufreq_min_khz_path(cpu_id), deep(raw), HertzUnit::Khz),
        ),
{
    allow_missing_files(try_min(cpu_id, raw))
}

/// The lowest frequency of the hardware, from what reading its file gave.
pub fn try_min_limit(cpu_id: u64, raw: Result<String, IoFailure>) -> (r: Result<Hertz, Error>)
    ensures
        deep(r) == hertz_read(sysfs::cpufreq_min_khz_limit_path(cpu_id), deep(raw), HertzUnit::Khz),
{
    let path = sysfs::cpufreq_min_khz_limit(cpu_id);
    match <u64 as Read>::read(path.as_str(), raw) {
        Ok(khz) => Ok(Hertz::from_khz(khz)),
        Err(e) => Err(Error::CpuxPseudofs(e)),
    }
}

/// The lowest frequency of the hardware, or `None` where the control is not there.
pub fn min_limit(cpu_id: u64, raw: Result<String, IoFailure>) -> (r: Result<Option<Hertz>, Error>)
    ensures
        deep(r) == probed(
            hertz_read(sysfs::cpufreq_min_khz_limit_path(cpu_id), deep(raw), HertzUnit::Khz),
        ),
{
    allow_missing_files(try_min_limit(cpu_id, raw))
}

/// The write that sets the lower scaling limit, in whole kilohertz.
pub fn try_set_min(cpu_id: u64, val: &Hertz) -> (r: Put)
    ensures
        r.deep_view() == (PutView {
            path: sysfs::cpufreq_min_khz_path(cpu_id),
            text: hertz_text(*val, HertzUnit::Khz),
        }),
{
    let path = sysfs::cpufreq_min_khz(cpu_id);
    val.khz().write(path.as_str())
}

/// What came of that write: `Some` if it was done, `None` where the control is not there.
pub fn set_min(cpu_id: u64, raw: Result<(), IoFailure>) -> (r: Result<Option<()>, Error>)
    ensures
        deep(r) == probed(classified(sysfs::cpufreq_min_khz_path(cpu_id), deep(raw))),
{
    let path = sysfs::cpufreq_min_khz(cpu_id);
    allow_missing_files(lift(handle_io_error(path.as_str(), raw)))
}

} // verus!
