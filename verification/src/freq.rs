//! Frequency scaling of one processor in the kernel's own unit, the
//! kilohertz, with the rule for a control that is not there: take a default
//! instead.
//!
//! A getter takes what reading the control's file gave; a setter gives the
//! write to perform.

use crate::pseudofs;
use crate::pseudofs::{
    deep, error_message, is_absence, list_read, text_read, u64_read, ErrorView, IoFailure, Put,
    PutView, Read, Write,
};
use crate::sysfs;
use crate::text::decimal;
use vstd::prelude::*;
use vstd::string::*;

verus! {

/// Why an operation of this module gave no value.
#[derive(Debug)]
pub enum Error {
    CpuxPseudofs(pseudofs::Error),
}

impl DeepView for Error {
    type V = ErrorView;

    open spec fn deep_view(&self) -> ErrorView {
        match self {
            Error::CpuxPseudofs(e) => e.deep_view(),
        }
    }
}

impl From<pseudofs::Error> for Error {
    fn from(e: pseudofs::Error) -> (r: Error) {
        Error::CpuxPseudofs(e)
    }
}

impl vstd::std_specs::convert::FromSpecImpl<pseudofs::Error> for Error {
    open spec fn obeys_from_spec() -> bool {
        true
    }

    open spec fn from_spec(e: pseudofs::Error) -> Error {
        Error::CpuxPseudofs(e)
    }
}

impl Error {
    /// The error in words, for a person to read.
    pub fn message(&self) -> (r: String)
        ensures
            r@ == error_message(self.deep_view()),
    {
        match self {
            Error::CpuxPseudofs(e) => e.message(),
        }
    }
}

fn lift<T>(result: Result<T, pseudofs::Error>) -> (r: Result<T, Error>)
    ensures
        match result {
            Ok(v) => r == Ok::<T, Error>(v),
            Err(e) => r == Err::<T, Error>(Error::CpuxPseudofs(e)),
        },
{
    match result {
        Ok(v) => Ok(v),
        Err(e) => Err(Error::CpuxPseudofs(e)),
    }
}

/// Puts `default` in the place of absence: of a missing file, or of a refusal
/// at a path where nothing exists. Every other error stays an error.
pub fn or<T>(result: Result<T, Error>, default: T) -> (r: Result<T, Error>)
    ensures
        match result {
            Ok(v) => r == Ok::<T, Error>(v),
            Err(e) => if is_absence(e.deep_view()) {
                r == Ok::<T, Error>(default)
            } else {
                r == Err::<T, Error>(e)
            },
        },
{
    match result {
        Ok(v) => Ok(v),
        Err(Error::CpuxPseudofs(e)) => if pseudofs::absent(&e) {
            Ok(default)
        } else {
            Err(Error::CpuxPseudofs(e))
        },
    }
}

/// Lets absence pass for a write that was done.
pub fn ok(result: Result<(), Error>) -> (r: Result<(), Error>)
    ensures
        match result {
            Ok(v) => r == Ok::<(), Error>(()),
            Err(e) => if is_absence(e.deep_view()) {
                r == Ok::<(), Error>(())
            } else {
                r == Err::<(), Error>(e)
            },
        },
{
    or(result, ())
}

/// The energy/performance preference, from what reading its file gave.
pub fn ep_pref(cpu_id: u64, raw: Result<String, IoFailure>) -> (r: Result<String, Error>)
    ensures
        deep(r) == text_read(sysfs::intel_pstate_epp_path(cpu_id), deep(raw)),
{
    let path = sysfs::intel_pstate_epp(cpu_id);
    lift(<String as Read>::read(path.as_str(), raw))
}

/// The write that sets the energy/performance preference.
pub fn set_ep_pref(cpu_id: u64, val: &str) -> (r: Put)
    ensures
        r.deep_view() == (PutView { path: sysfs::intel_pstate_epp_path(cpu_id), text: val@ }),
{
    let path = sysfs::intel_pstate_epp(cpu_id);
    val.write(path.as_str())
}

/// The preferences that can be chosen, from what reading its file gave.
pub fn ep_prefs(cpu_id: u64, raw: Result<String, IoFailure>) -> (r: Result<Vec<String>, Error>)
    ensures
        deep(r) == list_read(sysfs::intel_pstate_epps_path(cpu_id), deep(raw)),
{
    let path = sysfs::intel_pstate_epps(cpu_id);
    lift(<Vec<String> as Read>::read(path.as_str(), raw))
}

/// The scaling governor, from what reading its file gave.
pub fn governor(cpu_id: u64, raw: Result<String, IoFailure>) -> (r: Result<String, Error>)
    ensures
        deep(r) == text_read(sysfs::cpufreq_governor_path(cpu_id), deep(raw)),
{
    let path = sysfs::cpufreq_governor(cpu_id);
    lift(<String as Read>::read(path.as_str(), raw))
}

/// The write that sets the scaling governor.
pub fn set_governor(cpu_id: u64, val: &str) -> (r: Put)
    ensures
        r.deep_view() == (PutView { path: sysfs::cpufreq_governor_path(cpu_id), text: val@ }),
{
    let path = sysfs::cpufreq_governor(cpu_id);
    val.write(path.as_str())
}

/// The governors that can be chosen, from what reading its file gave.
pub fn governors(cpu_id: u64, raw: Result<String, IoFailure>) -> (r: Result<Vec<String>, Error>)
    ensures
        deep(r) == list_read(sysfs::cpufreq_governors_path(cpu_id), deep(raw)),
{
    let path = sysfs::cpufreq_governors(cpu_id);
    lift(<Vec<String> as Read>::read(path.as_str(), raw))
}

/// The current frequency in kilohertz, from what reading its file gave.
pub fn cur_khz(cpu_id: u64, raw: Result<String, IoFailure>) -> (r: Result<u64, Error>)
    ensures
        deep(r) == u64_read(sysfs::cpufreq_cur_khz_path(cpu_id), deep(raw)),
{
    let path = sysfs::cpufreq_cur_khz(cpu_id);
    lift(<u64 as Read>::read(path.as_str(), raw))
}

/// The upper scaling limit in kilohertz, from what reading its file gave.
pub fn max_khz(cpu_id: u64, raw: Result<String, IoFailure>) -> (r: Result<u64, Error>)
    ensures
        deep(r) == u64_read(sysfs::cpufreq_max_khz_path(cpu_id), deep(raw)),
{
    let path = sysfs::cpufreq_max_khz(cpu_id);
    lift(<u64 as Read>::read(path.as_str(), raw))
}

/// The highest frequency of the hardware in kilohertz, from what reading its file gave.
pub fn max_khz_limit(cpu_id: u64, raw: Result<String, IoFailure>) -> (r: Result<u64, Error>)
    ensures
        deep(r) == u64_read(sysfs::cpufreq_max_khz_limit_path(cpu_id), deep(raw)),
{
    let path = sysfs::cpufreq_max_khz_limit(cpu_id);
    lift(<u64 as Read>::read(path.as_str(), raw))
}

/// The write that sets the upper scaling limit, in kilohertz.
pub fn set_max_khz(cpu_id: u64, val: u64) -> (r: Put)
    ensures
        r.deep_view() == (PutView {
            path: sysfs::cpufreq_max_khz_path(cpu_id),
            text: decimal(val as nat),
        }),
{
    let path = sysfs::cpufreq_max_khz(cpu_id);
    val.write(path.as_str())
}

/// The lower scaling limit in kilohertz, from what reading its file gave.
pub fn min_khz(cpu_id: u64, raw: Result<String, IoFailure>) -> (r: Result<u64, Error>)
    ensures
        deep(r) == u64_read(sysfs::cpufreq_min_khz_path(cpu_id), deep(raw)),
{
    let path = sysfs::cpufreq_min_khz(cpu_id);
    lift(<u64 as Read>::read(path.as_str(), raw))
}

/// The lowest frequency of the hardware in kilohertz, from what reading its file gave.
pub fn min_khz_limit(cpu_id: u64, raw: Result<String, IoFailure>) -> (r: Result<u64, Error>)
    ensures
        deep(r) == u64_read(sysfs::cpufreq_min_khz_limit_path(cpu_id), deep(raw)),
{
    let path = sysfs::cpufreq_min_khz_limit(cpu_id);
    lift(<u64 as Read>::read(path.as_str(), raw))
}

/// The write that sets the lower scaling limit, in kilohertz.
pub fn set_min_khz(cpu_id: u64, val: u64) -> (r: Put)
    ensures
        r.deep_view() == (PutView {
            path: sysfs::cpufreq_min_khz_path(cpu_id),
            text: decimal(val as nat),
        }),
{
    let path = sysfs::cpufreq_min_khz(cpu_id);
    val.write(path.as_str())
}

/// A limit that was set reads back as it was set, from a file that holds
/// what was written to it.
pub proof fn law_limit_reads_back(cpu_id: u64, khz: u64)
    ensures
        u64_read(sysfs::cpufreq_max_khz_path(cpu_id), Ok(decimal(khz as nat))) == Ok::<
            u64,
            ErrorView,
        >(khz),
        u64_read(sysfs::cpufreq_min_khz_path(cpu_id), Ok(decimal(khz as nat))) == Ok::<
            u64,
            ErrorView,
        >(khz),
{
    pseudofs::law_written_value_reads_back(sysfs::cpufreq_max_khz_path(cpu_id), khz, true);
    pseudofs::law_written_value_reads_back(sysfs::cpufreq_min_khz_path(cpu_id), khz, true);
}

} // verus!
