//! The energy/performance bias of one processor, with the rule for a
//! control that is not there: take a default instead.
//!
//! The getter takes what reading the control's file gave; the setter gives
//! the write to perform.

use crate::pseudofs;
use crate::pseudofs::{
    deep, error_message, is_absence, u64_read, ErrorView, IoFailure, Put, PutView, Read, Write,
};
use crate::sysfs;
use crate::text::decimal;
use vstd::prelude::*;
use vstd::string::*;

verus! {

/// Why an operation of this module gave no value.
#[derive(Debug)]
pub enum Error {
    CpuxPseudofs(pseudofs::Error),
}

impl DeepView for Error {
    type V = ErrorView;

    open spec fn deep_view(&self) -> ErrorView {
        match self {
            Error::CpuxPseudofs(e) => e.deep_view(),
        }
    }
}

impl From<pseudofs::Error> for Error {
    fn from(e: pseudofs::Error) -> (r: Error) {
        Error::CpuxPseudofs(e)
    }
}

impl vstd::std_specs::convert::FromSpecImpl<pseudofs::Error> for Error {
    open spec fn obeys_from_spec() -> bool {
        true
    }

    open spec fn from_spec(e: pseudofs::Error) -> Error {
        Error::CpuxPseudofs(e)
    }
}

impl Error {
    /// The error in words, for a person to read.
    pub fn message(&self) -> (r: String)
        ensures
            r@ == error_message(self.deep_view()),
    {
        match self {
            Error::CpuxPseudofs(e) => e.message(),
        }
    }
}

fn lift<T>(result: Result<T, pseudofs::Error>) -> (r: Result<T, Error>)
    ensures
        match result {
            Ok(v) => r == Ok::<T, Error>(v),
            Err(e) => r == Err::<T, Error>(Error::CpuxPseudofs(e)),
        },
{
    match result {
        Ok(v) => Ok(v),
        Err(e) => Err(Error::CpuxPseudofs(e)),
    }
}

/// Puts `default` in the place of absence: of a missing file, or of a refusal
/// at a path where nothing exists. Every other error stays an error.
pub fn or<T>(result: Result<T, Error>, default: T) -> (r: Result<T, Error>)
    ensures
        match result {
            Ok(v) => r == Ok::<T, Error>(v),
            Err(e) => if is_absence(e.deep_view()) {
                r == Ok::<T, Error>(default)
            } else {
                r == Err::<T, Error>(e)
            },
        },
{
    match result {
        Ok(v) => Ok(v),
        Err(Error::CpuxPseudofs(e)) => if pseudofs::absent(&e) {
            Ok(default)
        } else {
            Err(Error::CpuxPseudofs(e))
        },
    }
}

/// Lets absence pass for a write that was done.
pub fn ok(result: Result<(), Error>) -> (r: Result<(), Error>)
    ensures
        match result {
            Ok(v) => r == Ok::<(), Error>(()),
            Err(e) => if is_absence(e.deep_view()) {
                r == Ok::<(), Error>(())
            } else {
                r == Err::<(), Error>(e)
            },
        },
{
    or(result, ())
}

/// The energy/performance bias hint, from what reading its file gave.
pub fn get(cpu_id: u64, raw: Result<String, IoFailure>) -> (r: Result<u64, Error>)
    ensures
        deep(r) == u64_read(sysfs::intel_pstate_epb_path(cpu_id), deep(raw)),
{
    let path = sysfs::intel_pstate_epb(cpu_id);
    lift(<u64 as Read>::read(path.as_str(), raw))
}

/// The write that sets the energy/performance bias hint.
pub fn set(cpu_id: u64, val: u64) -> (r: Put)
    ensures
        r.deep_view() == (PutView {
            path: sysfs::intel_pstate_epb_path(cpu_id),
            text: decimal(val as nat),
        }),
{
    let path = sysfs::intel_pstate_epb(cpu_id);
    val.write(path.as_str())
}

} // verus!
