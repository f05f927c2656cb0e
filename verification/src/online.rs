//! The online flag of one processor, with the rule for a flag that is not
//! there: take a default instead.

use crate::pseudofs;
use crate::pseudofs::{
    bool_read, bool_text, deep, defaulted, error_message, is_absence, ErrorView, IoFailure,
    IoFailureView, Put, PutView, Read, Write,
};
use crate::sysfs;
use vstd::prelude::*;
use vstd::string::*;

verus! {

/// Why an operation of this module gave no value.
#[derive(Debug)]
pub enum Error {
    CpuxPseudofs(pseudofs::Error),
}

impl DeepView for Error {
    type V = ErrorView;

    open spec fn deep_view(&self) -> ErrorView {
        match self {
            Error::CpuxPseudofs(e) => e.deep_view(),
        }
    }
}

impl From<pseudofs::Error> for Error {
    fn from(e: pseudofs::Error) -> (r: Error) {
        Error::CpuxPseudofs(e)
    }
}

impl vstd::std_specs::convert::FromSpecImpl<pseudofs::Error> for Error {
    open spec fn obeys_from_spec() -> bool {
        true
    }

    open spec fn from_spec(e: pseudofs::Error) -> Error {
        Error::CpuxPseudofs(e)
    }
}

impl Error {
    /// The error in words, for a person to read.
    pub fn message(&self) -> (r: String)
        ensures
            r@ == error_message(self.deep_view()),
    {
        match self {
            Error::CpuxPseudofs(e) => e.message(),
        }
    }
}

/// Puts `default` in the place of absence: of a missing file, or of a refusal
/// at a path where nothing exists. Every other error stays an error.
pub fn or<T>(result: Result<T, Error>, default: T) -> (r: Result<T, Error>)
    ensures
        match result {
            Ok(v) => r == Ok::<T, Error>(v),
            Err(e) => if is_absence(e.deep_view()) {
                r == Ok::<T, Error>(default)
            } else {
                r == Err::<T, Error>(e)
            },
        },
{
    match result {
        Ok(v) => Ok(v),
        Err(Error::CpuxPseudofs(e)) => if pseudofs::absent(&e) {
            Ok(default)
        } else {
            Err(Error::CpuxPseudofs(e))
        },
    }
}

/// Lets absence pass for a write that was done.
pub fn ok(result: Result<(), Error>) -> (r: Result<(), Error>)
    ensures
        match result {
            Ok(v) => r == Ok::<(), Error>(()),
            Err(e) => if is_absence(e.deep_view()) {
                r == Ok::<(), Error>(())
            } else {
                r == Err::<(), Error>(e)
            },
        },
{
    or(result, ())
}

/// Whether the processor is online, from what reading its flag gave.
pub fn get(cpu_id: u64, raw: Result<String, IoFailure>) -> (r: Result<bool, Error>)
    ensures
        deep(r) == bool_read(sysfs::cpu_online_path(cpu_id), deep(raw)),
{
    let path = sysfs::cpu_online(cpu_id);
    match <bool as Read>::read(path.as_str(), raw) {
        Ok(v) => Ok(v),
        Err(e) => Err(Error::CpuxPseudofs(e)),
    }
}

/// The write that takes the processor online or offline.
pub fn set(cpu_id: u64, val: bool) -> (r: Put)
    ensures
        r.deep_view() == (PutView { path: sysfs::cpu_online_path(cpu_id), text: bool_text(val) }),
{
    let path = sysfs::cpu_online(cpu_id);
    val.write(path.as_str())
}

/// A processor whose online flag is not there counts as online: reading the
/// flag with `true` for a default gives `true` whenever the read fails as
/// absence does.
pub proof fn law_absent_flag_reads_as_online(cpu_id: u64, f: IoFailureView)
    requires
        pseudofs::says_absent(f),
    ensures
        defaulted(bool_read(sysfs::cpu_online_path(cpu_id), Err(f)), true) == Ok::<
            bool,
            ErrorView,
        >(true),
{
}

} // verus!
