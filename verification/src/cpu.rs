//! The processors: which are present, and whether one is online.
//!
//! A getter takes what reading the control's file gave; `try_set_online`
//! gives the write to perform, and `set_online` takes what that write gave.

use crate::pseudofs;
use crate::pseudofs::{
    bool_read, bool_text, classified, deep, handle_io_error, is_absence, probed, text_read,
    IoFailure, Put, PutView, Read, Write,
};
use crate::sysfs;
use crate::utils::{parse_indices, Indices};
use vstd::prelude::*;
use vstd::string::*;

verus! {

/// Why an operation of this module gave no value.
#[derive(Debug)]
pub enum Error {
    /// The file at the path holds the text, which is no list of indices.
    Parse(String, String),
    CpuxPseudofs(pseudofs::Error),
}

pub enum ErrorView {
    Parse(Seq<char>, Seq<char>),
    CpuxPseudofs(pseudofs::ErrorView),
}

impl DeepView for Error {
    type V = ErrorView;

    open spec fn deep_view(&self) -> ErrorView {
        match self {
            Error::Parse(p, t) => ErrorView::Parse(p@, t@),
            Error::CpuxPseudofs(e) => ErrorView::CpuxPseudofs(e.deep_view()),
        }
    }
}

impl From<pseudofs::Error> for Error {
    fn from(e: pseudofs::Error) -> (r: Error) {
        Error::CpuxPseudofs(e)
    }
}

impl vstd::std_specs::convert::FromSpecImpl<pseudofs::Error> for Error {
    open spec fn obeys_from_spec() -> bool {
        true
    }

    open spec fn from_spec(e: pseudofs::Error) -> Error {
        Error::CpuxPseudofs(e)
    }
}

/// The words of an error.
pub open spec fn error_message(e: ErrorView) -> Seq<char> {
    match e {
        ErrorView::Parse(p, t) => "Error parsing value `"@ + t + "` in file "@ + p,
        ErrorView::CpuxPseudofs(e) => pseudofs::error_message(e),
    }
}

impl Error {
    /// The error in words, for a person to read.
    pub fn message(&self) -> (r: String)
        ensures
            r@ == error_message(self.deep_view()),
    {
        match self {
            Error::Parse(p, t) => {
                let mut s = String::from_str("Error parsing value `");
                s.append(t.as_str());
                s.append("` in file ");
                s.append(p.as_str());
                s
            },
            Error::CpuxPseudofs(e) => e.message(),
        }
    }
}

/// A result of the typed access, as a result of this module.
pub open spec fn lifted<T>(r: Result<T, pseudofs::ErrorView>) -> Result<T, ErrorView> {
    match r {
        Ok(v) => Ok(v),
        Err(e) => Err(ErrorView::CpuxPseudofs(e)),
    }
}

fn lift<T>(result: Result<T, pseudofs::Error>) -> (r: Result<T, Error>)
    ensures
        match result {
            Ok(v) => r == Ok::<T, Error>(v),
            Err(e) => r == Err::<T, Error>(Error::CpuxPseudofs(e)),
        },
{
    match result {
        Ok(v) => Ok(v),
        Err(e) => Err(Error::CpuxPseudofs(e)),
    }
}

/// Turns absence into `None` and leaves every other error as it is.
fn allow_missing_files<T>(result: Result<T, Error>) -> (r: Result<Option<T>, Error>)
    ensures
        match result {
            Ok(v) => r == Ok::<Option<T>, Error>(Some(v)),
            Err(Error::CpuxPseudofs(e)) => if is_absence(e.deep_view()) {
                r == Ok::<Option<T>, Error>(None)
            } else {
                r == Err::<Option<T>, Error>(Error::CpuxPseudofs(e))
            },
            Err(e) => r == Err::<Option<T>, Error>(e),
        },
{
    match result {
        Ok(v) => Ok(Some(v)),
        Err(Error::CpuxPseudofs(e)) => lift(pseudofs::allow_missing_files(Err(e))),
        Err(e) => Err(e),
    }
}

/// The processors that the text of the topology file names.
pub open spec fn present_read(raw: Result<Seq<char>, pseudofs::IoFailureView>) -> Result<
    Seq<u64>,
    ErrorView,
> {
    match text_read(sysfs::cpu_present_path(), raw) {
        Err(e) => Err(ErrorView::CpuxPseudofs(e)),
        Ok(t) => match parse_indices(t) {
            Some(ids) => Ok(ids),
            None => Err(ErrorView::Parse(sysfs::cpu_present_path(), t)),
        },
    }
}

/// The indices of the processors that are present, from what reading the
/// topology file gave.
pub fn cpus(raw: Result<String, IoFailure>) -> (r: Result<Vec<u64>, Error>)
    ensures
        deep(r) == present_read(deep(raw)),
{
    let path = sysfs::cpu_present();
    let val = match <String as Read>::read(path.as_str(), raw) {
        Ok(v) => v,
        Err(e) => {
            return Err(Error::CpuxPseudofs(e));
        },
    };
    match Indices::parse(val.as_str()) {
        Ok(ids) => {
            let v = ids.to_vec();
            assert(v.deep_view() =~= v@);
            Ok(v)
        },
        Err(_) => Err(Error::Parse(path, val)),
    }
}

/// Whether the processor is online, from what reading its flag gave.
pub fn try_online(cpu_id: u64, raw: Result<String, IoFailure>) -> (r: Result<bool, Error>)
    ensures
        deep(r) == lifted(bool_read(sysfs::cpu_online_path(cpu_id), deep(raw))),
{
    let path = sysfs::cpu_online(cpu_id);
    lift(<bool as Read>::read(path.as_str(), raw))
}

/// Whether the processor is online, or `None` where it has no such flag.
pub fn online(cpu_id: u64, raw: Result<String, IoFailure>) -> (r: Result<Option<bool>, Error>)
    ensures
        deep(r) == lifted(probed(bool_read(sysfs::cpu_online_path(cpu_id), deep(raw)))),
{
    allow_missing_files(try_online(cpu_id, raw))
}

/// The write that takes the processor online or offline.
pub fn try_set_online(cpu_id: u64, val: bool) -> (r: Put)
    ensures
        r.deep_view() == (PutView { path: sysfs::cpu_online_path(cpu_id), text: bool_text(val) }),
{
    let path = sysfs::cpu_online(cpu_id);
    val.write(path.as_str())
}

/// What came of that write: `Some` if it was done, `None` where the processor
/// has no such flag.
pub fn set_online(cpu_id: u64, raw: Result<(), IoFailure>) -> (r: Result<Option<()>, Error>)
    ensures
        deep(r) == lifted(probed(classified(sysfs::cpu_online_path(cpu_id), deep(raw)))),
{
    let path = sysfs::cpu_online(cpu_id);
    allow_missing_files(lift(handle_io_error(path.as_str(), raw)))
}

} // verus!
