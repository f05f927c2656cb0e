//! Typed values in pseudo-files: how each type is written down, how the text
//! of a file is read as a value, and how a failed operation is classified.
//!
//! Nothing here touches a file. The caller reads or writes and hands in what
//! came back: the text, or an [`IoFailure`].

use crate::text::{
    decimal, decimal_string, is_digit, parse_decimal, parse_u64, split, split_on, strip_newline,
    without_newline,
};
use crate::units::{scaled, whole, Hertz, HertzUnit};
use vstd::prelude::*;
use vstd::string::*;

verus! {

/// The kinds of failure that the classification tells apart.
#[derive(Clone, Copy, Debug, PartialEq, Eq, Structural)]
pub enum IoKind {
    /// No entry at the path.
    NotFound,
    /// The caller may not do this.
    PermissionDenied,
    /// Anything else.
    Other,
}

/// A failed read or write, as the caller saw it.
#[derive(Clone, Debug)]
pub struct IoFailure {
    pub kind: IoKind,
    /// The system's error number, where there is one.
    pub os_code: Option<i32>,
    /// Whether a look at the path, after the failure, found a file or a
    /// directory there.
    pub exists: bool,
    /// The system's message.
    pub detail: String,
}

pub struct IoFailureView {
    pub kind: IoKind,
    pub os_code: Option<i32>,
    pub exists: bool,
    pub detail: Seq<char>,
}

impl DeepView for IoFailure {
    type V = IoFailureView;

    open spec fn deep_view(&self) -> IoFailureView {
        IoFailureView {
            kind: self.kind,
            os_code: self.os_code,
            exists: self.exists,
            detail: self.detail@,
        }
    }
}

/// Why a typed read or write gave no value.
#[derive(Debug)]
pub enum Error {
    /// The operation failed for a reason that is neither of the next two.
    Io(String, IoFailure),
    /// The file is not there, or its device is gone or busy.
    NotFound(String, IoFailure),
    /// The operation was refused.
    NoPermission(String, IoFailure),
    /// The file at the path holds the text, which is not a boolean.
    ParseBool(String, String),
    /// The file at the path holds the text, which is not an unsigned number.
    ParseU64(String, String),
}

pub enum ErrorView {
    Io(Seq<char>, IoFailureView),
    NotFound(Seq<char>, IoFailureView),
    NoPermission(Seq<char>, IoFailureView),
    ParseBool(Seq<char>, Seq<char>),
    ParseU64(Seq<char>, Seq<char>),
}

impl DeepView for Error {
    type V = ErrorView;

    open spec fn deep_view(&self) -> ErrorView {
        match self {
            Error::Io(p, f) => ErrorView::Io(p@, f.deep_view()),
            Error::NotFound(p, f) => ErrorView::NotFound(p@, f.deep_view()),
            Error::NoPermission(p, f) => ErrorView::NoPermission(p@, f.deep_view()),
            Error::ParseBool(p, t) => ErrorView::ParseBool(p@, t@),
            Error::ParseU64(p, t) => ErrorView::ParseU64(p@, t@),
        }
    }
}

/// A result with both sides seen through their views.
pub open spec fn deep<T: DeepView, E: DeepView>(r: Result<T, E>) -> Result<T::V, E::V> {
    match r {
        Ok(v) => Ok(v.deep_view()),
        Err(e) => Err(e.deep_view()),
    }
}

/// The system's number for "no such device or address".
pub const ENXIO: i32 = 6;

/// The system's number for "device or resource busy".
pub const EBUSY: i32 = 16;

/// How failures are classified: whether a device that is gone or busy counts
/// as a file that is not there.
#[derive(Clone, Copy, Debug, PartialEq, Eq, Structural)]
pub struct Policy {
    pub device_errors_are_absence: bool,
}

/// The policy that the rest of the library goes by: a device that is gone or
/// busy counts as a file that is not there.
pub open spec fn usual_policy() -> Policy {
    Policy { device_errors_are_absence: true }
}

impl Default for Policy {
    fn default() -> (r: Policy)
        ensures
            r == usual_policy(),
    {
        Policy { device_errors_are_absence: true }
    }
}

/// The error that a failure at `path` becomes under a policy.
pub open spec fn classify_under(policy: Policy, path: Seq<char>, f: IoFailureView) -> ErrorView {
    match f.kind {
        IoKind::NotFound => ErrorView::NotFound(path, f),
        IoKind::PermissionDenied => ErrorView::NoPermission(path, f),
        IoKind::Other => if policy.device_errors_are_absence && (f.os_code == Some(ENXIO)
            || f.os_code == Some(EBUSY)) {
            ErrorView::NotFound(path, f)
        } else {
            ErrorView::Io(path, f)
        },
    }
}

/// The error that a failure at `path` becomes. A device that is gone or busy
/// counts as a file that is not there.
pub open spec fn classify(path: Seq<char>, f: IoFailureView) -> ErrorView {
    classify_under(usual_policy(), path, f)
}

/// What an operation at `path` gave, with its failure classified.
pub open spec fn classified<T>(path: Seq<char>, raw: Result<T, IoFailureView>) -> Result<
    T,
    ErrorView,
> {
    match raw {
        Ok(v) => Ok(v),
        Err(f) => Err(classify(path, f)),
    }
}

/// Whether the error says that the control is not there: the file is missing,
/// or the operation was refused at a path where nothing exists.
pub open spec fn is_absence(e: ErrorView) -> bool {
    match e {
        ErrorView::NotFound(_, _) => true,
        ErrorView::NoPermission(_, f) => !f.exists,
        _ => false,
    }
}

/// Whether a failure is how a file that does not exist shows: as not found,
/// as a device that is gone or busy, or as a refusal at a path where nothing
/// exists.
pub open spec fn says_absent(f: IoFailureView) -> bool {
    match f.kind {
        IoKind::NotFound => true,
        IoKind::PermissionDenied => !f.exists,
        IoKind::Other => f.os_code == Some(ENXIO) || f.os_code == Some(EBUSY),
    }
}

/// A result with absence turned into `None`.
pub open spec fn probed<T>(r: Result<T, ErrorView>) -> Result<Option<T>, ErrorView> {
    match r {
        Ok(v) => Ok(Some(v)),
        Err(e) => if is_absence(e) {
            Ok(None)
        } else {
            Err(e)
        },
    }
}

/// A result with absence turned into `default`.
pub open spec fn defaulted<T>(r: Result<T, ErrorView>, default: T) -> Result<T, ErrorView> {
    match r {
        Ok(v) => Ok(v),
        Err(e) => if is_absence(e) {
            Ok(default)
        } else {
            Err(e)
        },
    }
}

/// The text of a boolean: `0` or `1`.
pub open spec fn bool_text(b: bool) -> Seq<char> {
    if b {
        seq!['1']
    } else {
        seq!['0']
    }
}

/// The boolean that the file at `path` holds.
pub open spec fn bool_read(path: Seq<char>, raw: Result<Seq<char>, IoFailureView>) -> Result<
    bool,
    ErrorView,
> {
    match raw {
        Err(f) => Err(classify(path, f)),
        Ok(t) => {
            let v = strip_newline(t);
            if v == bool_text(false) {
                Ok(false)
            } else if v == bool_text(true) {
                Ok(true)
            } else {
                Err(ErrorView::ParseBool(path, v))
            }
        },
    }
}

/// The number that the file at `path` holds.
pub open spec fn u64_read(path: Seq<char>, raw: Result<Seq<char>, IoFailureView>) -> Result<
    u64,
    ErrorView,
> {
    match raw {
        Err(f) => Err(classify(path, f)),
        Ok(t) => {
            let v = strip_newline(t);
            match parse_decimal(v) {
                Some(n) => Ok(n),
                None => Err(ErrorView::ParseU64(path, v)),
            }
        },
    }
}

/// The string that the file at `path` holds.
pub open spec fn text_read(path: Seq<char>, raw: Result<Seq<char>, IoFailureView>) -> Result<
    Seq<char>,
    ErrorView,
> {
    match raw {
        Err(f) => Err(classify(path, f)),
        Ok(t) => Ok(strip_newline(t)),
    }
}

/// The list of strings that the file at `path` holds.
pub open spec fn list_read(path: Seq<char>, raw: Result<Seq<char>, IoFailureView>) -> Result<
    Seq<Seq<char>>,
    ErrorView,
> {
    match raw {
        Err(f) => Err(classify(path, f)),
        Ok(t) => Ok(split(strip_newline(t), ' ')),
    }
}

/// The frequency that the file at `path` holds as a number of `unit`.
pub open spec fn hertz_read(
    path: Seq<char>,
    raw: Result<Seq<char>, IoFailureView>,
    unit: HertzUnit,
) -> Result<Hertz, ErrorView> {
    match u64_read(path, raw) {
        Ok(n) => Ok(scaled(n, unit)),
        Err(e) => Err(e),
    }
}

/// The text of a frequency in a file that counts in `unit`: the whole units,
/// in decimal.
pub open spec fn hertz_text(hz: Hertz, unit: HertzUnit) -> Seq<char> {
    decimal(whole(hz, unit) as nat)
}

/// A write to perform: the text to put into the file at the path.
#[derive(Debug)]
pub struct Put {
    pub path: String,
    pub text: String,
}

pub struct PutView {
    pub path: Seq<char>,
    pub text: Seq<char>,
}

impl DeepView for Put {
    type V = PutView;

    open spec fn deep_view(&self) -> PutView {
        PutView { path: self.path@, text: self.text@ }
    }
}

impl IoFailure {
    /// A copy of this failure.
    pub fn duplicate(&self) -> (r: IoFailure)
        ensures
            r.deep_view() == self.deep_view(),
    {
        IoFailure {
            kind: self.kind,
            os_code: self.os_code,
            exists: self.exists,
            detail: self.detail.clone(),
        }
    }
}

impl Error {
    /// A copy of this error.
    pub fn duplicate(&self) -> (r: Error)
        ensures
            r.deep_view() == self.deep_view(),
    {
        match self {
            Error::Io(p, f) => Error::Io(p.clone(), f.duplicate()),
            Error::NotFound(p, f) => Error::NotFound(p.clone(), f.duplicate()),
            Error::NoPermission(p, f) => Error::NoPermission(p.clone(), f.duplicate()),
            Error::ParseBool(p, t) => Error::ParseBool(p.clone(), t.clone()),
            Error::ParseU64(p, t) => Error::ParseU64(p.clone(), t.clone()),
        }
    }

    /// The path of the file that the error is about.
    pub fn path(&self) -> (r: &str)
        ensures
            r@ == error_path(self.deep_view()),
    {
        match self {
            Error::Io(p, _) => p.as_str(),
            Error::NotFound(p, _) => p.as_str(),
            Error::NoPermission(p, _) => p.as_str(),
            Error::ParseBool(p, _) => p.as_str(),
            Error::ParseU64(p, _) => p.as_str(),
        }
    }

    /// The error in words, for a person to read.
    pub fn message(&self) -> (r: String)
        ensures
            r@ == error_message(self.deep_view()),
    {
        match self {
            Error::Io(p, f) | Error::NotFound(p, f) | Error::NoPermission(p, f) => {
                let mut s = p.clone();
                s.append(": ");
                s.append(f.detail.as_str());
                s
            },
            Error::ParseBool(p, t) => {
                let mut s = p.clone();
                s.append(": value could not be parsed as bool: `");
                s.append(t.as_str());
                s.append("`");
                s
            },
            Error::ParseU64(p, t) => {
                let mut s = p.clone();
                s.append(": value could not be parsed as u64: `");
                s.append(t.as_str());
                s
            },
        }
    }
}

/// The path that an error names.
pub open spec fn error_path(e: ErrorView) -> Seq<char> {
    match e {
        ErrorView::Io(p, _) => p,
        ErrorView::NotFound(p, _) => p,
        ErrorView::NoPermission(p, _) => p,
        ErrorView::ParseBool(p, _) => p,
        ErrorView::ParseU64(p, _) => p,
    }
}

/// The words of an error: the path, a colon, and what went wrong.
pub open spec fn error_message(e: ErrorView) -> Seq<char> {
    match e {
        ErrorView::Io(p, f) => p + ": "@ + f.detail,
        ErrorView::NotFound(p, f) => p + ": "@ + f.detail,
        ErrorView::NoPermission(p, f) => p + ": "@ + f.detail,
        ErrorView::ParseBool(p, t) => p + ": value could not be parsed as bool: `"@ + t + "`"@,
        ErrorView::ParseU64(p, t) => p + ": value could not be parsed as u64: `"@ + t,
    }
}

/// Classifies a failed operation on the file at `path` under a policy; a
/// success passes through.
pub fn handle_io_error_under<T>(policy: Policy, path: &str, result: Result<T, IoFailure>) -> (r:
    Result<T, Error>)
    ensures
        match result {
            Ok(v) => r == Ok::<T, Error>(v),
            Err(f) => r is Err && r->Err_0.deep_view() == classify_under(
                policy,
                path@,
                f.deep_view(),
            ),
        },
{
    match result {
        Ok(v) => Ok(v),
        Err(f) => {
            let p = String::from_str(path);
            match f.kind {
                IoKind::NotFound => Err(Error::NotFound(p, f)),
                IoKind::PermissionDenied => Err(Error::NoPermission(p, f)),
                IoKind::Other => match f.os_code {
                    Some(code) => if policy.device_errors_are_absence && (code == ENXIO || code
                        == EBUSY) {
                        Err(Error::NotFound(p, f))
                    } else {
                        Err(Error::Io(p, f))
                    },
                    None => Err(Error::Io(p, f)),
                },
            }
        },
    }
}

/// Classifies a failed operation on the file at `path`; a success passes
/// through. A device that is gone or busy counts as a file that is not
/// there.
pub fn handle_io_error<T>(path: &str, result: Result<T, IoFailure>) -> (r: Result<T, Error>)
    ensures
        match result {
            Ok(v) => r == Ok::<T, Error>(v),
            Err(f) => r is Err && r->Err_0.deep_view() == classify(path@, f.deep_view()),
        },
{
    handle_io_error_under(Policy::default(), path, result)
}

/// Whether the error says that the control is not there.
pub fn absent(err: &Error) -> (r: bool)
    ensures
        r == is_absence(err.deep_view()),
{
    match err {
        Error::NotFound(_, _) => true,
        Error::NoPermission(_, f) => !f.exists,
        _ => false,
    }
}

/// Turns absence into `None`: a missing file, or a refusal at a path where
/// nothing exists. Every other error stays an error.
pub fn allow_missing_files<T>(result: Result<T, Error>) -> (r: Result<Option<T>, Error>)
    ensures
        match result {
            Ok(v) => r == Ok::<Option<T>, Error>(Some(v)),
            Err(e) => if is_absence(e.deep_view()) {
                r == Ok::<Option<T>, Error>(None)
            } else {
                r == Err::<Option<T>, Error>(e)
            },
        },
{
    match result {
        Ok(v) => Ok(Some(v)),
        Err(e) => if absent(&e) {
            Ok(None)
        } else {
            Err(e)
        },
    }
}

/// What touching a control came to: a value, the finding that the control is
/// not there, or a failure.
#[derive(Debug)]
pub enum Availability<T, E> {
    /// The read gave this value, or the write was done.
    Present(T),
    /// The control does not exist on this machine.
    Absent,
    /// The operation failed though the control is there.
    Failed(E),
}

/// Sorts what an operation gave into the three outcomes. `Absent` is given
/// for absence alone: for a missing file, or a refusal at a path where
/// nothing exists.
pub fn probe<T>(result: Result<T, Error>) -> (r: Availability<T, Error>)
    ensures
        match result {
            Ok(v) => r == Availability::<T, Error>::Present(v),
            Err(e) => if is_absence(e.deep_view()) {
                r == Availability::<T, Error>::Absent
            } else {
                r == Availability::<T, Error>::Failed(e)
            },
        },
{
    match result {
        Ok(v) => Availability::Present(v),
        Err(e) => if absent(&e) {
            Availability::Absent
        } else {
            Availability::Failed(e)
        },
    }
}

impl<T, E> Availability<T, E> {
    /// The outcome of a getter or setter that gives `None` for a control
    /// that is not there.
    pub fn from_result(result: Result<Option<T>, E>) -> (r: Self)
        ensures
            match result {
                Ok(Some(v)) => r == Availability::<T, E>::Present(v),
                Ok(None) => r == Availability::<T, E>::Absent,
                Err(e) => r == Availability::<T, E>::Failed(e),
            },
    {
        match result {
            Ok(Some(v)) => Availability::Present(v),
            Ok(None) => Availability::Absent,
            Err(e) => Availability::Failed(e),
        }
    }

    /// The outcome as a result, with `None` for a control that is not there.
    pub fn into_result(self) -> (r: Result<Option<T>, E>)
        ensures
            match self {
                Availability::Present(v) => r == Ok::<Option<T>, E>(Some(v)),
                Availability::Absent => r == Ok::<Option<T>, E>(None),
                Availability::Failed(e) => r == Err::<Option<T>, E>(e),
            },
    {
        match self {
            Availability::Present(v) => Ok(Some(v)),
            Availability::Absent => Ok(None),
            Availability::Failed(e) => Err(e),
        }
    }
}

/// A type whose values can be read from the text of a pseudo-file.
pub trait Read {
    type Item;

    /// The value that the file at `path` holds, given what reading it gave.
    fn read(path: &str, raw: Result<String, IoFailure>) -> Result<Self::Item, Error>;
}

/// A type whose values can be written to a pseudo-file.
pub trait Write {
    type Item;

    /// The write that stores this value in the file at `path`.
    fn write(&self, path: &str) -> Put;
}

impl Read for bool {
    type Item = bool;

    fn read(path: &str, raw: Result<String, IoFailure>) -> (r: Result<bool, Error>)
        ensures
            deep(r) == bool_read(path@, deep(raw)),
    {
        let text = handle_io_error(path, raw)?;
        let val = without_newline(text.as_str());
        proof {
            reveal_strlit("0");
            reveal_strlit("1");
        }
        if val.unicode_len() == 1 && val.get_char(0) == '0' {
            assert(val@ =~= bool_text(false));
            Ok(false)
        } else if val.unicode_len() == 1 && val.get_char(0) == '1' {
            assert(val@ =~= bool_text(true));
            Ok(true)
        } else {
            Err(Error::ParseBool(String::from_str(path), String::from_str(val)))
        }
    }
}

impl Write for bool {
    type Item = bool;

    fn write(&self, path: &str) -> (r: Put)
        ensures
            r.deep_view() == (PutView { path: path@, text: bool_text(*self) }),
    {
        proof {
            reveal_strlit("0");
            reveal_strlit("1");
        }
        let text = if *self {
            "1"
        } else {
            "0"
        };
        assert(text@ =~= bool_text(*self));
        Put { path: String::from_str(path), text: String::from_str(text) }
    }
}

impl Read for u64 {
    type Item = u64;

    fn read(path: &str, raw: Result<String, IoFailure>) -> (r: Result<u64, Error>)
        ensures
            deep(r) == u64_read(path@, deep(raw)),
    {
        let text = handle_io_error(path, raw)?;
        let val = without_newline(text.as_str());
        match parse_u64(val) {
            Some(n) => Ok(n),
            None => Err(Error::ParseU64(String::from_str(path), String::from_str(val))),
        }
    }
}

impl Write for u64 {
    type Item = u64;

    fn write(&self, path: &str) -> (r: Put)
        ensures
            r.deep_view() == (PutView { path: path@, text: decimal(*self as nat) }),
    {
        Put { path: String::from_str(path), text: decimal_string(*self) }
    }
}

impl Read for String {
    type Item = String;

    fn read(path: &str, raw: Result<String, IoFailure>) -> (r: Result<String, Error>)
        ensures
            deep(r) == text_read(path@, deep(raw)),
    {
        let text = handle_io_error(path, raw)?;
        Ok(String::from_str(without_newline(text.as_str())))
    }
}

impl<'a> Write for &'a str {
    type Item = &'a str;

    fn write(&self, path: &str) -> (r: Put)
        ensures
            r.deep_view() == (PutView { path: path@, text: self@ }),
    {
        Put { path: String::from_str(path), text: String::from_str(*self) }
    }
}

impl Read for Vec<String> {
    type Item = Vec<String>;

    fn read(path: &str, raw: Result<String, IoFailure>) -> (r: Result<Vec<String>, Error>)
        ensures
            deep(r) == list_read(path@, deep(raw)),
    {
        let text = handle_io_error(path, raw)?;
        Ok(split_on(without_newline(text.as_str()), ' '))
    }
}

/// A control whose file does not exist is absent, never an error: whatever
/// type is read, and for a write too, the failure becomes `None`.
pub proof fn law_missing_file_is_absence(path: Seq<char>, f: IoFailureView, unit: HertzUnit)
    requires
        says_absent(f),
    ensures
        is_absence(classify(path, f)),
        probed(bool_read(path, Err(f))) == Ok::<Option<bool>, ErrorView>(None),
        probed(u64_read(path, Err(f))) == Ok::<Option<u64>, ErrorView>(None),
        probed(text_read(path, Err(f))) == Ok::<Option<Seq<char>>, ErrorView>(None),
        probed(list_read(path, Err(f))) == Ok::<Option<Seq<Seq<char>>>, ErrorView>(None),
        probed(hertz_read(path, Err(f), unit)) == Ok::<Option<Hertz>, ErrorView>(None),
        probed(classified::<()>(path, Err(f))) == Ok::<Option<()>, ErrorView>(None),
{
}

/// Absence is decided by the failure alone: a failure that does not say
/// "absent" stays an error at every path and for every type.
pub proof fn law_other_failures_stay_errors(path: Seq<char>, f: IoFailureView)
    requires
        !says_absent(f),
    ensures
        probed(bool_read(path, Err(f))) == Err::<Option<bool>, ErrorView>(classify(path, f)),
        probed(u64_read(path, Err(f))) == Err::<Option<u64>, ErrorView>(classify(path, f)),
        probed(text_read(path, Err(f))) == Err::<Option<Seq<char>>, ErrorView>(classify(path, f)),
        probed(classified::<()>(path, Err(f))) == Err::<Option<()>, ErrorView>(classify(path, f)),
{
}

/// What was written as a number reads back as that number, and what was
/// written as a boolean as that boolean, with or without a line feed after
/// it.
pub proof fn law_written_value_reads_back(path: Seq<char>, n: u64, b: bool)
    ensures
        u64_read(path, Ok(decimal(n as nat))) == Ok::<u64, ErrorView>(n),
        u64_read(path, Ok(decimal(n as nat).push('\n'))) == Ok::<u64, ErrorView>(n),
        bool_read(path, Ok(bool_text(b))) == Ok::<bool, ErrorView>(b),
        bool_read(path, Ok(bool_text(b).push('\n'))) == Ok::<bool, ErrorView>(b),
{
    crate::text::lemma_parse_decimal_of_decimal(n);
    crate::text::lemma_decimal_value(n as nat);
    let d = decimal(n as nat);
    assert(is_digit(d.last()));
    assert(strip_newline(d) == d);
    assert(d.push('\n').drop_last() =~= d);
    assert(bool_text(b).push('\n').drop_last() =~= bool_text(b));
    assert(bool_text(true)[0] != bool_text(false)[0]);
}

/// A frequency that was written in a unit reads back as the whole units of
/// it: as itself, where it is a whole number of them.
pub proof fn law_frequency_reads_back(path: Seq<char>, hz: Hertz, unit: HertzUnit)
    ensures
        hertz_read(path, Ok(hertz_text(hz, unit)), unit) == Ok::<Hertz, ErrorView>(
            scaled(whole(hz, unit), unit),
        ),
        scaled(whole(hz, unit), unit).0 <= hz.0,
        hz.0 % (crate::units::unit_multiple(unit) as u64) == 0 ==> hertz_read(
            path,
            Ok(hertz_text(hz, unit)),
            unit,
        ) == Ok::<Hertz, ErrorView>(hz),
{
    law_written_value_reads_back(path, whole(hz, unit), true);
    let m = crate::units::unit_multiple(unit) as int;
    let h = hz.0 as int;
    assert(h == m * (h / m) + h % m && 0 <= h % m < m && 0 <= (h / m) * m <= h)
        by (nonlinear_arith)
        requires
            m > 0,
            h >= 0,
    ;
}

} // verus!
