//! The Intel graphics cards: which there are, and their frequencies, which
//! the kernel counts in megahertz.
//!
//! A getter takes what reading the control's file gave; a `try_set_` function
//! gives the write to perform, and the `set_` function beside it takes what
//! that write gave.

use crate::drm;
use crate::pseudofs;
use crate::pseudofs::{
    classified, deep, handle_io_error, hertz_read, hertz_text, is_absence, probed, IoFailure,
    Put, PutView, Read, Write,
};
use crate::sysfs;
use crate::units::{Hertz, HertzUnit};
use vstd::prelude::*;
use vstd::string::*;

verus! {

/// Why an operation of this module gave no value.
#[derive(Debug)]
pub enum Error {
    CpuxDrm(drm::Error),
    CpuxPseudofs(pseudofs::Error),
}

pub enum ErrorView {
    CpuxDrm(drm::ErrorView),
    CpuxPseudofs(pseudofs::ErrorView),
}

impl DeepView for Error {
    type V = ErrorView;

    open spec fn deep_view(&self) -> ErrorView {
        match self {
            Error::CpuxDrm(e) => ErrorView::CpuxDrm(e.deep_view()),
            Error::CpuxPseudofs(e) => ErrorView::CpuxPseudofs(e.deep_view()),
        }
    }
}

impl From<drm::Error> for Error {
    fn from(e: drm::Error) -> (r: Error) {
        Error::CpuxDrm(e)
    }
}

impl vstd::std_specs::convert::FromSpecImpl<drm::Error> for Error {
    open spec fn obeys_from_spec() -> bool {
        true
    }

    open spec fn from_spec(e: drm::Error) -> Error {
        Error::CpuxDrm(e)
    }
}

impl From<pseudofs::Error> for Error {
    fn from(e: pseudofs::Error) -> (r: Error) {
        Error::CpuxPseudofs(e)
    }
}

impl vstd::std_specs::convert::FromSpecImpl<pseudofs::Error> for Error {
    open spec fn obeys_from_spec() -> bool {
        true
    }

    open spec fn from_spec(e: pseudofs::Error) -> Error {
        Error::CpuxPseudofs(e)
    }
}

/// The words of an error.
pub open spec fn error_message(e: ErrorView) -> Seq<char> {
    match e {
        ErrorView::CpuxDrm(e) => drm::error_message(e),
        ErrorView::CpuxPseudofs(e) => pseudofs::error_message(e),
    }
}

impl Error {
    /// The error in words, for a person to read.
    pub fn message(&self) -> (r: String)
        ensures
            r@ == error_message(self.deep_view()),
    {
        match self {
            Error::CpuxDrm(e) => e.message(),
            Error::CpuxPseudofs(e) => e.message(),
        }
    }
}

/// A result of the typed access, as a result of this module.
pub open spec fn lifted<T>(r: Result<T, pseudofs::ErrorView>) -> Result<T, ErrorView> {
    match r {
        Ok(v) => Ok(v),
        Err(e) => Err(ErrorView::CpuxPseudofs(e)),
    }
}

fn lift<T>(result: Result<T, pseudofs::Error>) -> (r: Result<T, Error>)
    ensures
        match result {
            Ok(v) => r == Ok::<T, Error>(v),
            Err(e) => r == Err::<T, Error>(Error::CpuxPseudofs(e)),
        },
{
    match result {
        Ok(v) => Ok(v),
        Err(e) => Err(Error::CpuxPseudofs(e)),
    }
}

/// Turns absence into `None` and leaves every other error as it is.
fn allow_missing_files<T>(result: Result<T, Error>) -> (r: Result<Option<T>, Error>)
    ensures
        match result {
            Ok(v) => r == Ok::<Option<T>, Error>(Some(v)),
            Err(Error::CpuxPseudofs(e)) => if is_absence(e.deep_view()) {
                r == Ok::<Option<T>, Error>(None)
            } else {
                r == Err::<Option<T>, Error>(Error::CpuxPseudofs(e))
            },
            Err(e) => r == Err::<Option<T>, Error>(e),
        },
{
    match result {
        Ok(v) => Ok(Some(v)),
        Err(Error::CpuxPseudofs(e)) => lift(pseudofs::allow_missing_files(Err(e))),
        Err(e) => Err(e),
    }
}

/// A card and what looking up its driver gave.
#[derive(Debug)]
pub struct CardDriver {
    pub card_id: u64,
    pub driver: Result<String, drm::Error>,
}

pub struct CardDriverView {
    pub card_id: u64,
    pub driver: Result<Seq<char>, drm::ErrorView>,
}

impl DeepView for CardDriver {
    type V = CardDriverView;

    open spec fn deep_view(&self) -> CardDriverView {
        CardDriverView { card_id: self.card_id, driver: deep(self.driver) }
    }
}

/// The cards that the driver `i915` runs, in order; the first lookup that
/// failed makes the whole an error.
pub open spec fn intel_cards(found: Seq<CardDriverView>) -> Result<Seq<u64>, ErrorView>
    decreases found.len(),
{
    if found.len() == 0 {
        Ok(Seq::empty())
    } else {
        match intel_cards(found.drop_last()) {
            Err(e) => Err(e),
            Ok(ids) => match found.last().driver {
                Err(e) => Err(ErrorView::CpuxDrm(e)),
                Ok(name) => if name == "i915"@ {
                    Ok(ids.push(found.last().card_id))
                } else {
                    Ok(ids)
                },
            },
        }
    }
}

/// The Intel cards among those that were found.
pub open spec fn try_cards_spec(found: Result<Seq<CardDriverView>, drm::ErrorView>) -> Result<
    Seq<u64>,
    ErrorView,
> {
    match found {
        Err(e) => Err(ErrorView::CpuxDrm(e)),
        Ok(list) => intel_cards(list),
    }
}

/// Once the reading of a prefix is an error, that of the whole is the same
/// error.
pub proof fn lemma_intel_cards_error(found: Seq<CardDriverView>, k: int)
    requires
        0 <= k <= found.len(),
    ensures
        intel_cards(found.take(k)) is Err ==> intel_cards(found) == intel_cards(found.take(k)),
    decreases found.len() - k,
{
    if k == found.len() {
        assert(found.take(k) =~= found);
    } else {
        assert(found.drop_last().take(k) =~= found.take(k));
        lemma_intel_cards_error(found.drop_last(), k);
    }
}

/// Looking for Intel cards fails only as looking up a driver does.
pub proof fn lemma_intel_cards_fail_in_drm(found: Seq<CardDriverView>)
    ensures
        intel_cards(found) is Err ==> intel_cards(found)->Err_0 is CpuxDrm,
    decreases found.len(),
{
    if found.len() > 0 {
        lemma_intel_cards_fail_in_drm(found.drop_last());
    }
}

/// The numbers of the cards that the driver `i915` runs, from the cards that
/// the listing showed and the driver of each.
pub fn try_cards(found: Result<Vec<CardDriver>, drm::Error>) -> (r: Result<Vec<u64>, Error>)
    ensures
        deep(r) == try_cards_spec(deep(found)),
{
    let list = match found {
        Ok(l) => l,
        Err(e) => {
            return Err(Error::CpuxDrm(e));
        },
    };
    let n = list.len();
    let mut cards: Vec<u64> = Vec::new();
    let wanted = String::from_str("i915");
    let ghost all = list.deep_view();
    let mut k: usize = 0;
    assert(all.take(0) =~= Seq::<CardDriverView>::empty());
    while k < n
        invariant
            k <= n,
            n == list@.len(),
            all == list.deep_view(),
            deep(found) == Ok::<Seq<CardDriverView>, drm::ErrorView>(all),
            wanted@ == "i915"@,
            intel_cards(all.take(k as int)) == Ok::<Seq<u64>, ErrorView>(cards@),
        decreases n - k,
    {
        proof {
            let longer = all.take(k + 1);
            assert(longer.drop_last() =~= all.take(k as int));
            assert(longer.last() == list@[k as int].deep_view());
            lemma_intel_cards_error(all, k + 1);
        }
        match &list[k].driver {
            Err(e) => {
                return Err(Error::CpuxDrm(e.duplicate()));
            },
            Ok(name) => {
                if *name == wanted {
                    cards.push(list[k].card_id);
                }
            },
        }
        k += 1;
    }
    assert(all.take(n as int) =~= all);
    assert(cards.deep_view() =~= cards@);
    Ok(cards)
}

/// The same, through the rule for absent controls: no error that looking for
/// cards gives counts as absence, so the result is never `None`.
pub fn cards(found: Result<Vec<CardDriver>, drm::Error>) -> (r: Result<Option<Vec<u64>>, Error>)
    ensures
        deep(r) == match try_cards_spec(deep(found)) {
            Ok(ids) => Ok::<Option<Seq<u64>>, ErrorView>(Some(ids)),
            Err(e) => Err(e),
        },
{
    proof {
        if let Ok(list) = deep(found) {
            lemma_intel_cards_fail_in_drm(list);
        }
    }
    allow_missing_files(try_cards(found))
}

/// The frequency that the card runs at, from what reading its file gave.
pub fn try_actual(card_id: u64, raw: Result<String, IoFailure>) -> (r: Result<Hertz, Error>)
    ensures
        deep(r) == lifted(hertz_read(sysfs::i915_act_mhz_path(card_id), deep(raw), HertzUnit::Mhz)),
{
    let path = sysfs::i915_act_mhz(card_id);
    match <u64 as Read>::read(path.as_str(), raw) {
        Ok(mhz) => Ok(Hertz::from_mhz(mhz)),
        Err(e) => Err(Error::CpuxPseudofs(e)),
    }
}

/// The frequency that the card runs at, or `None` where the control is not there.
pub fn actual(card_id: u64, raw: Result<String, IoFailure>) -> (r: Result<Option<Hertz>, Error>)
    ensures
        deep(r) == lifted(
            probed(hertz_read(sysfs::i915_act_mhz_path(card_id), deep(raw), HertzUnit::Mhz)),
        ),
{
    allow_missing_files(try_actual(card_id, raw))
}

/// The boost frequency, from what reading its file gave.
pub fn try_boost(card_id: u64, raw: Result<String, IoFailure>) -> (r: Result<Hertz, Error>)
    ensures
        deep(r) == lifted(
            hertz_read(sysfs::i915_boost_mhz_path(card_id), deep(raw), HertzUnit::Mhz),
        ),
{
    let path = sysfs::i915_boost_mhz(card_id);
    match <u64 as Read>::read(path.as_str(), raw) {
        Ok(mhz) => Ok(Hertz::from_mhz(mhz)),
        Err(e) => Err(Error::CpuxPseudofs(e)),
    }
}

/// The boost frequency, or `None` where the control is not there.
pub fn boost(card_id: u64, raw: Result<String, IoFailure>) -> (r: Result<Option<Hertz>, Error>)
    ensures
        deep(r) == lifted(
            probed(hertz_read(sysfs::i915_boost_mhz_path(card_id), deep(raw), HertzUnit::Mhz)),
        ),
{
    allow_missing_files(try_boost(card_id, raw))
}

/// The write that sets the boost frequency, in whole megahertz.
pub fn try_set_boost(card_id: u64, val: &Hertz) -> (r: Put)
    ensures
        r.deep_view() == (PutView {
            path: sysfs::i915_boost_mhz_path(card_id),
            text: hertz_text(*val, HertzUnit::Mhz),
        }),
{
    let path = sysfs::i915_boost_mhz(card_id);
    val.mhz().write(path.as_str())
}

/// What came of that write: `Some` if it was done, `None` where the control is not there.
pub fn set_boost(card_id: u64, raw: Result<(), IoFailure>) -> (r: Result<Option<()>, Error>)
    ensures
        deep(r) == lifted(probed(classified(sysfs::i915_boost_mhz_path(card_id), deep(raw)))),
{
    let path = sysfs::i915_boost_mhz(card_id);
    allow_missing_files(lift(handle_io_error(path.as_str(), raw)))
}

/// The upper limit, from what reading its file gave.
pub fn try_max(card_id: u64, raw: Result<String, IoFailure>) -> (r: Result<Hertz, Error>)
    ensures
        deep(r) == lifted(hertz_read(sysfs::i915_max_mhz_path(card_id), deep(raw), HertzUnit::Mhz)),
{
    let path = sysfs::i915_max_mhz(card_id);
    match <u64 as Read>::read(path.as_str(), raw) {
        Ok(mhz) => Ok(Hertz::from_mhz(mhz)),
        Err(e) => Err(Error::CpuxPseudofs(e)),
    }
}

/// The upper limit, or `None` where the control is not there.
pub fn max(card_id: u64, raw: Result<String, IoFailure>) -> (r: Result<Option<Hertz>, Error>)
    ensures
        deep(r) == lifted(
            probed(hertz_read(sysfs::i915_max_mhz_path(card_id), deep(raw), HertzUnit::Mhz)),
        ),
{
    allow_missing_files(try_max(card_id, raw))
}

/// The highest frequency of the hardware, from what reading its file gave.
pub fn try_max_limit(card_id: u64, raw: Result<String, IoFailure>) -> (r: Result<Hertz, Error>)
    ensures
        deep(r) == lifted(hertz_read(sysfs::i915_rp0_mhz_path(card_id), deep(raw), HertzUnit::Mhz)),
{
    let path = sysfs::i915_rp0_mhz(card_id);
    match <u64 as Read>::read(path.as_str(), raw) {
        Ok(mhz) => Ok(Hertz::from_mhz(mhz)),
        Err(e) => Err(Error::CpuxPseudofs(e)),
    }
}

/// The highest frequency of the hardware, or `None` where the control is not there.
pub fn max_limit(card_id: u64, raw: Result<String, IoFailure>) -> (r: Result<Option<Hertz>, Error>)
    ensures
        deep(r) == lifted(
            probed(hertz_read(sysfs::i915_rp0_mhz_path(card_id), deep(raw), HertzUnit::Mhz)),
        ),
{
    allow_missing_files(try_max_limit(card_id, raw))
}

/// The write that sets the upper limit, in whole megahertz.
pub fn try_set_max(card_id: u64, val: &Hertz) -> (r: Put)
    ensures
        r.deep_view() == (PutView {
            path: sysfs::i915_max_mhz_path(card_id),
            text: hertz_text(*val, HertzUnit::Mhz),
        }),
{
    let path = sysfs::i915_max_mhz(card_id);
    val.mhz().write(path.as_str())
}

/// What came of that write: `Some` if it was done, `None` where the control is not there.
pub fn set_max(card_id: u64, raw: Result<(), IoFailure>) -> (r: Result<Option<()>, Error>)
    ensures
        deep(r) == lifted(probed(classified(sysfs::i915_max_mhz_path(card_id), deep(raw)))),
{
    let path = sysfs::i915_max_mhz(card_id);
    allow_missing_files(lift(handle_io_error(path.as_str(), raw)))
}

/// The lower limit, from what reading its file gave.
pub fn try_min(card_id: u64, raw: Result<String, IoFailure>) -> (r: Result<Hertz, Error>)
    ensures
        deep(r) == lifted(hertz_read(sysfs::i915_min_mhz_path(card_id), deep(raw), HertzUnit::Mhz)),
{
    let path = sysfs::i915_min_mhz(card_id);
    match <u64 as Read>::read(path.as_str(), raw) {
        Ok(mhz) => Ok(Hertz::from_mhz(mhz)),
        Err(e) => Err(Error::CpuxPseudofs(e)),
    }
}

/// The lower limit, or `None` where the control is not there.
pub fn min(card_id: u64, raw: Result<String, IoFailure>) -> (r: Result<Option<Hertz>, Error>)
    ensures
        deep(r) == lifted(
            probed(hertz_read(sysfs::i915_min_mhz_path(card_id), deep(raw), HertzUnit::Mhz)),
        ),
{
    allow_missing_files(try_min(card_id, raw))
}

/// The lowest frequency of the hardware, from what reading its file gave.
pub fn try_min_limit(card_id: u64, raw: Result<String, IoFailure>) -> (r: Result<Hertz, Error>)
    ensures
        deep(r) == lifted(hertz_read(sysfs::i915_rpn_mhz_path(card_id), deep(raw), HertzUnit::Mhz)),
{
    let path = sysfs::i915_rpn_mhz(card_id);
    match <u64 as Read>::read(path.as_str(), raw) {
        Ok(mhz) => Ok(Hertz::from_mhz(mhz)),
        Err(e) => Err(Error::CpuxPseudofs(e)),
    }
}

/// The lowest frequency of the hardware, or `None` where the control is not there.
pub fn min_limit(card_id: u64, raw: Result<String, IoFailure>) -> (r: Result<Option<Hertz>, Error>)
    ensures
        deep(r) == lifted(
            probed(hertz_read(sysfs::i915_rpn_mhz_path(card_id), deep(raw), HertzUnit::Mhz)),
        ),
{
    allow_missing_files(try_min_limit(card_id, raw))
}

/// The write that sets the lower limit, in whole megahertz.
pub fn try_set_min(card_id: u64, val: &Hertz) -> (r: Put)
    ensures
        r.deep_view() == (PutView {
            path: sysfs::i915_min_mhz_path(card_id),
            text: hertz_text(*val, HertzUnit::Mhz),
        }),
{
    let path = sysfs::i915_min_mhz(card_id);
    val.mhz().write(path.as_str())
}

/// What came of that write: `Some` if it was done, `None` where the control is not there.
pub fn set_min(card_id: u64, raw: Result<(), IoFailure>) -> (r: Result<Option<()>, Error>)
    ensures
        deep(r) == lifted(probed(classified(sysfs::i915_min_mhz_path(card_id), deep(raw)))),
{
    let path = sysfs::i915_min_mhz(card_id);
    allow_missing_files(lift(handle_io_error(path.as_str(), raw)))
}

/// The frequency that was asked for, from what reading its file gave.
pub fn try_requested(card_id: u64, raw: Result<String, IoFailure>) -> (r: Result<Hertz, Error>)
    ensures
        deep(r) == lifted(hertz_read(sysfs::i915_cur_mhz_path(card_id), deep(raw), HertzUnit::Mhz)),
{
    let path = sysfs::i915_cur_mhz(card_id);
    match <u64 as Read>::read(path.as_str(), raw) {
        Ok(mhz) => Ok(Hertz::from_mhz(mhz)),
        Err(e) => Err(Error::CpuxPseudofs(e)),
    }
}

/// The frequency that was asked for, or `None` where the control is not there.
pub fn requested(card_id: u64, raw: Result<String, IoFailure>) -> (r: Result<Option<Hertz>, Error>)
    ensures
        deep(r) == lifted(
            probed(hertz_read(sysfs::i915_cur_mhz_path(card_id), deep(raw), HertzUnit::Mhz)),
        ),
{
    allow_missing_files(try_requested(card_id, raw))
}

/// The most efficient frequency, from what reading its file gave.
pub fn try_optimum_limit(card_id: u64, raw: Result<String, IoFailure>) -> (r: Result<Hertz, Error>)
    ensures
        deep(r) == lifted(hertz_read(sysfs::i915_rp1_mhz_path(card_id), deep(raw), HertzUnit::Mhz)),
{
    let path = sysfs::i915_rp1_mhz(card_id);
    match <u64 as Read>::read(path.as_str(), raw) {
        Ok(mhz) => Ok(Hertz::from_mhz(mhz)),
        Err(e) => Err(Error::CpuxPseudofs(e)),
    }
}

/// The most efficient frequency, or `None` where the control is not there.
pub fn optimum_limit(
    card_id: u64,
    raw: Result<String, IoFailure>,
) -> (r: Result<Option<Hertz>, Error>)
    ensures
        deep(r) == lifted(
            probed(hertz_read(sysfs::i915_rp1_mhz_path(card_id), deep(raw), HertzUnit::Mhz)),
        ),
{
    allow_missing_files(try_optimum_limit(card_id, raw))
}

} // verus!
