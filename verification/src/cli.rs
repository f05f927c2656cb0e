//! What the user asks for, and how it is carried out on the processors and
//! the graphics cards.

use crate::cpu;
use crate::cpufreq;
use crate::i915;
use crate::intel_pstate;
use crate::pseudofs;
use crate::pseudofs::hertz_text;
use crate::text::{decimal, decimal_string};
use crate::transaction::{
    begin, card_steps, idle, queued, Knob, Setting, SettingView, Transaction,
};
use crate::units::{Hertz, HertzUnit};
use crate::utils::{sorted, strictly_ascending, without_repeats, Indices, Toggles};
use vstd::prelude::*;
use vstd::string::*;

verus! {

broadcast use vstd::seq_lib::group_to_multiset_ensures;

/// Why carrying out a request stopped.
#[derive(Debug)]
pub enum Error {
    CpuxCpu(cpu::Error),
    CpuxCpufreq(cpufreq::Error),
    CpuxI915(i915::Error),
    CpuxIntelPstate(intel_pstate::Error),
}

pub enum ErrorView {
    CpuxCpu(cpu::ErrorView),
    CpuxCpufreq(pseudofs::ErrorView),
    CpuxI915(i915::ErrorView),
    CpuxIntelPstate(pseudofs::ErrorView),
}

impl DeepView for Error {
    type V = ErrorView;

    open spec fn deep_view(&self) -> ErrorView {
        match self {
            Error::CpuxCpu(e) => ErrorView::CpuxCpu(e.deep_view()),
            Error::CpuxCpufreq(e) => ErrorView::CpuxCpufreq(e.deep_view()),
            Error::CpuxI915(e) => ErrorView::CpuxI915(e.deep_view()),
            Error::CpuxIntelPstate(e) => ErrorView::CpuxIntelPstate(e.deep_view()),
        }
    }
}

impl From<cpu::Error> for Error {
    fn from(e: cpu::Error) -> (r: Error) {
        Error::CpuxCpu(e)
    }
}

impl vstd::std_specs::convert::FromSpecImpl<cpu::Error> for Error {
    open spec fn obeys_from_spec() -> bool {
        true
    }

    open spec fn from_spec(e: cpu::Error) -> Error {
        Error::CpuxCpu(e)
    }
}

impl From<cpufreq::Error> for Error {
    fn from(e: cpufreq::Error) -> (r: Error) {
        Error::CpuxCpufreq(e)
    }
}

impl vstd::std_specs::convert::FromSpecImpl<cpufreq::Error> for Error {
    open spec fn obeys_from_spec() -> bool {
        true
    }

    open spec fn from_spec(e: cpufreq::Error) -> Error {
        Error::CpuxCpufreq(e)
    }
}

impl From<i915::Error> for Error {
    fn from(e: i915::Error) -> (r: Error) {
        Error::CpuxI915(e)
    }
}

impl vstd::std_specs::convert::FromSpecImpl<i915::Error> for Error {
    open spec fn obeys_from_spec() -> bool {
        true
    }

    open spec fn from_spec(e: i915::Error) -> Error {
        Error::CpuxI915(e)
    }
}

impl From<intel_pstate::Error> for Error {
    fn from(e: intel_pstate::Error) -> (r: Error) {
        Error::CpuxIntelPstate(e)
    }
}

impl vstd::std_specs::convert::FromSpecImpl<intel_pstate::Error> for Error {
    open spec fn obeys_from_spec() -> bool {
        true
    }

    open spec fn from_spec(e: intel_pstate::Error) -> Error {
        Error::CpuxIntelPstate(e)
    }
}

/// The words of an error.
pub open spec fn error_message(e: ErrorView) -> Seq<char> {
    match e {
        ErrorView::CpuxCpu(e) => cpu::error_message(e),
        ErrorView::CpuxCpufreq(e) => pseudofs::error_message(e),
        ErrorView::CpuxI915(e) => i915::error_message(e),
        ErrorView::CpuxIntelPstate(e) => pseudofs::error_message(e),
    }
}

impl Error {
    /// The error in words, for a person to read.
    pub fn message(&self) -> (r: String)
        ensures
            r@ == error_message(self.deep_view()),
    {
        match self {
            Error::CpuxCpu(e) => e.message(),
            Error::CpuxCpufreq(e) => e.message(),
            Error::CpuxI915(e) => e.message(),
            Error::CpuxIntelPstate(e) => e.message(),
        }
    }
}

/// A request: what to show, and which controls to set to what.
#[derive(Debug)]
pub struct Cli {
    /// The processors to set controls on; all that are present if `None`.
    pub cpus: Option<Indices>,
    /// Show the processors.
    pub cpu: bool,
    /// Take the processors online or offline.
    pub cpu_on: Option<bool>,
    /// Take processors online or offline one by one: the switch at place `i`
    /// is for processor `i`.
    pub cpu_on_each: Option<Toggles>,
    /// Show the frequency scaling.
    pub freq: bool,
    pub freq_gov: Option<String>,
    pub freq_max: Option<Hertz>,
    pub freq_min: Option<Hertz>,
    /// Show the Intel graphics cards.
    pub i915: bool,
    pub i915_freq_boost: Option<Hertz>,
    pub i915_freq_max: Option<Hertz>,
    pub i915_freq_min: Option<Hertz>,
    /// Show the Intel P-state driver.
    pub pstate: bool,
    pub pstate_epb: Option<u64>,
    pub pstate_epp: Option<String>,
    pub quiet: Option<bool>,
    /// Show again every so many seconds.
    pub refresh: Option<u64>,
}

pub struct CliView {
    pub cpus: Option<Seq<u64>>,
    pub cpu: bool,
    pub cpu_on: Option<bool>,
    pub cpu_on_each: Option<Seq<Option<bool>>>,
    pub freq: bool,
    pub freq_gov: Option<Seq<char>>,
    pub freq_max: Option<Hertz>,
    pub freq_min: Option<Hertz>,
    pub i915: bool,
    pub i915_freq_boost: Option<Hertz>,
    pub i915_freq_max: Option<Hertz>,
    pub i915_freq_min: Option<Hertz>,
    pub pstate: bool,
    pub pstate_epb: Option<u64>,
    pub pstate_epp: Option<Seq<char>>,
    pub quiet: Option<bool>,
    pub refresh: Option<u64>,
}

impl DeepView for Cli {
    type V = CliView;

    open spec fn deep_view(&self) -> CliView {
        CliView {
            cpus: self.cpus.deep_view(),
            cpu: self.cpu,
            cpu_on: self.cpu_on,
            cpu_on_each: self.cpu_on_each.deep_view(),
            freq: self.freq,
            freq_gov: self.freq_gov.deep_view(),
            freq_max: self.freq_max,
            freq_min: self.freq_min,
            i915: self.i915,
            i915_freq_boost: self.i915_freq_boost,
            i915_freq_max: self.i915_freq_max,
            i915_freq_min: self.i915_freq_min,
            pstate: self.pstate,
            pstate_epb: self.pstate_epb,
            pstate_epp: self.pstate_epp.deep_view(),
            quiet: self.quiet,
            refresh: self.refresh,
        }
    }
}

/// No item, or the one item.
pub open spec fn maybe<T>(o: Option<T>) -> Seq<T> {
    match o {
        Some(v) => seq![v],
        None => Seq::empty(),
    }
}

/// The text of a setting for a control that counts in `unit`.
pub open spec fn hertz_setting(knob: Knob, hz: Option<Hertz>, unit: HertzUnit) -> Seq<SettingView> {
    match hz {
        Some(v) => seq![SettingView { knob, text: hertz_text(v, unit) }],
        None => Seq::empty(),
    }
}

/// The values that a request gives to controls of each processor, in the
/// order in which they are set: governor, upper limit, lower limit,
/// energy bias, energy preference.
pub open spec fn cpu_settings(cli: CliView) -> Seq<SettingView> {
    (match cli.freq_gov {
        Some(g) => seq![SettingView { knob: Knob::Governor, text: g }],
        None => Seq::empty(),
    }) + hertz_setting(Knob::FreqMax, cli.freq_max, HertzUnit::Khz) + hertz_setting(
        Knob::FreqMin,
        cli.freq_min,
        HertzUnit::Khz,
    ) + (match cli.pstate_epb {
        Some(b) => seq![SettingView { knob: Knob::Epb, text: decimal(b as nat) }],
        None => Seq::empty(),
    }) + (match cli.pstate_epp {
        Some(p) => seq![SettingView { knob: Knob::Epp, text: p }],
        None => Seq::empty(),
    })
}

/// The values that a request gives to controls of each graphics card, in the
/// order in which they are set: boost, upper limit, lower limit.
pub open spec fn card_settings(cli: CliView) -> Seq<SettingView> {
    hertz_setting(Knob::GpuBoost, cli.i915_freq_boost, HertzUnit::Mhz) + hertz_setting(
        Knob::GpuMax,
        cli.i915_freq_max,
        HertzUnit::Mhz,
    ) + hertz_setting(Knob::GpuMin, cli.i915_freq_min, HertzUnit::Mhz)
}

/// Whether a request sets any control of the processors.
pub open spec fn wants_cpu_controls(cli: CliView) -> bool {
    cli.cpu_on is Some || cli.cpu_on_each is Some || cli.freq_gov is Some || cli.freq_max is Some
        || cli.freq_min is Some || cli.pstate_epb is Some || cli.pstate_epp is Some
}

/// Whether a request sets any control of the graphics cards.
pub open spec fn wants_card_controls(cli: CliView) -> bool {
    cli.i915_freq_boost is Some || cli.i915_freq_max is Some || cli.i915_freq_min is Some
}

/// The processors that a request is for, before they are put in order: those
/// that it names, or else those that are present.
pub open spec fn named_targets(cli: CliView, present: Seq<u64>) -> Seq<u64> {
    match cli.cpus {
        Some(ids) => ids,
        None => present,
    }
}

/// The switches of a request, none if it has no list of them.
pub open spec fn switches(cli: CliView) -> Seq<Option<bool>> {
    match cli.cpu_on_each {
        Some(t) => t,
        None => Seq::empty(),
    }
}

/// Cutting the repeats out of an ascending list leaves a strictly ascending
/// list of the same numbers.
pub proof fn lemma_without_repeats_of_sorted(s: Seq<u64>)
    requires
        sorted(s),
    ensures
        strictly_ascending(without_repeats(s)),
        forall|x: u64| without_repeats(s).contains(x) <==> s.contains(x),
        without_repeats(s).len() <= s.len(),
        s.len() > 0 ==> without_repeats(s).len() > 0 && without_repeats(s).last() == s.last(),
    decreases s.len(),
{
    let r = without_repeats(s);
    if s.len() <= 1 {
    } else {
        let shorter = s.drop_last();
        assert forall|i: int, j: int| 0 <= i <= j < shorter.len() implies shorter[i]
            <= shorter[j] by {
            assert(s[i] <= s[j]);
        }
        lemma_without_repeats_of_sorted(shorter);
        let d = without_repeats(shorter);
        assert(shorter.last() == s[s.len() - 2]);
        assert forall|x: u64| r.contains(x) implies s.contains(x) by {
            let i = choose|i: int| 0 <= i < r.len() && r[i] == x;
            if i < d.len() {
                assert(d[i] == x);
                assert(d.contains(x));
                assert(shorter.contains(x));
                let j = choose|j: int| 0 <= j < shorter.len() && shorter[j] == x;
                assert(s[j] == x);
            } else {
                assert(s[s.len() - 1] == x);
            }
        }
        assert forall|x: u64| s.contains(x) implies r.contains(x) by {
            let j = choose|j: int| 0 <= j < s.len() && s[j] == x;
            if j < s.len() - 1 {
                assert(shorter[j] == x);
                assert(shorter.contains(x));
                assert(d.contains(x));
                let i = choose|i: int| 0 <= i < d.len() && d[i] == x;
                assert(r[i] == x);
            } else if s.last() == s[s.len() - 2] {
                assert(d[d.len() - 1] == x);
                assert(r[d.len() - 1] == x);
            } else {
                assert(r[r.len() - 1] == x);
            }
        }
        assert forall|i: int, j: int| 0 <= i < j < r.len() implies r[i] < r[j] by {
            if j < d.len() {
                assert(d[i] < d[j]);
            } else {
                assert(d.contains(d[i]));
                assert(shorter.contains(d[i]));
                let k = choose|k: int| 0 <= k < shorter.len() && shorter[k] == d[i];
                assert(s[k] <= s[s.len() - 2]);
                assert(d[i] <= d.last());
                assert(d.last() == s[s.len() - 2]);
            }
        }
    }
}

impl Cli {
    pub fn has_control_args_cpu(&self) -> (r: bool)
        ensures
            r == wants_cpu_controls(self.deep_view()),
    {
        self.cpu_on.is_some() || self.cpu_on_each.is_some() || self.freq_gov.is_some()
            || self.freq_max.is_some() || self.freq_min.is_some() || self.pstate_epb.is_some()
            || self.pstate_epp.is_some()
    }

    pub fn has_control_args_i915(&self) -> (r: bool)
        ensures
            r == wants_card_controls(self.deep_view()),
    {
        self.i915_freq_boost.is_some() || self.i915_freq_max.is_some()
            || self.i915_freq_min.is_some()
    }

    /// Whether the request says which tables to show.
    pub fn has_table_args(&self) -> (r: bool)
        ensures
            r == (self.cpu || self.freq || self.i915 || self.pstate),
    {
        self.cpu || self.freq || self.i915 || self.pstate
    }

    /// The processors that the request is for, each once and in ascending
    /// order: those that it names, or else those in `present`.
    pub fn targets(&self, present: Vec<u64>) -> (r: Vec<u64>)
        ensures
            strictly_ascending(r@),
            forall|x: u64|
                r@.contains(x) <==> named_targets(self.deep_view(), present@).contains(x),
    {
        let mut ids = match &self.cpus {
            Some(named) => {
                let mut copy: Vec<u64> = Vec::new();
                let mut i: usize = 0;
                while i < named.0.len()
                    invariant
                        i <= named.0@.len(),
                        copy@ == named.0@.take(i as int),
                    decreases named.0@.len() - i,
                {
                    copy.push(named.0[i]);
                    assert(named.0@.take(i + 1) =~= named.0@.take(i as int).push(
                        named.0@[i as int],
                    ));
                    i += 1;
                }
                assert(named.0@.take(i as int) =~= named.0@);
                Indices::from_vec(copy)
            },
            None => Indices::from_vec(present),
        };
        let ghost source = ids.0@;
        assert(source == named_targets(self.deep_view(), present@));
        ids.sort();
        let ghost ordered = ids.0@;
        ids.dedup();
        proof {
            lemma_without_repeats_of_sorted(ordered);
            assert forall|x: u64| ordered.contains(x) <==> source.contains(x) by {
                assert(ordered.to_multiset().count(x) == source.to_multiset().count(x));
            }
        }
        ids.to_vec()
    }

    fn settings_cpu(&self) -> (r: Vec<Setting>)
        ensures
            r.deep_view() == cpu_settings(self.deep_view()),
    {
        let mut out: Vec<Setting> = Vec::new();
        if let Some(gov) = &self.freq_gov {
            out.push(Setting { knob: Knob::Governor, text: gov.clone() });
        }
        if let Some(hz) = &self.freq_max {
            out.push(Setting { knob: Knob::FreqMax, text: decimal_string(hz.khz()) });
        }
        if let Some(hz) = &self.freq_min {
            out.push(Setting { knob: Knob::FreqMin, text: decimal_string(hz.khz()) });
        }
        if let Some(epb) = &self.pstate_epb {
            out.push(Setting { knob: Knob::Epb, text: decimal_string(*epb) });
        }
        if let Some(epp) = &self.pstate_epp {
            out.push(Setting { knob: Knob::Epp, text: epp.clone() });
        }
        assert(out.deep_view() =~= cpu_settings(self.deep_view()));
        out
    }

    fn settings_i915(&self) -> (r: Vec<Setting>)
        ensures
            r.deep_view() == card_settings(self.deep_view()),
    {
        let mut out: Vec<Setting> = Vec::new();
        if let Some(hz) = &self.i915_freq_boost {
            out.push(Setting { knob: Knob::GpuBoost, text: decimal_string(hz.mhz()) });
        }
        if let Some(hz) = &self.i915_freq_max {
            out.push(Setting { knob: Knob::GpuMax, text: decimal_string(hz.mhz()) });
        }
        if let Some(hz) = &self.i915_freq_min {
            out.push(Setting { knob: Knob::GpuMin, text: decimal_string(hz.mhz()) });
        }
        assert(out.deep_view() =~= card_settings(self.deep_view()));
        out
    }

    /// Starts setting the controls of the processors that the request is
    /// for. `present` lists the processors that are there; it is asked only
    /// where the request names none. A request that sets no control of the
    /// processors gives a transaction that has nothing to do.
    pub fn apply_controls_cpu(&self, present: Vec<u64>) -> (r: Transaction)
        ensures
            !wants_cpu_controls(self.deep_view()) ==> r.deep_view() == idle(),
            wants_cpu_controls(self.deep_view()) ==> r.deep_view() == begin(
                cpu_settings(self.deep_view()),
                self.cpu_on,
                switches(self.deep_view()),
                r.deep_view().targets,
            ),
            wants_cpu_controls(self.deep_view()) ==> strictly_ascending(r.deep_view().targets),
            wants_cpu_controls(self.deep_view()) ==> forall|x: u64|
                r.deep_view().targets.contains(x) <==> named_targets(
                    self.deep_view(),
                    present@,
                ).contains(x),
    {
        if !self.has_control_args_cpu() {
            return Transaction::idle();
        }
        let targets = self.targets(present);
        let toggles = match &self.cpu_on_each {
            Some(t) => {
                let mut copy: Vec<Option<bool>> = Vec::new();
                let mut i: usize = 0;
                while i < t.0.len()
                    invariant
                        i <= t.0@.len(),
                        copy@ == t.0@.take(i as int),
                    decreases t.0@.len() - i,
                {
                    copy.push(t.0[i]);
                    assert(t.0@.take(i + 1) =~= t.0@.take(i as int).push(t.0@[i as int]));
                    i += 1;
                }
                assert(t.0@.take(i as int) =~= t.0@);
                copy
            },
            None => Vec::new(),
        };
        Transaction::begin(self.settings_cpu(), self.cpu_on, toggles, targets)
    }

    /// Starts setting the controls of the Intel graphics cards. `cards` is
    /// what looking for the cards gave. Without a control to set, or without
    /// a list of cards, the transaction has nothing to do.
    pub fn apply_controls_i915(&self, cards: Result<Option<Vec<u64>>, i915::Error>) -> (r:
        Transaction)
        ensures
            r.deep_view() == (match cards {
                Ok(Some(ids)) => if wants_card_controls(self.deep_view()) {
                    queued(card_steps(card_settings(self.deep_view()), ids@))
                } else {
                    idle()
                },
                _ => idle(),
            }),
    {
        if !self.has_control_args_i915() {
            return Transaction::idle();
        }
        match cards {
            Ok(Some(ids)) => Transaction::for_cards(self.settings_i915(), ids),
            _ => Transaction::idle(),
        }
    }
}

} // verus!
