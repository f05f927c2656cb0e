//! Setting controls on a list of targets, one read or write at a time.
//!
//! A [`Transaction`] never touches a file. It says which operation comes
//! next ([`Transaction::pending`]); the caller performs it and hands in what
//! it gave ([`Transaction::advance`]), until nothing is pending.
//!
//! On each processor, in the order given: its online flag is read (a flag
//! that is not there counts as online); a processor that is offline is taken
//! online, so that its controls accept values; the values are written; and a
//! processor that is meant to be offline is taken offline again. It is meant
//! to be offline if the request says so, or if the request says nothing and
//! it was offline before. After the last processor come the switches of the
//! request, one write for each that is not "leave as it is".
//!
//! A control that is not there is passed over. Any other failure ends the
//! transaction at once.

use crate::cli::{Error, ErrorView};
use crate::cpu;
use crate::cpufreq;
use crate::i915;
use crate::intel_pstate;
use crate::pseudofs::{
    bool_read, bool_text, classify, deep, defaulted, is_absence, IoFailure, IoFailureView, Put,
    PutView,
};
use crate::sysfs;
use vstd::prelude::*;
use vstd::string::*;

verus! {

/// The controls that a transaction sets.
#[derive(Clone, Copy, Debug, PartialEq, Eq, Structural)]
pub enum Knob {
    /// Whether a processor is online.
    Online,
    /// The scaling governor of a processor.
    Governor,
    /// The upper scaling limit of a processor.
    FreqMax,
    /// The lower scaling limit of a processor.
    FreqMin,
    /// The energy/performance bias of a processor.
    Epb,
    /// The energy/performance preference of a processor.
    Epp,
    /// The boost frequency of a graphics card.
    GpuBoost,
    /// The upper limit of a graphics card.
    GpuMax,
    /// The lower limit of a graphics card.
    GpuMin,
}

/// One control of one target: a processor or a graphics card.
#[derive(Clone, Copy, Debug, PartialEq, Eq, Structural)]
pub struct Control {
    pub knob: Knob,
    pub id: u64,
}

/// The file that stands for a control.
pub open spec fn control_path(c: Control) -> Seq<char> {
    match c.knob {
        Knob::Online => sysfs::cpu_online_path(c.id),
        Knob::Governor => sysfs::cpufreq_governor_path(c.id),
        Knob::FreqMax => sysfs::cpufreq_max_khz_path(c.id),
        Knob::FreqMin => sysfs::cpufreq_min_khz_path(c.id),
        Knob::Epb => sysfs::intel_pstate_epb_path(c.id),
        Knob::Epp => sysfs::intel_pstate_epp_path(c.id),
        Knob::GpuBoost => sysfs::i915_boost_mhz_path(c.id),
        Knob::GpuMax => sysfs::i915_max_mhz_path(c.id),
        Knob::GpuMin => sysfs::i915_min_mhz_path(c.id),
    }
}

/// Whether the control belongs to a processor; the others belong to a
/// graphics card.
pub open spec fn of_processor(knob: Knob) -> bool {
    match knob {
        Knob::GpuBoost | Knob::GpuMax | Knob::GpuMin => false,
        _ => true,
    }
}

/// What stands before the number of the target in the path of a control.
pub open spec fn path_head(knob: Knob) -> Seq<char> {
    if of_processor(knob) {
        "/sys/devices/system/cpu/cpu"@
    } else {
        "/sys/class/drm"@ + "/"@ + "card"@
    }
}

/// What stands after the number of the target in the path of a control.
pub open spec fn path_tail(knob: Knob) -> Seq<char> {
    match knob {
        Knob::Online => "/"@ + "online"@,
        Knob::Governor => "/"@ + "cpufreq"@ + "/"@ + "scaling_governor"@,
        Knob::FreqMax => "/"@ + "cpufreq"@ + "/"@ + "scaling_max_freq"@,
        Knob::FreqMin => "/"@ + "cpufreq"@ + "/"@ + "scaling_min_freq"@,
        Knob::Epb => "/"@ + "power"@ + "/"@ + "energy_perf_bias"@,
        Knob::Epp => "/"@ + "cpufreq"@ + "/"@ + "energy_performance_preference"@,
        Knob::GpuBoost => "/"@ + "gt_boost_freq_mhz"@,
        Knob::GpuMax => "/"@ + "gt_max_freq_mhz"@,
        Knob::GpuMin => "/"@ + "gt_min_freq_mhz"@,
    }
}

/// The path of a control is what stands before the number, the number, and
/// what stands after it.
pub proof fn lemma_control_path_parts(c: Control)
    ensures
        control_path(c) == path_head(c.knob) + crate::text::decimal(c.id as nat) + path_tail(
            c.knob,
        ),
{
    let d = crate::text::decimal(c.id as nat);
    assert(control_path(c) =~= path_head(c.knob) + d + path_tail(c.knob)) by {
        reveal_strlit("/");
    }
}

/// Digits that are followed by a stroke end where the stroke stands.
pub proof fn lemma_number_ends_at_stroke(
    d1: Seq<char>,
    t1: Seq<char>,
    d2: Seq<char>,
    t2: Seq<char>,
)
    requires
        crate::text::all_digits(d1),
        crate::text::all_digits(d2),
        t1.len() > 0 && t1[0] == '/',
        t2.len() > 0 && t2[0] == '/',
        d1 + t1 == d2 + t2,
    ensures
        d1 == d2,
        t1 == t2,
{
    let s = d1 + t1;
    if d1.len() < d2.len() {
        assert(s[d1.len() as int] == t1[0]);
        assert((d2 + t2)[d1.len() as int] == d2[d1.len() as int]);
        assert(crate::text::is_digit(d2[d1.len() as int]));
    } else if d2.len() < d1.len() {
        assert((d2 + t2)[d2.len() as int] == t2[0]);
        assert(s[d2.len() as int] == d1[d2.len() as int]);
        assert(crate::text::is_digit(d1[d2.len() as int]));
    }
    assert(d1 =~= d2) by {
        assert forall|i: int| 0 <= i < d1.len() implies d1[i] == d2[i] by {
            assert(s[i] == d1[i]);
            assert((d2 + t2)[i] == d2[i]);
        }
    }
    assert(s.len() == d1.len() + t1.len());
    assert((d2 + t2).len() == d2.len() + t2.len());
    assert(t1.len() == t2.len());
    assert(t1 =~= t2) by {
        assert forall|i: int| 0 <= i < t1.len() implies t1[i] == t2[i] by {
            assert(s[d1.len() + i] == t1[i]);
            assert((d2 + t2)[d2.len() + i] == t2[i]);
        }
    }
}

/// What stands after the number tells the controls of one kind of target
/// apart, and begins with a stroke.
pub proof fn lemma_path_tails(a: Knob, b: Knob)
    ensures
        path_tail(a).len() > 0 && path_tail(a)[0] == '/',
        of_processor(a) == of_processor(b) && path_tail(a) == path_tail(b) ==> a == b,
{
    reveal_strlit("/");
    reveal_strlit("online");
    reveal_strlit("cpufreq");
    reveal_strlit("power");
    reveal_strlit("scaling_governor");
    reveal_strlit("scaling_max_freq");
    reveal_strlit("scaling_min_freq");
    reveal_strlit("energy_perf_bias");
    reveal_strlit("energy_performance_preference");
    reveal_strlit("gt_boost_freq_mhz");
    reveal_strlit("gt_max_freq_mhz");
    reveal_strlit("gt_min_freq_mhz");
    let ta = path_tail(a);
    let tb = path_tail(b);
    assert(ta[0] == '/');
    assert(path_tail(Knob::Online).len() == 7);
    assert(path_tail(Knob::Governor).len() == 25);
    assert(path_tail(Knob::FreqMax).len() == 25);
    assert(path_tail(Knob::FreqMin).len() == 25);
    assert(path_tail(Knob::Epb).len() == 23);
    assert(path_tail(Knob::Epp).len() == 38);
    assert(path_tail(Knob::GpuBoost).len() == 18);
    assert(path_tail(Knob::GpuMax).len() == 16);
    assert(path_tail(Knob::GpuMin).len() == 16);
    assert(path_tail(Knob::Governor)[17] == 'g');
    assert(path_tail(Knob::FreqMax)[17] == 'm');
    assert(path_tail(Knob::FreqMin)[17] == 'm');
    assert(path_tail(Knob::FreqMax)[18] == 'a');
    assert(path_tail(Knob::FreqMin)[18] == 'i');
    assert(path_tail(Knob::GpuMax)[5] == 'a');
    assert(path_tail(Knob::GpuMin)[5] == 'i');
}

/// Each control has a file of its own: two controls with one path are one
/// control.
pub proof fn law_each_control_has_its_file(a: Control, b: Control)
    requires
        control_path(a) == control_path(b),
    ensures
        a == b,
{
    lemma_control_path_parts(a);
    lemma_control_path_parts(b);
    lemma_path_tails(a.knob, b.knob);
    lemma_path_tails(b.knob, a.knob);
    crate::text::lemma_decimal_value(a.id as nat);
    crate::text::lemma_decimal_value(b.id as nat);
    let da = crate::text::decimal(a.id as nat);
    let db = crate::text::decimal(b.id as nat);
    let ha = path_head(a.knob);
    let hb = path_head(b.knob);
    let s = control_path(a);
    reveal_strlit("/sys/devices/system/cpu/cpu");
    reveal_strlit("/sys/class/drm");
    reveal_strlit("/");
    reveal_strlit("card");
    assert(path_head(Knob::Online).len() == 27);
    assert(path_head(Knob::GpuMax).len() == 19);
    assert(path_head(Knob::Online)[5] == 'd');
    assert(path_head(Knob::GpuMax)[5] == 'c');
    assert(s[5] == ha[5]) by {
        assert((ha + da + path_tail(a.knob))[5] == ha[5]);
    }
    assert(s[5] == hb[5]) by {
        assert((hb + db + path_tail(b.knob))[5] == hb[5]);
    }
    assert(of_processor(a.knob) == of_processor(b.knob));
    assert(ha == hb);
    let ra = da + path_tail(a.knob);
    let rb = db + path_tail(b.knob);
    assert(s.skip(ha.len() as int) =~= ra);
    assert(s.skip(hb.len() as int) =~= rb);
    lemma_number_ends_at_stroke(da, path_tail(a.knob), db, path_tail(b.knob));
}

impl Control {
    /// The path of the file that stands for the control.
    pub fn path(&self) -> (r: String)
        ensures
            r@ == control_path(*self),
    {
        match self.knob {
            Knob::Online => sysfs::cpu_online(self.id),
            Knob::Governor => sysfs::cpufreq_governor(self.id),
            Knob::FreqMax => sysfs::cpufreq_max_khz(self.id),
            Knob::FreqMin => sysfs::cpufreq_min_khz(self.id),
            Knob::Epb => sysfs::intel_pstate_epb(self.id),
            Knob::Epp => sysfs::intel_pstate_epp(self.id),
            Knob::GpuBoost => sysfs::i915_boost_mhz(self.id),
            Knob::GpuMax => sysfs::i915_max_mhz(self.id),
            Knob::GpuMin => sysfs::i915_min_mhz(self.id),
        }
    }
}

/// A value for the same control of every target, as the text to write.
#[derive(Debug)]
pub struct Setting {
    pub knob: Knob,
    pub text: String,
}

pub struct SettingView {
    pub knob: Knob,
    pub text: Seq<char>,
}

impl DeepView for Setting {
    type V = SettingView;

    open spec fn deep_view(&self) -> SettingView {
        SettingView { knob: self.knob, text: self.text@ }
    }
}

/// A value for one control, as the text to write.
#[derive(Debug)]
pub struct Step {
    pub control: Control,
    pub text: String,
}

pub struct StepView {
    pub control: Control,
    pub text: Seq<char>,
}

impl DeepView for Step {
    type V = StepView;

    open spec fn deep_view(&self) -> StepView {
        StepView { control: self.control, text: self.text@ }
    }
}

/// An operation on the pseudo-file tree, for the caller to perform.
#[derive(Debug)]
pub enum Op {
    /// Read the file at this path.
    Read(String),
    /// Write the text to the file at the path.
    Write(Put),
}

pub enum OpView {
    Read(Seq<char>),
    Write(PutView),
}

impl DeepView for Op {
    type V = OpView;

    open spec fn deep_view(&self) -> OpView {
        match self {
            Op::Read(p) => OpView::Read(p@),
            Op::Write(w) => OpView::Write(w.deep_view()),
        }
    }
}

/// An operation in terms of controls.
pub enum Move {
    Read(Control),
    Write(StepView),
}

/// The operation on files that a move comes to.
pub open spec fn move_op(m: Move) -> OpView {
    match m {
        Move::Read(c) => OpView::Read(control_path(c)),
        Move::Write(s) => OpView::Write(PutView { path: control_path(s.control), text: s.text }),
    }
}

/// Where a transaction stands.
#[derive(Clone, Copy, Debug, PartialEq, Eq, Structural)]
pub enum Stage {
    /// The online flag of a processor is to be read.
    Probe,
    /// The values for a processor are being written.
    Writes,
    /// The closing writes are being made, after the last processor.
    Closing,
    /// Everything was done.
    Done,
    /// A failure ended the transaction.
    Failed,
}

/// A transaction as a plain value.
pub struct TransactionView {
    /// The values for each processor, in the order in which they are set.
    pub settings: Seq<SettingView>,
    /// Whether the processors are meant to be online, if the request says.
    pub online: Option<bool>,
    /// The switches: the one at place `i` is for processor `i`.
    pub toggles: Seq<Option<bool>>,
    /// The processors, in the order in which they are handled.
    pub targets: Seq<u64>,
    pub stage: Stage,
    /// The place in `targets` of the processor that is being handled.
    pub index: nat,
    /// The writes that are left in this stage, the next one first.
    pub rest: Seq<StepView>,
    /// The failure that ended the transaction.
    pub failure: Option<ErrorView>,
}

/// `setting` for the target `id`.
pub open spec fn step_for(setting: SettingView, id: u64) -> StepView {
    StepView { control: Control { knob: setting.knob, id }, text: setting.text }
}

/// The settings, each for the target `id`.
pub open spec fn steps_for(settings: Seq<SettingView>, id: u64) -> Seq<StepView> {
    Seq::new(settings.len(), |i: int| step_for(settings[i], id))
}

/// The write that takes processor `cpu` online or offline.
pub open spec fn online_step(cpu: u64, on: bool) -> StepView {
    StepView { control: Control { knob: Knob::Online, id: cpu }, text: bool_text(on) }
}

/// Whether a processor is meant to be online in the end: as the request
/// says, or else as it was found.
pub open spec fn meant_online(online: Option<bool>, found_online: bool) -> bool {
    match online {
        Some(on) => on,
        None => found_online,
    }
}

/// The writes for one processor that was found online or offline: take it
/// online if it is not, write the settings, take it offline if it is meant
/// to be.
pub open spec fn target_steps(
    settings: Seq<SettingView>,
    online: Option<bool>,
    cpu: u64,
    found_online: bool,
) -> Seq<StepView> {
    (if found_online {
        Seq::empty()
    } else {
        seq![online_step(cpu, true)]
    }) + steps_for(settings, cpu) + (if meant_online(online, found_online) {
        Seq::empty()
    } else {
        seq![online_step(cpu, false)]
    })
}

/// The writes that the switches ask for, in the order of the processors.
pub open spec fn toggle_steps(toggles: Seq<Option<bool>>) -> Seq<StepView>
    decreases toggles.len(),
{
    if toggles.len() == 0 {
        Seq::empty()
    } else {
        let before = toggle_steps(toggles.drop_last());
        match toggles.last() {
            Some(on) => before.push(online_step((toggles.len() - 1) as u64, on)),
            None => before,
        }
    }
}

/// The writes for the graphics cards: the settings for the first card, then
/// those for the next, and so on.
pub open spec fn card_steps(settings: Seq<SettingView>, cards: Seq<u64>) -> Seq<StepView>
    decreases cards.len(),
{
    if cards.len() == 0 {
        Seq::empty()
    } else {
        card_steps(settings, cards.drop_last()) + steps_for(settings, cards.last())
    }
}

/// A transaction with nothing to do.
pub open spec fn idle() -> TransactionView {
    TransactionView {
        settings: Seq::empty(),
        online: None,
        toggles: Seq::empty(),
        targets: Seq::empty(),
        stage: Stage::Done,
        index: 0,
        rest: Seq::empty(),
        failure: None,
    }
}

/// A transaction that makes the given writes and nothing else.
pub open spec fn queued(steps: Seq<StepView>) -> TransactionView {
    if steps.len() > 0 {
        TransactionView { stage: Stage::Closing, rest: steps, ..idle() }
    } else {
        idle()
    }
}

/// The transaction after its last processor: the switches are left.
pub open spec fn close(v: TransactionView) -> TransactionView {
    let steps = toggle_steps(v.toggles);
    if steps.len() > 0 {
        TransactionView { stage: Stage::Closing, rest: steps, ..v }
    } else {
        TransactionView { stage: Stage::Done, rest: Seq::empty(), ..v }
    }
}

/// A transaction at its start.
pub open spec fn begin(
    settings: Seq<SettingView>,
    online: Option<bool>,
    toggles: Seq<Option<bool>>,
    targets: Seq<u64>,
) -> TransactionView {
    let v = TransactionView {
        settings,
        online,
        toggles,
        targets,
        stage: Stage::Probe,
        index: 0,
        rest: Seq::empty(),
        failure: None,
    };
    if targets.len() > 0 {
        v
    } else {
        close(v)
    }
}

/// The transaction moved on to where an operation is pending, if the writes
/// of its stage have run out.
pub open spec fn settle(v: TransactionView) -> TransactionView {
    if v.rest.len() > 0 {
        v
    } else {
        match v.stage {
            Stage::Writes => if v.index + 1 < v.targets.len() {
                TransactionView { stage: Stage::Probe, index: v.index + 1, ..v }
            } else {
                close(v)
            },
            Stage::Closing => TransactionView { stage: Stage::Done, ..v },
            _ => v,
        }
    }
}

/// The transaction ended by a failure.
pub open spec fn failed(v: TransactionView, e: ErrorView) -> TransactionView {
    TransactionView { stage: Stage::Failed, rest: Seq::empty(), failure: Some(e), ..v }
}

/// The error of the module that looks after a control.
pub open spec fn error_of(knob: Knob, e: crate::pseudofs::ErrorView) -> ErrorView {
    match knob {
        Knob::Online => ErrorView::CpuxCpu(cpu::ErrorView::CpuxPseudofs(e)),
        Knob::Governor | Knob::FreqMax | Knob::FreqMin => ErrorView::CpuxCpufreq(e),
        Knob::Epb | Knob::Epp => ErrorView::CpuxIntelPstate(e),
        Knob::GpuBoost | Knob::GpuMax | Knob::GpuMin => ErrorView::CpuxI915(
            i915::ErrorView::CpuxPseudofs(e),
        ),
    }
}

/// What a write to a control came to: done, passed over because the control
/// is not there, or failed.
pub open spec fn write_outcome(c: Control, reply: Result<Seq<char>, IoFailureView>) -> Result<
    (),
    ErrorView,
> {
    match reply {
        Ok(_) => Ok(()),
        Err(f) => if is_absence(classify(control_path(c), f)) {
            Ok(())
        } else {
            Err(error_of(c.knob, classify(control_path(c), f)))
        },
    }
}

/// Whether a processor counts as online, from what reading its flag gave.
pub open spec fn probe_outcome(cpu: u64, reply: Result<Seq<char>, IoFailureView>) -> Result<
    bool,
    ErrorView,
> {
    match defaulted(bool_read(sysfs::cpu_online_path(cpu), reply), true) {
        Ok(on) => Ok(on),
        Err(e) => Err(error_of(Knob::Online, e)),
    }
}

/// Whether the parts of a transaction fit together.
pub open spec fn wf(v: TransactionView) -> bool {
    match v.stage {
        Stage::Probe => v.index < v.targets.len() && v.rest.len() == 0 && v.failure is None,
        Stage::Writes => v.index < v.targets.len() && v.rest.len() > 0 && v.failure is None,
        Stage::Closing => v.rest.len() > 0 && v.failure is None,
        Stage::Done => v.rest.len() == 0 && v.failure is None,
        Stage::Failed => v.rest.len() == 0 && v.failure is Some,
    }
}

/// The operation that the caller is to perform next; none once the
/// transaction is done or has failed.
pub open spec fn pending(v: TransactionView) -> Option<Move> {
    match v.stage {
        Stage::Probe => Some(
            Move::Read(Control { knob: Knob::Online, id: v.targets[v.index as int] }),
        ),
        Stage::Writes | Stage::Closing => Some(Move::Write(v.rest[0])),
        Stage::Done | Stage::Failed => None,
    }
}

/// The transaction after the pending operation gave `reply`: the text of the
/// file for a read, any text for a write that was done, or the failure.
pub open spec fn advance(
    v: TransactionView,
    reply: Result<Seq<char>, IoFailureView>,
) -> TransactionView {
    match v.stage {
        Stage::Probe => {
            let cpu = v.targets[v.index as int];
            match probe_outcome(cpu, reply) {
                Err(e) => failed(v, e),
                Ok(on) => settle(
                    TransactionView {
                        stage: Stage::Writes,
                        rest: target_steps(v.settings, v.online, cpu, on),
                        ..v
                    },
                ),
            }
        },
        Stage::Writes | Stage::Closing => match write_outcome(v.rest[0].control, reply) {
            Err(e) => failed(v, e),
            Ok(_) => settle(TransactionView { rest: v.rest.skip(1), ..v }),
        },
        Stage::Done | Stage::Failed => v,
    }
}

/// How a transaction ended; `None` while an operation is pending.
pub open spec fn outcome(v: TransactionView) -> Option<Result<(), ErrorView>> {
    match v.stage {
        Stage::Done => Some(Ok(())),
        Stage::Failed => match v.failure {
            Some(e) => Some(Err(e)),
            None => None,
        },
        _ => None,
    }
}

/// The parts of a transaction fit together at its start, and still do after
/// any reply.
pub proof fn law_parts_fit(v: TransactionView, reply: Result<Seq<char>, IoFailureView>)
    ensures
        wf(idle()),
        forall|steps: Seq<StepView>| wf(#[trigger] queued(steps)),
        wf(begin(v.settings, v.online, v.toggles, v.targets)),
        wf(v) ==> wf(advance(v, reply)),
{
}

/// A processor that is found offline, under a request that says nothing
/// about online, is taken online, given the settings, and taken offline
/// again, in that order and with nothing in between.
pub proof fn law_offline_target_is_restored(v: TransactionView, flag: Seq<char>)
    requires
        wf(v),
        v.stage == Stage::Probe,
        v.online is None,
        crate::text::strip_newline(flag) == bool_text(false),
    ensures
        ({
            let cpu = v.targets[v.index as int];
            let a = advance(v, Ok(flag));
            &&& a.stage == Stage::Writes
            &&& a.index == v.index
            &&& a.rest == seq![online_step(cpu, true)] + steps_for(v.settings, cpu)
                + seq![online_step(cpu, false)]
        }),
{
    assert(bool_text(false)[0] != bool_text(true)[0]);
}

/// With a governor for the only setting, the three writes for a processor
/// that is found offline are: online, the governor, offline. Each is pending
/// once the one before it was done, and after the last the transaction has
/// left the processor.
pub proof fn law_governor_on_offline_target(
    v: TransactionView,
    flag: Seq<char>,
    governor: Seq<char>,
    done: Seq<char>,
)
    requires
        wf(v),
        v.stage == Stage::Probe,
        v.online is None,
        v.settings == seq![SettingView { knob: Knob::Governor, text: governor }],
        crate::text::strip_newline(flag) == bool_text(false),
    ensures
        ({
            let cpu = v.targets[v.index as int];
            let a = advance(v, Ok(flag));
            let b = advance(a, Ok(done));
            let c = advance(b, Ok(done));
            let d = advance(c, Ok(done));
            &&& pending(a) == Some(Move::Write(online_step(cpu, true)))
            &&& pending(b) == Some(
                Move::Write(
                    StepView { control: Control { knob: Knob::Governor, id: cpu }, text: governor },
                ),
            )
            &&& pending(c) == Some(Move::Write(online_step(cpu, false)))
            &&& d.stage != Stage::Writes
            &&& d.stage != Stage::Failed
        }),
{
    law_offline_target_is_restored(v, flag);
    let cpu = v.targets[v.index as int];
    let a = advance(v, Ok(flag));
    let gov = StepView { control: Control { knob: Knob::Governor, id: cpu }, text: governor };
    assert(steps_for(v.settings, cpu) =~= seq![gov]);
    assert(a.rest =~= seq![online_step(cpu, true), gov, online_step(cpu, false)]);
    let b = advance(a, Ok(done));
    assert(b.rest =~= seq![gov, online_step(cpu, false)]);
    let c = advance(b, Ok(done));
    assert(c.rest =~= seq![online_step(cpu, false)]);
    assert(c.rest.skip(1) =~= Seq::<StepView>::empty());
}

/// A write that was done, or that found its control not there, leads to the
/// next write of the stage; any other failure ends the transaction with that
/// failure, and nothing more is pending.
pub proof fn law_writes_in_order(v: TransactionView, reply: Result<Seq<char>, IoFailureView>)
    requires
        wf(v),
        v.stage == Stage::Writes || v.stage == Stage::Closing,
    ensures
        write_outcome(v.rest[0].control, reply) is Ok && v.rest.len() > 1 ==> advance(v, reply)
            == (TransactionView { rest: v.rest.skip(1), ..v }),
        write_outcome(v.rest[0].control, reply) is Err ==> pending(advance(v, reply)) is None
            && outcome(advance(v, reply)) == Some(
            Err::<(), ErrorView>(write_outcome(v.rest[0].control, reply)->Err_0),
        ),
{
}

/// A transaction: the request, the targets, and how far it has come.
pub struct Transaction {
    settings: Vec<Setting>,
    online: Option<bool>,
    toggles: Vec<Option<bool>>,
    targets: Vec<u64>,
    stage: Stage,
    index: usize,
    queue: Vec<Step>,
    head: usize,
    failure: Option<Error>,
}

impl DeepView for Transaction {
    type V = TransactionView;

    closed spec fn deep_view(&self) -> TransactionView {
        TransactionView {
            settings: self.settings.deep_view(),
            online: self.online,
            toggles: self.toggles@,
            targets: self.targets@,
            stage: self.stage,
            index: self.index as nat,
            rest: self.queue.deep_view().skip(self.head as int),
            failure: self.failure.deep_view(),
        }
    }
}

/// Appends the settings, each for the target `id`.
fn push_steps(out: &mut Vec<Step>, settings: &Vec<Setting>, id: u64)
    ensures
        final(out).deep_view() == old(out).deep_view() + steps_for(settings.deep_view(), id),
{
    let n = settings.len();
    let mut k: usize = 0;
    let ghost all = steps_for(settings.deep_view(), id);
    assert(out.deep_view() =~= old(out).deep_view() + all.take(0));
    while k < n
        invariant
            k <= n,
            n == settings@.len(),
            all == steps_for(settings.deep_view(), id),
            out.deep_view() == old(out).deep_view() + all.take(k as int),
        decreases n - k,
    {
        let ghost before = out.deep_view();
        let step = Step {
            control: Control { knob: settings[k].knob, id },
            text: settings[k].text.clone(),
        };
        out.push(step);
        proof {
            assert(step.deep_view() == all[k as int]);
            assert(out.deep_view() =~= before.push(all[k as int]));
            assert(all.take(k + 1) =~= all.take(k as int).push(all[k as int]));
            assert(out.deep_view() =~= old(out).deep_view() + all.take(k + 1));
        }
        k += 1;
    }
    assert(all.take(n as int) =~= all);
}

/// The write that takes processor `cpu` online or offline.
fn online_write(cpu: u64, on: bool) -> (r: Step)
    ensures
        r.deep_view() == online_step(cpu, on),
{
    let w = cpu::try_set_online(cpu, on);
    Step { control: Control { knob: Knob::Online, id: cpu }, text: w.text }
}

/// The writes for one processor.
fn target_queue(settings: &Vec<Setting>, online: Option<bool>, cpu: u64, found_online: bool) -> (r:
    Vec<Step>)
    ensures
        r.deep_view() == target_steps(settings.deep_view(), online, cpu, found_online),
{
    let mut out: Vec<Step> = Vec::new();
    let ghost empty = out.deep_view();
    assert(empty =~= Seq::<StepView>::empty());
    if !found_online {
        out.push(online_write(cpu, true));
    }
    let ghost forced = out.deep_view();
    assert(forced =~= if found_online {
        Seq::<StepView>::empty()
    } else {
        seq![online_step(cpu, true)]
    });
    push_steps(&mut out, settings, cpu);
    let ghost middle = out.deep_view();
    let meant = match online {
        Some(on) => on,
        None => found_online,
    };
    if !meant {
        out.push(online_write(cpu, false));
        assert(out.deep_view() =~= middle + seq![online_step(cpu, false)]);
    } else {
        assert(out.deep_view() =~= middle + Seq::<StepView>::empty());
    }
    out
}

/// The writes that the switches ask for.
fn toggle_queue(toggles: &Vec<Option<bool>>) -> (r: Vec<Step>)
    ensures
        r.deep_view() == toggle_steps(toggles@),
{
    let n = toggles.len();
    let mut out: Vec<Step> = Vec::new();
    let mut k: usize = 0;
    assert(toggles@.take(0) =~= Seq::<Option<bool>>::empty());
    assert(out.deep_view() =~= Seq::<StepView>::empty());
    while k < n
        invariant
            k <= n,
            n == toggles@.len(),
            out.deep_view() == toggle_steps(toggles@.take(k as int)),
        decreases n - k,
    {
        let ghost before = out.deep_view();
        let ghost longer = toggles@.take(k + 1);
        assert(longer.drop_last() =~= toggles@.take(k as int));
        match toggles[k] {
            Some(on) => {
                let step = online_write(k as u64, on);
                out.push(step);
                assert(out.deep_view() =~= before.push(online_step(k as u64, on)));
            },
            None => {},
        }
        k += 1;
    }
    assert(toggles@.take(n as int) =~= toggles@);
    out
}

/// What a write to a control came to.
fn written(control: Control, reply: Result<String, IoFailure>) -> (r: Result<(), Error>)
    ensures
        deep(r) == write_outcome(control, deep(reply)),
{
    let raw: Result<(), IoFailure> = match reply {
        Ok(_) => Ok(()),
        Err(f) => Err(f),
    };
    match control.knob {
        Knob::Online => match cpu::set_online(control.id, raw) {
            Ok(_) => Ok(()),
            Err(e) => Err(Error::CpuxCpu(e)),
        },
        Knob::Governor => match cpufreq::set_governor(control.id, raw) {
            Ok(_) => Ok(()),
            Err(e) => Err(Error::CpuxCpufreq(e)),
        },
        Knob::FreqMax => match cpufreq::set_max(control.id, raw) {
            Ok(_) => Ok(()),
            Err(e) => Err(Error::CpuxCpufreq(e)),
        },
        Knob::FreqMin => match cpufreq::set_min(control.id, raw) {
            Ok(_) => Ok(()),
            Err(e) => Err(Error::CpuxCpufreq(e)),
        },
        Knob::Epb => match intel_pstate::set_epb(control.id, raw) {
            Ok(_) => Ok(()),
            Err(e) => Err(Error::CpuxIntelPstate(e)),
        },
        Knob::Epp => match intel_pstate::set_epp(control.id, raw) {
            Ok(_) => Ok(()),
            Err(e) => Err(Error::CpuxIntelPstate(e)),
        },
        Knob::GpuBoost => match i915::set_boost(control.id, raw) {
            Ok(_) => Ok(()),
            Err(e) => Err(Error::CpuxI915(e)),
        },
        Knob::GpuMax => match i915::set_max(control.id, raw) {
            Ok(_) => Ok(()),
            Err(e) => Err(Error::CpuxI915(e)),
        },
        Knob::GpuMin => match i915::set_min(control.id, raw) {
            Ok(_) => Ok(()),
            Err(e) => Err(Error::CpuxI915(e)),
        },
    }
}

/// Whether a processor counts as online.
fn probed_online(cpu: u64, reply: Result<String, IoFailure>) -> (r: Result<bool, Error>)
    ensures
        deep(r) == probe_outcome(cpu, deep(reply)),
{
    match cpu::online(cpu, reply) {
        Ok(Some(on)) => Ok(on),
        Ok(None) => Ok(true),
        Err(e) => Err(Error::CpuxCpu(e)),
    }
}

impl Transaction {
    #[verifier::type_invariant]
    spec fn inv(self) -> bool {
        self.head <= self.queue@.len() && wf(self.deep_view())
    }

    /// A transaction with nothing to do.
    pub fn idle() -> (r: Transaction)
        ensures
            r.deep_view() == idle(),
    {
        let r = Transaction {
            settings: Vec::new(),
            online: None,
            toggles: Vec::new(),
            targets: Vec::new(),
            stage: Stage::Done,
            index: 0,
            queue: Vec::new(),
            head: 0,
            failure: None,
        };
        assert(r.deep_view() =~= idle()) by {
            assert(r.deep_view().settings =~= idle().settings);
            assert(r.deep_view().rest =~= idle().rest);
        }
        r
    }

    /// A transaction that sets `settings` on each of `targets`, which are
    /// processors, and then throws the switches in `toggles`.
    pub fn begin(
        settings: Vec<Setting>,
        online: Option<bool>,
        toggles: Vec<Option<bool>>,
        targets: Vec<u64>,
    ) -> (r: Transaction)
        ensures
            r.deep_view() == begin(settings.deep_view(), online, toggles@, targets@),
    {
        if targets.len() > 0 {
            let r = Transaction {
                settings,
                online,
                toggles,
                targets,
                stage: Stage::Probe,
                index: 0,
                queue: Vec::new(),
                head: 0,
                failure: None,
            };
            assert(r.deep_view().rest =~= Seq::<StepView>::empty());
            r
        } else {
            let ghost wanted = toggles@;
            let queue = toggle_queue(&toggles);
            assert(queue.deep_view().len() == queue@.len());
            let stage = if queue.len() > 0 {
                Stage::Closing
            } else {
                Stage::Done
            };
            let r = Transaction {
                settings,
                online,
                toggles,
                targets,
                stage,
                index: 0,
                queue,
                head: 0,
                failure: None,
            };
            assert(r.deep_view().rest =~= toggle_steps(wanted));
            assert(toggle_steps(wanted).len() == 0 ==> toggle_steps(wanted)
                =~= Seq::<StepView>::empty());
            r
        }
    }

    /// A transaction that sets `settings` on each of `cards`, which are
    /// graphics cards.
    pub fn for_cards(settings: Vec<Setting>, cards: Vec<u64>) -> (r: Transaction)
        ensures
            r.deep_view() == queued(card_steps(settings.deep_view(), cards@)),
    {
        let n = cards.len();
        let mut queue: Vec<Step> = Vec::new();
        let mut k: usize = 0;
        assert(cards@.take(0) =~= Seq::<u64>::empty());
        assert(queue.deep_view() =~= Seq::<StepView>::empty());
        while k < n
            invariant
                k <= n,
                n == cards@.len(),
                queue.deep_view() == card_steps(settings.deep_view(), cards@.take(k as int)),
            decreases n - k,
        {
            assert(cards@.take(k + 1).drop_last() =~= cards@.take(k as int));
            push_steps(&mut queue, &settings, cards[k]);
            k += 1;
        }
        assert(cards@.take(n as int) =~= cards@);
        assert(queue.deep_view().len() == queue@.len());
        let stage = if queue.len() > 0 {
            Stage::Closing
        } else {
            Stage::Done
        };
        let r = Transaction {
            settings: Vec::new(),
            online: None,
            toggles: Vec::new(),
            targets: Vec::new(),
            stage,
            index: 0,
            queue,
            head: 0,
            failure: None,
        };
        assert(r.deep_view().settings =~= idle().settings);
        assert(r.deep_view().rest =~= card_steps(settings.deep_view(), cards@));
        assert(r.deep_view().rest.len() == 0 ==> r.deep_view().rest =~= Seq::<StepView>::empty());
        r
    }

    /// The operation that the caller is to perform next; `None` once the
    /// transaction is done or has failed.
    pub fn pending(&self) -> (r: Option<Op>)
        ensures
            r.deep_view() == match pending(self.deep_view()) {
                Some(m) => Some(move_op(m)),
                None => None,
            },
    {
        proof {
            use_type_invariant(self);
        }
        match self.stage {
            Stage::Probe => {
                let control = Control { knob: Knob::Online, id: self.targets[self.index] };
                Some(Op::Read(control.path()))
            },
            Stage::Writes | Stage::Closing => {
                assert(self.queue.deep_view().len() == self.queue@.len());
                let step = &self.queue[self.head];
                assert(self.deep_view().rest[0] == step.deep_view());
                Some(Op::Write(Put { path: step.control.path(), text: step.text.clone() }))
            },
            Stage::Done | Stage::Failed => None,
        }
    }

    /// Whether nothing is pending: the transaction is done or has failed.
    pub fn is_over(&self) -> (r: bool)
        ensures
            r == (pending(self.deep_view()) is None),
    {
        match self.stage {
            Stage::Done | Stage::Failed => true,
            _ => false,
        }
    }

    /// How the transaction ended; `None` while an operation is pending.
    pub fn outcome(self) -> (r: Option<Result<(), Error>>)
        ensures
            r is Some <==> pending(self.deep_view()) is None,
            match outcome(self.deep_view()) {
                Some(o) => r is Some && deep(r->Some_0) == o,
                None => r is None,
            },
    {
        proof {
            use_type_invariant(&self);
        }
        match self.stage {
            Stage::Done => Some(Ok(())),
            Stage::Failed => match self.failure {
                Some(e) => Some(Err(e)),
                None => None,
            },
            _ => None,
        }
    }

    /// Moves on after the pending operation, given what it gave: for a read
    /// the text of the file, for a write that was done any text, or else the
    /// failure. With nothing pending the transaction stays as it is.
    pub fn advance(self, reply: Result<String, IoFailure>) -> (r: Transaction)
        ensures
            r.deep_view() == advance(self.deep_view(), deep(reply)),
    {
        proof {
            use_type_invariant(&self);
        }
        let ghost v = self.deep_view();
        match self.stage {
            Stage::Probe => {
                let cpu = self.targets[self.index];
                match probed_online(cpu, reply) {
                    Err(e) => {
                        let r = Transaction {
                            settings: self.settings,
                            online: self.online,
                            toggles: self.toggles,
                            targets: self.targets,
                            stage: Stage::Failed,
                            index: self.index,
                            queue: Vec::new(),
                            head: 0,
                            failure: Some(e),
                        };
                        assert(r.deep_view().rest =~= Seq::<StepView>::empty());
                        r
                    },
                    Ok(on) => {
                        let queue = target_queue(&self.settings, self.online, cpu, on);
                        assert(queue.deep_view().skip(0) =~= queue.deep_view());
                        Transaction::settled(
                            self.settings,
                            self.online,
                            self.toggles,
                            self.targets,
                            Stage::Writes,
                            self.index,
                            queue,
                            0,
                        )
                    },
                }
            },
            Stage::Writes | Stage::Closing => {
                assert(self.queue.deep_view().len() == self.queue@.len());
                let len = self.queue.len();
                let control = self.queue[self.head].control;
                assert(v.rest[0] == self.queue@[self.head as int].deep_view());
                match written(control, reply) {
                    Err(e) => {
                        let r = Transaction {
                            settings: self.settings,
                            online: self.online,
                            toggles: self.toggles,
                            targets: self.targets,
                            stage: Stage::Failed,
                            index: self.index,
                            queue: Vec::new(),
                            head: 0,
                            failure: Some(e),
                        };
                        assert(r.deep_view().rest =~= Seq::<StepView>::empty());
                        r
                    },
                    Ok(_) => {
                        assert(self.queue.deep_view().skip(self.head + 1) =~= v.rest.skip(1));
                        let next = self.head + 1;
                        Transaction::settled(
                            self.settings,
                            self.online,
                            self.toggles,
                            self.targets,
                            self.stage,
                            self.index,
                            self.queue,
                            next,
                        )
                    },
                }
            },
            Stage::Done | Stage::Failed => self,
        }
    }

    /// The transaction with these parts, moved on to where an operation is
    /// pending.
    fn settled(
        settings: Vec<Setting>,
        online: Option<bool>,
        toggles: Vec<Option<bool>>,
        targets: Vec<u64>,
        stage: Stage,
        index: usize,
        queue: Vec<Step>,
        head: usize,
    ) -> (r: Transaction)
        requires
            head <= queue@.len(),
            stage == Stage::Writes || stage == Stage::Closing,
            stage == Stage::Writes ==> index < targets@.len(),
        ensures
            r.deep_view() == settle(
                TransactionView {
                    settings: settings.deep_view(),
                    online,
                    toggles: toggles@,
                    targets: targets@,
                    stage,
                    index: index as nat,
                    rest: queue.deep_view().skip(head as int),
                    failure: None,
                },
            ),
    {
        assert(queue.deep_view().len() == queue@.len());
        if head < queue.len() {
            return Transaction {
                settings,
                online,
                toggles,
                targets,
                stage,
                index,
                queue,
                head,
                failure: None,
            };
        }
        assert(queue.deep_view().skip(head as int) =~= Seq::<StepView>::empty());
        let count = targets.len();
        match stage {
            Stage::Writes => {
                if index + 1 < count {
                    Transaction {
                        settings,
                        online,
                        toggles,
                        targets,
                        stage: Stage::Probe,
                        index: index + 1,
                        queue,
                        head,
                        failure: None,
                    }
                } else {
                    let ghost wanted = toggles@;
                    let closing = toggle_queue(&toggles);
                    assert(closing.deep_view().len() == closing@.len());
                    let stage = if closing.len() > 0 {
                        Stage::Closing
                    } else {
                        Stage::Done
                    };
                    let r = Transaction {
                        settings,
                        online,
                        toggles,
                        targets,
                        stage,
                        index,
                        queue: closing,
                        head: 0,
                        failure: None,
                    };
                    assert(r.deep_view().rest =~= toggle_steps(wanted));
                    assert(toggle_steps(wanted).len() == 0 ==> toggle_steps(wanted)
                        =~= Seq::<StepView>::empty());
                    r
                }
            },
            _ => Transaction {
                settings,
                online,
                toggles,
                targets,
                stage: Stage::Done,
                index,
                queue,
                head,
                failure: None,
            },
        }
    }
}

} // verus!
