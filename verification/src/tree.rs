//! A model of the pseudo-file tree, to say what a transaction comes to.
//!
//! The model is the simplest tree that behaves like the kernel's: a file
//! holds the text that was last written to it, no write makes or removes a
//! file, and an operation on a file that is not there fails as "not found".
//! The kernel may do more (clamp a limit, refuse a governor); the laws here
//! hold of a tree that does not.

use crate::cli::ErrorView;
use crate::pseudofs::{bool_text, IoFailureView, IoKind};
use crate::transaction::{
    advance, begin, close, online_step, outcome, pending, probe_outcome, settle, steps_for,
    target_steps, toggle_steps, wf, Control, Knob, Move, SettingView, Stage, StepView,
    TransactionView,
};
use vstd::prelude::*;

verus! {

/// The files that exist, each under the control that it stands for, with the
/// text that it holds.
pub type Tree = Map<Control, Seq<char>>;

/// How an operation on a file that is not there fails.
pub open spec fn missing() -> IoFailureView {
    IoFailureView { kind: IoKind::NotFound, os_code: Some(2), exists: false, detail: Seq::empty() }
}

/// What an operation on the tree gives.
pub open spec fn reply(tree: Tree, m: Move) -> Result<Seq<char>, IoFailureView> {
    match m {
        Move::Read(c) => if tree.contains_key(c) {
            Ok(tree[c])
        } else {
            Err(missing())
        },
        Move::Write(s) => if tree.contains_key(s.control) {
            Ok(Seq::empty())
        } else {
            Err(missing())
        },
    }
}

/// The tree after an operation.
pub open spec fn after(tree: Tree, m: Move) -> Tree {
    match m {
        Move::Read(_) => tree,
        Move::Write(s) => if tree.contains_key(s.control) {
            tree.insert(s.control, s.text)
        } else {
            tree
        },
    }
}

/// A bound on the operations that a transaction still asks for, in two
/// parts: the processors that are left, and the writes of this stage.
pub open spec fn rank(v: TransactionView) -> nat {
    match v.stage {
        Stage::Probe => (2 * (v.targets.len() - v.index) + 1) as nat,
        Stage::Writes => (2 * (v.targets.len() - v.index)) as nat,
        _ => 0,
    }
}

/// The transaction carried out on the tree: each pending operation is
/// performed on the tree and its reply handed in, until none is pending.
/// The result is the transaction at its end and the tree as it then is.
pub open spec fn run(v: TransactionView, tree: Tree) -> (TransactionView, Tree)
    decreases rank(v), v.rest.len(),
    when wf(v)
{
    match pending(v) {
        None => (v, tree),
        Some(m) => run(advance(v, reply(tree, m)), after(tree, m)),
    }
}

/// The tree after the writes, made in order. A write to a file that is not
/// there changes nothing.
pub open spec fn write_all(steps: Seq<StepView>, tree: Tree) -> Tree
    decreases steps.len(),
{
    if steps.len() == 0 {
        tree
    } else {
        write_all(steps.skip(1), after(tree, Move::Write(steps[0])))
    }
}

/// Whether processor `cpu` counts as online in the tree.
pub open spec fn found_online(tree: Tree, cpu: u64) -> Result<bool, ErrorView> {
    probe_outcome(cpu, reply(tree, Move::Read(Control { knob: Knob::Online, id: cpu })))
}

/// What a transaction comes to from the processor at place `index` on: the
/// failure that ended it, if one did, and the tree at its end.
pub open spec fn applied_from(
    settings: Seq<SettingView>,
    online: Option<bool>,
    toggles: Seq<Option<bool>>,
    targets: Seq<u64>,
    index: nat,
    tree: Tree,
) -> (Option<ErrorView>, Tree)
    decreases targets.len() - index,
{
    if index >= targets.len() {
        (None, write_all(toggle_steps(toggles), tree))
    } else {
        let cpu = targets[index as int];
        match found_online(tree, cpu) {
            Err(e) => (Some(e), tree),
            Ok(on) => applied_from(
                settings,
                online,
                toggles,
                targets,
                index + 1,
                write_all(target_steps(settings, online, cpu, on), tree),
            ),
        }
    }
}

/// What a whole transaction comes to on a tree.
pub open spec fn applied(
    settings: Seq<SettingView>,
    online: Option<bool>,
    toggles: Seq<Option<bool>>,
    targets: Seq<u64>,
    tree: Tree,
) -> (Option<ErrorView>, Tree) {
    applied_from(settings, online, toggles, targets, 0, tree)
}

/// How a transaction that ended with this failure, or none, came out.
pub open spec fn as_outcome(failure: Option<ErrorView>) -> Option<Result<(), ErrorView>> {
    match failure {
        None => Some(Ok(())),
        Some(e) => Some(Err(e)),
    }
}

/// In the model no write fails: the writes of a stage are all made, and the
/// transaction goes on from the end of the stage.
pub proof fn lemma_run_writes(v: TransactionView, tree: Tree)
    requires
        wf(v),
        v.stage == Stage::Writes || v.stage == Stage::Closing,
    ensures
        run(v, tree) == run(
            settle(TransactionView { rest: Seq::empty(), ..v }),
            write_all(v.rest, tree),
        ),
    decreases v.rest.len(),
{
    let m = Move::Write(v.rest[0]);
    let next = advance(v, reply(tree, m));
    let shorter = TransactionView { rest: v.rest.skip(1), ..v };
    assert(next == settle(shorter));
    assert(run(v, tree) == run(next, after(tree, m)));
    if v.rest.len() > 1 {
        assert(next == shorter);
        lemma_run_writes(shorter, after(tree, m));
    } else {
        assert(v.rest.skip(1) =~= Seq::<StepView>::empty());
        assert(write_all(v.rest.skip(1), after(tree, m)) == after(tree, m));
    }
}

/// The transaction from the end of its last processor on: the switches.
pub proof fn lemma_run_close(v: TransactionView, tree: Tree)
    requires
        v.failure is None,
    ensures
        outcome(run(close(v), tree).0) == Some(Ok::<(), ErrorView>(())),
        run(close(v), tree).1 == write_all(toggle_steps(v.toggles), tree),
{
    let c = close(v);
    if toggle_steps(v.toggles).len() > 0 {
        lemma_run_writes(c, tree);
        let done = settle(TransactionView { rest: Seq::empty(), ..c });
        assert(done.stage == Stage::Done);
        assert(run(done, write_all(c.rest, tree)) == (done, write_all(c.rest, tree)));
    } else {
        assert(run(c, tree) == (c, tree));
    }
}

/// Carrying a transaction out step by step comes to what `applied_from`
/// says.
pub proof fn lemma_run_from_probe(v: TransactionView, tree: Tree)
    requires
        wf(v),
        v.stage == Stage::Probe,
    ensures
        outcome(run(v, tree).0) == as_outcome(
            applied_from(v.settings, v.online, v.toggles, v.targets, v.index, tree).0,
        ),
        run(v, tree).1 == applied_from(
            v.settings,
            v.online,
            v.toggles,
            v.targets,
            v.index,
            tree,
        ).1,
    decreases v.targets.len() - v.index,
{
    let cpu = v.targets[v.index as int];
    let m = Move::Read(Control { knob: Knob::Online, id: cpu });
    let next = advance(v, reply(tree, m));
    assert(run(v, tree) == run(next, tree));
    match found_online(tree, cpu) {
        Err(e) => {
            assert(run(next, tree) == (next, tree));
            assert(applied_from(v.settings, v.online, v.toggles, v.targets, v.index, tree) == (
                Some(e),
                tree,
            ));
        },
        Ok(on) => {
            let steps = target_steps(v.settings, v.online, cpu, on);
            let w = TransactionView { stage: Stage::Writes, rest: steps, ..v };
            let emptied = TransactionView { rest: Seq::empty(), ..w };
            let onward = settle(emptied);
            let t = write_all(steps, tree);
            if steps.len() > 0 {
                assert(next == w);
                lemma_run_writes(w, tree);
            } else {
                assert(steps =~= Seq::<StepView>::empty());
                assert(w == emptied);
            }
            assert(run(next, tree) == run(onward, t));
            let rest_of_it = applied_from(
                v.settings,
                v.online,
                v.toggles,
                v.targets,
                v.index + 1,
                t,
            );
            assert(applied_from(v.settings, v.online, v.toggles, v.targets, v.index, tree)
                == rest_of_it);
            if v.index + 1 < v.targets.len() {
                lemma_run_from_probe(onward, t);
            } else {
                assert(onward == close(emptied));
                lemma_run_close(emptied, t);
                assert(rest_of_it == (None::<ErrorView>, write_all(toggle_steps(v.toggles), t)));
            }
        },
    }
}

/// Carried out on a tree one operation at a time, a transaction ends as
/// `applied` says and leaves the tree that `applied` says.
pub proof fn law_run_is_applied(
    settings: Seq<SettingView>,
    online: Option<bool>,
    toggles: Seq<Option<bool>>,
    targets: Seq<u64>,
    tree: Tree,
)
    ensures
        outcome(run(begin(settings, online, toggles, targets), tree).0) == as_outcome(
            applied(settings, online, toggles, targets, tree).0,
        ),
        run(begin(settings, online, toggles, targets), tree).1 == applied(
            settings,
            online,
            toggles,
            targets,
            tree,
        ).1,
{
    let v = begin(settings, online, toggles, targets);
    if targets.len() > 0 {
        lemma_run_from_probe(v, tree);
    } else {
        let base = TransactionView {
            settings,
            online,
            toggles,
            targets,
            stage: Stage::Probe,
            index: 0,
            rest: Seq::empty(),
            failure: None,
        };
        lemma_run_close(base, tree);
    }
}

/// The text of the last write to `control` among the steps, if there is one.
pub open spec fn last_text(steps: Seq<StepView>, control: Control) -> Option<Seq<char>>
    decreases steps.len(),
{
    if steps.len() == 0 {
        None
    } else if steps.last().control == control {
        Some(steps.last().text)
    } else {
        last_text(steps.drop_last(), control)
    }
}

/// Making one more write after the others.
pub proof fn lemma_write_all_push(steps: Seq<StepView>, last: StepView, tree: Tree)
    ensures
        write_all(steps.push(last), tree) == after(write_all(steps, tree), Move::Write(last)),
    decreases steps.len(),
{
    let longer = steps.push(last);
    if steps.len() == 0 {
        assert(longer.skip(1) =~= Seq::<StepView>::empty());
        assert(write_all(longer.skip(1), after(tree, Move::Write(last))) == after(
            tree,
            Move::Write(last),
        ));
    } else {
        assert(longer.skip(1) =~= steps.skip(1).push(last));
        lemma_write_all_push(steps.skip(1), last, after(tree, Move::Write(steps[0])));
    }
}

/// Writes make and remove no file, and each file that is there holds in the
/// end what was last written to it, or what it held before if nothing was.
pub proof fn lemma_write_all(steps: Seq<StepView>, tree: Tree)
    ensures
        write_all(steps, tree).dom() == tree.dom(),
        forall|c: Control| #[trigger]
            tree.contains_key(c) ==> write_all(steps, tree)[c] == (match last_text(steps, c) {
                Some(t) => t,
                None => tree[c],
            }),
    decreases steps.len(),
{
    if steps.len() > 0 {
        let before = steps.drop_last();
        assert(steps =~= before.push(steps.last()));
        lemma_write_all_push(before, steps.last(), tree);
        lemma_write_all(before, tree);
        assert(write_all(steps, tree).dom() =~= tree.dom());
    }
}

/// The switches write to online flags only, and to each at most once: the
/// last text for a control is the switch of its processor.
pub proof fn lemma_toggle_steps(toggles: Seq<Option<bool>>, c: Control)
    requires
        toggles.len() <= u64::MAX,
    ensures
        last_text(toggle_steps(toggles), c) == (if c.knob == Knob::Online && c.id < toggles.len() {
            match toggles[c.id as int] {
                Some(on) => Some(bool_text(on)),
                None => None,
            }
        } else {
            None
        }),
    decreases toggles.len(),
{
    if toggles.len() > 0 {
        let before = toggles.drop_last();
        lemma_toggle_steps(before, c);
        match toggles.last() {
            Some(on) => {
                let steps = toggle_steps(toggles);
                assert(steps.drop_last() =~= toggle_steps(before));
            },
            None => {},
        }
    }
}

/// A transaction makes and removes no file.
pub proof fn lemma_applied_keeps_files(
    settings: Seq<SettingView>,
    online: Option<bool>,
    toggles: Seq<Option<bool>>,
    targets: Seq<u64>,
    index: nat,
    tree: Tree,
)
    ensures
        applied_from(settings, online, toggles, targets, index, tree).1.dom() == tree.dom(),
    decreases targets.len() - index,
{
    if index >= targets.len() {
        lemma_write_all(toggle_steps(toggles), tree);
    } else {
        let cpu = targets[index as int];
        match found_online(tree, cpu) {
            Err(e) => {},
            Ok(on) => {
                let t = write_all(target_steps(settings, online, cpu, on), tree);
                lemma_write_all(target_steps(settings, online, cpu, on), tree);
                lemma_applied_keeps_files(settings, online, toggles, targets, index + 1, t);
            },
        }
    }
}

/// A transaction that did not fail ended with the switches.
pub proof fn lemma_applied_ends_with_switches(
    settings: Seq<SettingView>,
    online: Option<bool>,
    toggles: Seq<Option<bool>>,
    targets: Seq<u64>,
    index: nat,
    tree: Tree,
    c: Control,
)
    requires
        toggles.len() <= u64::MAX,
        tree.contains_key(c),
        applied_from(settings, online, toggles, targets, index, tree).0 is None,
        last_text(toggle_steps(toggles), c) is Some,
    ensures
        applied_from(settings, online, toggles, targets, index, tree).1[c] == last_text(
            toggle_steps(toggles),
            c,
        )->Some_0,
    decreases targets.len() - index,
{
    if index >= targets.len() {
        lemma_write_all(toggle_steps(toggles), tree);
    } else {
        let cpu = targets[index as int];
        match found_online(tree, cpu) {
            Err(e) => {},
            Ok(on) => {
                let t = write_all(target_steps(settings, online, cpu, on), tree);
                lemma_write_all(target_steps(settings, online, cpu, on), tree);
                assert(t.contains_key(c));
                lemma_applied_ends_with_switches(
                    settings,
                    online,
                    toggles,
                    targets,
                    index + 1,
                    t,
                    c,
                );
            },
        }
    }
}

/// The switches have the last word on whether a processor is online: where
/// the switch of a processor says on or off, and the transaction does not
/// fail, the online flag of that processor holds in the end what the switch
/// says, whatever the request says of online and however the processor was
/// found.
pub proof fn law_switches_have_the_last_word(
    settings: Seq<SettingView>,
    online: Option<bool>,
    toggles: Seq<Option<bool>>,
    targets: Seq<u64>,
    tree: Tree,
    cpu: u64,
    on: bool,
)
    requires
        toggles.len() <= u64::MAX,
        cpu < toggles.len(),
        toggles[cpu as int] == Some(on),
        tree.contains_key(Control { knob: Knob::Online, id: cpu }),
        applied(settings, online, toggles, targets, tree).0 is None,
    ensures
        applied(settings, online, toggles, targets, tree).1.contains_key(
            Control { knob: Knob::Online, id: cpu },
        ),
        applied(settings, online, toggles, targets, tree).1[Control {
            knob: Knob::Online,
            id: cpu,
        }] == bool_text(on),
        found_online(applied(settings, online, toggles, targets, tree).1, cpu) == Ok::<
            bool,
            ErrorView,
        >(on),
{
    let c = Control { knob: Knob::Online, id: cpu };
    lemma_toggle_steps(toggles, c);
    lemma_applied_keeps_files(settings, online, toggles, targets, 0, tree);
    lemma_applied_ends_with_switches(settings, online, toggles, targets, 0, tree, c);
    crate::pseudofs::law_written_value_reads_back(crate::sysfs::cpu_online_path(cpu), 0, on);
}

/// The text of the last setting for `knob`, if there is one.
pub open spec fn last_setting(settings: Seq<SettingView>, knob: Knob) -> Option<Seq<char>>
    decreases settings.len(),
{
    if settings.len() == 0 {
        None
    } else if settings.last().knob == knob {
        Some(settings.last().text)
    } else {
        last_setting(settings.drop_last(), knob)
    }
}

/// Whether no setting is for the online flag, which the transaction looks
/// after itself.
pub open spec fn no_online_setting(settings: Seq<SettingView>) -> bool {
    forall|i: int| 0 <= i < settings.len() ==> (#[trigger] settings[i]).knob != Knob::Online
}

/// Whether no processor is named twice.
pub open spec fn distinct(targets: Seq<u64>) -> bool {
    forall|i: int, j: int| 0 <= i < j < targets.len() ==> targets[i] != targets[j]
}

/// What the writes for processor `cpu` leave in the file of `c`, if they
/// write to it.
pub open spec fn target_text(
    settings: Seq<SettingView>,
    online: Option<bool>,
    cpu: u64,
    found_online: bool,
    c: Control,
) -> Option<Seq<char>> {
    if c.id != cpu {
        None
    } else if c.knob == Knob::Online {
        if !crate::transaction::meant_online(online, found_online) {
            Some(bool_text(false))
        } else if !found_online {
            Some(bool_text(true))
        } else {
            None
        }
    } else {
        last_setting(settings, c.knob)
    }
}

/// The tree after the writes for processor `cpu`; the tree as it is where
/// the online flag of the processor cannot be read.
pub open spec fn after_target(
    settings: Seq<SettingView>,
    online: Option<bool>,
    cpu: u64,
    tree: Tree,
) -> Tree {
    match found_online(tree, cpu) {
        Ok(on) => write_all(target_steps(settings, online, cpu, on), tree),
        Err(_) => tree,
    }
}

/// Whether processor `id` is among the targets at the places from `from` up
/// to, not including, `to`.
pub open spec fn handled(targets: Seq<u64>, from: nat, to: nat, id: u64) -> bool {
    exists|m: int| from <= m < to && m < targets.len() && #[trigger] targets[m] == id
}

/// The tree after the writes for the targets at the places from `from` up
/// to `to`, each taken by itself.
pub open spec fn after_targets(
    settings: Seq<SettingView>,
    online: Option<bool>,
    targets: Seq<u64>,
    from: nat,
    to: nat,
    tree: Tree,
) -> Tree {
    Map::new(
        |c: Control| tree.contains_key(c),
        |c: Control|
            if handled(targets, from, to, c.id) {
                after_target(settings, online, c.id, tree)[c]
            } else {
                tree[c]
            },
    )
}

/// The place of the first target from `index` on whose online flag cannot
/// be read; the number of targets if there is none.
pub open spec fn first_bad(targets: Seq<u64>, index: nat, tree: Tree) -> nat
    decreases targets.len() - index,
{
    if index >= targets.len() {
        targets.len()
    } else if found_online(tree, targets[index as int]) is Err {
        index
    } else {
        first_bad(targets, index + 1, tree)
    }
}

pub proof fn lemma_last_text_concat(a: Seq<StepView>, b: Seq<StepView>, c: Control)
    ensures
        last_text(a + b, c) == (match last_text(b, c) {
            Some(t) => Some(t),
            None => last_text(a, c),
        }),
    decreases b.len(),
{
    if b.len() == 0 {
        assert(a + b =~= a);
    } else {
        assert((a + b).drop_last() =~= a + b.drop_last());
        assert((a + b).last() == b.last());
        lemma_last_text_concat(a, b.drop_last(), c);
    }
}

pub proof fn lemma_last_text_of_settings(settings: Seq<SettingView>, cpu: u64, c: Control)
    ensures
        last_text(steps_for(settings, cpu), c) == (if c.id == cpu {
            last_setting(settings, c.knob)
        } else {
            None
        }),
    decreases settings.len(),
{
    if settings.len() > 0 {
        assert(steps_for(settings, cpu).drop_last() =~= steps_for(settings.drop_last(), cpu));
        lemma_last_text_of_settings(settings.drop_last(), cpu, c);
    }
}

pub proof fn lemma_no_online_setting(settings: Seq<SettingView>)
    requires
        no_online_setting(settings),
    ensures
        last_setting(settings, Knob::Online) is None,
    decreases settings.len(),
{
    if settings.len() > 0 {
        assert(settings.last() == settings[settings.len() - 1]);
        assert forall|i: int| 0 <= i < settings.drop_last().len() implies (
        #[trigger] settings.drop_last()[i]).knob != Knob::Online by {
            assert(settings.drop_last()[i] == settings[i]);
        }
        lemma_no_online_setting(settings.drop_last());
    }
}

/// What the writes for one processor leave in each file.
pub proof fn lemma_target_steps(
    settings: Seq<SettingView>,
    online: Option<bool>,
    cpu: u64,
    found: bool,
    c: Control,
)
    requires
        no_online_setting(settings),
    ensures
        last_text(target_steps(settings, online, cpu, found), c) == target_text(
            settings,
            online,
            cpu,
            found,
            c,
        ),
{
    let force = if found {
        Seq::<StepView>::empty()
    } else {
        seq![online_step(cpu, true)]
    };
    let middle = steps_for(settings, cpu);
    let restore = if crate::transaction::meant_online(online, found) {
        Seq::<StepView>::empty()
    } else {
        seq![online_step(cpu, false)]
    };
    lemma_last_text_concat(force + middle, restore, c);
    lemma_last_text_concat(force, middle, c);
    lemma_last_text_of_settings(settings, cpu, c);
    lemma_no_online_setting(settings);
    assert(last_text(Seq::<StepView>::empty(), c) is None);
    assert(seq![online_step(cpu, true)].drop_last() =~= Seq::<StepView>::empty());
    assert(seq![online_step(cpu, false)].drop_last() =~= Seq::<StepView>::empty());
    assert(seq![online_step(cpu, true)].last() == online_step(cpu, true));
    assert(seq![online_step(cpu, false)].last() == online_step(cpu, false));
}

/// The tree after the writes for one processor, file by file.
pub proof fn lemma_after_target(
    settings: Seq<SettingView>,
    online: Option<bool>,
    cpu: u64,
    tree: Tree,
)
    requires
        no_online_setting(settings),
    ensures
        after_target(settings, online, cpu, tree).dom() == tree.dom(),
        found_online(tree, cpu) is Ok ==> forall|c: Control| #[trigger]
            tree.contains_key(c) ==> after_target(settings, online, cpu, tree)[c] == (
            match target_text(settings, online, cpu, found_online(tree, cpu)->Ok_0, c) {
                Some(t) => t,
                None => tree[c],
            }),
{
    match found_online(tree, cpu) {
        Ok(on) => {
            lemma_write_all(target_steps(settings, online, cpu, on), tree);
            assert forall|c: Control| #[trigger] tree.contains_key(c) implies after_target(
                settings,
                online,
                cpu,
                tree,
            )[c] == (match target_text(settings, online, cpu, on, c) {
                Some(t) => t,
                None => tree[c],
            }) by {
                lemma_target_steps(settings, online, cpu, on, c);
            }
        },
        Err(_) => {},
    }
}

/// Whether a processor counts as online hangs on its online flag alone.
pub proof fn lemma_found_online_same(a: Tree, b: Tree, cpu: u64)
    requires
        a.contains_key(Control { knob: Knob::Online, id: cpu }) == b.contains_key(
            Control { knob: Knob::Online, id: cpu },
        ),
        a.contains_key(Control { knob: Knob::Online, id: cpu }) ==> a[Control {
            knob: Knob::Online,
            id: cpu,
        }] == b[Control { knob: Knob::Online, id: cpu }],
    ensures
        found_online(a, cpu) == found_online(b, cpu),
{
}

/// A flag that holds what was written to it can be read.
pub proof fn lemma_found_online_written(tree: Tree, cpu: u64, on: bool)
    requires
        tree.contains_key(Control { knob: Knob::Online, id: cpu }),
        tree[Control { knob: Knob::Online, id: cpu }] == bool_text(on),
    ensures
        found_online(tree, cpu) == Ok::<bool, ErrorView>(on),
{
    crate::pseudofs::law_written_value_reads_back(crate::sysfs::cpu_online_path(cpu), 0, on);
}

/// The place of the first target whose flag cannot be read, from what holds
/// of the flags before it.
pub proof fn lemma_first_bad(targets: Seq<u64>, index: nat, bad: nat, tree: Tree)
    requires
        index <= bad <= targets.len(),
        forall|m: int| index <= m < bad ==> found_online(tree, #[trigger] targets[m]) is Ok,
        bad < targets.len() ==> found_online(tree, targets[bad as int]) is Err,
    ensures
        first_bad(targets, index, tree) == bad,
    decreases targets.len() - index,
{
    if index < targets.len() && index < bad {
        assert(found_online(tree, targets[index as int]) is Ok);
        lemma_first_bad(targets, index + 1, bad, tree);
    }
}

/// Before the first target whose flag cannot be read, every flag can.
pub proof fn lemma_first_bad_is_first(targets: Seq<u64>, index: nat, tree: Tree)
    ensures
        index <= targets.len() ==> index <= first_bad(targets, index, tree) <= targets.len(),
        forall|m: int|
            index <= m < first_bad(targets, index, tree) ==> found_online(
                tree,
                #[trigger] targets[m],
            ) is Ok,
        first_bad(targets, index, tree) < targets.len() ==> found_online(
            tree,
            targets[first_bad(targets, index, tree) as int],
        ) is Err,
    decreases targets.len() - index,
{
    if index < targets.len() && found_online(tree, targets[index as int]) is Ok {
        lemma_first_bad_is_first(targets, index + 1, tree);
    }
}

/// What a transaction comes to, said without going through the targets one
/// after the other: it fails at the first target whose online flag cannot
/// be read, the targets before that one have had their writes, each as if
/// it were alone, and the switches come last if nothing failed.
pub proof fn lemma_applied_closed_form(
    settings: Seq<SettingView>,
    online: Option<bool>,
    toggles: Seq<Option<bool>>,
    targets: Seq<u64>,
    index: nat,
    tree: Tree,
)
    requires
        no_online_setting(settings),
        distinct(targets),
        index <= targets.len(),
    ensures
        ({
            let bad = first_bad(targets, index, tree);
            let done = after_targets(settings, online, targets, index, bad, tree);
            applied_from(settings, online, toggles, targets, index, tree) == (if bad
                < targets.len() {
                (Some(found_online(tree, targets[bad as int])->Err_0), done)
            } else {
                (None::<ErrorView>, write_all(toggle_steps(toggles), done))
            })
        }),
    decreases targets.len() - index,
{
    let bad = first_bad(targets, index, tree);
    let done = after_targets(settings, online, targets, index, bad, tree);
    if index >= targets.len() {
        assert(done =~= tree);
    } else {
        let cpu = targets[index as int];
        match found_online(tree, cpu) {
            Err(e) => {
                assert(done =~= tree);
            },
            Ok(on) => {
                let t = after_target(settings, online, cpu, tree);
                lemma_after_target(settings, online, cpu, tree);
                lemma_applied_closed_form(settings, online, toggles, targets, index + 1, t);
                lemma_first_bad_is_first(targets, index + 1, tree);
                assert forall|m: int| index + 1 <= m < targets.len() implies found_online(
                    t,
                    #[trigger] targets[m],
                ) == found_online(tree, targets[m]) by {
                    assert(targets[m] != cpu);
                    let flag = Control { knob: Knob::Online, id: targets[m] };
                    assert(t.contains_key(flag) == tree.contains_key(flag));
                    lemma_found_online_same(t, tree, targets[m]);
                }
                lemma_first_bad(targets, index + 1, bad, t);
                let later = after_targets(settings, online, targets, index + 1, bad, t);
                assert(later =~= done) by {
                    assert forall|c: Control| tree.contains_key(c) implies later[c] == done[c] by {
                        if handled(targets, index + 1, bad, c.id) {
                            let m = choose|m: int|
                                index + 1 <= m < bad && m < targets.len() && #[trigger] targets[m]
                                    == c.id;
                            assert(targets[m] != cpu);
                            assert(handled(targets, index, bad, c.id));
                            lemma_after_target(settings, online, c.id, t);
                            lemma_after_target(settings, online, c.id, tree);
                            assert(found_online(t, targets[m]) == found_online(tree, targets[m]));
                            assert(found_online(tree, targets[m]) is Ok);
                        } else if c.id == cpu {
                            assert(targets[index as int] == c.id);
                            assert(handled(targets, index, bad, c.id));
                        } else {
                            if handled(targets, index, bad, c.id) {
                                let m = choose|m: int|
                                    index <= m < bad && m < targets.len() && #[trigger] targets[m]
                                        == c.id;
                                assert(m != index);
                                assert(handled(targets, index + 1, bad, c.id));
                            }
                        }
                    }
                }
            },
        }
    }
}

/// Applying a transaction to a tree that it has been applied to changes
/// nothing: the online flags and the controls hold in the end what they
/// held after the first time, and the transaction ends as it ended then,
/// with the same failure if it failed.
pub proof fn law_applying_twice(
    settings: Seq<SettingView>,
    online: Option<bool>,
    toggles: Seq<Option<bool>>,
    targets: Seq<u64>,
    tree: Tree,
)
    requires
        no_online_setting(settings),
        distinct(targets),
        toggles.len() <= u64::MAX,
    ensures
        ({
            let once = applied(settings, online, toggles, targets, tree);
            applied(settings, online, toggles, targets, once.1) == once
        }),
{
    let once = applied(settings, online, toggles, targets, tree);
    let bad = first_bad(targets, 0, tree);
    let done = after_targets(settings, online, targets, 0, bad, tree);
    lemma_applied_closed_form(settings, online, toggles, targets, 0, tree);
    lemma_applied_closed_form(settings, online, toggles, targets, 0, once.1);
    lemma_first_bad_is_first(targets, 0, tree);
    lemma_write_all(toggle_steps(toggles), done);
    let t1 = once.1;
    assert(t1.dom() == tree.dom());
    // every flag that could be read before can be read now
    assert forall|m: int| 0 <= m < bad implies found_online(t1, #[trigger] targets[m]) is Ok by {
        let cpu = targets[m];
        let flag = Control { knob: Knob::Online, id: cpu };
        lemma_after_target(settings, online, cpu, tree);
        lemma_toggle_steps(toggles, flag);
        assert(handled(targets, 0, bad, cpu));
        if tree.contains_key(flag) {
            let on = found_online(tree, cpu)->Ok_0;
            if bad >= targets.len() && last_text(toggle_steps(toggles), flag) is Some {
                lemma_found_online_written(t1, cpu, toggles[cpu as int]->Some_0);
            } else {
                assert(t1[flag] == after_target(settings, online, cpu, tree)[flag]);
                match target_text(settings, online, cpu, on, flag) {
                    Some(t) => {
                        if t == bool_text(false) {
                            lemma_found_online_written(t1, cpu, false);
                        } else {
                            lemma_found_online_written(t1, cpu, true);
                        }
                    },
                    None => {
                        lemma_found_online_same(t1, tree, cpu);
                    },
                }
            }
        }
    }
    if bad < targets.len() {
        let cpu = targets[bad as int];
        assert(!handled(targets, 0, bad, cpu)) by {
            if handled(targets, 0, bad, cpu) {
                let m = choose|m: int|
                    0 <= m < bad && m < targets.len() && #[trigger] targets[m] == cpu;
                assert(targets[m] != targets[bad as int]);
            }
        }
        lemma_found_online_same(t1, tree, cpu);
    }
    lemma_first_bad(targets, 0, bad, t1);
    let again = after_targets(settings, online, targets, 0, bad, t1);
    // the writes for each target leave what is there
    assert forall|c: Control| t1.contains_key(c) && !(bad >= targets.len() && last_text(
        toggle_steps(toggles),
        c,
    ) is Some) implies again[c] == t1[c] by {
        if handled(targets, 0, bad, c.id) {
            let m = choose|m: int|
                0 <= m < bad && m < targets.len() && #[trigger] targets[m] == c.id;
            let cpu = c.id;
            let flag = Control { knob: Knob::Online, id: cpu };
            lemma_after_target(settings, online, cpu, tree);
            lemma_after_target(settings, online, cpu, t1);
            lemma_toggle_steps(toggles, c);
            lemma_toggle_steps(toggles, flag);
            assert(found_online(tree, targets[m]) is Ok);
            assert(found_online(t1, targets[m]) is Ok);
            let on = found_online(tree, cpu)->Ok_0;
            let on1 = found_online(t1, cpu)->Ok_0;
            assert(t1[c] == after_target(settings, online, cpu, tree)[c]);
            if c.knob == Knob::Online {
                assert(c == flag);
                match target_text(settings, online, cpu, on, flag) {
                    Some(t) => {
                        if t == bool_text(false) {
                            lemma_found_online_written(t1, cpu, false);
                        } else {
                            lemma_found_online_written(t1, cpu, true);
                        }
                    },
                    None => {
                        lemma_found_online_same(t1, tree, cpu);
                    },
                }
            }
        }
    }
    if bad < targets.len() {
        assert(again =~= t1);
    } else {
        lemma_write_all(toggle_steps(toggles), again);
        assert(write_all(toggle_steps(toggles), again) =~= t1);
    }
}

/// The same of a transaction that is carried out one operation at a time:
/// run on the tree that a first run left, it ends as the first did and
/// leaves that tree as it is.
pub proof fn law_running_twice(
    settings: Seq<SettingView>,
    online: Option<bool>,
    toggles: Seq<Option<bool>>,
    targets: Seq<u64>,
    tree: Tree,
)
    requires
        no_online_setting(settings),
        distinct(targets),
        toggles.len() <= u64::MAX,
    ensures
        ({
            let v = begin(settings, online, toggles, targets);
            let first = run(v, tree);
            let second = run(v, first.1);
            &&& second.1 == first.1
            &&& outcome(second.0) == outcome(first.0)
        }),
{
    let v = begin(settings, online, toggles, targets);
    let first = run(v, tree);
    law_run_is_applied(settings, online, toggles, targets, tree);
    law_run_is_applied(settings, online, toggles, targets, first.1);
    law_applying_twice(settings, online, toggles, targets, tree);
}

/// The settings of a request leave the online flag alone, and processors in
/// strictly ascending order are each named once: a request meets what the
/// two laws above ask for.
pub proof fn law_requests_can_be_repeated(cli: crate::cli::CliView, targets: Seq<u64>)
    requires
        crate::utils::strictly_ascending(targets),
    ensures
        no_online_setting(crate::cli::cpu_settings(cli)),
        distinct(targets),
{
}

} // verus!
