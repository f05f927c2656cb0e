use cpux::cli::{Cli, Error};
use cpux::pseudofs::{Error as FsError, IoFailure, IoKind};
use cpux::transaction::{Control, Knob, Op, Setting, Transaction};
use cpux::units::Hertz;
use cpux::utils::{Indices, Toggles};
use std::collections::BTreeMap;

type Tree = BTreeMap<String, String>;

fn request() -> Cli {
    Cli {
        cpus: None,
        cpu: false,
        cpu_on: None,
        cpu_on_each: None,
        freq: false,
        freq_gov: None,
        freq_max: None,
        freq_min: None,
        i915: false,
        i915_freq_boost: None,
        i915_freq_max: None,
        i915_freq_min: None,
        pstate: false,
        pstate_epb: None,
        pstate_epp: None,
        quiet: None,
        refresh: None,
    }
}

fn cpu_dir(id: u64) -> String {
    format!("/sys/devices/system/cpu/cpu{}", id)
}

/// A processor with every control, online or offline.
fn with_cpu(tree: &mut Tree, id: u64, online: bool) {
    let d = cpu_dir(id);
    tree.insert(format!("{}/online", d), if online { "1\n" } else { "0\n" }.to_string());
    tree.insert(format!("{}/cpufreq/scaling_governor", d), "powersave\n".to_string());
    tree.insert(format!("{}/cpufreq/scaling_max_freq", d), "3000000\n".to_string());
    tree.insert(format!("{}/cpufreq/scaling_min_freq", d), "400000\n".to_string());
    tree.insert(format!("{}/power/energy_perf_bias", d), "6\n".to_string());
    tree.insert(format!("{}/cpufreq/energy_performance_preference", d), "default\n".to_string());
}

fn gone() -> IoFailure {
    IoFailure { kind: IoKind::NotFound, os_code: Some(2), exists: false, detail: "No such file".to_string() }
}

/// Carries the transaction out on the tree and notes each operation.
fn run(mut tx: Transaction, tree: &mut Tree, log: &mut Vec<String>) -> Result<(), Error> {
    let mut steps = 0;
    while let Some(op) = tx.pending() {
        assert!(!tx.is_over());
        steps += 1;
        assert!(steps < 10_000);
        let reply = match op {
            Op::Read(path) => {
                log.push(format!("read {}", path));
                match tree.get(&path) {
                    Some(text) => Ok(text.clone()),
                    None => Err(gone()),
                }
            }
            Op::Write(put) => {
                log.push(format!("write {} {}", put.path, put.text));
                if tree.contains_key(&put.path) {
                    tree.insert(put.path, put.text);
                    Ok(String::new())
                } else {
                    Err(gone())
                }
            }
        };
        tx = tx.advance(reply);
    }
    assert!(tx.is_over());
    tx.outcome().unwrap()
}

fn flag(tree: &Tree, id: u64) -> &str {
    tree.get(&format!("{}/online", cpu_dir(id))).unwrap()
}

#[test]
fn without_controls_nothing_is_done() {
    let mut tree = Tree::new();
    with_cpu(&mut tree, 0, false);
    let before = tree.clone();
    let mut log = vec![];
    let tx = request().apply_controls_cpu(vec![0]);
    assert!(tx.is_over());
    assert!(tx.pending().is_none());
    run(tx, &mut tree, &mut log).unwrap();
    assert!(log.is_empty());
    assert_eq!(tree, before);
    assert!(!request().has_control_args_cpu());
    assert!(!request().has_control_args_i915());
}

#[test]
fn an_offline_processor_is_taken_online_set_and_restored() {
    let mut tree = Tree::new();
    with_cpu(&mut tree, 3, false);
    let mut cli = request();
    cli.freq_gov = Some("performance".to_string());
    assert!(cli.has_control_args_cpu());
    let mut log = vec![];
    run(cli.apply_controls_cpu(vec![3]), &mut tree, &mut log).unwrap();
    assert_eq!(
        log,
        vec![
            "read /sys/devices/system/cpu/cpu3/online",
            "write /sys/devices/system/cpu/cpu3/online 1",
            "write /sys/devices/system/cpu/cpu3/cpufreq/scaling_governor performance",
            "write /sys/devices/system/cpu/cpu3/online 0",
        ]
    );
    assert_eq!(flag(&tree, 3), "0");
    assert_eq!(tree["/sys/devices/system/cpu/cpu3/cpufreq/scaling_governor"], "performance");
}

#[test]
fn an_online_processor_is_left_online() {
    let mut tree = Tree::new();
    with_cpu(&mut tree, 0, true);
    let mut cli = request();
    cli.freq_gov = Some("performance".to_string());
    let mut log = vec![];
    run(cli.apply_controls_cpu(vec![0]), &mut tree, &mut log).unwrap();
    assert_eq!(
        log,
        vec![
            "read /sys/devices/system/cpu/cpu0/online",
            "write /sys/devices/system/cpu/cpu0/cpufreq/scaling_governor performance",
        ]
    );
    assert_eq!(flag(&tree, 0), "1\n");
}

#[test]
fn processor_one_offline_gets_its_limit_and_stays_offline() {
    let mut tree = Tree::new();
    with_cpu(&mut tree, 0, true);
    with_cpu(&mut tree, 1, false);
    let mut cli = request();
    cli.freq_max = Some(Hertz::from_khz(4_100_000));
    let mut log = vec![];
    run(cli.apply_controls_cpu(vec![0, 1]), &mut tree, &mut log).unwrap();
    assert_eq!(
        log,
        vec![
            "read /sys/devices/system/cpu/cpu0/online",
            "write /sys/devices/system/cpu/cpu0/cpufreq/scaling_max_freq 4100000",
            "read /sys/devices/system/cpu/cpu1/online",
            "write /sys/devices/system/cpu/cpu1/online 1",
            "write /sys/devices/system/cpu/cpu1/cpufreq/scaling_max_freq 4100000",
            "write /sys/devices/system/cpu/cpu1/online 0",
        ]
    );
    assert_eq!(flag(&tree, 0), "1\n");
    assert_eq!(flag(&tree, 1), "0");
    assert_eq!(tree["/sys/devices/system/cpu/cpu0/cpufreq/scaling_max_freq"], "4100000");
    assert_eq!(tree["/sys/devices/system/cpu/cpu1/cpufreq/scaling_max_freq"], "4100000");
}

#[test]
fn the_controls_are_set_in_a_fixed_order() {
    let mut tree = Tree::new();
    with_cpu(&mut tree, 2, true);
    let mut cli = request();
    cli.pstate_epp = Some("power".to_string());
    cli.pstate_epb = Some(15);
    cli.freq_min = Some(Hertz(800_000_000));
    cli.freq_max = Some(Hertz(4_100_000_000));
    cli.freq_gov = Some("powersave".to_string());
    let mut log = vec![];
    run(cli.apply_controls_cpu(vec![2]), &mut tree, &mut log).unwrap();
    assert_eq!(
        log,
        vec![
            "read /sys/devices/system/cpu/cpu2/online",
            "write /sys/devices/system/cpu/cpu2/cpufreq/scaling_governor powersave",
            "write /sys/devices/system/cpu/cpu2/cpufreq/scaling_max_freq 4100000",
            "write /sys/devices/system/cpu/cpu2/cpufreq/scaling_min_freq 800000",
            "write /sys/devices/system/cpu/cpu2/power/energy_perf_bias 15",
            "write /sys/devices/system/cpu/cpu2/cpufreq/energy_performance_preference power",
        ]
    );
}

#[test]
fn the_request_decides_whether_a_processor_stays_online() {
    let mut tree = Tree::new();
    with_cpu(&mut tree, 0, true);
    with_cpu(&mut tree, 1, false);
    let mut cli = request();
    cli.cpu_on = Some(false);
    let mut log = vec![];
    run(cli.apply_controls_cpu(vec![0, 1]), &mut tree, &mut log).unwrap();
    assert_eq!(
        log,
        vec![
            "read /sys/devices/system/cpu/cpu0/online",
            "write /sys/devices/system/cpu/cpu0/online 0",
            "read /sys/devices/system/cpu/cpu1/online",
            "write /sys/devices/system/cpu/cpu1/online 1",
            "write /sys/devices/system/cpu/cpu1/online 0",
        ]
    );
    assert_eq!((flag(&tree, 0), flag(&tree, 1)), ("0", "0"));

    let mut cli = request();
    cli.cpu_on = Some(true);
    let mut log = vec![];
    run(cli.apply_controls_cpu(vec![0, 1]), &mut tree, &mut log).unwrap();
    assert_eq!(
        log,
        vec![
            "read /sys/devices/system/cpu/cpu0/online",
            "write /sys/devices/system/cpu/cpu0/online 1",
            "read /sys/devices/system/cpu/cpu1/online",
            "write /sys/devices/system/cpu/cpu1/online 1",
        ]
    );
    assert_eq!((flag(&tree, 0), flag(&tree, 1)), ("1", "1"));
}

#[test]
fn the_switches_come_last_and_win() {
    let mut tree = Tree::new();
    with_cpu(&mut tree, 0, true);
    with_cpu(&mut tree, 1, true);
    let mut cli = request();
    cli.cpu_on = Some(true);
    cli.cpu_on_each = Some(Toggles::parse("-0").unwrap());
    cli.freq_gov = Some("performance".to_string());
    let mut log = vec![];
    run(cli.apply_controls_cpu(vec![0, 1]), &mut tree, &mut log).unwrap();
    assert_eq!(log.last().unwrap(), "write /sys/devices/system/cpu/cpu1/online 0");
    assert_eq!(log.len(), 5);
    assert_eq!(flag(&tree, 0), "1\n");
    assert_eq!(flag(&tree, 1), "0");
}

#[test]
fn bulk_vector_over_four_targets() {
    let mut tree = Tree::new();
    with_cpu(&mut tree, 0, false);
    with_cpu(&mut tree, 1, true);
    with_cpu(&mut tree, 2, true);
    with_cpu(&mut tree, 3, false);
    let mut cli = request();
    cli.cpus = Some(Indices::from_vec(vec![]));
    cli.cpu_on_each = Some(Toggles::parse("10-1").unwrap());
    let mut log = vec![];
    run(cli.apply_controls_cpu(vec![0, 1, 2, 3]), &mut tree, &mut log).unwrap();
    assert_eq!(
        log,
        vec![
            "write /sys/devices/system/cpu/cpu0/online 1",
            "write /sys/devices/system/cpu/cpu1/online 0",
            "write /sys/devices/system/cpu/cpu3/online 1",
        ]
    );
    assert_eq!((flag(&tree, 0), flag(&tree, 1), flag(&tree, 2), flag(&tree, 3)), ("1", "0", "1\n", "1"));
}

#[test]
fn the_switches_are_for_processors_by_number() {
    let mut tree = Tree::new();
    with_cpu(&mut tree, 0, true);
    with_cpu(&mut tree, 1, true);
    with_cpu(&mut tree, 5, true);
    let mut cli = request();
    cli.cpus = Some(Indices::from_vec(vec![5]));
    cli.cpu_on_each = Some(Toggles::parse("-0").unwrap());
    let mut log = vec![];
    run(cli.apply_controls_cpu(vec![0, 1, 5]), &mut tree, &mut log).unwrap();
    assert_eq!(
        log,
        vec![
            "read /sys/devices/system/cpu/cpu5/online",
            "write /sys/devices/system/cpu/cpu1/online 0",
        ]
    );
}

#[test]
fn the_named_processors_are_put_in_order_each_once() {
    let mut cli = request();
    cli.cpus = Some(Indices::parse("3,1,3,0-1").unwrap());
    cli.pstate_epb = Some(0);
    assert_eq!(cli.targets(vec![7, 8]), vec![0, 1, 3]);
    let mut tree = Tree::new();
    for id in [0, 1, 3] {
        with_cpu(&mut tree, id, true);
    }
    let mut log = vec![];
    run(cli.apply_controls_cpu(vec![7, 8]), &mut tree, &mut log).unwrap();
    let reads: Vec<&String> = log.iter().filter(|l| l.starts_with("read")).collect();
    assert_eq!(
        reads,
        vec![
            "read /sys/devices/system/cpu/cpu0/online",
            "read /sys/devices/system/cpu/cpu1/online",
            "read /sys/devices/system/cpu/cpu3/online",
        ]
    );
    let cli = request();
    assert_eq!(cli.targets(vec![2, 0, 2, 1]), vec![0, 1, 2]);
}

#[test]
fn a_processor_without_online_flag_counts_as_online() {
    let mut tree = Tree::new();
    with_cpu(&mut tree, 0, true);
    tree.remove("/sys/devices/system/cpu/cpu0/online");
    let mut cli = request();
    cli.freq_gov = Some("performance".to_string());
    let mut log = vec![];
    run(cli.apply_controls_cpu(vec![0]), &mut tree, &mut log).unwrap();
    assert_eq!(
        log,
        vec![
            "read /sys/devices/system/cpu/cpu0/online",
            "write /sys/devices/system/cpu/cpu0/cpufreq/scaling_governor performance",
        ]
    );
}

#[test]
fn controls_that_are_not_there_are_passed_over() {
    let mut tree = Tree::new();
    tree.insert("/sys/devices/system/cpu/cpu0/online".to_string(), "1\n".to_string());
    tree.insert("/sys/devices/system/cpu/cpu0/cpufreq/scaling_min_freq".to_string(), "1\n".to_string());
    let mut cli = request();
    cli.freq_gov = Some("performance".to_string());
    cli.freq_min = Some(Hertz(800_000_000));
    cli.pstate_epb = Some(3);
    let mut log = vec![];
    run(cli.apply_controls_cpu(vec![0]), &mut tree, &mut log).unwrap();
    assert_eq!(log.len(), 4);
    assert_eq!(tree["/sys/devices/system/cpu/cpu0/cpufreq/scaling_min_freq"], "800000");
    assert_eq!(tree.len(), 2);
}

#[test]
fn a_failure_ends_the_transaction() {
    let mut cli = request();
    cli.freq_gov = Some("performance".to_string());
    cli.freq_max = Some(Hertz(1_000_000));
    let tx = cli.apply_controls_cpu(vec![0, 1]);
    let tx = tx.advance(Ok("1\n".to_string()));
    assert!(matches!(tx.pending(), Some(Op::Write(w)) if w.text == "performance"));
    let refused = IoFailure {
        kind: IoKind::PermissionDenied,
        os_code: Some(13),
        exists: true,
        detail: "Permission denied".to_string(),
    };
    let tx = tx.advance(Err(refused));
    assert!(tx.is_over());
    assert!(tx.pending().is_none());
    let tx = tx.advance(Ok(String::new()));
    assert!(tx.is_over());
    match tx.outcome() {
        Some(Err(Error::CpuxCpufreq(cpux::cpufreq::Error::CpuxPseudofs(FsError::NoPermission(p, _))))) => {
            assert_eq!(p, "/sys/devices/system/cpu/cpu0/cpufreq/scaling_governor")
        }
        _ => panic!("no failure"),
    }
}

#[test]
fn an_online_flag_that_cannot_be_read_ends_the_transaction() {
    let mut tree = Tree::new();
    with_cpu(&mut tree, 0, true);
    with_cpu(&mut tree, 1, true);
    with_cpu(&mut tree, 2, true);
    tree.insert("/sys/devices/system/cpu/cpu1/online".to_string(), "maybe\n".to_string());
    let mut cli = request();
    cli.freq_gov = Some("performance".to_string());
    cli.cpu_on_each = Some(Toggles::parse("0").unwrap());
    let mut log = vec![];
    let r = run(cli.apply_controls_cpu(vec![0, 1, 2]), &mut tree, &mut log);
    match r {
        Err(Error::CpuxCpu(cpux::cpu::Error::CpuxPseudofs(FsError::ParseBool(p, t)))) => {
            assert_eq!(p, "/sys/devices/system/cpu/cpu1/online");
            assert_eq!(t, "maybe");
        }
        _ => panic!("no failure"),
    }
    assert_eq!(log.len(), 3);
    assert_eq!(tree["/sys/devices/system/cpu/cpu0/cpufreq/scaling_governor"], "performance");
    assert_eq!(tree["/sys/devices/system/cpu/cpu2/cpufreq/scaling_governor"], "powersave\n");
    assert_eq!(flag(&tree, 0), "1\n");
}

#[test]
fn failures_by_the_module_of_the_control() {
    let broken = || Err(IoFailure { kind: IoKind::Other, os_code: Some(5), exists: true, detail: "I/O error".to_string() });
    let mut cli = request();
    cli.pstate_epb = Some(1);
    let tx = cli.apply_controls_cpu(vec![0]).advance(Ok("1".to_string())).advance(broken());
    assert!(matches!(tx.outcome(), Some(Err(Error::CpuxIntelPstate(_)))));
    let mut cli = request();
    cli.cpu_on = Some(false);
    let tx = cli.apply_controls_cpu(vec![0]).advance(Ok("1".to_string())).advance(broken());
    assert!(matches!(tx.outcome(), Some(Err(Error::CpuxCpu(_)))));
    let tx = cli.apply_controls_cpu(vec![0]).advance(broken());
    assert!(matches!(tx.outcome(), Some(Err(Error::CpuxCpu(_)))));
    let mut cli = request();
    cli.i915_freq_max = Some(Hertz(900_000_000));
    let tx = cli.apply_controls_i915(Ok(Some(vec![0]))).advance(broken());
    match tx.outcome() {
        Some(Err(e)) => {
            assert!(matches!(e, Error::CpuxI915(_)));
            assert_eq!(e.message(), "/sys/class/drm/card0/gt_max_freq_mhz: I/O error");
        }
        _ => panic!("no failure"),
    }
}

#[test]
fn applying_twice_changes_nothing_more() {
    let requests: Vec<Cli> = vec![
        {
            let mut c = request();
            c.freq_gov = Some("performance".to_string());
            c
        },
        {
            let mut c = request();
            c.cpu_on = Some(true);
            c.freq_max = Some(Hertz(4_100_000_000));
            c.cpu_on_each = Some(Toggles::parse("0-1").unwrap());
            c
        },
        {
            let mut c = request();
            c.cpu_on = Some(false);
            c.pstate_epb = Some(9);
            c.pstate_epp = Some("power".to_string());
            c.cpu_on_each = Some(Toggles::parse("-1").unwrap());
            c
        },
    ];
    for cli in requests {
        let mut tree = Tree::new();
        with_cpu(&mut tree, 0, true);
        with_cpu(&mut tree, 1, false);
        with_cpu(&mut tree, 2, false);
        tree.remove("/sys/devices/system/cpu/cpu2/power/energy_perf_bias");
        let mut log = vec![];
        let first = run(cli.apply_controls_cpu(vec![0, 1, 2]), &mut tree, &mut log);
        let once = tree.clone();
        let second = run(cli.apply_controls_cpu(vec![0, 1, 2]), &mut tree, &mut log);
        assert!(first.is_ok() && second.is_ok());
        assert_eq!(tree, once);
    }
}

#[test]
fn applying_twice_fails_the_same_way() {
    let mut tree = Tree::new();
    with_cpu(&mut tree, 0, false);
    with_cpu(&mut tree, 1, true);
    tree.insert("/sys/devices/system/cpu/cpu1/online".to_string(), "2\n".to_string());
    let mut cli = request();
    cli.freq_gov = Some("performance".to_string());
    let mut log = vec![];
    let first = run(cli.apply_controls_cpu(vec![0, 1]), &mut tree, &mut log).unwrap_err();
    let once = tree.clone();
    let second = run(cli.apply_controls_cpu(vec![0, 1]), &mut tree, &mut log).unwrap_err();
    assert_eq!(tree, once);
    assert_eq!(first.message(), second.message());
    assert_eq!(first.message(), "/sys/devices/system/cpu/cpu1/online: value could not be parsed as bool: `2`");
}

#[test]
fn the_graphics_cards_get_their_frequencies() {
    let mut tree = Tree::new();
    for card in [0, 2] {
        for f in ["boost", "max", "min"] {
            tree.insert(format!("/sys/class/drm/card{}/gt_{}_freq_mhz", card, f), "0\n".to_string());
        }
    }
    let mut cli = request();
    cli.i915_freq_min = Some(Hertz(350_000_000));
    cli.i915_freq_boost = Some(Hertz(1_100_000_000));
    cli.i915_freq_max = Some(Hertz(900_000_000));
    assert!(cli.has_control_args_i915());
    let mut log = vec![];
    run(cli.apply_controls_i915(Ok(Some(vec![0, 2]))), &mut tree, &mut log).unwrap();
    assert_eq!(
        log,
        vec![
            "write /sys/class/drm/card0/gt_boost_freq_mhz 1100",
            "write /sys/class/drm/card0/gt_max_freq_mhz 900",
            "write /sys/class/drm/card0/gt_min_freq_mhz 350",
            "write /sys/class/drm/card2/gt_boost_freq_mhz 1100",
            "write /sys/class/drm/card2/gt_max_freq_mhz 900",
            "write /sys/class/drm/card2/gt_min_freq_mhz 350",
        ]
    );
}

#[test]
fn without_cards_nothing_is_done() {
    let mut cli = request();
    cli.i915_freq_max = Some(Hertz(900_000_000));
    assert!(cli.apply_controls_i915(Ok(None)).is_over());
    assert!(cli.apply_controls_i915(Ok(Some(vec![]))).is_over());
    let failed = cpux::i915::Error::CpuxDrm(cpux::drm::Error::BadPath);
    let tx = cli.apply_controls_i915(Err(failed));
    assert!(tx.is_over());
    assert!(matches!(tx.outcome(), Some(Ok(()))));
    assert!(request().apply_controls_i915(Ok(Some(vec![0]))).is_over());
}

#[test]
fn a_transaction_from_its_parts() {
    let settings = vec![Setting { knob: Knob::Governor, text: "schedutil".to_string() }];
    let tx = Transaction::begin(settings, None, vec![None, Some(true)], vec![4]);
    assert!(matches!(tx.pending(), Some(Op::Read(p)) if p == "/sys/devices/system/cpu/cpu4/online"));
    assert!(tx.outcome().is_none());
    let mut tree = Tree::new();
    with_cpu(&mut tree, 1, false);
    with_cpu(&mut tree, 4, true);
    let settings = vec![Setting { knob: Knob::Governor, text: "schedutil".to_string() }];
    let mut log = vec![];
    run(Transaction::begin(settings, None, vec![None, Some(true)], vec![4]), &mut tree, &mut log).unwrap();
    assert_eq!(
        log,
        vec![
            "read /sys/devices/system/cpu/cpu4/online",
            "write /sys/devices/system/cpu/cpu4/cpufreq/scaling_governor schedutil",
            "write /sys/devices/system/cpu/cpu1/online 1",
        ]
    );
    assert!(Transaction::idle().is_over());
    assert!(Transaction::begin(vec![], None, vec![None], vec![]).is_over());
    assert!(Transaction::for_cards(vec![], vec![1, 2]).is_over());
}

#[test]
fn the_path_of_each_control() {
    let at = |knob| Control { knob, id: 7 }.path();
    assert_eq!(at(Knob::Online), "/sys/devices/system/cpu/cpu7/online");
    assert_eq!(at(Knob::Governor), "/sys/devices/system/cpu/cpu7/cpufreq/scaling_governor");
    assert_eq!(at(Knob::FreqMax), "/sys/devices/system/cpu/cpu7/cpufreq/scaling_max_freq");
    assert_eq!(at(Knob::FreqMin), "/sys/devices/system/cpu/cpu7/cpufreq/scaling_min_freq");
    assert_eq!(at(Knob::Epb), "/sys/devices/system/cpu/cpu7/power/energy_perf_bias");
    assert_eq!(at(Knob::Epp), "/sys/devices/system/cpu/cpu7/cpufreq/energy_performance_preference");
    assert_eq!(at(Knob::GpuBoost), "/sys/class/drm/card7/gt_boost_freq_mhz");
    assert_eq!(at(Knob::GpuMax), "/sys/class/drm/card7/gt_max_freq_mhz");
    assert_eq!(at(Knob::GpuMin), "/sys/class/drm/card7/gt_min_freq_mhz");
}
