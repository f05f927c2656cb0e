use cpux::cli::{Cli, Error};
use cpux::pseudofs::{Availability, Error as FsError, IoFailure, IoKind};
use cpux::report::{
    shown_list_or_na, shown_number_or_na, shown_online_or_na, shown_or_na, CpuRow, FreqRow,
    I915Row, PstateRow, Showing, Shown,
};
use cpux::table::render;
use cpux::{cpufreq, intel_pstate};

fn s<E>(text: &str) -> Availability<String, E> {
    Availability::Present(text.to_string())
}

fn list<E>(items: &[&str]) -> Availability<Vec<String>, E> {
    Availability::Present(items.iter().map(|i| i.to_string()).collect())
}

fn refused() -> FsError {
    let f = IoFailure {
        kind: IoKind::PermissionDenied,
        os_code: Some(13),
        exists: true,
        detail: "Permission denied".to_string(),
    };
    FsError::NoPermission("/x".to_string(), f)
}

fn request() -> Cli {
    Cli {
        cpus: None,
        cpu: false,
        cpu_on: None,
        cpu_on_each: None,
        freq: false,
        freq_gov: None,
        freq_max: None,
        freq_min: None,
        i915: false,
        i915_freq_boost: None,
        i915_freq_max: None,
        i915_freq_min: None,
        pstate: false,
        pstate_epb: None,
        pstate_epp: None,
        quiet: None,
        refresh: None,
    }
}

#[test]
fn a_table_is_laid_out_in_columns() {
    let rows = vec![
        vec!["a".to_string(), "bb".to_string()],
        vec!["ccc".to_string(), "d".to_string()],
    ];
    assert_eq!(render("{:<} {:<}", &rows), Some("a   bb\nccc d\n".to_string()));
    assert_eq!(render("{:>}|{:<}", &rows), Some("  a|bb\nccc|d\n".to_string()));
    assert_eq!(render("{:<} {:<}", &vec![]), Some("".to_string()));
}

#[test]
fn a_table_that_cannot_be_laid_out() {
    let rows = vec![vec!["a".to_string(), "bb".to_string()], vec!["ccc".to_string()]];
    assert_eq!(render("{:<} {:<}", &rows), None);
    assert_eq!(render("{:<}", &rows), None);
    assert_eq!(render("{:<} {", &vec![]), None);
    assert_eq!(render("{:x}", &vec![]), None);
    assert_eq!(render("}", &vec![]), None);
}

#[test]
fn the_table_of_processors() {
    let rows = vec![
        CpuRow {
            cpu_id: 0,
            online: Availability::Absent,
            cur: s("1.2 GHz"),
            min: s("800.0 MHz"),
            max: s("4.1 GHz"),
            min_limit: Availability::Absent,
            max_limit: s("4.1 GHz"),
        },
        CpuRow {
            cpu_id: 11,
            online: Availability::Present(false),
            cur: Availability::Absent,
            min: Availability::Failed(cpufreq::Error::CpuxPseudofs(refused())),
            max: Availability::Absent,
            min_limit: Availability::Failed(cpufreq::Error::CpuxPseudofs(refused())),
            max_limit: Availability::Absent,
        },
    ];
    let expected = "CPU     Online  Cur         Min         Max         Min limit   Max limit\n------- ------- ----------- ----------- ----------- ----------- -----------\ncpu0    true    1.2 GHz     800.0 MHz   4.1 GHz     n/a         4.1 GHz\ncpu11   false   n/a         n/a         n/a         n/a         n/a\n\n";
    assert_eq!(Cli::format_table_cpu(&rows), expected);
}

#[test]
fn a_flag_that_could_not_be_read_shows_as_not_there() {
    let rows = vec![CpuRow {
        cpu_id: 2,
        online: Availability::Failed(cpux::cpu::Error::CpuxPseudofs(refused())),
        cur: Availability::Failed(cpufreq::Error::CpuxPseudofs(refused())),
        min: Availability::Absent,
        max: s("3.0 GHz"),
        min_limit: Availability::Absent,
        max_limit: Availability::Absent,
    }];
    let expected = "CPU     Online  Cur         Min         Max         Min limit   Max limit\n------- ------- ----------- ----------- ----------- ----------- -----------\ncpu2    n/a     n/a         n/a         3.0 GHz     n/a         n/a\n\n";
    assert_eq!(Cli::format_table_cpu(&rows), expected);
}

#[test]
fn cells_for_what_the_getters_gave() {
    assert_eq!(shown_or_na(&s::<u8>("powersave")), "powersave");
    assert_eq!(shown_or_na(&Availability::<String, u8>::Absent), "n/a");
    assert_eq!(shown_or_na(&Availability::<String, u8>::Failed(1)), "n/a");
    assert_eq!(shown_list_or_na(&list::<u8>(&["a", "b"])), "a,b");
    assert_eq!(shown_list_or_na(&list::<u8>(&[])), "");
    assert_eq!(shown_list_or_na(&Availability::<Vec<String>, u8>::Absent), "n/a");
    assert_eq!(shown_list_or_na(&Availability::<Vec<String>, u8>::Failed(1)), "n/a");
    assert_eq!(shown_number_or_na(&Availability::<u64, u8>::Present(15)), "15");
    assert_eq!(shown_number_or_na(&Availability::<u64, u8>::Absent), "n/a");
    assert_eq!(shown_number_or_na(&Availability::<u64, u8>::Failed(1)), "n/a");
    assert_eq!(shown_online_or_na(&Availability::<bool, u8>::Present(true)), "true");
    assert_eq!(shown_online_or_na(&Availability::<bool, u8>::Present(false)), "false");
    assert_eq!(shown_online_or_na(&Availability::<bool, u8>::Absent), "true");
    assert_eq!(shown_online_or_na(&Availability::<bool, u8>::Failed(1)), "n/a");
}

#[test]
fn the_table_of_processors_without_processors() {
    let expected = "CPU     Online  Cur         Min         Max         Min limit   Max limit\n------- ------- ----------- ----------- ----------- ----------- -----------\n\n";
    assert_eq!(Cli::format_table_cpu(&vec![]), expected);
}

#[test]
fn the_table_of_governors() {
    let rows = vec![
        FreqRow { cpu_id: 0, governor: s("powersave"), governors: list(&["performance", "powersave"]) },
        FreqRow {
            cpu_id: 1,
            governor: Availability::Absent,
            governors: Availability::Failed(cpufreq::Error::CpuxPseudofs(refused())),
        },
    ];
    let expected = "CPU     Governor         Governors\n------- ---------------- ----------------\ncpu0    powersave        performance,powersave\ncpu1    n/a              n/a\n\n";
    assert_eq!(Cli::format_table_freq(&rows), expected);
    assert_eq!(Cli::format_table_freq(&vec![]), "");
}

#[test]
fn the_table_of_the_pstate_driver() {
    let rows = vec![PstateRow {
        cpu_id: 0,
        epb: Availability::Present(6),
        epp: s("balance_performance"),
        epps: list(&["default", "performance"]),
    }];
    let expected = "intel_pstate: active\n\nCPU      EPB  EP Pref              EP Prefs\n-------- ---- -------------------- --------------------\ncpu0     6    balance_performance  default,performance\n\n";
    assert_eq!(Cli::format_table_pstate(&s("active"), &rows), expected);
    assert_eq!(Cli::format_table_pstate(&s("active"), &vec![]), "");
    let rows = vec![PstateRow {
        cpu_id: 3,
        epb: Availability::Failed(intel_pstate::Error::CpuxPseudofs(refused())),
        epp: Availability::Absent,
        epps: Availability::Absent,
    }];
    let expected = "intel_pstate: n/a\n\nCPU      EPB  EP Pref              EP Prefs\n-------- ---- -------------------- --------------------\ncpu3     n/a  n/a                  n/a\n\n";
    assert_eq!(Cli::format_table_pstate(&Availability::Absent, &rows), expected);
    let failed = Availability::Failed(intel_pstate::Error::CpuxPseudofs(refused()));
    assert_eq!(Cli::format_table_pstate(&failed, &rows), expected);
}

#[test]
fn the_table_of_graphics_cards() {
    let rows = vec![I915Row {
        card_id: 0,
        actual: s("300.0 MHz"),
        requested: s("300.0 MHz"),
        min: s("300.0 MHz"),
        max: s("1.1 GHz"),
        boost: s("1.1 GHz"),
        min_limit: Availability::Absent,
        max_limit: s("1.1 GHz"),
    }];
    let expected = "Card   Driver  Actual    Req'd     Min       Max      Boost    Min limit Max limit\n------ ------- --------  --------  --------  -------- -------- --------- ---------\ncard0  i915    300.0 MHz 300.0 MHz 300.0 MHz 1.1 GHz  1.1 GHz  n/a       1.1 GHz\n\n";
    assert_eq!(Cli::format_table_i915(&Some(rows)), expected);
    assert_eq!(Cli::format_table_i915(&None), "");
    assert_eq!(Cli::format_table_i915(&Some(vec![])), "");
}

#[test]
fn which_tables_are_shown() {
    let all = request().tables_to_show(true, true, true);
    assert_eq!(all, Shown { pstate: true, freq: true, cpu: true, i915: true });
    let bare = request().tables_to_show(false, false, false);
    assert_eq!(bare, Shown { pstate: false, freq: false, cpu: true, i915: false });
    let mut named = request();
    named.freq = true;
    assert!(named.has_table_args());
    assert!(!request().has_table_args());
    assert_eq!(
        named.tables_to_show(true, false, true),
        Shown { pstate: false, freq: true, cpu: false, i915: false }
    );
    let mut named = request();
    named.i915 = true;
    named.pstate = true;
    assert_eq!(
        named.tables_to_show(false, true, false),
        Shown { pstate: true, freq: false, cpu: false, i915: true }
    );
}

#[test]
fn tables_as_they_are_printed() {
    let tables = vec!["A  B\n1  2\n\n".to_string(), "C\n3\n\n".to_string()];
    assert_eq!(Cli::format_tables(&tables), "  \n  A  B\n  1  2\n  \n  C\n  3\n\n");
    assert_eq!(Cli::format_tables(&vec![]), "\n\n");
    assert_eq!(Cli::format_tables(&vec!["".to_string()]), "\n\n");
}

#[test]
fn how_often_the_tables_are_shown() {
    assert!(matches!(request().run(Ok(())), Ok(Showing::Once)));
    let mut again = request();
    again.refresh = Some(5);
    assert!(matches!(again.run(Ok(())), Ok(Showing::Every(5))));
    again.refresh = Some(0);
    assert!(matches!(again.run(Ok(())), Ok(Showing::Every(1))));
    again.refresh = Some(1);
    assert!(matches!(again.run(Ok(())), Ok(Showing::Every(1))));
}

#[test]
fn after_a_failure_nothing_is_shown() {
    let failed = || Err(Error::CpuxCpufreq(cpufreq::Error::CpuxPseudofs(refused())));
    match request().run(failed()) {
        Err(Error::CpuxCpufreq(cpufreq::Error::CpuxPseudofs(FsError::NoPermission(p, _)))) => {
            assert_eq!(p, "/x")
        }
        _ => panic!("the failure was not handed back"),
    }
    let mut again = request();
    again.refresh = Some(5);
    assert!(matches!(again.run(failed()), Err(Error::CpuxCpufreq(_))));
}
