use cpux::pseudofs::{Error as FsError, IoFailure, IoKind};
use cpux::units::Hertz;
use cpux::{cpu, cpufreq, drm, epb, freq, i915, intel_pstate, online};

fn text(s: &str) -> Result<String, IoFailure> {
    Ok(s.to_string())
}

fn failed(kind: IoKind, os_code: Option<i32>, exists: bool) -> IoFailure {
    IoFailure { kind, os_code, exists, detail: "no".to_string() }
}

fn missing<T>() -> Result<T, IoFailure> {
    Err(failed(IoKind::NotFound, Some(2), false))
}

fn denied<T>() -> Result<T, IoFailure> {
    Err(failed(IoKind::PermissionDenied, Some(13), true))
}

fn denied_nowhere<T>() -> Result<T, IoFailure> {
    Err(failed(IoKind::PermissionDenied, Some(13), false))
}

#[test]
fn present_processors_are_listed() {
    assert_eq!(cpu::cpus(text("0-7\n")).unwrap(), vec![0, 1, 2, 3, 4, 5, 6, 7]);
    assert_eq!(cpu::cpus(text("0,2-3")).unwrap(), vec![0, 2, 3]);
}

#[test]
fn a_broken_topology_file_is_an_error() {
    match cpu::cpus(text("all\n")) {
        Err(cpu::Error::Parse(p, t)) => {
            assert_eq!(p, "/sys/devices/system/cpu/present");
            assert_eq!(t, "all");
        }
        _ => panic!("read as a list"),
    }
    assert!(matches!(cpu::cpus(missing()), Err(cpu::Error::CpuxPseudofs(FsError::NotFound(_, _)))));
    let e = cpu::Error::Parse("/p".to_string(), "all".to_string());
    assert_eq!(e.message(), "Error parsing value `all` in file /p");
}

#[test]
fn the_online_flag_is_read() {
    assert!(matches!(cpu::try_online(1, text("1\n")), Ok(true)));
    assert!(matches!(cpu::try_online(1, text("0\n")), Ok(false)));
    assert!(matches!(cpu::online(1, text("0\n")), Ok(Some(false))));
    match cpu::try_online(1, missing()) {
        Err(cpu::Error::CpuxPseudofs(FsError::NotFound(p, _))) => {
            assert_eq!(p, "/sys/devices/system/cpu/cpu1/online")
        }
        _ => panic!("no error"),
    }
    assert!(matches!(
        cpu::try_online(1, text("x")),
        Err(cpu::Error::CpuxPseudofs(FsError::ParseBool(_, _)))
    ));
}

#[test]
fn an_absent_online_flag_is_none() {
    assert!(matches!(cpu::online(0, missing()), Ok(None)));
    assert!(matches!(cpu::online(0, denied_nowhere()), Ok(None)));
    assert!(matches!(cpu::online(0, Err(failed(IoKind::Other, Some(6), true))), Ok(None)));
    assert!(matches!(cpu::online(0, Err(failed(IoKind::Other, Some(16), true))), Ok(None)));
    assert!(matches!(cpu::set_online(0, missing()), Ok(None)));
    assert!(matches!(cpu::set_online(0, denied_nowhere()), Ok(None)));
}

#[test]
fn real_failures_of_the_online_flag_are_errors() {
    assert!(matches!(
        cpu::online(0, denied()),
        Err(cpu::Error::CpuxPseudofs(FsError::NoPermission(_, _)))
    ));
    assert!(matches!(
        cpu::set_online(0, denied()),
        Err(cpu::Error::CpuxPseudofs(FsError::NoPermission(_, _)))
    ));
    assert!(matches!(
        cpu::set_online(0, Err(failed(IoKind::Other, Some(5), true))),
        Err(cpu::Error::CpuxPseudofs(FsError::Io(_, _)))
    ));
    assert!(matches!(
        cpu::online(0, text("maybe\n")),
        Err(cpu::Error::CpuxPseudofs(FsError::ParseBool(_, _)))
    ));
}

#[test]
fn the_online_flag_is_written() {
    let w = cpu::try_set_online(5, true);
    assert_eq!((w.path.as_str(), w.text.as_str()), ("/sys/devices/system/cpu/cpu5/online", "1"));
    let w = cpu::try_set_online(5, false);
    assert_eq!(w.text, "0");
    assert!(matches!(cpu::set_online(5, Ok(())), Ok(Some(()))));
}

#[test]
fn an_absent_flag_reads_as_the_default() {
    assert!(matches!(online::or(online::get(0, missing()), true), Ok(true)));
    assert!(matches!(online::or(online::get(0, denied_nowhere()), true), Ok(true)));
    assert!(matches!(online::or(online::get(0, missing()), false), Ok(false)));
    assert!(matches!(online::or(online::get(0, text("0\n")), true), Ok(false)));
}

#[test]
fn the_default_does_not_cover_real_failures() {
    assert!(matches!(
        online::or(online::get(0, denied()), true),
        Err(online::Error::CpuxPseudofs(FsError::NoPermission(_, _)))
    ));
    assert!(matches!(
        online::or(online::get(0, text("2\n")), true),
        Err(online::Error::CpuxPseudofs(FsError::ParseBool(_, _)))
    ));
    assert!(matches!(
        online::or(online::get(0, Err(failed(IoKind::Other, None, false))), true),
        Err(online::Error::CpuxPseudofs(FsError::Io(_, _)))
    ));
}

#[test]
fn absence_passes_for_a_write() {
    let gone = online::Error::CpuxPseudofs(FsError::NotFound("/x".to_string(), failed(IoKind::NotFound, None, false)));
    assert!(matches!(online::ok(Err(gone)), Ok(())));
    assert!(matches!(online::ok(Ok(())), Ok(())));
    let no = online::Error::CpuxPseudofs(FsError::NoPermission("/x".to_string(), failed(IoKind::PermissionDenied, None, true)));
    assert!(online::ok(Err(no)).is_err());
    let w = online::set(2, false);
    assert_eq!((w.path.as_str(), w.text.as_str()), ("/sys/devices/system/cpu/cpu2/online", "0"));
}

#[test]
fn frequencies_are_read_in_kilohertz() {
    assert_eq!(cpufreq::try_cur(0, text("1200000\n")).unwrap(), Hertz(1_200_000_000));
    assert_eq!(cpufreq::try_max(0, text("4100000\n")).unwrap(), Hertz(4_100_000_000));
    assert_eq!(cpufreq::try_min(0, text("800000\n")).unwrap(), Hertz(800_000_000));
    assert_eq!(cpufreq::try_max_limit(0, text("4100000")).unwrap(), Hertz(4_100_000_000));
    assert_eq!(cpufreq::try_min_limit(0, text("400000")).unwrap(), Hertz(400_000_000));
    assert_eq!(cpufreq::max(0, text("4100000\n")).unwrap(), Some(Hertz(4_100_000_000)));
    assert_eq!(cpufreq::cur(0, text("1")).unwrap(), Some(Hertz(1_000)));
    assert_eq!(cpufreq::min(0, text("0")).unwrap(), Some(Hertz(0)));
    assert_eq!(cpufreq::max_limit(0, text("2")).unwrap(), Some(Hertz(2_000)));
    assert_eq!(cpufreq::min_limit(0, text("3")).unwrap(), Some(Hertz(3_000)));
}

#[test]
fn absent_frequency_controls_are_none() {
    assert_eq!(cpufreq::cur(0, missing()).unwrap(), None);
    assert_eq!(cpufreq::max(0, missing()).unwrap(), None);
    assert_eq!(cpufreq::min(0, denied_nowhere()).unwrap(), None);
    assert_eq!(cpufreq::max_limit(0, missing()).unwrap(), None);
    assert_eq!(cpufreq::min_limit(0, missing()).unwrap(), None);
    assert_eq!(cpufreq::governor(0, missing()).unwrap(), None);
    assert_eq!(cpufreq::governors(0, missing()).unwrap(), None);
    assert!(matches!(cpufreq::set_governor(0, missing()), Ok(None)));
    assert!(matches!(cpufreq::set_max(0, missing()), Ok(None)));
    assert!(matches!(cpufreq::set_min(0, Err(failed(IoKind::Other, Some(16), true))), Ok(None)));
}

#[test]
fn failures_of_frequency_controls_are_errors() {
    match cpufreq::max(3, denied()) {
        Err(cpufreq::Error::CpuxPseudofs(FsError::NoPermission(p, f))) => {
            assert_eq!(p, "/sys/devices/system/cpu/cpu3/cpufreq/scaling_max_freq");
            assert!(f.exists);
        }
        _ => panic!("no error"),
    }
    assert!(matches!(
        cpufreq::max(3, text("fast")),
        Err(cpufreq::Error::CpuxPseudofs(FsError::ParseU64(_, _)))
    ));
    assert!(matches!(
        cpufreq::set_max(3, Err(failed(IoKind::Other, Some(22), true))),
        Err(cpufreq::Error::CpuxPseudofs(FsError::Io(_, _)))
    ));
    assert!(matches!(cpufreq::try_max(3, missing()), Err(cpufreq::Error::CpuxPseudofs(FsError::NotFound(_, _)))));
    let e = cpufreq::Error::CpuxPseudofs(FsError::ParseU64("/f".to_string(), "fast".to_string()));
    assert_eq!(e.message(), "/f: value could not be parsed as u64: `fast");
}

#[test]
fn limits_are_written_in_whole_kilohertz() {
    let w = cpufreq::try_set_max(1, &Hertz(4_100_000_000));
    assert_eq!(
        (w.path.as_str(), w.text.as_str()),
        ("/sys/devices/system/cpu/cpu1/cpufreq/scaling_max_freq", "4100000")
    );
    let w = cpufreq::try_set_min(1, &Hertz(800_000_999));
    assert_eq!(
        (w.path.as_str(), w.text.as_str()),
        ("/sys/devices/system/cpu/cpu1/cpufreq/scaling_min_freq", "800000")
    );
    assert_eq!(cpufreq::try_set_max(1, &Hertz(999)).text, "0");
    assert!(matches!(cpufreq::set_max(1, Ok(())), Ok(Some(()))));
    assert!(matches!(cpufreq::set_min(1, Ok(())), Ok(Some(()))));
}

#[test]
fn a_limit_that_was_written_reads_back() {
    for hz in [0u64, 800_000_000, 4_100_000_000, 18_446_744_073_709_551_000] {
        let w = cpufreq::try_set_max(0, &Hertz(hz));
        assert_eq!(cpufreq::max(0, Ok(w.text)).unwrap(), Some(Hertz(hz)));
    }
    let w = cpufreq::try_set_min(0, &Hertz(1_234_567));
    assert_eq!(cpufreq::try_min(0, Ok(w.text)).unwrap(), Hertz(1_234_000));
    let w = freq::set_max_khz(0, 4_100_000);
    assert_eq!(freq::max_khz(0, Ok(w.text)).unwrap(), 4_100_000);
}

#[test]
fn governors_are_read_and_written() {
    assert_eq!(cpufreq::try_governor(0, text("powersave\n")).unwrap(), "powersave");
    assert_eq!(cpufreq::governor(0, text("powersave\n")).unwrap(), Some("powersave".to_string()));
    assert_eq!(
        cpufreq::try_governors(0, text("performance powersave\n")).unwrap(),
        vec!["performance", "powersave"]
    );
    assert_eq!(
        cpufreq::governors(0, text("performance powersave\n")).unwrap(),
        Some(vec!["performance".to_string(), "powersave".to_string()])
    );
    let w = cpufreq::try_set_governor(2, "performance");
    assert_eq!(
        (w.path.as_str(), w.text.as_str()),
        ("/sys/devices/system/cpu/cpu2/cpufreq/scaling_governor", "performance")
    );
    assert!(matches!(cpufreq::set_governor(2, Ok(())), Ok(Some(()))));
}

#[test]
fn the_pstate_controls() {
    assert_eq!(intel_pstate::try_epb(0, text("6\n")).unwrap(), 6);
    assert_eq!(intel_pstate::epb(0, text("6\n")).unwrap(), Some(6));
    assert_eq!(intel_pstate::epb(0, missing()).unwrap(), None);
    assert_eq!(intel_pstate::try_epp(0, text("balance_power\n")).unwrap(), "balance_power");
    assert_eq!(intel_pstate::epp(0, missing()).unwrap(), None);
    assert_eq!(intel_pstate::epp(0, text("default")).unwrap(), Some("default".to_string()));
    assert_eq!(intel_pstate::try_epps(0, text("default performance\n")).unwrap(), vec!["default", "performance"]);
    assert_eq!(intel_pstate::epps(0, denied_nowhere()).unwrap(), None);
    assert_eq!(intel_pstate::try_status(text("active\n")).unwrap(), "active");
    assert_eq!(intel_pstate::status(text("passive\n")).unwrap(), Some("passive".to_string()));
    assert_eq!(intel_pstate::status(missing()).unwrap(), None);
    assert!(intel_pstate::status(denied()).is_err());
    assert!(intel_pstate::epb(0, text("six")).is_err());
}

#[test]
fn the_pstate_controls_are_written() {
    let w = intel_pstate::try_set_epb(4, 15);
    assert_eq!(
        (w.path.as_str(), w.text.as_str()),
        ("/sys/devices/system/cpu/cpu4/power/energy_perf_bias", "15")
    );
    let w = intel_pstate::try_set_epp(4, "power");
    assert_eq!(
        (w.path.as_str(), w.text.as_str()),
        ("/sys/devices/system/cpu/cpu4/cpufreq/energy_performance_preference", "power")
    );
    let w = intel_pstate::try_set_status("passive");
    assert_eq!(
        (w.path.as_str(), w.text.as_str()),
        ("/sys/devices/system/cpu/intel_pstate/status", "passive")
    );
    assert!(matches!(intel_pstate::set_epb(4, Ok(())), Ok(Some(()))));
    assert!(matches!(intel_pstate::set_epb(4, missing()), Ok(None)));
    assert!(matches!(intel_pstate::set_epp(4, missing()), Ok(None)));
    assert!(matches!(intel_pstate::set_status(missing()), Ok(None)));
    assert!(matches!(
        intel_pstate::set_epp(4, denied()),
        Err(intel_pstate::Error::CpuxPseudofs(FsError::NoPermission(_, _)))
    ));
    assert!(intel_pstate::set_status(denied()).is_err());
}

#[test]
fn controllers_in_the_kernels_units() {
    assert_eq!(epb::get(0, text("6\n")).unwrap(), 6);
    assert!(matches!(epb::or(epb::get(0, missing()), 0), Ok(0)));
    assert!(epb::or(epb::get(0, denied()), 0).is_err());
    assert!(matches!(epb::ok(Ok(())), Ok(())));
    let w = epb::set(1, 4);
    assert_eq!((w.path.as_str(), w.text.as_str()), ("/sys/devices/system/cpu/cpu1/power/energy_perf_bias", "4"));
    assert_eq!(freq::cur_khz(0, text("1200000\n")).unwrap(), 1_200_000);
    assert_eq!(freq::max_khz(0, text("4100000\n")).unwrap(), 4_100_000);
    assert_eq!(freq::min_khz(0, text("800000\n")).unwrap(), 800_000);
    assert_eq!(freq::max_khz_limit(0, text("4100000\n")).unwrap(), 4_100_000);
    assert_eq!(freq::min_khz_limit(0, text("400000\n")).unwrap(), 400_000);
    assert_eq!(freq::governor(0, text("powersave\n")).unwrap(), "powersave");
    assert_eq!(freq::governors(0, text("a b\n")).unwrap(), vec!["a", "b"]);
    assert_eq!(freq::ep_pref(0, text("power\n")).unwrap(), "power");
    assert_eq!(freq::ep_prefs(0, text("power default\n")).unwrap(), vec!["power", "default"]);
    assert!(matches!(freq::or(freq::max_khz(0, missing()), 7), Ok(7)));
    assert!(matches!(freq::ok(Err(freq::Error::CpuxPseudofs(FsError::NotFound("/x".to_string(), failed(IoKind::NotFound, None, false))))), Ok(())));
    let w = freq::set_min_khz(3, 800_000);
    assert_eq!(
        (w.path.as_str(), w.text.as_str()),
        ("/sys/devices/system/cpu/cpu3/cpufreq/scaling_min_freq", "800000")
    );
    assert_eq!(freq::set_governor(3, "performance").text, "performance");
    assert_eq!(freq::set_ep_pref(3, "power").path, "/sys/devices/system/cpu/cpu3/cpufreq/energy_performance_preference");
}

#[test]
fn graphics_frequencies_are_read_in_megahertz() {
    assert_eq!(i915::try_actual(0, text("300\n")).unwrap(), Hertz(300_000_000));
    assert_eq!(i915::actual(0, text("300\n")).unwrap(), Some(Hertz(300_000_000)));
    assert_eq!(i915::try_boost(0, text("1100\n")).unwrap(), Hertz(1_100_000_000));
    assert_eq!(i915::boost(0, missing()).unwrap(), None);
    assert_eq!(i915::try_max(0, text("1100")).unwrap(), Hertz(1_100_000_000));
    assert_eq!(i915::max(0, text("900")).unwrap(), Some(Hertz(900_000_000)));
    assert_eq!(i915::try_min(0, text("350")).unwrap(), Hertz(350_000_000));
    assert_eq!(i915::min(0, missing()).unwrap(), None);
    assert_eq!(i915::try_max_limit(0, text("1150")).unwrap(), Hertz(1_150_000_000));
    assert_eq!(i915::max_limit(0, text("1150")).unwrap(), Some(Hertz(1_150_000_000)));
    assert_eq!(i915::try_min_limit(0, text("300")).unwrap(), Hertz(300_000_000));
    assert_eq!(i915::min_limit(0, denied_nowhere()).unwrap(), None);
    assert_eq!(i915::try_requested(0, text("450")).unwrap(), Hertz(450_000_000));
    assert_eq!(i915::requested(0, text("450")).unwrap(), Some(Hertz(450_000_000)));
    assert_eq!(i915::try_optimum_limit(0, text("350")).unwrap(), Hertz(350_000_000));
    assert_eq!(i915::optimum_limit(0, missing()).unwrap(), None);
    assert!(matches!(
        i915::max(0, denied()),
        Err(i915::Error::CpuxPseudofs(FsError::NoPermission(_, _)))
    ));
    assert!(i915::try_actual(0, missing()).is_err());
}

#[test]
fn graphics_frequencies_are_written_in_whole_megahertz() {
    let w = i915::try_set_boost(0, &Hertz(1_100_000_000));
    assert_eq!((w.path.as_str(), w.text.as_str()), ("/sys/class/drm/card0/gt_boost_freq_mhz", "1100"));
    let w = i915::try_set_max(1, &Hertz(900_000_000));
    assert_eq!((w.path.as_str(), w.text.as_str()), ("/sys/class/drm/card1/gt_max_freq_mhz", "900"));
    let w = i915::try_set_min(1, &Hertz(350_999_999));
    assert_eq!((w.path.as_str(), w.text.as_str()), ("/sys/class/drm/card1/gt_min_freq_mhz", "350"));
    assert!(matches!(i915::set_boost(0, Ok(())), Ok(Some(()))));
    assert!(matches!(i915::set_max(0, missing()), Ok(None)));
    assert!(matches!(i915::set_min(0, denied()), Err(i915::Error::CpuxPseudofs(_))));
    let w = i915::try_set_max(0, &Hertz(1_100_000_000));
    assert_eq!(i915::max(0, Ok(w.text)).unwrap(), Some(Hertz(1_100_000_000)));
}

fn name(s: &str) -> drm::Entry {
    drm::Entry::Name(s.to_string())
}

#[test]
fn cards_among_the_entries() {
    assert_eq!(drm::card_number("card0"), Some(0));
    assert_eq!(drm::card_number("card12"), Some(12));
    assert_eq!(drm::card_number("card"), None);
    assert_eq!(drm::card_number("card0-HDMI-A-1"), None);
    assert_eq!(drm::card_number("renderD128"), None);
    assert_eq!(drm::card_number("car"), None);
    assert_eq!(drm::card_number("Card1"), None);
    let listing = vec![name("version"), name("card1"), name("card1-DP-1"), name("renderD128"), name("card0")];
    assert_eq!(drm::try_cards(Ok(listing)).unwrap(), vec![1, 0]);
    let listing = vec![name("card0"), drm::Entry::NotUnicode, name("card2")];
    assert_eq!(drm::cards(Ok(listing)).unwrap(), Some(vec![0, 2]));
    assert_eq!(drm::try_cards(Ok(vec![])).unwrap(), Vec::<u64>::new());
}

#[test]
fn a_listing_that_failed() {
    assert!(matches!(drm::try_cards(missing()), Err(drm::Error::StdIo(_))));
    assert!(matches!(drm::cards(missing()), Ok(None)));
    assert!(matches!(drm::cards(denied()), Ok(None)));
    let listing = vec![name("card0"), drm::Entry::NotUnicode, drm::Entry::Failed(failed(IoKind::Other, None, true))];
    assert!(matches!(drm::try_cards(Ok(listing)), Err(drm::Error::PathCodec)));
    let listing = vec![name("card0"), drm::Entry::Failed(failed(IoKind::Other, None, true)), drm::Entry::NotUnicode];
    assert!(matches!(drm::try_cards(Ok(listing)), Err(drm::Error::StdIo(_))));
    let listing = vec![drm::Entry::Failed(failed(IoKind::Other, None, true)), name("card3")];
    assert_eq!(drm::cards(Ok(listing)).unwrap(), Some(vec![3]));
}

#[test]
fn the_driver_of_a_card() {
    assert_eq!(drm::try_card_driver(0, Ok(drm::Link::Name("i915".to_string()))).unwrap(), "i915");
    assert!(matches!(drm::try_card_driver(0, Ok(drm::Link::NoName)), Err(drm::Error::BadPath)));
    assert!(matches!(drm::try_card_driver(0, Ok(drm::Link::NotUnicode)), Err(drm::Error::PathCodec)));
    assert!(matches!(drm::try_card_driver(0, missing()), Err(drm::Error::StdIo(_))));
    assert_eq!(drm::card_driver(0, Ok(drm::Link::Name("amdgpu".to_string()))).unwrap(), Some("amdgpu".to_string()));
    assert!(matches!(drm::card_driver(0, missing()), Ok(None)));
    assert!(matches!(drm::card_driver(0, denied()), Err(drm::Error::StdIo(_))));
    assert!(matches!(drm::card_driver(0, denied_nowhere()), Err(drm::Error::StdIo(_))));
    assert!(matches!(drm::card_driver(0, Ok(drm::Link::NoName)), Err(drm::Error::BadPath)));
    assert_eq!(drm::Error::PathCodec.message(), "Path name conversion error");
    assert_eq!(drm::Error::BadPath.message(), "Bad path");
    assert_eq!(drm::Error::StdIo(failed(IoKind::Other, None, true)).message(), "no");
    assert!(matches!(drm::Error::BadPath.duplicate(), drm::Error::BadPath));
}

fn with_driver(card_id: u64, driver: &str) -> i915::CardDriver {
    i915::CardDriver { card_id, driver: Ok(driver.to_string()) }
}

#[test]
fn the_intel_cards() {
    let found = vec![with_driver(0, "amdgpu"), with_driver(1, "i915"), with_driver(2, "i915x"), with_driver(3, "i915")];
    assert_eq!(i915::try_cards(Ok(found)).unwrap(), vec![1, 3]);
    assert_eq!(i915::cards(Ok(vec![with_driver(0, "i915")])).unwrap(), Some(vec![0]));
    assert_eq!(i915::cards(Ok(vec![])).unwrap(), Some(vec![]));
}

#[test]
fn looking_for_intel_cards_fails_as_the_lookup_does() {
    assert!(matches!(i915::try_cards(Err(drm::Error::PathCodec)), Err(i915::Error::CpuxDrm(drm::Error::PathCodec))));
    let found = vec![
        with_driver(0, "i915"),
        i915::CardDriver { card_id: 1, driver: Err(drm::Error::BadPath) },
        i915::CardDriver { card_id: 2, driver: Err(drm::Error::PathCodec) },
    ];
    assert!(matches!(i915::try_cards(Ok(found)), Err(i915::Error::CpuxDrm(drm::Error::BadPath))));
    let gone = drm::Error::StdIo(failed(IoKind::NotFound, Some(2), false));
    assert!(matches!(i915::cards(Err(gone)), Err(i915::Error::CpuxDrm(drm::Error::StdIo(_)))));
    assert_eq!(i915::Error::CpuxDrm(drm::Error::BadPath).message(), "Bad path");
}
