use cpux::pseudofs::{
    absent, allow_missing_files, handle_io_error, handle_io_error_under, probe, Availability,
    Error, IoFailure, IoKind, Policy, Read, Write, EBUSY, ENXIO,
};

fn failure(kind: IoKind, os_code: Option<i32>, exists: bool) -> IoFailure {
    IoFailure { kind, os_code, exists, detail: "it failed".to_string() }
}

#[test]
fn success_passes_through_classification() {
    let r = handle_io_error("/x", Ok::<u32, IoFailure>(5));
    assert!(matches!(r, Ok(5)));
}

#[test]
fn not_found_is_classified() {
    let r = handle_io_error::<()>("/x", Err(failure(IoKind::NotFound, Some(2), false)));
    match r {
        Err(Error::NotFound(p, f)) => {
            assert_eq!(p, "/x");
            assert_eq!(f.os_code, Some(2));
            assert_eq!(f.detail, "it failed");
        }
        _ => panic!("not classified as not found"),
    }
}

#[test]
fn permission_denied_is_classified() {
    let r = handle_io_error::<()>("/x", Err(failure(IoKind::PermissionDenied, Some(13), true)));
    assert!(matches!(r, Err(Error::NoPermission(p, _)) if p == "/x"));
}

#[test]
fn gone_and_busy_devices_count_as_not_found() {
    assert_eq!(ENXIO, 6);
    assert_eq!(EBUSY, 16);
    let r = handle_io_error::<()>("/x", Err(failure(IoKind::Other, Some(6), true)));
    assert!(matches!(r, Err(Error::NotFound(_, _))));
    let r = handle_io_error::<()>("/x", Err(failure(IoKind::Other, Some(16), true)));
    assert!(matches!(r, Err(Error::NotFound(_, _))));
}

#[test]
fn other_failures_stay_io_errors() {
    let r = handle_io_error::<()>("/x", Err(failure(IoKind::Other, Some(5), true)));
    assert!(matches!(r, Err(Error::Io(_, _))));
    let r = handle_io_error::<()>("/x", Err(failure(IoKind::Other, None, true)));
    assert!(matches!(r, Err(Error::Io(_, _))));
    let r = handle_io_error::<()>("/x", Err(failure(IoKind::Other, Some(22), false)));
    assert!(matches!(r, Err(Error::Io(_, _))));
}

#[test]
fn the_number_does_not_matter_for_the_named_kinds() {
    let r = handle_io_error::<()>("/x", Err(failure(IoKind::PermissionDenied, Some(6), true)));
    assert!(matches!(r, Err(Error::NoPermission(_, _))));
    let r = handle_io_error::<()>("/x", Err(failure(IoKind::NotFound, Some(5), true)));
    assert!(matches!(r, Err(Error::NotFound(_, _))));
}

#[test]
fn a_missing_file_is_absence() {
    let e = Error::NotFound("/x".to_string(), failure(IoKind::NotFound, Some(2), false));
    assert!(absent(&e));
    let r = allow_missing_files::<u64>(Err(e));
    assert!(matches!(r, Ok(None)));
}

#[test]
fn a_refusal_where_nothing_exists_is_absence() {
    let e = Error::NoPermission("/x".to_string(), failure(IoKind::PermissionDenied, Some(13), false));
    assert!(absent(&e));
    assert!(matches!(allow_missing_files::<u64>(Err(e)), Ok(None)));
}

#[test]
fn a_refusal_at_an_existing_file_is_an_error() {
    let e = Error::NoPermission("/x".to_string(), failure(IoKind::PermissionDenied, Some(13), true));
    assert!(!absent(&e));
    assert!(matches!(allow_missing_files::<u64>(Err(e)), Err(Error::NoPermission(_, _))));
}

#[test]
fn other_errors_are_never_absence() {
    let e = Error::Io("/x".to_string(), failure(IoKind::Other, Some(5), false));
    assert!(matches!(allow_missing_files::<u64>(Err(e)), Err(Error::Io(_, _))));
    let e = Error::ParseBool("/x".to_string(), "2".to_string());
    assert!(matches!(allow_missing_files::<bool>(Err(e)), Err(Error::ParseBool(_, _))));
    let e = Error::ParseU64("/x".to_string(), "".to_string());
    assert!(matches!(allow_missing_files::<u64>(Err(e)), Err(Error::ParseU64(_, _))));
}

#[test]
fn a_value_that_is_there_is_some() {
    assert!(matches!(allow_missing_files(Ok::<u64, Error>(3)), Ok(Some(3))));
}

#[test]
fn booleans_are_read() {
    assert!(matches!(<bool as Read>::read("/x", Ok("0\n".to_string())), Ok(false)));
    assert!(matches!(<bool as Read>::read("/x", Ok("1\n".to_string())), Ok(true)));
    assert!(matches!(<bool as Read>::read("/x", Ok("1".to_string())), Ok(true)));
}

#[test]
fn what_is_no_boolean_is_an_error() {
    for text in ["", "2\n", "true", "1 \n", "1\n\n", " 1", "01"] {
        match <bool as Read>::read("/x", Ok(text.to_string())) {
            Err(Error::ParseBool(p, t)) => {
                assert_eq!(p, "/x");
                assert_eq!(t, text.strip_suffix('\n').unwrap_or(text));
            }
            _ => panic!("{:?} was read as a boolean", text),
        }
    }
}

#[test]
fn numbers_are_read_from_files() {
    assert!(matches!(<u64 as Read>::read("/x", Ok("800000\n".to_string())), Ok(800_000)));
    assert!(matches!(<u64 as Read>::read("/x", Ok("0".to_string())), Ok(0)));
    match <u64 as Read>::read("/x", Ok("fast\n".to_string())) {
        Err(Error::ParseU64(p, t)) => {
            assert_eq!(p, "/x");
            assert_eq!(t, "fast");
        }
        _ => panic!("read as a number"),
    }
    assert!(matches!(<u64 as Read>::read("/x", Ok("\n".to_string())), Err(Error::ParseU64(_, _))));
    assert!(matches!(<u64 as Read>::read("/x", Ok("12 \n".to_string())), Err(Error::ParseU64(_, _))));
}

#[test]
fn strings_are_read_literally() {
    assert_eq!(<String as Read>::read("/x", Ok("powersave\n".to_string())).unwrap(), "powersave");
    assert_eq!(<String as Read>::read("/x", Ok("a b \n".to_string())).unwrap(), "a b ");
    assert_eq!(<String as Read>::read("/x", Ok("".to_string())).unwrap(), "");
    assert_eq!(<String as Read>::read("/x", Ok("a\n\n".to_string())).unwrap(), "a\n");
}

#[test]
fn lists_are_split_at_spaces() {
    let r = <Vec<String> as Read>::read("/x", Ok("performance powersave\n".to_string())).unwrap();
    assert_eq!(r, vec!["performance", "powersave"]);
    let r = <Vec<String> as Read>::read("/x", Ok("performance powersave \n".to_string())).unwrap();
    assert_eq!(r, vec!["performance", "powersave", ""]);
    let r = <Vec<String> as Read>::read("/x", Ok("\n".to_string())).unwrap();
    assert_eq!(r, vec![""]);
}

#[test]
fn a_failed_read_is_classified_for_every_type() {
    let f = || Err(failure(IoKind::Other, Some(16), true));
    assert!(matches!(<bool as Read>::read("/x", f()), Err(Error::NotFound(_, _))));
    assert!(matches!(<u64 as Read>::read("/x", f()), Err(Error::NotFound(_, _))));
    assert!(matches!(<String as Read>::read("/x", f()), Err(Error::NotFound(_, _))));
    assert!(matches!(<Vec<String> as Read>::read("/x", f()), Err(Error::NotFound(_, _))));
}

#[test]
fn values_are_written_down() {
    let w = true.write("/p");
    assert_eq!((w.path.as_str(), w.text.as_str()), ("/p", "1"));
    let w = false.write("/p");
    assert_eq!((w.path.as_str(), w.text.as_str()), ("/p", "0"));
    let w = 4_100_000u64.write("/q");
    assert_eq!((w.path.as_str(), w.text.as_str()), ("/q", "4100000"));
    let w = "performance".write("/r");
    assert_eq!((w.path.as_str(), w.text.as_str()), ("/r", "performance"));
    let w = "two\nlines".write("/r");
    assert_eq!(w.text, "two\nlines");
}

#[test]
fn what_is_written_reads_back() {
    for n in [0u64, 800_000, 4_100_000, u64::MAX] {
        let w = n.write("/x");
        assert!(matches!(<u64 as Read>::read("/x", Ok(w.text)), Ok(m) if m == n));
    }
    for b in [true, false] {
        let w = b.write("/x");
        assert!(matches!(<bool as Read>::read("/x", Ok(w.text)), Ok(c) if c == b));
    }
}

#[test]
fn errors_in_words() {
    let e = Error::Io("/x".to_string(), failure(IoKind::Other, None, true));
    assert_eq!(e.message(), "/x: it failed");
    assert_eq!(e.path(), "/x");
    let e = Error::NotFound("/y".to_string(), failure(IoKind::NotFound, None, false));
    assert_eq!(e.message(), "/y: it failed");
    let e = Error::NoPermission("/z".to_string(), failure(IoKind::PermissionDenied, None, true));
    assert_eq!(e.message(), "/z: it failed");
    let e = Error::ParseBool("/b".to_string(), "2".to_string());
    assert_eq!(e.message(), "/b: value could not be parsed as bool: `2`");
    let e = Error::ParseU64("/u".to_string(), "x".to_string());
    assert_eq!(e.message(), "/u: value could not be parsed as u64: `x");
    assert_eq!(e.path(), "/u");
}

#[test]
fn copies_are_equal() {
    let f = failure(IoKind::PermissionDenied, Some(13), true);
    let g = f.duplicate();
    assert_eq!((g.kind, g.os_code, g.exists, g.detail.as_str()), (IoKind::PermissionDenied, Some(13), true, "it failed"));
    let e = Error::ParseU64("/u".to_string(), "x".to_string()).duplicate();
    assert!(matches!(e, Error::ParseU64(p, t) if p == "/u" && t == "x"));
}

#[test]
fn the_three_outcomes() {
    assert!(matches!(probe(Ok::<u64, Error>(4)), Availability::Present(4)));
    let gone = Error::NotFound("/x".to_string(), failure(IoKind::NotFound, Some(2), false));
    assert!(matches!(probe::<u64>(Err(gone)), Availability::Absent));
    let nowhere = Error::NoPermission("/x".to_string(), failure(IoKind::PermissionDenied, None, false));
    assert!(matches!(probe::<u64>(Err(nowhere)), Availability::Absent));
    let refused = Error::NoPermission("/x".to_string(), failure(IoKind::PermissionDenied, None, true));
    assert!(matches!(probe::<u64>(Err(refused)), Availability::Failed(Error::NoPermission(_, _))));
    let broken = Error::ParseU64("/x".to_string(), "?".to_string());
    assert!(matches!(probe::<u64>(Err(broken)), Availability::Failed(Error::ParseU64(_, _))));
    assert!(matches!(Availability::<u8, Error>::Present(1).into_result(), Ok(Some(1))));
    assert!(matches!(Availability::<u8, Error>::Absent.into_result(), Ok(None)));
    let e = Error::Io("/x".to_string(), failure(IoKind::Other, None, true));
    assert!(matches!(Availability::<u8, Error>::Failed(e).into_result(), Err(Error::Io(_, _))));
    assert!(matches!(Availability::from_result(Ok::<Option<u8>, Error>(Some(2))), Availability::Present(2)));
    assert!(matches!(Availability::from_result(Ok::<Option<u8>, Error>(None)), Availability::Absent));
    assert!(matches!(Availability::from_result(Err::<Option<u8>, u32>(7)), Availability::Failed(7)));
}

#[test]
fn the_policy_on_device_errors() {
    assert!(Policy::default().device_errors_are_absence);
    let strict = Policy { device_errors_are_absence: false };
    for code in [6, 16] {
        let r = handle_io_error_under::<()>(strict, "/x", Err(failure(IoKind::Other, Some(code), true)));
        assert!(matches!(r, Err(Error::Io(_, _))));
        let r = handle_io_error_under::<()>(Policy::default(), "/x", Err(failure(IoKind::Other, Some(code), true)));
        assert!(matches!(r, Err(Error::NotFound(_, _))));
    }
    let r = handle_io_error_under::<()>(strict, "/x", Err(failure(IoKind::NotFound, Some(2), false)));
    assert!(matches!(r, Err(Error::NotFound(_, _))));
    let r = handle_io_error_under::<()>(strict, "/x", Err(failure(IoKind::PermissionDenied, Some(13), false)));
    assert!(matches!(r, Err(Error::NoPermission(_, _))));
    assert!(matches!(handle_io_error_under(strict, "/x", Ok::<u8, IoFailure>(1)), Ok(1)));
}
