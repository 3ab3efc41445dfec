use noargs::{Arg, RawArgs};

fn arg_test_args(raw_args: &[&str]) -> RawArgs {
    RawArgs::new(raw_args.iter().map(|a| a.to_string()).collect())
}

#[test]
fn required_arg() {
    let mut args = arg_test_args(&["test", "foo", "bar"]);
    let arg = noargs::arg("ARG");
    assert!(matches!(
        arg.take(&mut args),
        Arg::Positional { index: 1, .. }
    ));
    assert!(matches!(
        arg.take(&mut args),
        Arg::Positional { index: 2, .. }
    ));
    assert!(matches!(arg.take(&mut args), Arg::Absent { .. }));
}

#[test]
fn optional_arg() {
    let mut args = arg_test_args(&["test", "foo"]);
    let arg = noargs::arg("ARG").default("bar");
    assert!(matches!(
        arg.take(&mut args),
        Arg::Positional { index: 1, .. }
    ));
    assert!(matches!(arg.take(&mut args), Arg::Default { .. }));
    assert!(matches!(arg.take(&mut args), Arg::Default { .. }));
}

#[test]
fn example_arg() {
    let mut args = arg_test_args(&["test", "foo"]);
    args.metadata_mut().help_mode = true;

    let arg = noargs::arg("ARG").example("bar");
    assert!(matches!(arg.take(&mut args), Arg::Example { .. }));
    assert!(matches!(arg.take(&mut args), Arg::Example { .. }));
}

#[test]
fn parse_arg() {
    let mut args = arg_test_args(&["test", "1", "not a number"]);
    let arg = noargs::arg("ARG");
    assert_eq!(
        arg.take(&mut args)
            .and_then(|a| a.value().parse::<usize>())
            .ok(),
        Some(1)
    );
    assert_eq!(
        arg.take(&mut args)
            .and_then(|a| a.value().parse::<usize>())
            .ok(),
        None
    );
    assert_eq!(
        arg.take(&mut args)
            .and_then(|a| a.value().parse::<usize>())
            .ok(),
        None
    );
}

#[test]
fn arg_values_and_indices() {
    let mut args = arg_test_args(&["test", "x"]);
    let spec = noargs::arg("ARG").default("d");
    let first = spec.take(&mut args);
    assert_eq!(first.value(), "x");
    assert_eq!(first.index(), Some(1));
    assert!(first.is_present());
    let second = spec.take(&mut args);
    assert_eq!(second.value(), "d");
    assert_eq!(second.index(), None);
    let absent = noargs::arg("OTHER").take(&mut args);
    assert_eq!(absent.value(), "");
    assert!(!absent.is_present());
    assert_eq!(absent.spec().name, "OTHER");
    assert!(absent.present().is_none());
}

#[test]
fn arg_index_range() {
    let mut args = arg_test_args(&["test", "a", "b", "c"]);
    let spec = noargs::arg("ARG").min_index(2).max_index(2);
    assert!(matches!(spec.take(&mut args), Arg::Positional { index: 2, .. }));
    assert!(matches!(spec.take(&mut args), Arg::Absent { .. }));
    let rest: Vec<(usize, String)> = args.remaining_args();
    assert_eq!(rest, vec![(1, "a".to_string()), (3, "c".to_string())]);
}

#[test]
fn arg_present_and_then_absent_is_none() {
    let mut args = arg_test_args(&["test"]);
    let r = noargs::arg("ARG")
        .take(&mut args)
        .present_and_then(|a| a.value().parse::<usize>());
    assert!(matches!(r, Ok(None)));
}

#[test]
fn help_mode_reads_no_token() {
    let mut args = arg_test_args(&["test", "live", "--foo=1"]);
    args.metadata_mut().help_mode = true;
    let a = noargs::arg("ARG").default("dflt").take(&mut args);
    assert!(matches!(a, Arg::Default { .. }));
    assert_eq!(a.value(), "dflt");
    let o = noargs::opt("foo").example("9").take(&mut args);
    assert!(matches!(o, noargs::Opt::Example { .. }));
    assert_eq!(o.value(), "9");
    let n = noargs::opt("foo").take(&mut args);
    assert!(matches!(n, noargs::Opt::Absent { .. }));
    assert_eq!(args.remaining_args().len(), 2);
}
