use noargs::{Opt, RawArgs};

fn opt_test_args(raw_args: &[&str]) -> RawArgs {
    RawArgs::new(raw_args.iter().map(|a| a.to_string()).collect())
}

#[test]
fn required_opt() {
    let mut args = opt_test_args(&["test", "--foo", "bar", "-f", "baz"]);
    let opt = noargs::opt("foo").short('f');
    assert!(matches!(opt.take(&mut args), Opt::Long { index: 1, .. }));
    assert!(matches!(opt.take(&mut args), Opt::Short { index: 3, .. }));
    assert!(matches!(opt.take(&mut args), Opt::Absent { .. }));
}

#[test]
fn default_opt() {
    let mut args = opt_test_args(&["test", "--foo=1", "--bar=2"]);
    let opt = noargs::opt("bar").default("3");
    assert!(matches!(opt.take(&mut args), Opt::Long { index: 2, .. }));
    assert!(matches!(opt.take(&mut args), Opt::Default { .. }));
    assert!(matches!(opt.take(&mut args), Opt::Default { .. }));
}

#[test]
fn example_opt() {
    let mut args = opt_test_args(&["test", "--foo=1", "--bar=2"]);
    args.metadata_mut().help_mode = true;

    let opt = noargs::opt("bar").example("3");
    assert!(matches!(opt.take(&mut args), Opt::Example { .. }));
    assert!(matches!(opt.take(&mut args), Opt::Example { .. }));
}

#[test]
fn missing_short_opt_value() {
    let mut args = opt_test_args(&["test", "-f"]);
    let opt = noargs::opt("foo").short('f');
    assert!(
        opt.take(&mut args)
            .present_and_then(|o| o.value().parse::<String>())
            .is_err()
    );
}

#[test]
fn parse_opt() {
    let mut args = opt_test_args(&["test", "--foo=1", "-f", "2", "--foo"]);
    let opt = noargs::opt("foo").short('f');
    assert_eq!(
        opt.take(&mut args)
            .and_then(|o| o.value().parse::<usize>())
            .ok(),
        Some(1)
    );
    assert_eq!(
        opt.take(&mut args)
            .and_then(|o| o.value().parse::<usize>())
            .ok(),
        Some(2)
    );
    assert_eq!(
        opt.take(&mut args)
            .and_then(|o| o.value().parse::<usize>())
            .ok(),
        None
    );
}

#[test]
fn short_option_separate_value() {
    let mut args = opt_test_args(&["test", "-f", "value1"]);
    let file_opt = noargs::opt("file").short('f');
    let result = file_opt.take(&mut args);
    assert!(matches!(result, Opt::Short { .. }));
    assert_eq!(result.value(), "value1");
}

#[test]
fn all_supported_formats() {
    let mut args = opt_test_args(&[
        "test",
        "--long=long_value",
        "--other",
        "other_value",
        "-f",
        "file_value",
    ]);

    let long_opt = noargs::opt("long");
    let result1 = long_opt.take(&mut args);
    assert!(matches!(result1, Opt::Long { .. }));
    assert_eq!(result1.value(), "long_value");

    let other_opt = noargs::opt("other");
    let result2 = other_opt.take(&mut args);
    assert!(matches!(result2, Opt::Long { .. }));
    assert_eq!(result2.value(), "other_value");

    let file_opt = noargs::opt("file").short('f');
    let result3 = file_opt.take(&mut args);
    assert!(matches!(result3, Opt::Short { .. }));
    assert_eq!(result3.value(), "file_value");
}

#[test]
fn long_option_formats_work() {
    let mut args = opt_test_args(&["test", "--file=value1", "--output", "value2"]);

    let file_opt = noargs::opt("file");
    let result1 = file_opt.take(&mut args);
    assert!(matches!(result1, Opt::Long { .. }));
    assert_eq!(result1.value(), "value1");

    let output_opt = noargs::opt("output");
    let result2 = output_opt.take(&mut args);
    assert!(matches!(result2, Opt::Long { .. }));
    assert_eq!(result2.value(), "value2");
}

#[test]
fn short_option_concatenated_value() {
    let mut args = opt_test_args(&["test", "-fvalue1", "-ooutput.txt"]);

    let file_opt = noargs::opt("file").short('f');
    let result1 = file_opt.take(&mut args);
    assert!(matches!(result1, Opt::Short { .. }));
    assert_eq!(result1.value(), "value1");

    let output_opt = noargs::opt("output").short('o');
    let result2 = output_opt.take(&mut args);
    assert!(matches!(result2, Opt::Short { .. }));
    assert_eq!(result2.value(), "output.txt");
}

#[test]
fn short_option_concatenated_value_edge_cases() {
    let mut args = opt_test_args(&["test", "-f-dash-value", "-k123", "-x"]);

    let file_opt = noargs::opt("file").short('f');
    let result1 = file_opt.take(&mut args);
    assert!(matches!(result1, Opt::Short { .. }));
    assert_eq!(result1.value(), "-dash-value");

    let key_opt = noargs::opt("key").short('k');
    let result2 = key_opt.take(&mut args);
    assert!(matches!(result2, Opt::Short { .. }));
    assert_eq!(result2.value(), "123");

    let x_opt = noargs::opt("x-opt").short('x');
    let result3 = x_opt.take(&mut args);
    assert!(matches!(result3, Opt::MissingValue { .. }));
}

#[test]
fn option_value_pending_exhaustion() {
    let mut args = opt_test_args(&["prog", "-f"]);
    let r = noargs::opt("foo").short('f').take(&mut args);
    assert!(matches!(r, Opt::MissingValue { long: false, .. }));
    assert!(r.is_present());
    assert!(!r.is_value_present());
    assert_eq!(r.index(), None);
}

#[test]
fn long_then_short_then_missing_value() {
    let mut args = opt_test_args(&["prog", "--foo", "1", "-f", "2", "--foo"]);
    let spec = noargs::opt("foo").short('f');
    let first = spec.take(&mut args);
    assert!(matches!(first, Opt::Long { index: 1, .. }));
    assert_eq!(first.value(), "1");
    let second = spec.take(&mut args);
    assert!(matches!(second, Opt::Short { index: 3, .. }));
    assert_eq!(second.value(), "2");
    let third = spec.take(&mut args);
    assert!(matches!(third, Opt::MissingValue { long: true, .. }));
    assert!(!third.is_value_present());
}

#[test]
fn default_resolves_on_every_take() {
    let mut args = opt_test_args(&["prog", "--other=1", "x"]);
    let spec = noargs::opt("foo").default("3");
    for _ in 0..4 {
        let r = spec.take(&mut args);
        assert!(matches!(r, Opt::Default { .. }));
        assert_eq!(r.value(), "3");
    }
    assert_eq!(args.remaining_args().len(), 2);
}

#[test]
fn opt_env_fallback() {
    let mut args = opt_test_args(&["prog"]);
    let spec = noargs::opt("foo").env("FOO_VALUE").default("d");
    assert!(matches!(spec.take(&mut args), Opt::Default { .. }));
    args.set_env_var("FOO_VALUE".to_string(), "".to_string());
    assert!(matches!(spec.take(&mut args), Opt::Default { .. }));
    args.set_env_var("FOO_VALUE".to_string(), "7".to_string());
    let r = spec.take(&mut args);
    assert!(matches!(r, Opt::Env { .. }));
    assert_eq!(r.value(), "7");
}

#[test]
fn long_name_prefix_does_not_match() {
    let mut args = opt_test_args(&["prog", "--foobar=1", "--foo=", "--foo", "v"]);
    let spec = noargs::opt("foo");
    let r = spec.take(&mut args);
    assert!(matches!(r, Opt::Long { index: 2, .. }));
    assert_eq!(r.value(), "");
    let r = spec.take(&mut args);
    assert!(matches!(r, Opt::Long { index: 3, .. }));
    assert_eq!(r.value(), "v");
}

#[test]
fn pending_value_respects_max_index() {
    let mut args = opt_test_args(&["prog", "--foo", "v"]);
    let r = noargs::opt("foo").max_index(1).take(&mut args);
    assert!(matches!(r, Opt::MissingValue { long: true, .. }));
    assert_eq!(args.remaining_args(), vec![(2, "v".to_string())]);
}
