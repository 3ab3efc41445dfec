use noargs::{arg, cmd, opt, Error, RawArgs};

fn error_test_args(raw_args: &[&str]) -> RawArgs {
    RawArgs::new(raw_args.iter().map(|a| a.to_string()).collect())
}

#[test]
fn unexpected_arg_error() {
    let args = error_test_args(&["noargs"]);
    assert!(Error::check_unexpected_arg(&args).is_ok());

    let mut args = error_test_args(&["noargs", "--foo"]);
    args.metadata_mut().help_flag_name = None;
    let e = Error::check_unexpected_arg(&args).expect_err("should error");
    assert_eq!(e.to_string(false), "unexpected argument '--foo' found");

    let args = error_test_args(&["noargs", "--foo"]);
    let e = Error::check_unexpected_arg(&args).expect_err("should error");
    assert_eq!(
        e.to_string(false),
        r#"unexpected argument '--foo' found

Try '--help' for more information."#
    );
}

#[test]
fn undefined_command_error() {
    let mut args = error_test_args(&["noargs", "baz"]);
    args.metadata_mut().help_flag_name = None;
    cmd("foo").take(&mut args);
    cmd("bar").take(&mut args);
    let e = args.finish(false).expect_err("error");
    assert_eq!(e.to_string(false), "'baz' command is not defined");
}

#[test]
fn missing_command_error() {
    let mut args = error_test_args(&["noargs"]);
    args.metadata_mut().help_flag_name = None;
    cmd("foo").take(&mut args);
    cmd("bar").take(&mut args);
    let e = args.finish(false).expect_err("error");
    assert_eq!(e.to_string(false), "command is not specified");
}

#[test]
fn parse_arg_error() {
    let mut args = error_test_args(&["noargs", "foo"]);
    args.metadata_mut().help_flag_name = None;
    let e = arg("INTEGER")
        .take(&mut args)
        .and_then(|a| a.value().parse::<usize>())
        .expect_err("error");
    assert_eq!(
        e.to_string(false),
        r#"argument 'INTEGER' has an invalid value "foo": invalid digit found in string"#
    );
}

#[test]
fn parse_opt_error() {
    let mut args = error_test_args(&["noargs", "-f=bar"]);
    args.metadata_mut().help_flag_name = None;
    let e = opt("foo")
        .short('f')
        .take(&mut args)
        .and_then(|o| o.value().parse::<usize>())
        .expect_err("error");
    assert_eq!(
        e.to_string(false),
        r#"argument '-f' has an invalid value "bar": invalid digit found in string"#
    );
}

#[test]
fn missing_arg_error() {
    let mut args = error_test_args(&["noargs"]);
    args.metadata_mut().help_flag_name = None;
    let e = arg("INTEGER")
        .take(&mut args)
        .and_then(|a| a.value().parse::<usize>())
        .expect_err("error");
    assert_eq!(e.to_string(false), "missing argument 'INTEGER'");
}

#[test]
fn missing_opt_error() {
    let mut args = error_test_args(&["noargs", "-f"]);
    args.metadata_mut().help_flag_name = None;
    let e = opt("foo")
        .short('f')
        .take(&mut args)
        .and_then(|o| o.value().parse::<usize>())
        .expect_err("error");
    assert_eq!(e.to_string(false), "missing '-f' value");
}

#[test]
fn missing_option_and_long_value_errors() {
    let mut args = error_test_args(&["noargs", "--foo"]);
    let e = opt("foo")
        .take(&mut args)
        .and_then(|o| o.value().parse::<usize>())
        .expect_err("error");
    assert_eq!(e.to_string(false), "missing '--foo' value");
    let e = opt("bar")
        .take(&mut args)
        .and_then(|o| o.value().parse::<usize>())
        .expect_err("error");
    assert_eq!(e.to_string(false), "missing '--bar' option");
}

#[test]
fn invalid_env_value_error() {
    let mut args = error_test_args(&["noargs"]);
    args.set_env_var("NUM".to_string(), "x y".to_string());
    let e = opt("num")
        .env("NUM")
        .take(&mut args)
        .and_then(|o| o.value().parse::<usize>())
        .expect_err("error");
    assert_eq!(
        e.to_string(false),
        "environment variable 'NUM' for '--num' has an invalid value \"x y\": invalid digit found in string\n\nTry '--help' for more information."
    );
}

#[test]
fn bold_names_on_terminal() {
    let args = error_test_args(&["noargs", "zz"]);
    let e = Error::check_unexpected_arg(&args).expect_err("error");
    assert_eq!(
        e.to_string(true),
        "unexpected argument '\x1B[1mzz\x1B[0m' found\n\nTry '\x1B[1m--help\x1B[0m' for more information."
    );
}

#[test]
fn other_error_carries_metadata() {
    let mut args = error_test_args(&["noargs"]);
    args.metadata_mut().help_flag_name = Some("usage");
    let e = Error::other(&args, "boom");
    assert_eq!(e.to_string(false), "boom\n\nTry '--usage' for more information.");
    let e: Error = Error::from("plain");
    assert_eq!(e.to_string(false), "plain");
}

#[test]
fn finish_without_leftovers() {
    let mut args = error_test_args(&["noargs", "run"]);
    assert!(cmd("run").take(&mut args).is_present());
    assert!(matches!(args.finish(false), Ok(None)));
}
