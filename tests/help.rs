use noargs::help::HelpBuilder;
use noargs::{help_flag, version_flag, RawArgs};

fn help_test_args(raw_args: &[&str]) -> RawArgs {
    RawArgs::new(raw_args.iter().map(|a| a.to_string()).collect())
}

#[test]
fn flags_help() {
    let mut args = help_test_args(&["test"]);
    args.metadata_mut().app_description = "Test command";
    help_flag().take(&mut args);
    version_flag().take(&mut args);

    let help = HelpBuilder::new(&args, false).build();
    println!("{help}");
    assert_eq!(
        help,
        r#"Test command

Usage: <APP_NAME> [OPTIONS]

Options:
  -h, --help    Print help ('--help' for full help, '-h' for summary)
      --version Print version
"#
    );
}

#[test]
fn flags_and_opts_help() {
    let mut args = help_test_args(&["test"]);
    args.metadata_mut().app_description = "";
    help_flag().take(&mut args);
    noargs::opt("foo")
        .short('f')
        .doc("An integer\nThis is foo")
        .env("FOO_ENV")
        .default("10")
        .take(&mut args);

    let help = HelpBuilder::new(&args, false).build();
    println!("{help}");
    assert_eq!(
        help,
        r#"Usage: <APP_NAME> [OPTIONS]

Options:
  -h, --help        Print help ('--help' for full help, '-h' for summary)
  -f, --foo <VALUE> An integer [env: FOO_ENV] [default: 10]
"#
    );

    args.metadata_mut().full_help = true;
    let help = HelpBuilder::new(&args, false).build();
    println!("{help}");
    assert_eq!(
        help,
        r#"Usage: <APP_NAME> [OPTIONS]

Options:
  --help, -h
    Print help ('--help' for full help, '-h' for summary)

  --foo, -f <VALUE>
    An integer
    This is foo
    [env: FOO_ENV]
    [default: 10]
"#
    );
}

#[test]
fn required_opts_help() {
    let mut args = help_test_args(&["test"]);
    args.metadata_mut().app_description = "";
    help_flag().take(&mut args);
    noargs::opt("foo")
        .short('f')
        .doc("An integer")
        .example("10")
        .take(&mut args);

    let help = HelpBuilder::new(&args, false).build();
    println!("{help}");
    assert_eq!(
        help,
        r#"Usage: <APP_NAME> --foo <VALUE> [OPTIONS]

Example:
  $ <APP_NAME> --foo 10

Options:
  -h, --help        Print help ('--help' for full help, '-h' for summary)
  -f, --foo <VALUE> An integer
"#
    );
}

#[test]
fn positional_args_help() {
    let mut args = help_test_args(&["test"]);
    args.metadata_mut().app_description = "";
    help_flag().take(&mut args);
    noargs::arg("<REQUIRED>")
        .doc("Foo\nDetail is foo")
        .example("3")
        .take(&mut args);
    noargs::arg("[OPTIONAL]")
        .doc("Bar")
        .default("9")
        .take(&mut args);
    for _ in 0..3 {
        noargs::arg("[MULTI]...").doc("Baz").take(&mut args);
    }

    let help = HelpBuilder::new(&args, false).build();
    println!("{help}");
    assert_eq!(
        help,
        r#"Usage: <APP_NAME> [OPTIONS] <REQUIRED> [OPTIONAL] [MULTI]...

Example:
  $ <APP_NAME> 3

Arguments:
  <REQUIRED> Foo
  [OPTIONAL] Bar [default: 9]
  [MULTI]... Baz

Options:
  -h, --help Print help ('--help' for full help, '-h' for summary)
"#
    );

    args.metadata_mut().full_help = true;
    let help = HelpBuilder::new(&args, false).build();
    println!("{help}");
    assert_eq!(
        help,
        r#"Usage: <APP_NAME> [OPTIONS] <REQUIRED> [OPTIONAL] [MULTI]...

Example:
  $ <APP_NAME> 3

Arguments:
  <REQUIRED>
    Foo
    Detail is foo

  [OPTIONAL]
    Bar
    [default: 9]

  [MULTI]...
    Baz

Options:
  --help, -h
    Print help ('--help' for full help, '-h' for summary)
"#
    );
}

#[test]
fn before_subcommands_help() {
    let mut args = help_test_args(&["test"]);
    args.metadata_mut().app_description = "";
    help_flag().take(&mut args);
    noargs::cmd("put").doc("Put an entry").take(&mut args);
    noargs::cmd("get").doc("Get an entry").take(&mut args);

    let help = HelpBuilder::new(&args, false).build();
    println!("{help}");
    assert_eq!(
        help,
        r#"Usage: <APP_NAME> [OPTIONS] <COMMAND>

Commands:
  put Put an entry
  get Get an entry

Options:
  -h, --help Print help ('--help' for full help, '-h' for summary)
"#
    );

    args.metadata_mut().full_help = true;
    let help = HelpBuilder::new(&args, false).build();
    println!("{help}");
    assert_eq!(
        help,
        r#"Usage: <APP_NAME> [OPTIONS] <COMMAND>

Commands:
  put
    Put an entry

  get
    Get an entry

Options:
  --help, -h
    Print help ('--help' for full help, '-h' for summary)
"#
    );
}

#[test]
fn after_subcommands_help() {
    let mut args = help_test_args(&["test", "get"]);
    args.metadata_mut().app_description = "";
    help_flag().take(&mut args);
    noargs::cmd("put").doc("Put an entry").take(&mut args);
    noargs::cmd("get").doc("Get an entry").take(&mut args);
    noargs::flag("foo").doc("should included").take(&mut args);
    noargs::arg("<KEY>")
        .doc("A key string")
        .example("hi")
        .take(&mut args);

    let help = HelpBuilder::new(&args, false).build();
    println!("{help}");
    assert_eq!(
        help,
        r#"Usage: <APP_NAME> ... get [OPTIONS] <KEY>

Example:
  $ <APP_NAME> get hi

Arguments:
  <KEY> A key string

Options:
  -h, --help Print help ('--help' for full help, '-h' for summary)
      --foo  should included
"#
    );

    args.metadata_mut().full_help = true;
    let help = HelpBuilder::new(&args, false).build();
    println!("{help}");
    assert_eq!(
        help,
        r#"Usage: <APP_NAME> ... get [OPTIONS] <KEY>

Example:
  $ <APP_NAME> get hi

Arguments:
  <KEY>
    A key string

Options:
  --help, -h
    Print help ('--help' for full help, '-h' for summary)

  --foo
    should included
"#
    );
}

#[test]
fn terminal_formatting() {
    let mut args = help_test_args(&["test"]);
    noargs::flag("help").doc("Print help").take(&mut args);

    let help_terminal = HelpBuilder::new(&args, true).build();
    let help_no_terminal = HelpBuilder::new(&args, false).build();

    assert!(help_terminal.contains("Usage:"));
    assert!(help_no_terminal.contains("Usage:"));
    assert!(help_terminal.contains("Options:"));
    assert!(help_no_terminal.contains("Options:"));
}

#[test]
fn empty_description() {
    let mut args = help_test_args(&["test"]);
    args.metadata_mut().app_description = "";
    noargs::flag("help").doc("Print help").take(&mut args);

    let help = HelpBuilder::new(&args, false).build();
    assert!(help.starts_with("Usage:"));
}

#[test]
fn with_description() {
    let mut args = help_test_args(&["test"]);
    args.metadata_mut().app_description = "A test application\nWith multiple lines";
    noargs::flag("help").doc("Print help").take(&mut args);

    let help = HelpBuilder::new(&args, false).build();
    assert!(help.starts_with("A test application"));

    args.metadata_mut().full_help = true;
    let help_full = HelpBuilder::new(&args, false).build();
    assert!(help_full.contains("A test application\nWith multiple lines"));
}

#[test]
fn required_option_usage_and_example() {
    let mut args = help_test_args(&["prog"]);
    args.metadata_mut().app_name = "app";
    noargs::opt("foo").example("10").take(&mut args);
    noargs::flag("bar").take(&mut args);
    let help = HelpBuilder::new(&args, false).build();
    let mut lines = help.lines();
    assert_eq!(lines.next(), Some("Usage: app --foo <VALUE> [OPTIONS]"));
    assert!(help.contains("Example:\n  $ app --foo 10\n"));
}

#[test]
fn example_values_are_quoted() {
    let mut args = help_test_args(&["prog"]);
    args.metadata_mut().help_mode = true;
    noargs::arg("<A>").example("two words").take(&mut args);
    noargs::arg("<B>").example("say \"hi\"").take(&mut args);
    noargs::arg("<C>").example("it's").take(&mut args);
    let help = args.finish(false).expect("help").expect("text");
    assert!(help.contains("  $ <APP_NAME> \"two words\" 'say \"hi\"' \"it's\"\n"));
}

#[test]
fn terminal_styles_usage_header() {
    let mut args = help_test_args(&["prog"]);
    noargs::flag("v").take(&mut args);
    let help = HelpBuilder::new(&args, true).build();
    assert!(help.starts_with("\x1B[1m\x1B[4mUsage:\x1B[0m \x1B[1m<APP_NAME>\x1B[0m [OPTIONS]\n"));
}

#[test]
fn log_records_every_take() {
    let mut args = help_test_args(&["prog", "x"]);
    noargs::arg("<X>").take(&mut args);
    noargs::arg("<Y>").take(&mut args);
    args.metadata_mut().help_mode = true;
    let help = args.finish(false).expect("help").expect("text");
    assert!(help.starts_with("Usage: <APP_NAME> <X> <Y>\n"));
}

#[test]
fn example_with_tab_is_quoted() {
    let mut args = help_test_args(&["prog"]);
    noargs::arg("<A>").example("a\tb").take(&mut args);
    let help = HelpBuilder::new(&args, false).build();
    assert!(help.contains("  $ <APP_NAME> \"a\\tb\"\n"));
}

#[test]
fn subcommand_taken_twice_is_listed_once() {
    let mut args = help_test_args(&["test"]);
    noargs::cmd("put").doc("Put an entry").take(&mut args);
    noargs::cmd("put").doc("Put an entry").take(&mut args);
    let help = HelpBuilder::new(&args, false).build();
    assert_eq!(
        help,
        "Usage: <APP_NAME> <COMMAND>\n\nCommands:\n  put Put an entry\n"
    );
}
