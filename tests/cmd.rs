use noargs::{Flag, RawArgs};

fn cmd_test_args(raw_args: &[&str]) -> RawArgs {
    RawArgs::new(raw_args.iter().map(|a| a.to_string()).collect())
}

#[test]
fn cmd_at_first_position() {
    let mut args = cmd_test_args(&["test", "run", "--foo", "test", "--foo"]);
    let cmd = noargs::cmd("run").take(&mut args);

    assert!(cmd.is_present());
    assert_eq!(cmd.index(), Some(1));
    assert_eq!(cmd.spec().name, "run");
}

#[test]
fn cmd_not_at_first_position_not_found() {
    let mut args = cmd_test_args(&["test", "--foo", "run", "--foo"]);

    let cmd = noargs::cmd("run").take(&mut args);
    assert!(!cmd.is_present());
    assert_eq!(cmd.index(), None);

    let mut args = cmd_test_args(&["test", "--foo", "run", "--foo"]);
    let flag = noargs::flag("foo");
    let first_flag = flag.take(&mut args);
    assert!(matches!(first_flag, Flag::Long { index: 1, .. }));

    let cmd = noargs::cmd("run").take(&mut args);
    assert!(cmd.is_present());
    assert_eq!(cmd.index(), Some(2));
}

#[test]
fn cmd_not_found() {
    let mut args = cmd_test_args(&["test", "--foo", "run", "--foo"]);
    let cmd = noargs::cmd("nonexistent").take(&mut args);

    assert!(!cmd.is_present());
    assert_eq!(cmd.index(), None);
}

#[test]
fn cmd_consumed_after_take() {
    let mut args = cmd_test_args(&["test", "run", "--foo"]);
    let cmd = noargs::cmd("run").take(&mut args);

    assert!(cmd.is_present());

    let cmd2 = noargs::cmd("run").take(&mut args);
    assert!(!cmd2.is_present());
}

#[test]
fn cmd_with_flags() {
    let mut args = cmd_test_args(&["test", "run", "--foo", "--bar"]);
    let cmd = noargs::cmd("run").take(&mut args);

    assert!(cmd.is_present());

    let flag1 = noargs::flag("foo");
    assert!(matches!(flag1.take(&mut args), Flag::Long { index: 2, .. }));

    let flag2 = noargs::flag("bar");
    assert!(matches!(flag2.take(&mut args), Flag::Long { index: 3, .. }));
}

#[test]
fn multiple_commands() {
    let mut args = cmd_test_args(&["test", "first", "second", "third"]);

    let cmd1 = noargs::cmd("first").take(&mut args);
    assert!(cmd1.is_present());

    let cmd2 = noargs::cmd("second").take(&mut args);
    assert!(cmd2.is_present());

    let cmd3 = noargs::cmd("third").take(&mut args);
    assert!(cmd3.is_present());
}

#[test]
fn cmd_methods() {
    let mut args = cmd_test_args(&["test", "run"]);
    let cmd = noargs::cmd("run").take(&mut args);

    assert!(cmd.is_present());
    assert!(cmd.present().is_some());
    assert_eq!(cmd.index(), Some(1));
    assert_eq!(cmd.spec().name, "run");

    let mut args2 = cmd_test_args(&["other"]);
    let cmd2 = noargs::cmd("run").take(&mut args2);

    assert!(!cmd2.is_present());
    assert!(cmd2.present().is_none());
    assert_eq!(cmd2.index(), None);
    assert_eq!(cmd2.spec().name, "run");
}

#[test]
fn cmd_with_empty_args() {
    let mut args = cmd_test_args(&["test"]);
    let cmd = noargs::cmd("run").take(&mut args);

    assert!(!cmd.is_present());
    assert_eq!(cmd.index(), None);
}

#[test]
fn subcommand_and_flag() {
    let mut args = cmd_test_args(&["test", "--foo", "run", "--foo"]);
    if let Some(_cmd) = noargs::cmd("bar").anywhere().take(&mut args).present() {
        panic!();
    } else if let Some(cmd) = noargs::cmd("run").anywhere().take(&mut args).present() {
        let flag = noargs::flag("foo").min_index(cmd.index().unwrap());
        assert!(matches!(flag.take(&mut args), Flag::Long { index: 3, .. }));
        assert!(matches!(flag.take(&mut args), Flag::Absent { .. }));
    } else {
        panic!()
    }
}

#[test]
fn subcommand_scopes_later_flag() {
    let mut args = cmd_test_args(&["prog", "run", "--foo"]);
    let cmd = noargs::cmd("run").take(&mut args);
    assert_eq!(cmd.index(), Some(1));
    let flag = noargs::flag("foo").min_index(cmd.index().unwrap()).take(&mut args);
    assert!(flag.is_present());
    assert_eq!(flag.index(), Some(2));
}

#[test]
fn version() {
    let args = cmd_test_args(&["test", "run"]);
    assert_eq!(args.remaining_args(), vec![(1, "run".to_string())]);
}
