use noargs::{Flag, FlagChars, RawArgs};

fn flag_test_args(raw_args: &[&str]) -> RawArgs {
    RawArgs::new(raw_args.iter().map(|a| a.to_string()).collect())
}

#[test]
fn long_name_flag() {
    let mut args = flag_test_args(&["test", "--foo"]);
    let flag = noargs::flag("foo");
    assert!(matches!(flag.take(&mut args), Flag::Long { index: 1, .. }));
    assert!(matches!(flag.take(&mut args), Flag::Absent { .. }));
}

#[test]
fn short_name_flag() {
    let mut args = flag_test_args(&["test", "-f", "-bf"]);

    let flag = noargs::flag("dummy").short('f');
    assert!(matches!(flag.take(&mut args), Flag::Short { index: 1, .. }));
    assert!(matches!(flag.take(&mut args), Flag::Short { index: 2, .. }));
    assert!(matches!(flag.take(&mut args), Flag::Absent { .. }));

    let flag = noargs::flag("dummy").short('b');
    assert!(matches!(flag.take(&mut args), Flag::Short { index: 2, .. }));
    assert!(matches!(flag.take(&mut args), Flag::Absent { .. }));
}

#[test]
fn env_flag() {
    let mut args = flag_test_args(&["test", "--bar"]);

    let flag = noargs::flag("foo").env("TEST_ENV_FLAG_FOO");
    assert!(matches!(flag.take(&mut args), Flag::Absent { .. }));

    args.set_env_var("TEST_ENV_FLAG_FOO".to_string(), "1".to_string());
    assert!(matches!(flag.take(&mut args), Flag::Env { .. }));
    assert!(matches!(flag.take(&mut args), Flag::Env { .. }));
}

#[test]
fn short_flag_clustering() {
    for order in [['b', 'f'], ['f', 'b']] {
        let mut args = flag_test_args(&["prog", "-bf"]);
        let first = noargs::flag("first").short(order[0]).take(&mut args);
        let second = noargs::flag("second").short(order[1]).take(&mut args);
        assert!(first.is_present());
        assert!(second.is_present());
        assert_eq!(first.index(), Some(1));
        assert_eq!(second.index(), Some(1));
        assert!(args.remaining_args().is_empty());
        assert!(!noargs::flag("again").short(order[0]).take(&mut args).is_present());
        assert!(!noargs::flag("again").short(order[1]).take(&mut args).is_present());
    }
}

#[test]
fn cluster_keeps_other_flags() {
    let mut args = flag_test_args(&["prog", "-abc"]);
    let r = noargs::flag("bee").short('b').take(&mut args);
    assert!(matches!(r, Flag::Short { index: 1, .. }));
    assert_eq!(args.remaining_args(), vec![(1, "-ac".to_string())]);
}

#[test]
fn non_alphabetic_cluster_is_not_flags() {
    let mut args = flag_test_args(&["prog", "-k1"]);
    let r = noargs::flag("key").short('k').take(&mut args);
    assert!(matches!(r, Flag::Absent { .. }));
    args.metadata_mut().valid_flag_chars = FlagChars::OneOf("k1");
    let r = noargs::flag("key").short('k').take(&mut args);
    assert!(matches!(r, Flag::Short { index: 1, .. }));
    assert_eq!(args.remaining_args(), vec![(1, "-1".to_string())]);
}

#[test]
fn take_help_sets_metadata() {
    let mut args = flag_test_args(&["prog", "--help"]);
    let r = noargs::help_flag().take_help(&mut args);
    assert!(matches!(r, Flag::Long { .. }));
    assert!(args.metadata().help_mode);
    assert!(args.metadata().full_help);
    assert_eq!(args.metadata().help_flag_name, Some("help"));

    let mut args = flag_test_args(&["prog", "-h"]);
    let r = noargs::help_flag().take_help(&mut args);
    assert!(matches!(r, Flag::Short { .. }));
    assert!(args.metadata().help_mode);
    assert!(!args.metadata().full_help);

    let mut args = flag_test_args(&["prog"]);
    let r = noargs::help_flag().take_help(&mut args);
    assert!(!r.is_present());
    assert!(!args.metadata().help_mode);
}

#[test]
fn flag_min_index() {
    let mut args = flag_test_args(&["prog", "--v", "x", "--v"]);
    let r = noargs::flag("v").min_index(2).take(&mut args);
    assert_eq!(r.index(), Some(3));
    assert_eq!(r.spec().name, "v");
    assert!(r.present().is_some());
}
