use noargs::{Opt, RawArgs};

fn scenario_args(raw_args: &[&str]) -> RawArgs {
    RawArgs::new(raw_args.iter().map(|a| a.to_string()).collect())
}

#[test]
fn short_option_equals_value() {
    let mut args = scenario_args(&["prog", "-k=v"]);
    let r = noargs::opt("key").short('k').take(&mut args);
    assert!(matches!(r, Opt::Short { index: 1, .. }));
    assert_eq!(r.value(), "v");
}

#[test]
fn indices_stay_put_after_consumption() {
    let mut args = scenario_args(&["prog", "a", "--x", "b", "c"]);
    assert!(noargs::flag("x").take(&mut args).is_present());
    let b = noargs::arg("B").min_index(3).take(&mut args);
    assert_eq!(b.index(), Some(3));
    assert_eq!(
        args.remaining_args(),
        vec![(1, "a".to_string()), (4, "c".to_string())]
    );
}

#[test]
fn metadata_defaults() {
    let args = scenario_args(&["prog"]);
    let md = args.metadata();
    assert_eq!(md.app_name, "<APP_NAME>");
    assert_eq!(md.app_description, "");
    assert_eq!(md.help_flag_name, Some("help"));
    assert!(!md.help_mode);
    assert!(!md.full_help);
    assert!(args.remaining_args().is_empty());
}
