use bronzeflow::schedule_expr::{FixPreset, SchedulePreset, ScheduleExpr};
use bronzeflow::BronzeError;
use std::str::FromStr;

#[test]
fn test_li() {}

#[test]
fn test_parse_fix_reset_from_str() {
    assert_eq!(FixPreset::NotRun, FixPreset::from_str("@none").unwrap());
    assert_eq!(FixPreset::Once, FixPreset::from_str("@once").unwrap());
    assert_eq!(FixPreset::Hourly, FixPreset::from_str("@hourly").unwrap());
    assert_eq!(FixPreset::Daily, FixPreset::from_str("@daily").unwrap());
    assert_eq!(FixPreset::Weekly, "@weekly".parse().unwrap());
    assert_eq!(FixPreset::Monthly, "@monthly".parse().unwrap());
    assert_eq!(FixPreset::Yearly, "@yearly".parse().unwrap());
}

#[test]
fn test_parse_schedule_expr_from_str() {
    let not_run = ScheduleExpr::from_str("@none").ok();
    assert!(matches!(
        not_run,
        Some(ScheduleExpr::Preset(SchedulePreset::NotRun))
    ));

    let once = ScheduleExpr::from_str("@once").ok();
    assert!(matches!(
        once,
        Some(ScheduleExpr::Preset(SchedulePreset::Once))
    ));

    assert!(matches!(ScheduleExpr::from_str("error str expr").ok(), None));
    let s1: Option<ScheduleExpr> = "0 0 0 * * 1 *".parse().ok();
    assert!(matches!(s1, Some(_)));

    let s2 = "1/10 * * * * * *".parse().ok();
    assert!(matches!(s2, Some(ScheduleExpr::Cron(_))));
}

#[test]
fn preset_strings_round_trip() {
    let presets = vec![
        FixPreset::NotRun,
        FixPreset::Once,
        FixPreset::Hourly,
        FixPreset::Daily,
        FixPreset::Weekly,
        FixPreset::Monthly,
        FixPreset::Yearly,
    ];
    for p in presets {
        let s = p.get_string();
        assert_eq!(FixPreset::parse(s.as_str()).unwrap(), p);
    }
}

#[test]
fn preset_parse_rejects_unknown() {
    assert_eq!(FixPreset::parse("@never"), Err(BronzeError::ParseError));
    assert_eq!(FixPreset::parse(""), Err(BronzeError::ParseError));
    assert_eq!(FixPreset::parse("@Daily"), Err(BronzeError::ParseError));
}

#[test]
fn daily_alias_is_cron() {
    // The cron syntax itself accepts the @daily alias, so parsing yields a
    // cron rule, not a preset sentinel.
    let e = ScheduleExpr::parse("@daily").unwrap();
    assert!(matches!(e, ScheduleExpr::Cron(_)));
    assert!(e.to_cron_schedule().is_ok());
}

#[test]
fn preset_is_not_cron_schedule() {
    let e = ScheduleExpr::parse("@none").unwrap();
    match e.to_cron_schedule() {
        Err(err) => assert_eq!(err, BronzeError::NotCron),
        Ok(_) => panic!("a preset must not yield a cron schedule"),
    }
}

#[test]
fn error_messages_are_nonempty() {
    let errs = vec![
        BronzeError::ParseError,
        BronzeError::NotCron,
        BronzeError::ScheduleExhausted,
        BronzeError::EmptyDag,
        BronzeError::SharedTask,
        BronzeError::MissingSchedule,
        BronzeError::CycleDetected,
        BronzeError::MissingStorage,
        BronzeError::MissingTrigger,
        BronzeError::MissingExecutor,
        BronzeError::Unsupported,
        BronzeError::IdSpaceExhausted,
        BronzeError::ChannelClosed,
    ];
    for e in errs {
        assert!(!e.message().is_empty());
    }
}

#[test]
fn presets_convert_to_expressions() {
    assert!(matches!(
        ScheduleExpr::from_preset(FixPreset::NotRun),
        Ok(ScheduleExpr::Preset(SchedulePreset::NotRun))
    ));
    assert!(matches!(
        ScheduleExpr::from_preset(FixPreset::Once),
        Ok(ScheduleExpr::Preset(SchedulePreset::Once))
    ));
    assert!(matches!(
        ScheduleExpr::from_preset(FixPreset::Hourly),
        Ok(ScheduleExpr::Cron(_))
    ));
    assert!(matches!(
        ScheduleExpr::from_preset(FixPreset::Yearly),
        Ok(ScheduleExpr::Cron(_))
    ));
}
