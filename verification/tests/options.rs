//! Option parsing and cross-option validation.

use cleave::args::{
    parse_filter, parse_format, parse_region, run_plan, select_monitor, Args, ArgsError, RunPlan,
    VerifyOutcome,
};
use cleave::export::OutputFormat;
use cleave::frame::ResampleFilter;
use cleave::hotkey::HotKeyParseError;
use cleave::selection::{Rect, SelectionMode};

fn base_args() -> Args {
    Args {
        output_dir: None,
        image_format: None,
        mode: SelectionMode::Move,
        monitor: None,
        region: None,
        filename: None,
        delay: 0,
        monitor_list: false,
        scale_milli: None,
        filter: None,
        daemon_hotkey: None,
        persistent: false,
        sleep: 100,
    }
}

#[test]
fn region_parses_decimals_to_millipixels() {
    assert_eq!(
        parse_region("10.4,10.6,19.7,19.2"),
        Ok(Rect { x: 10400, y: 10600, w: 19700, h: 19200 })
    );
    assert_eq!(
        parse_region("-5.5,0,10,10"),
        Ok(Rect { x: -5500, y: 0, w: 10000, h: 10000 })
    );
    assert_eq!(parse_region("1,2,3,4"), Ok(Rect { x: 1000, y: 2000, w: 3000, h: 4000 }));
}

#[test]
fn region_count_and_format_errors_are_distinct() {
    assert_eq!(parse_region("1,2,3"), Err(ArgsError::RegionCount));
    assert_eq!(parse_region("1,2,3,4,5"), Err(ArgsError::RegionCount));
    assert_eq!(parse_region("a,b,c,d"), Err(ArgsError::InvalidRegion));
    assert_eq!(parse_region("1,2,,4"), Err(ArgsError::InvalidRegion));
    assert_eq!(parse_region("1,2,3.4.5,4"), Err(ArgsError::InvalidRegion));
}

#[test]
fn formats_parse_by_their_exact_names() {
    assert_eq!(parse_format("png"), Ok(OutputFormat::Png));
    assert_eq!(parse_format("jpeg"), Ok(OutputFormat::Jpeg));
    assert_eq!(parse_format("webp"), Ok(OutputFormat::WebP));
    assert_eq!(parse_format("jpg"), Err(ArgsError::InvalidFormat));
    assert_eq!(parse_format("PNG"), Err(ArgsError::InvalidFormat));
}

#[test]
fn filters_parse_by_their_exact_names() {
    assert_eq!(parse_filter("Nearest"), Ok(ResampleFilter::Nearest));
    assert_eq!(parse_filter("Lanczos3"), Ok(ResampleFilter::Lanczos3));
    assert_eq!(parse_filter("nearest"), Err(ArgsError::InvalidFilter));
}

#[test]
fn monitor_list_excludes_other_options() {
    let mut a = base_args();
    a.monitor_list = true;
    a.output_dir = Some("out".to_string());
    assert!(matches!(a.verify(false), Err(ArgsError::MonitorListExclusive)));
}

#[test]
fn scale_must_be_positive() {
    let mut a = base_args();
    a.scale_milli = Some(0);
    assert!(matches!(a.verify(false), Err(ArgsError::ScaleNotPositive)));
    // any positive factor is accepted, however large.
    let mut b = base_args();
    b.scale_milli = Some(u32::MAX);
    assert!(matches!(b.verify(false), Ok(VerifyOutcome::Run(_))));
}

#[test]
fn region_extents_must_be_non_zero() {
    let mut a = base_args();
    a.region = Some(Rect { x: 0, y: 0, w: 0, h: 5000 });
    assert!(matches!(a.verify(false), Err(ArgsError::EmptyRegion)));
}

#[test]
fn format_and_filename_need_a_directory() {
    let mut a = base_args();
    a.image_format = Some(OutputFormat::Png);
    assert!(matches!(a.verify(false), Err(ArgsError::FormatWithoutDir)));
    let mut b = base_args();
    b.filename = Some("grab".to_string());
    assert!(matches!(b.verify(false), Err(ArgsError::FormatWithoutDir)));
}

#[test]
fn persistent_needs_a_hotkey_and_delay_excludes_one() {
    let mut a = base_args();
    a.persistent = true;
    assert!(matches!(a.verify(false), Err(ArgsError::PersistentWithoutHotkey)));
    let mut b = base_args();
    b.daemon_hotkey = Some("Shift+X".to_string());
    b.delay = 50;
    assert!(matches!(b.verify(false), Err(ArgsError::DelayWithHotkey)));
}

#[test]
fn hotkey_must_be_non_empty_and_well_formed() {
    let mut a = base_args();
    a.daemon_hotkey = Some(String::new());
    assert!(matches!(a.verify(false), Err(ArgsError::EmptyHotkey)));
    let mut b = base_args();
    b.daemon_hotkey = Some("Ctrl+Bogus".to_string());
    match b.verify(false) {
        Err(ArgsError::Hotkey(HotKeyParseError::UnsupportedKey(t))) => assert_eq!(t, "Bogus"),
        other => panic!("expected a hotkey error, got {:?}", other),
    }
}

#[test]
fn a_hotkey_turns_into_a_daemon_plan() {
    let mut a = base_args();
    a.daemon_hotkey = Some("Ctrl+Shift+X".to_string());
    a.persistent = true;
    a.sleep = 42;
    match a.verify(false) {
        Ok(VerifyOutcome::Daemon(plan)) => {
            assert_eq!(plan.hotkey_string, "shift+control+keyx");
            assert_eq!(plan.sleep, 42);
            assert!(plan.persistent);
        },
        other => panic!("expected a daemon plan, got {:?}", other),
    }
}

#[test]
fn plain_options_validate_to_a_run() {
    let mut a = base_args();
    a.output_dir = Some("out".to_string());
    a.filename = Some("grab".to_string());
    a.scale_milli = Some(500);
    match a.verify(false) {
        Ok(VerifyOutcome::Run(v)) => {
            assert_eq!(v.output_dir, Some("out".to_string()));
            assert_eq!(v.filename, Some("grab".to_string()));
            assert_eq!(v.scale_milli, Some(500));
        },
        other => panic!("expected a run, got {:?}", other),
    }
}

#[test]
fn run_plans_follow_the_options() {
    let mut a = base_args();
    a.monitor_list = true;
    let v = match a.verify(false) {
        Ok(VerifyOutcome::Run(v)) => v,
        other => panic!("expected a run, got {:?}", other),
    };
    assert_eq!(run_plan(&v), RunPlan::ListMonitors);
    let mut b = base_args();
    b.region = Some(Rect { x: 0, y: 0, w: 1000, h: 1000 });
    let v2 = match b.verify(false) {
        Ok(VerifyOutcome::Run(v)) => v,
        other => panic!("expected a run, got {:?}", other),
    };
    assert_eq!(run_plan(&v2), RunPlan::CaptureRegion);
    let v3 = match base_args().verify(false) {
        Ok(VerifyOutcome::Run(v)) => v,
        other => panic!("expected a run, got {:?}", other),
    };
    assert_eq!(run_plan(&v3), RunPlan::Interactive);
}

#[test]
fn monitor_selection_prefers_the_requested_id() {
    let monitors = vec![(7, false), (9, true), (12, false)];
    assert_eq!(select_monitor(&monitors, Some(12)), Some(2));
    assert_eq!(select_monitor(&monitors, Some(5)), Some(1));
    assert_eq!(select_monitor(&monitors, None), Some(1));
    assert_eq!(select_monitor(&vec![(7, false)], None), None);
}
