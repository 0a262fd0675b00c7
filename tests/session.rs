use cannycam::flags::{Stage, StageFlags};
use cannycam::keys::Command;
use cannycam::session::{ConfigurationSnapshot, Phase, Reaction, Session};
use cannycam::thresholds::ThresholdParams;

fn fresh() -> Session {
    Session::start(None)
}

#[test]
fn fresh_start_uses_factory_values() {
    let s = fresh();
    assert_eq!(s.thresholds, ThresholdParams { low: 30000, high: 40000 });
    assert_eq!(s.flags, StageFlags { greyscale: true, edges: true, blur: true, invert: true });
    assert_eq!(s.phase, Phase::Running);
    assert!(s.is_running());
}

#[test]
fn loaded_settings_replace_defaults_whole() {
    let c = ConfigurationSnapshot {
        thresholds: ThresholdParams { low: 12500, high: -3000 },
        flags: StageFlags { greyscale: false, edges: true, blur: false, invert: true },
    };
    let s = Session::start(Some(c));
    assert_eq!(s.thresholds, c.thresholds);
    assert_eq!(s.flags, c.flags);
    assert_eq!(s.phase, Phase::Running);
}

#[test]
fn reset_ignores_loaded_values() {
    let c = ConfigurationSnapshot {
        thresholds: ThresholdParams { low: 1000, high: 2000 },
        flags: StageFlags::all_enabled(),
    };
    let mut s = Session::start(Some(c));
    assert_eq!(s.handle_key('d' as i32), Reaction::Nothing);
    assert_eq!(s.thresholds, ThresholdParams { low: 30000, high: 40000 });
}

#[test]
fn toggles_flip_one_switch_each() {
    let mut s = fresh();
    s.handle_key(' ' as i32);
    assert_eq!(s.flags, StageFlags { greyscale: true, edges: false, blur: true, invert: true });
    s.handle_key('c' as i32);
    assert_eq!(s.flags, StageFlags { greyscale: true, edges: false, blur: true, invert: false });
    s.handle_key('b' as i32);
    assert_eq!(s.flags, StageFlags { greyscale: true, edges: false, blur: false, invert: false });
    assert_eq!(s.stages_for_frame(640), Some(vec![Stage::Greyscale]));
}

#[test]
fn help_unmapped_and_no_key_leave_state_alone() {
    let mut s = fresh();
    let before = s;
    assert_eq!(s.handle_key('h' as i32), Reaction::ShowHelp);
    assert_eq!(s.handle_key('q' as i32), Reaction::ReportUnmapped(113));
    assert_eq!(s.handle_key(-1), Reaction::Nothing);
    assert_eq!(s.apply(Command::NoKey), Reaction::Nothing);
    assert_eq!(s, before);
}

#[test]
fn empty_frames_are_skipped() {
    let s = fresh();
    assert_eq!(s.stages_for_frame(0), None);
    assert_eq!(
        s.stages_for_frame(1),
        Some(vec![Stage::Greyscale, Stage::Edges, Stage::Blur, Stage::Invert])
    );
}

#[test]
fn reset_after_crossed_and_negative_thresholds() {
    let mut s = fresh();
    for _ in 0..50 {
        s.handle_key('=' as i32);
    }
    for _ in 0..3 {
        s.handle_key('-' as i32);
    }
    assert_eq!(s.thresholds, ThresholdParams { low: -20000, high: 37000 });
    for _ in 0..60 {
        s.handle_key('+' as i32);
    }
    assert!(s.thresholds.low > s.thresholds.high);
    s.handle_key('_' as i32);
    s.handle_key('d' as i32);
    assert_eq!(s.thresholds, ThresholdParams { low: 30000, high: 40000 });
    assert_eq!(s.flags, StageFlags::all_enabled());
}

#[test]
fn snapshot_round_trip_keeps_every_field() {
    let mut s = fresh();
    s.handle_key('z' as i32);
    s.handle_key('+' as i32);
    s.handle_key('-' as i32);
    s.handle_key('-' as i32);
    let snap = s.snapshot();
    assert_eq!(snap.thresholds, ThresholdParams { low: 31000, high: 38000 });
    let back = Session::start(Some(snap));
    assert_eq!(back.thresholds, s.thresholds);
    assert_eq!(back.flags, s.flags);
    assert_eq!(back.snapshot(), snap);
}

#[test]
fn fresh_session_walkthrough() {
    let mut s = fresh();
    let stages_before = s.stages_for_frame(640);
    s.handle_key('z' as i32);
    assert!(!s.flags.greyscale);
    s.handle_key('z' as i32);
    assert!(s.flags.greyscale);
    assert_eq!(s.stages_for_frame(640), stages_before);
    for _ in 0..3 {
        assert_eq!(s.handle_key('+' as i32), Reaction::Nothing);
    }
    assert_eq!(s.thresholds.low, 33000);
    s.handle_key('d' as i32);
    assert_eq!(s.thresholds.low, 30000);
    assert_eq!(s.handle_key(27), Reaction::Stop);
    assert_eq!(s.phase, Phase::Terminated);
    assert!(!s.is_running());
    assert_eq!(
        s.snapshot(),
        ConfigurationSnapshot {
            thresholds: ThresholdParams { low: 30000, high: 40000 },
            flags: StageFlags { greyscale: true, edges: true, blur: true, invert: true },
        }
    );
}
