//! Frame decisions of the memoizing views on concrete values.

use auralis_signal::{Memo, Signal};
use xilem_core_auralis::{
    MessageOutcome, effect_view, signal_memoize, signal_state_memoize, state_memoize, watch_signal,
    EffectViewState, SignalMemoizeState, SignalStateMemoizeState, StateMemoizeState,
    WatchSignalState,
};

fn label(s: &Signal<i32>) -> String {
    format!("value: {}", s.read())
}

#[test]
fn fresh_state_is_kept_at_same_version() {
    let mut vs = SignalMemoizeState::new("v", 0u8, 7);
    assert!(!vs.dirty);
    assert_eq!(vs.last_version, 7);
    assert!(!vs.check(true, 7));
    assert_eq!(vs.last_version, 7);
}

#[test]
fn rebuild_exactly_when_version_changed() {
    let mut vs = SignalMemoizeState::new("v", 0u8, 7);
    assert!(vs.check(true, 8));
    assert_eq!(vs.last_version, 8);
    assert!(!vs.check(true, 8));
    assert!(vs.check(true, 3));
    assert_eq!(vs.last_version, 3);
}

#[test]
fn request_forces_rebuild_and_is_consumed() {
    let mut vs = StateMemoizeState::new("v", 0u8, 4);
    vs.note_answer(true);
    assert!(vs.dirty);
    assert!(vs.check(4));
    assert!(!vs.dirty);
    assert_eq!(vs.last_version, 4);
    assert!(!vs.check(4));
}

#[test]
fn plain_answer_keeps_record() {
    let mut vs = StateMemoizeState::new("v", 0u8, 4);
    vs.note_answer(false);
    assert!(!vs.dirty);
    assert_eq!(vs.last_version, 4);
}

#[test]
fn replaced_signal_always_rebuilds() {
    let mut vs = WatchSignalState::new(0u8, 5);
    // a replacement signal at version 2 is a rebuild
    assert!(vs.check(false, 2));
    assert_eq!(vs.last_version, 2);
    // so is one never set (version 0)
    let mut vs = WatchSignalState::new(0u8, 5);
    assert!(vs.check(false, 0));
    assert_eq!(vs.last_version, 0);
    // and one at the very version recorded for the old signal
    let mut vs = SignalMemoizeState::new("v", 0u8, 5);
    assert!(vs.check(false, 5));
    assert_eq!(vs.last_version, 5);
    assert!(!vs.dirty);
}

#[test]
fn set_view_keeps_record() {
    let mut vs = SignalMemoizeState::new("old", 3u8, 5);
    vs.note_answer(true);
    vs.set_view("new");
    assert_eq!(vs.view, "new");
    assert_eq!(vs.view_state, 3u8);
    assert_eq!(vs.last_version, 5);
    assert!(vs.dirty);
    let mut es = EffectViewState::new(1u8, ());
    es.set_view(2u8);
    assert_eq!(es.view, 2u8);
    assert!(!es.dirty);
}

#[test]
fn version_read_before_build_is_recorded() {
    let sig = Signal::new(0i32);
    sig.set(4);
    let version = sig.version();
    // the signal moves on while the view is built
    sig.set(5);
    let mut vs = SignalStateMemoizeState::new("v", (), version);
    assert_eq!(vs.last_version, 1);
    assert!(!vs.dirty);
    // so the next frame sees the change
    assert!(vs.check(sig.version()));
    assert_eq!(vs.last_version, 2);
}

#[test]
fn message_answers_are_recorded_and_passed_on() {
    let mut vs = SignalStateMemoizeState::new("v", 0u8, 1);
    let r: MessageOutcome<u32> = vs.record_message(MessageOutcome::Nop);
    assert!(matches!(r, MessageOutcome::Nop));
    assert!(!vs.dirty);
    let r: MessageOutcome<u32> = vs.record_message(MessageOutcome::Action(7));
    assert!(matches!(r, MessageOutcome::Action(7)));
    assert!(!vs.dirty);
    let r: MessageOutcome<u32> = vs.record_message(MessageOutcome::Stale);
    assert!(matches!(r, MessageOutcome::Stale));
    assert!(!vs.dirty);
    let r: MessageOutcome<u32> = vs.record_message(MessageOutcome::RequestRebuild);
    assert!(matches!(r, MessageOutcome::RequestRebuild));
    assert!(vs.dirty);
    assert_eq!(vs.last_version, 1);
}

#[test]
fn watch_state_records_messages() {
    let mut vs = WatchSignalState::new(0u8, 1);
    let r: MessageOutcome<()> = vs.record_message(MessageOutcome::RequestRebuild);
    assert!(matches!(r, MessageOutcome::RequestRebuild));
    assert!(vs.dirty);
    assert!(vs.check(true, 1));
    assert!(!vs.dirty);
}

#[test]
fn signal_memoize_state_records_version_read() {
    let sig = Signal::new(0i32);
    sig.set(1);
    sig.set(2);
    let view = signal_memoize::<i32, String, _, (), (), ()>(sig.clone(), label);
    let vs = SignalMemoizeState::new((view.view_fn())(view.signal()), (), view.signal().version());
    assert_eq!(vs.last_version, 2);
    assert_eq!(vs.view, "value: 2");
    assert!(!vs.dirty);
}

#[test]
fn signal_memoize_same_and_other_signal() {
    let sig = Signal::new(0i32);
    sig.set(5);
    let view = signal_memoize::<i32, String, _, (), (), ()>(sig.clone(), label);
    let mut vs = SignalMemoizeState::new(String::new(), (), view.signal().version());
    assert_eq!(vs.last_version, 1);
    // a clone of the same signal at the same version: no rebuild
    let same = signal_memoize::<i32, String, _, (), (), ()>(sig.clone(), label);
    assert!(!same.begin_rebuild(&view, &mut vs, same.signal().version()));
    assert_eq!(vs.last_version, 1);
    // another signal, also at version 1: a replaced signal, so rebuild
    let other_sig = Signal::new(0i32);
    other_sig.set(7);
    let other = signal_memoize::<i32, String, _, (), (), ()>(other_sig, label);
    assert!(other.begin_rebuild(&view, &mut vs, other.signal().version()));
    assert_eq!(vs.last_version, 1);
}

#[test]
fn watch_signal_rebuilds_on_set() {
    let sig = Signal::new(0i32);
    let view = watch_signal::<i32, &str, (), (), ()>(sig.clone(), "inner");
    assert_eq!(*view.inner(), "inner");
    let mut vs = WatchSignalState::new(10u8, view.signal().version());
    assert_eq!(vs.last_version, 0);
    assert!(!view.begin_rebuild(&view, &mut vs, sig.version()));
    sig.set(3);
    assert!(view.begin_rebuild(&view, &mut vs, sig.version()));
    assert_eq!(vs.last_version, 1);
    assert_eq!(vs.inner_state, 10u8);
    assert!(view.signal().ptr_eq(&sig));
}

#[test]
fn signal_state_memoize_reads_state_signal() {
    struct AppState {
        count: Signal<i32>,
    }
    let app = AppState {
        count: Signal::new(0),
    };
    let view = signal_state_memoize::<_, _, i32, String, AppState, (), ()>(
        |s: &AppState| s.count.clone(),
        |c: &Signal<i32>| format!("count: {}", c.read()),
    );
    let (get_signal, view_fn) = view.into_parts();
    let sig = get_signal(&app);
    let mut vs = SignalStateMemoizeState::new(view_fn(&sig), (), sig.version());
    assert_eq!(vs.last_version, 0);
    assert!(!vs.check(get_signal(&app).version()));
    app.count.set(9);
    assert!(vs.check(get_signal(&app).version()));
    assert_eq!(vs.last_version, 1);
    assert_eq!(view_fn(&get_signal(&app)), "count: 9");
}

#[test]
fn state_memoize_uses_reported_version() {
    struct AppState {
        count: i32,
        version: u64,
    }
    let mut app = AppState { count: 1, version: 0 };
    let view = state_memoize::<_, _, _, i32, String, AppState, (), ()>(
        |s: &AppState| s.count,
        |s: &AppState| s.version,
        |c: &i32| format!("count: {c}"),
    );
    let (get_data, get_version, view_fn) = view.into_parts();
    let mut vs = StateMemoizeState::new(view_fn(&get_data(&app)), (), get_version(&app));
    assert_eq!(vs.view, "count: 1");
    app.count = 2;
    // the data changed but the version was not bumped: kept
    assert!(!vs.check(get_version(&app)));
    app.version += 1;
    assert!(vs.check(get_version(&app)));
    assert_eq!(vs.last_version, 1);
}

#[test]
fn effect_view_follows_tracker() {
    let count = Signal::new(0i32);
    let watched = count.clone();
    let tracker = Memo::new(move || {
        let _ = watched.read();
    });
    let view = effect_view::<u8, _, (), (), ()>(tracker, || 1u8);
    let _ = view.tracker().read();
    let mut vs = EffectViewState::new((view.view_fn())(), ());
    assert!(!view.tracker().is_dirty());
    assert!(!view.begin_rebuild(&mut vs));
    count.set(1);
    assert!(view.tracker().is_dirty());
    assert!(view.begin_rebuild(&mut vs));
    // a rebuild reads the tracker again
    let _ = view.tracker().read();
    assert!(!view.tracker().is_dirty());
    assert!(!view.begin_rebuild(&mut vs));
}

#[test]
fn effect_view_request_forces_rebuild() {
    let tracker = Memo::new(|| ());
    let view = effect_view::<u8, _, (), (), ()>(tracker, || 1u8);
    let _ = view.tracker().read();
    let mut vs = EffectViewState::new(1u8, ());
    let r: MessageOutcome<()> = vs.record_message(MessageOutcome::RequestRebuild);
    assert!(matches!(r, MessageOutcome::RequestRebuild));
    assert!(vs.dirty);
    assert!(view.begin_rebuild(&mut vs));
    assert!(!vs.dirty);
    let _ = view.tracker().read();
    assert!(!view.begin_rebuild(&mut vs));
    assert!(!vs.check(false));
    assert!(vs.check(true));
}

#[test]
fn watch_signal_replaced_by_fresh_signal_rebuilds() {
    let first = watch_signal::<i32, &str, (), (), ()>(Signal::new(0i32), "inner");
    let mut vs = WatchSignalState::new(1u8, first.signal().version());
    // the same view against itself, nothing set: kept
    assert!(!first.begin_rebuild(&first, &mut vs, first.signal().version()));
    // a fresh signal, never set, at the same version 0: rebuilt
    let second = watch_signal::<i32, &str, (), (), ()>(Signal::new(0i32), "inner");
    assert!(second.begin_rebuild(&first, &mut vs, second.signal().version()));
    assert_eq!(vs.last_version, 0);
    assert!(!vs.dirty);
}
