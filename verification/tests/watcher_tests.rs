use bundler_watch::emitter::EventEmitter;
use bundler_watch::events::{ChangeKind, LifecycleEvent, RawEventKind};
use bundler_watch::events::classify;
use bundler_watch::types::BuildOutputDescriptor;
use bundler_watch::watcher::{WatchOptions, Watcher};

fn options() -> WatchOptions {
    WatchOptions { skip_write: false, output_dir: String::from("/proj/dist") }
}

fn descriptor(files: &[&str], errors: &[&str]) -> BuildOutputDescriptor {
    BuildOutputDescriptor {
        watch_files: files.iter().map(|s| s.to_string()).collect(),
        errors: errors.iter().map(|s| s.to_string()).collect(),
    }
}

/// One build cycle whose registrations all succeed.
fn run_cycle(w: &mut Watcher, out: &BuildOutputDescriptor, admitted: Vec<bool>) -> Vec<String> {
    w.run_begin();
    // the embedding resets the plugin cache and invokes the engine here
    let to_register = w.plan_registrations(out, &admitted);
    let registered = to_register.len();
    // the embedding registers each planned path with the monitor here
    w.commit_registrations(&to_register, registered);
    w.run_finish(out, String::from("12"));
    to_register
}

fn sorted(mut v: Vec<String>) -> Vec<String> {
    v.sort();
    v
}

#[test]
fn cycle_emits_events_in_order() {
    let mut w = Watcher::new(options());
    let out = descriptor(&[], &[]);
    let to_register = run_cycle(&mut w, &out, Vec::new());
    assert!(to_register.is_empty());
    let events = w.emitter.drain();
    assert_eq!(
        events,
        vec![
            LifecycleEvent::ReStart,
            LifecycleEvent::Start,
            LifecycleEvent::BundleStart,
            LifecycleEvent::BundleEnd {
                output_dir: String::from("/proj/dist"),
                duration_ms: String::from("12"),
            },
            LifecycleEvent::End,
        ]
    );
    assert!(!w.running);
}

#[test]
fn cycle_with_errors_emits_first_diagnostic_only() {
    let mut w = Watcher::new(options());
    let out = descriptor(&[], &["E1", "E2"]);
    let _ = run_cycle(&mut w, &out, Vec::new());
    let events = w.emitter.drain();
    assert_eq!(events.len(), 5);
    assert_eq!(events[3], LifecycleEvent::Error { message: String::from("E1") });
    for e in &events {
        if let LifecycleEvent::Error { message } = e {
            assert_ne!(message, "E2");
        }
        assert!(!matches!(e, LifecycleEvent::BundleEnd { .. }));
    }
}

#[test]
fn cycle_registers_admitted_paths_exactly_once() {
    let mut w = Watcher::new(options());
    // duplicates and filtered-out paths in one descriptor
    let out = descriptor(&["src/a.js", "src/a.js", "src/b.js", "src/c.js"], &[]);
    let to_register = run_cycle(&mut w, &out, vec![true, true, true, false]);
    assert_eq!(to_register, vec![String::from("src/a.js"), String::from("src/b.js")]);

    // a second cycle adds nothing new for already watched paths
    let out2 = descriptor(&["src/a.js", "src/d.js"], &[]);
    let to_register2 = run_cycle(&mut w, &out2, vec![true, true]);
    assert_eq!(to_register2, vec![String::from("src/d.js")]);
}

#[test]
fn aborted_cycle_commits_only_the_registered_prefix() {
    let mut w = Watcher::new(options());
    let out = descriptor(&["a.js", "b.js", "c.js"], &[]);
    w.run_begin();
    let to_register = w.plan_registrations(&out, &vec![true, true, true]);
    assert_eq!(to_register.len(), 3);
    // the monitor accepted a.js and failed on b.js: the embedding commits the
    // prefix, aborts the cycle and never calls run_finish
    w.commit_registrations(&to_register, 1);
    assert_eq!(w.watched_paths(), vec![String::from("a.js")]);
    assert!(w.running);
    let events = w.emitter.drain();
    assert_eq!(
        events,
        vec![LifecycleEvent::ReStart, LifecycleEvent::Start, LifecycleEvent::BundleStart]
    );
}

#[test]
fn scenario_include_exclude_filters_test_file() {
    // include src/**, exclude **/*.test.js; both files exist on disk, so the
    // predicate admits only src/a.js
    let mut w = Watcher::new(options());
    let out = descriptor(&["src/a.js", "src/a.test.js"], &[]);
    let _ = run_cycle(&mut w, &out, vec![true, false]);
    let watched = sorted(w.watched_paths());
    assert_eq!(watched, vec![String::from("src/a.js")]);
}

#[test]
fn invalidate_coalesces_while_running() {
    let mut w = Watcher::new(options());
    w.run_begin();
    let events_before = w.emitter.len();
    // K invalidations while the build runs: all coalesced, none starts a run
    for _ in 0..5 {
        let start_run = w.invalidate();
        assert!(!start_run);
    }
    assert!(w.rerun);
    assert!(w.running);
    // the burst emitted nothing: no further cycle was scheduled
    assert_eq!(w.emitter.len(), events_before);
}

#[test]
fn invalidate_when_idle_starts_exactly_one_run() {
    let mut w = Watcher::new(options());
    let start_run = w.invalidate();
    assert!(start_run);
    assert!(!w.rerun);
    // the caller drives the cycle; a pending flag set while idle blocks later
    // invalidations instead
    w.rerun = true;
    assert!(!w.invalidate());
}

#[test]
fn close_clears_watched_paths_and_emits_one_close() {
    let mut w = Watcher::new(options());
    let out = descriptor(&["a.js", "b.js"], &[]);
    let _ = run_cycle(&mut w, &out, vec![true, true]);
    let _ = w.emitter.drain();
    let to_unwatch = sorted(w.watched_paths());
    assert_eq!(to_unwatch, vec![String::from("a.js"), String::from("b.js")]);
    w.close();
    assert!(w.closed);
    assert!(w.watched_paths().is_empty());
    let events = w.emitter.drain();
    assert_eq!(events, vec![LifecycleEvent::Close]);
}

#[test]
fn classifier_table() {
    assert_eq!(classify(RawEventKind::ModifyData), Some(ChangeKind::Update));
    assert_eq!(classify(RawEventKind::ModifyAny), Some(ChangeKind::Update));
    assert_eq!(classify(RawEventKind::Create), Some(ChangeKind::Create));
    assert_eq!(classify(RawEventKind::Remove), Some(ChangeKind::Delete));
    assert_eq!(classify(RawEventKind::ModifyOther), None);
    assert_eq!(classify(RawEventKind::Other), None);
}

#[test]
fn emitter_records_in_order_and_drains() {
    let mut e = EventEmitter::new();
    e.emit(LifecycleEvent::ReStart);
    e.emit(LifecycleEvent::End);
    assert_eq!(e.len(), 2);
    let drained = e.drain();
    assert_eq!(drained, vec![LifecycleEvent::ReStart, LifecycleEvent::End]);
    assert_eq!(e.len(), 0);
}
