use bundler_watch::bridge::{handle_raw_path, BridgeMessage, ConsumerLoop};
use bundler_watch::events::{ChangeKind, LifecycleEvent, RawEventKind};
use bundler_watch::watcher::{WatchOptions, Watcher};

fn options() -> WatchOptions {
    WatchOptions { skip_write: false, output_dir: String::from("/out") }
}

fn raw(paths: &[&str], kind: RawEventKind) -> BridgeMessage {
    BridgeMessage::Raw { paths: paths.iter().map(|s| s.to_string()).collect(), kind }
}

#[test]
fn classification_drives_change_events_and_rebuilds() {
    let mut w = Watcher::new(options());
    let path = String::from("src/a.js");

    // Modify(Data): classified Update, publishes Change, requests a rebuild
    let o = handle_raw_path(&mut w, &path, RawEventKind::ModifyData);
    assert_eq!(o.changed, Some(ChangeKind::Update));
    assert!(o.start_run);

    // Create: classified Create, publishes Change, no rebuild
    let o = handle_raw_path(&mut w, &path, RawEventKind::Create);
    assert_eq!(o.changed, Some(ChangeKind::Create));
    assert!(!o.start_run);

    // Remove: classified Delete, publishes Change, no rebuild
    let o = handle_raw_path(&mut w, &path, RawEventKind::Remove);
    assert_eq!(o.changed, Some(ChangeKind::Delete));
    assert!(!o.start_run);

    // anything else: ignored entirely
    let o = handle_raw_path(&mut w, &path, RawEventKind::ModifyOther);
    assert_eq!(o.changed, None);
    assert!(!o.start_run);

    let events = w.emitter.drain();
    assert_eq!(
        events,
        vec![
            LifecycleEvent::Change { path: path.clone(), kind: ChangeKind::Update },
            LifecycleEvent::Change { path: path.clone(), kind: ChangeKind::Create },
            LifecycleEvent::Change { path, kind: ChangeKind::Delete },
        ]
    );
}

#[test]
fn update_while_running_is_coalesced_not_run() {
    let mut w = Watcher::new(options());
    w.running = true;
    let path = String::from("src/a.js");
    let o = handle_raw_path(&mut w, &path, RawEventKind::ModifyAny);
    assert_eq!(o.changed, Some(ChangeKind::Update));
    assert!(!o.start_run);
    assert!(w.rerun);
}

#[test]
fn consumer_loop_stops_on_close_and_stays_inert() {
    let mut lp = ConsumerLoop::new();
    assert!(lp.live);

    // raw events are processed while live
    assert!(lp.on_message(&raw(&["a.js"], RawEventKind::ModifyData)));
    // a backend error is logged and skipped, the loop keeps reading
    assert!(!lp.on_message(&BridgeMessage::BackendError { message: String::from("boom") }));
    assert!(lp.live);

    // the close message terminates the loop
    assert!(!lp.on_message(&BridgeMessage::Close));
    assert!(!lp.live);

    // posting further raw events produces no further processing
    assert!(!lp.on_message(&raw(&["b.js"], RawEventKind::ModifyData)));
    assert!(!lp.on_message(&raw(&["c.js"], RawEventKind::Create)));
    assert!(!lp.live);
}

#[test]
fn consumer_loop_stops_on_receive_failure() {
    let mut lp = ConsumerLoop::new();
    assert!(lp.live);
    lp.on_receive_failure();
    assert!(!lp.live);
    assert!(!lp.on_message(&raw(&["a.js"], RawEventKind::ModifyData)));
}

#[test]
fn closed_watcher_emits_no_further_bundle_events() {
    let mut w = Watcher::new(options());
    let mut lp = ConsumerLoop::new();
    let _ = lp.on_message(&BridgeMessage::Close);
    let to_unwatch = w.watched_paths();
    assert!(to_unwatch.is_empty());
    w.close();
    // exactly one Close was emitted, and the stopped loop processes nothing,
    // so no Change or BundleEnd can follow
    let events = w.emitter.drain();
    assert_eq!(events, vec![LifecycleEvent::Close]);
    assert!(!lp.on_message(&raw(&["a.js"], RawEventKind::ModifyData)));
    assert_eq!(w.emitter.len(), 0);
}
