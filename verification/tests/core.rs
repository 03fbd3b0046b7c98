use odaichat::bus::{Bus, Received};
use odaichat::command::Command;
use odaichat::session::{drain_session, Inbound, Session};
use odaichat::store::CanvasStore;
use odaichat::worker::worker_step;

#[test]
fn store_put_get_roundtrip() {
    let mut st = CanvasStore::new();
    st.put("room1".to_owned(), vec![1, 2, 3]);
    assert_eq!(st.get(&"room1".to_owned()), Some(vec![1, 2, 3]));
}

#[test]
fn store_get_missing_none() {
    let st = CanvasStore::new();
    assert_eq!(st.get(&"nowhere".to_owned()), None);
}

#[test]
fn store_overwrite_last_wins() {
    let mut st = CanvasStore::new();
    st.put("room1".to_owned(), vec![1]);
    st.put("other".to_owned(), vec![9]);
    st.put("room1".to_owned(), vec![2, 2]);
    assert_eq!(st.get(&"room1".to_owned()), Some(vec![2, 2]));
    assert_eq!(st.get(&"other".to_owned()), Some(vec![9]));
}

#[test]
fn store_accepts_empty_id_and_empty_payload() {
    let mut st = CanvasStore::new();
    st.put(String::new(), Vec::new());
    assert_eq!(st.get(&String::new()), Some(Vec::new()));
    assert_eq!(st.get(&"".to_owned()), Some(vec![]));
}

#[test]
fn bus_broadcasts_in_publish_order() {
    let mut bus = Bus::new(8);
    let mut s1 = bus.subscribe();
    let mut s2 = bus.subscribe();
    bus.publish(Command::GetCanvas { canvas_id: "a".to_owned() });
    bus.publish(Command::UpdateCanvas { canvas_id: "a".to_owned(), png_bytes: vec![5] });
    for sub in [&mut s1, &mut s2] {
        assert_eq!(
            bus.recv(sub),
            Received::Item(Command::GetCanvas { canvas_id: "a".to_owned() })
        );
        assert_eq!(
            bus.recv(sub),
            Received::Item(Command::UpdateCanvas {
                canvas_id: "a".to_owned(),
                png_bytes: vec![5]
            })
        );
        assert_eq!(bus.recv(sub), Received::Empty);
    }
}

#[test]
fn bus_subscriber_sees_only_later_commands() {
    let mut bus = Bus::new(8);
    bus.publish(Command::GetCanvas { canvas_id: "before".to_owned() });
    let mut sub = bus.subscribe();
    bus.publish(Command::GetCanvas { canvas_id: "after".to_owned() });
    assert_eq!(
        bus.recv(&mut sub),
        Received::Item(Command::GetCanvas { canvas_id: "after".to_owned() })
    );
    assert_eq!(bus.recv(&mut sub), Received::Empty);
}

#[test]
fn bus_overflow_reports_skip_and_spares_others() {
    let capacity = 4;
    let mut bus = Bus::new(capacity);
    let mut slow = bus.subscribe();
    let mut fast = bus.subscribe();
    let mut fast_seen = 0;
    for i in 0..(capacity + 5) {
        // Publishing never blocks, whatever the slow subscriber does.
        bus.publish(Command::UpdateCanvas {
            canvas_id: "c".to_owned(),
            png_bytes: vec![i as u8],
        });
        // The up-to-date subscriber is unaffected by the slow one.
        match bus.recv(&mut fast) {
            Received::Item(Command::UpdateCanvas { png_bytes, .. }) => {
                assert_eq!(png_bytes, vec![i as u8]);
                fast_seen += 1;
            }
            other => panic!("expected the freshly published update, got {:?}", other),
        }
    }
    assert_eq!(fast_seen, capacity + 5);
    // The slow subscriber's next receive reports the skip instead of blocking.
    assert_eq!(bus.recv(&mut slow), Received::Lagged(5));
    // The skip is non-fatal: the retained window is still delivered in order.
    for i in 5..(capacity + 5) {
        assert_eq!(
            bus.recv(&mut slow),
            Received::Item(Command::UpdateCanvas {
                canvas_id: "c".to_owned(),
                png_bytes: vec![i as u8]
            })
        );
    }
    assert_eq!(bus.recv(&mut slow), Received::Empty);
}

#[test]
fn publish_without_subscribers_is_silent_noop() {
    let mut bus = Bus::new(4);
    bus.publish(Command::GetCanvas { canvas_id: "a".to_owned() });
    let mut sub = bus.subscribe();
    assert_eq!(bus.recv(&mut sub), Received::Empty);
}

#[test]
fn session_select_publishes_query() {
    let mut session = Session::new();
    let out = session.handle_inbound(Inbound::SelectCanvas { canvas_id: "room1".to_owned() });
    assert_eq!(out, Some(Command::GetCanvas { canvas_id: "room1".to_owned() }));
}

#[test]
fn session_raster_before_select_ignored() {
    let mut session = Session::new();
    let out = session.handle_inbound(Inbound::RasterFrame { png_bytes: vec![1, 2] });
    assert_eq!(out, None);
}

#[test]
fn session_unrecognized_frame_ignored() {
    let mut session = Session::new();
    assert_eq!(session.handle_inbound(Inbound::Unrecognized), None);
}

#[test]
fn session_raster_becomes_update_for_selected_canvas() {
    let mut session = Session::new();
    session.handle_inbound(Inbound::SelectCanvas { canvas_id: "room1".to_owned() });
    let out = session.handle_inbound(Inbound::RasterFrame { png_bytes: vec![7, 8] });
    assert_eq!(
        out,
        Some(Command::UpdateCanvas { canvas_id: "room1".to_owned(), png_bytes: vec![7, 8] })
    );
}

#[test]
fn session_switch_canvas_requeries() {
    let mut session = Session::new();
    session.handle_inbound(Inbound::SelectCanvas { canvas_id: "room1".to_owned() });
    let out = session.handle_inbound(Inbound::SelectCanvas { canvas_id: "room2".to_owned() });
    assert_eq!(out, Some(Command::GetCanvas { canvas_id: "room2".to_owned() }));
    let upd = session.handle_inbound(Inbound::RasterFrame { png_bytes: vec![3] });
    assert_eq!(
        upd,
        Some(Command::UpdateCanvas { canvas_id: "room2".to_owned(), png_bytes: vec![3] })
    );
}

#[test]
fn session_filters_deliveries_by_canvas_id() {
    let mut session = Session::new();
    session.handle_inbound(Inbound::SelectCanvas { canvas_id: "mine".to_owned() });
    let mine_update =
        Command::UpdateCanvas { canvas_id: "mine".to_owned(), png_bytes: vec![1] };
    let mine_data = Command::CanvasData { canvas_id: "mine".to_owned(), png_bytes: vec![2] };
    let other_update =
        Command::UpdateCanvas { canvas_id: "other".to_owned(), png_bytes: vec![3] };
    let mine_query = Command::GetCanvas { canvas_id: "mine".to_owned() };
    assert_eq!(session.handle_bus(mine_update), Some(vec![1]));
    assert_eq!(session.handle_bus(mine_data), Some(vec![2]));
    assert_eq!(session.handle_bus(other_update), None);
    assert_eq!(session.handle_bus(mine_query), None);
}

#[test]
fn session_unsubscribed_discards_everything() {
    let session = Session::new();
    let update = Command::UpdateCanvas { canvas_id: "any".to_owned(), png_bytes: vec![1] };
    assert_eq!(session.handle_bus(update), None);
}

#[test]
fn worker_applies_update_and_requests_mirror_write() {
    let mut st = CanvasStore::new();
    let out = worker_step(
        &mut st,
        Command::UpdateCanvas { canvas_id: "r".to_owned(), png_bytes: vec![4, 4] },
    );
    assert_eq!(out.write, Some(("r".to_owned(), vec![4, 4])));
    assert_eq!(out.respond, None);
    assert_eq!(st.get(&"r".to_owned()), Some(vec![4, 4]));
}

#[test]
fn worker_answers_query_with_latest_payload() {
    let mut st = CanvasStore::new();
    worker_step(&mut st, Command::UpdateCanvas { canvas_id: "r".to_owned(), png_bytes: vec![1] });
    worker_step(&mut st, Command::UpdateCanvas { canvas_id: "r".to_owned(), png_bytes: vec![2] });
    let out = worker_step(&mut st, Command::GetCanvas { canvas_id: "r".to_owned() });
    assert_eq!(out.write, None);
    assert_eq!(
        out.respond,
        Some(Command::CanvasData { canvas_id: "r".to_owned(), png_bytes: vec![2] })
    );
}

#[test]
fn worker_silent_on_query_for_unknown_canvas() {
    let mut st = CanvasStore::new();
    let out = worker_step(&mut st, Command::GetCanvas { canvas_id: "ghostly".to_owned() });
    assert_eq!(out.write, None);
    assert_eq!(out.respond, None);
}

#[test]
fn worker_ignores_snapshot_announcements() {
    let mut st = CanvasStore::new();
    let out = worker_step(
        &mut st,
        Command::CanvasData { canvas_id: "r".to_owned(), png_bytes: vec![9] },
    );
    assert_eq!(out.write, None);
    assert_eq!(out.respond, None);
    assert_eq!(st.get(&"r".to_owned()), None);
}

#[test]
fn command_duplicate_is_equal_copy() {
    let cmd = Command::UpdateCanvas { canvas_id: "r".to_owned(), png_bytes: vec![1, 2, 3] };
    assert_eq!(cmd.duplicate(), cmd);
}

#[test]
fn drain_forwards_matching_payloads_in_order() {
    let mut bus = Bus::new(16);
    let mut session = Session::new();
    session.handle_inbound(Inbound::SelectCanvas { canvas_id: "a".to_owned() });
    let mut sub = bus.subscribe();
    bus.publish(Command::UpdateCanvas { canvas_id: "a".to_owned(), png_bytes: vec![1] });
    bus.publish(Command::UpdateCanvas { canvas_id: "b".to_owned(), png_bytes: vec![2] });
    bus.publish(Command::GetCanvas { canvas_id: "a".to_owned() });
    bus.publish(Command::CanvasData { canvas_id: "a".to_owned(), png_bytes: vec![3] });
    let out = drain_session(&bus, &mut sub, &session);
    assert_eq!(out, vec![vec![1], vec![3]]);
    assert_eq!(drain_session(&bus, &mut sub, &session), Vec::<Vec<u8>>::new());
}

#[test]
fn drain_self_delivery_not_suppressed() {
    let mut bus = Bus::new(16);
    let mut session = Session::new();
    let select = session
        .handle_inbound(Inbound::SelectCanvas { canvas_id: "a".to_owned() })
        .unwrap();
    let mut sub = bus.subscribe();
    bus.publish(select);
    let own_update = session
        .handle_inbound(Inbound::RasterFrame { png_bytes: vec![42] })
        .unwrap();
    bus.publish(own_update);
    let out = drain_session(&bus, &mut sub, &session);
    assert_eq!(out, vec![vec![42]]);
}

#[test]
fn drain_after_overflow_skips_then_delivers_window() {
    let capacity = 3;
    let mut bus = Bus::new(capacity);
    let mut session = Session::new();
    session.handle_inbound(Inbound::SelectCanvas { canvas_id: "a".to_owned() });
    let mut sub = bus.subscribe();
    for i in 0..(capacity + 5) {
        bus.publish(Command::UpdateCanvas {
            canvas_id: "a".to_owned(),
            png_bytes: vec![i as u8],
        });
    }
    // Only the newest `capacity` payloads survive for the lagging session.
    let out = drain_session(&bus, &mut sub, &session);
    assert_eq!(out, vec![vec![5], vec![6], vec![7]]);
}
