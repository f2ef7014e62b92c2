use kvm_hub::cluster::{Cluster, CursorAction, Focus};
use kvm_hub::hub::{AdminReply, Dest, HostAction, Hub, Purpose, State};
use kvm_hub::message::{HostEvent, Message, Snapshot};
use kvm_hub::screen::{Addr, Screen, ScreenId};

fn addr(n: u32) -> Addr {
    Addr { ip: 0x0a00_0000 + n, port: 8080 }
}

fn sid(n: u64) -> ScreenId {
    ScreenId { id: n }
}

fn screen(n: u64, x: i32, y: i32, w: u16, h: u16) -> Screen {
    Screen { id: sid(n), route: addr(n as u32), x, y, width: w, height: h }
}

fn snap(screens: Vec<Screen>) -> Snapshot {
    Snapshot { screens, focused: None }
}

fn lookup(c: &Cluster, id: ScreenId) -> Option<Screen> {
    c.screens.iter().find(|s| s.id == id).copied()
}

/// A hub for screen A (1920x1080 at the origin) that knows screen B to its
/// right and is connected.
fn connected_pair() -> Hub {
    let mut hub = Hub::new(sid(1), addr(1), 1920, 1080, 100, 100);
    hub.net_event(Message::Connect(snap(vec![screen(2, 1920, 0, 1200, 800)])), addr(2), 1920, 1080);
    hub.sent(Purpose::Handshake, true);
    assert_eq!(hub.state, State::Connected);
    hub
}

#[test]
fn motion_across_right_edge_hands_focus_to_neighbour() {
    let mut hub = connected_pair();
    let out = hub.host_event(HostEvent::Motion { x: 1921, y: 10 }).expect("a handoff");
    assert!(matches!(out.msg, Message::Focus(id) if id == sid(2)));
    assert_eq!(out.purpose, Purpose::Global);
    match out.dest {
        Dest::Routes(v) => assert_eq!(v, vec![addr(1), addr(2)]),
        _ => panic!("a handoff goes to every screen"),
    }
}

#[test]
fn motion_inside_local_screen_emits_nothing_while_local_focused() {
    let mut hub = connected_pair();
    assert!(hub.host_event(HostEvent::Motion { x: 1919, y: 1079 }).is_none());
    assert!(hub.host_event(HostEvent::Motion { x: 0, y: 0 }).is_none());
    assert_eq!((hub.cluster.cursor_x, hub.cluster.cursor_y), (0, 0));
}

#[test]
fn motion_outside_every_screen_emits_nothing() {
    let mut hub = connected_pair();
    assert!(hub.host_event(HostEvent::Motion { x: 1921, y: 900 }).is_none());
    assert!(hub.host_event(HostEvent::Motion { x: -5, y: 10 }).is_none());
}

#[test]
fn events_before_connected_are_discarded() {
    let mut hub = Hub::new(sid(1), addr(1), 1920, 1080, 5, 6);
    assert!(hub.host_event(HostEvent::Motion { x: 1921, y: 10 }).is_none());
    assert_eq!((hub.cluster.cursor_x, hub.cluster.cursor_y), (5, 6));
}

#[test]
fn connect_while_waiting_merges_and_connects_on_success() {
    let mut hub = Hub::new(sid(1), addr(1), 1920, 1080, 0, 0);
    let ann = hub.writable().expect("announcement");
    assert_eq!(ann.purpose, Purpose::Announce);
    assert!(matches!(ann.dest, Dest::Peers));
    match ann.msg {
        Message::Connect(sn) => {
            assert_eq!(sn.screens, vec![screen(1, 0, 0, 1920, 1080)]);
            assert_eq!(sn.focused, None);
        },
        _ => panic!("the announcement is a Connect"),
    }
    hub.sent(Purpose::Announce, true);
    assert_eq!(hub.state, State::Waiting);
    assert!(hub.writable().is_none());

    let r = hub.net_event(Message::Connect(snap(vec![screen(2, 1920, 0, 1200, 800)])), addr(2), 1920, 1080);
    let ids: Vec<u64> = hub.cluster.screens.iter().map(|s| s.id.id).collect();
    assert_eq!(ids, vec![1, 2]);
    assert_eq!(hub.state, State::Waiting);
    assert_eq!(r.admin.expect("admin push").screens.len(), 2);
    let out = r.send.expect("handshake answer");
    assert_eq!(out.purpose, Purpose::Handshake);
    assert!(matches!(out.msg, Message::Cluster(ref sn) if sn.screens.len() == 2));
    hub.sent(out.purpose, true);
    assert_eq!(hub.state, State::Connected);
}

#[test]
fn connect_with_failed_answer_stays_waiting() {
    let mut hub = Hub::new(sid(1), addr(1), 1920, 1080, 0, 0);
    hub.writable();
    let r = hub.net_event(Message::Connect(snap(vec![screen(2, 1920, 0, 1200, 800)])), addr(2), 1920, 1080);
    hub.sent(r.send.expect("answer").purpose, false);
    assert_eq!(hub.state, State::Waiting);
    assert_eq!(hub.cluster.screens.len(), 2);
}

#[test]
fn request_cluster_is_answered_to_sender_without_state_change() {
    let mut hub = connected_pair();
    let before = hub.cluster.screens.clone();
    let r = hub.net_event(Message::RequestCluster, addr(7), 1920, 1080);
    assert_eq!(hub.state, State::Connected);
    let out = r.send.expect("a reply");
    assert!(matches!(out.dest, Dest::To(a) if a == addr(7)));
    assert_eq!(out.purpose, Purpose::Reply);
    match out.msg {
        Message::Cluster(sn) => assert_eq!(sn.screens, before),
        _ => panic!("the reply is a cluster snapshot"),
    }
    assert!(r.admin.is_none());
    assert_eq!(hub.cluster.screens, before);
}

#[test]
fn failed_unicast_keeps_connected() {
    let mut hub = connected_pair();
    hub.net_event(Message::Focus(sid(2)), addr(2), 1920, 1080);
    let out = hub.host_event(HostEvent::ButtonPress { button: 1 }).expect("forwarded");
    assert_eq!(out.purpose, Purpose::Focused);
    assert!(matches!(out.dest, Dest::To(a) if a == addr(2)));
    hub.sent(out.purpose, false);
    assert_eq!(hub.state, State::Connected);
}

#[test]
fn failed_global_broadcast_demotes_to_waiting() {
    let mut hub = connected_pair();
    let out = hub.host_event(HostEvent::Motion { x: 1925, y: 5 }).expect("handoff");
    hub.sent(out.purpose, false);
    assert_eq!(hub.state, State::Waiting);
}

#[test]
fn peer_focused_motion_is_forwarded_as_delta() {
    let mut hub = connected_pair();
    hub.host_event(HostEvent::Motion { x: 500, y: 400 });
    let r = hub.net_event(Message::Focus(sid(2)), addr(2), 1920, 1080);
    assert_eq!(r.host, Some(HostAction::Cursor(CursorAction::Suppress)));
    let out = hub.host_event(HostEvent::Motion { x: 510, y: 390 }).expect("delta");
    assert!(matches!(out.msg, Message::MouseMove { dx: 10, dy: -10 }));
    let out = hub.host_event(HostEvent::KeyPress { key: 38 }).expect("key");
    assert!(matches!(out.msg, Message::KeyPress { key: 38 }));
    assert!(hub.host_event(HostEvent::Poll).is_none());
}

#[test]
fn merge_keeps_known_entry() {
    let mut c = Cluster::new(sid(1), addr(1), 1920, 1080, 0, 0);
    c.merge(&snap(vec![screen(2, 1920, 0, 1200, 800)]));
    c.merge(&snap(vec![screen(2, 9, 9, 10, 10), screen(1, 5, 5, 5, 5), screen(3, -800, 0, 800, 600)]));
    assert_eq!(lookup(&c, sid(2)), Some(screen(2, 1920, 0, 1200, 800)));
    assert_eq!(lookup(&c, sid(1)), Some(screen(1, 0, 0, 1920, 1080)));
    assert_eq!(lookup(&c, sid(3)), Some(screen(3, -800, 0, 800, 600)));
    assert_eq!(c.screens.len(), 3);
}

#[test]
fn merge_of_disjoint_snapshots_commutes() {
    let a = snap(vec![screen(2, 1920, 0, 1200, 800), screen(3, 0, 1080, 1920, 1080)]);
    let b = snap(vec![screen(4, -1280, 0, 1280, 1024)]);
    let mut ab = Cluster::new(sid(1), addr(1), 1920, 1080, 0, 0);
    ab.merge(&a);
    ab.merge(&b);
    let mut ba = Cluster::new(sid(1), addr(1), 1920, 1080, 0, 0);
    ba.merge(&b);
    ba.merge(&a);
    for n in 1..=4 {
        assert_eq!(lookup(&ab, sid(n)), lookup(&ba, sid(n)));
    }
    assert_eq!(ab.screens.len(), ba.screens.len());
}

#[test]
fn replace_rereads_local_entry() {
    let mut hub = Hub::new(sid(1), addr(1), 1920, 1080, 0, 0);
    let remote = snap(vec![screen(1, 300, 300, 640, 480), screen(2, 1920, 0, 1200, 800)]);
    let r = hub.net_event(Message::Cluster(remote), addr(2), 2560, 1440);
    assert_eq!(hub.state, State::Connected);
    assert_eq!(lookup(&hub.cluster, sid(1)), Some(screen(1, 0, 0, 2560, 1440)));
    assert_eq!(lookup(&hub.cluster, sid(2)), Some(screen(2, 1920, 0, 1200, 800)));
    assert!(r.admin.is_some());
    assert!(r.send.is_none());
}

#[test]
fn refocus_round_trip_restores_cursor() {
    let mut c = Cluster::new(sid(1), addr(1), 1920, 1080, 0, 0);
    c.merge(&snap(vec![screen(2, 1920, 0, 1200, 800)]));
    assert_eq!(c.refocus(sid(2)), Some(CursorAction::Suppress));
    assert_eq!(c.focus, Focus { focused: Some(sid(2)), suppressed: true });
    assert_eq!(c.refocus(sid(1)), Some(CursorAction::Restore));
    assert_eq!(c.focus, Focus { focused: Some(sid(1)), suppressed: false });
}

#[test]
fn refocus_unknown_id_changes_nothing() {
    let mut c = Cluster::new(sid(1), addr(1), 1920, 1080, 0, 0);
    assert_eq!(c.refocus(sid(9)), None);
    assert_eq!(c.focus, Focus { focused: Some(sid(1)), suppressed: false });
}

#[test]
fn inbound_delta_is_injected_and_clamped() {
    let mut c = Cluster::new(sid(1), addr(1), 1920, 1080, 1900, 10);
    let e = c.process_net_event(&Message::MouseMove { dx: 50, dy: -30 });
    assert_eq!(e, Some(HostEvent::Motion { x: 1919, y: 0 }));
    let e = c.process_net_event(&Message::MouseMove { dx: -100, dy: 7 });
    assert_eq!(e, Some(HostEvent::Motion { x: 1819, y: 7 }));
    assert_eq!(c.process_net_event(&Message::ButtonRelease { button: 3 }), Some(HostEvent::ButtonRelease { button: 3 }));
    assert_eq!(c.process_net_event(&Message::RequestCluster), None);
}

#[test]
fn inbound_input_dropped_when_peer_focused() {
    let mut hub = connected_pair();
    hub.net_event(Message::Focus(sid(2)), addr(2), 1920, 1080);
    let r = hub.net_event(Message::KeyPress { key: 4 }, addr(2), 1920, 1080);
    assert!(r.host.is_none());
}

#[test]
fn set_screens_keeps_focus_only_if_listed() {
    let mut c = Cluster::new(sid(1), addr(1), 1920, 1080, 0, 0);
    c.merge(&snap(vec![screen(2, 1920, 0, 1200, 800)]));
    c.refocus(sid(2));
    assert!(c.set_screens(vec![screen(1, 0, 0, 1920, 1080), screen(3, 1920, 0, 800, 600)]));
    assert_eq!(c.focus.focused, None);
    assert_eq!(c.screens.len(), 2);
    assert!(!c.set_screens(vec![screen(3, 0, 0, 800, 600)]));
    assert_eq!(c.screens.len(), 2);
}

#[test]
fn admin_screens_are_relayed_and_bad_lists_refused() {
    let mut hub = connected_pair();
    match hub.admin_message(Message::Screens(vec![screen(1, 0, 0, 1920, 1080), screen(2, 0, 1080, 1200, 800)])) {
        AdminReply::Relay(o) => {
            assert_eq!(o.purpose, Purpose::Relay);
            assert!(matches!(o.msg, Message::Cluster(ref sn) if sn.screens[1].y == 1080));
        },
        _ => panic!("a relay"),
    }
    assert!(matches!(hub.admin_message(Message::Screens(vec![])), AdminReply::Refused));
    assert!(matches!(hub.admin_message(Message::KeyPress { key: 1 }), AdminReply::Unexpected));
    match hub.admin_message(Message::RequestCluster) {
        AdminReply::Reply(Message::Cluster(sn)) => assert_eq!(sn.screens.len(), 2),
        _ => panic!("a snapshot"),
    }
}
