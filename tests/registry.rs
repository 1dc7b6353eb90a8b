use tokio::sync::mpsc::error::TryRecvError;

use zagreus_server::controller::{message_for_event, ServerController, TemplateEvent, TemplateEventKind};
use zagreus_server::inbound::{handle_user_message, InboundAction, InboundEvent};
use zagreus_server::message::TemplateMessage;
use zagreus_server::server::WebsocketServer;

fn set_text(id: &str, text: &str) -> TemplateMessage {
    TemplateMessage::SetText { id: id.to_string(), text: text.to_string() }
}

#[test]
fn ids_start_at_zero_and_increase() {
    let mut server = WebsocketServer::new();
    assert_eq!(server.next_id(), 0);
    let (a, _ra) = server.add_client_socket("alpha");
    let (b, _rb) = server.add_client_socket("beta");
    let (c, _rc) = server.add_client_socket("alpha");
    assert_eq!((a, b, c), (0, 1, 2));
    assert_eq!(server.next_id(), 3);
    assert_eq!(server.connection_count(), 3);
}

#[test]
fn broadcast_reaches_only_its_channel() {
    let mut server = WebsocketServer::new();
    let (a, mut ra) = server.add_client_socket("alpha");
    let (b, mut rb) = server.add_client_socket("beta");
    assert_eq!((a, b), (0, 1));
    let refused = server.send_message_to_template_clients("alpha", &set_text("t1", "hi"));
    assert!(refused.is_empty());
    assert_eq!(ra.try_recv().unwrap(), r#"{"type":"SetText","id":"t1","text":"hi"}"#);
    assert_eq!(ra.try_recv(), Err(TryRecvError::Empty));
    assert_eq!(rb.try_recv(), Err(TryRecvError::Empty));
}

#[test]
fn broadcast_reaches_every_subscriber() {
    let mut server = WebsocketServer::new();
    let (_a, mut ra) = server.add_client_socket("alpha");
    let (_b, mut rb) = server.add_client_socket("beta");
    let (_c, mut rc) = server.add_client_socket("alpha");
    let frame = String::from("f");
    server.broadcast_frame("alpha", &frame);
    assert_eq!(ra.try_recv().unwrap(), "f");
    assert_eq!(rc.try_recv().unwrap(), "f");
    assert_eq!(rb.try_recv(), Err(TryRecvError::Empty));
}

#[test]
fn broadcast_order_is_kept_per_connection() {
    let mut server = WebsocketServer::new();
    let (_a, mut ra) = server.add_client_socket("alpha");
    server.send_message_to_template_clients("alpha", &set_text("t", "one"));
    server.send_message_to_template_clients("alpha", &set_text("t", "two"));
    assert_eq!(ra.try_recv().unwrap(), r#"{"type":"SetText","id":"t","text":"one"}"#);
    assert_eq!(ra.try_recv().unwrap(), r#"{"type":"SetText","id":"t","text":"two"}"#);
    assert_eq!(ra.try_recv(), Err(TryRecvError::Empty));
}

#[test]
fn deregistration_is_idempotent() {
    let mut server = WebsocketServer::new();
    let (a, _ra) = server.add_client_socket("alpha");
    let (_b, _rb) = server.add_client_socket("alpha");
    server.user_disconnected(a);
    assert_eq!(server.connection_count(), 1);
    server.user_disconnected(a);
    assert_eq!(server.connection_count(), 1);
    server.user_disconnected(42);
    assert_eq!(server.connection_count(), 1);
    assert_eq!(server.next_id(), 2);
}

#[test]
fn removed_connection_is_not_reached() {
    let mut server = WebsocketServer::new();
    let (a, mut ra) = server.add_client_socket("alpha");
    let (_b, mut rb) = server.add_client_socket("alpha");
    server.user_disconnected(a);
    let refused = server.send_message_to_template_clients("alpha", &TemplateMessage::Reload);
    assert!(refused.is_empty());
    assert_eq!(ra.try_recv(), Err(TryRecvError::Disconnected));
    assert_eq!(rb.try_recv().unwrap(), r#"{"type":"Reload"}"#);
}

#[test]
fn identifiers_are_not_reused_after_removal() {
    let mut server = WebsocketServer::new();
    let (a, _ra) = server.add_client_socket("alpha");
    server.user_disconnected(a);
    let (b, _rb) = server.add_client_socket("alpha");
    assert_eq!(a, 0);
    assert_eq!(b, 1);
}

#[test]
fn closed_queue_is_reported_and_others_still_served() {
    let mut server = WebsocketServer::new();
    let (a, ra) = server.add_client_socket("alpha");
    let (_b, mut rb) = server.add_client_socket("alpha");
    drop(ra);
    let refused = server.broadcast_frame("alpha", &String::from("x"));
    assert_eq!(refused, vec![a]);
    assert_eq!(rb.try_recv().unwrap(), "x");
}

#[test]
fn broadcast_to_empty_registry_does_nothing() {
    let mut server = WebsocketServer::new();
    let refused = server.send_message_to_template_clients("alpha", &TemplateMessage::Reload);
    assert!(refused.is_empty());
    assert_eq!(server.connection_count(), 0);
}

#[test]
fn controller_changed_event_broadcasts_once() {
    let mut server = WebsocketServer::new();
    let (_a, mut ra) = server.add_client_socket("alpha");
    let (_b, mut rb) = server.add_client_socket("beta");
    let mut controller = ServerController::new();
    let event = TemplateEvent { kind: TemplateEventKind::Changed, channel: "alpha".to_string() };
    assert_eq!(controller.handle_event(&mut server, Some(event)), Some(vec![]));
    assert_eq!(ra.try_recv().unwrap(), r#"{"type":"Reload"}"#);
    assert_eq!(ra.try_recv(), Err(TryRecvError::Empty));
    assert_eq!(rb.try_recv(), Err(TryRecvError::Empty));
    assert!(controller.is_running());
}

#[test]
fn controller_removed_event_sends_nothing() {
    let mut server = WebsocketServer::new();
    let (_a, mut ra) = server.add_client_socket("alpha");
    let mut controller = ServerController::new();
    let event = TemplateEvent { kind: TemplateEventKind::Removed, channel: "alpha".to_string() };
    assert_eq!(controller.handle_event(&mut server, Some(event)), None);
    assert_eq!(ra.try_recv(), Err(TryRecvError::Empty));
}

#[test]
fn controller_is_inert_after_stream_end() {
    let mut server = WebsocketServer::new();
    let (_a, mut ra) = server.add_client_socket("alpha");
    let mut controller = ServerController::new();
    assert_eq!(controller.handle_event(&mut server, None), None);
    assert!(!controller.is_running());
    let event = TemplateEvent { kind: TemplateEventKind::Changed, channel: "alpha".to_string() };
    assert_eq!(controller.handle_event(&mut server, Some(event)), None);
    assert_eq!(ra.try_recv(), Err(TryRecvError::Empty));
}

#[test]
fn event_kinds_map_to_messages() {
    let created = TemplateEvent { kind: TemplateEventKind::Created, channel: "a".to_string() };
    let changed = TemplateEvent { kind: TemplateEventKind::Changed, channel: "a".to_string() };
    let removed = TemplateEvent { kind: TemplateEventKind::Removed, channel: "a".to_string() };
    assert!(matches!(message_for_event(&created), Some(TemplateMessage::Reload)));
    assert!(matches!(message_for_event(&changed), Some(TemplateMessage::Reload)));
    assert!(message_for_event(&removed).is_none());
}

#[test]
fn abrupt_close_removes_connection() {
    let mut server = WebsocketServer::new();
    let (a, mut ra) = server.add_client_socket("alpha");
    assert!(matches!(handle_user_message(InboundEvent::ReadError), InboundAction::Disconnect));
    server.user_disconnected(a);
    assert_eq!(server.connection_count(), 0);
    let refused = server.send_message_to_template_clients("alpha", &set_text("t", "x"));
    assert!(refused.is_empty());
    assert_eq!(ra.try_recv(), Err(TryRecvError::Disconnected));
}

#[test]
fn controller_reports_refused_queues() {
    let mut server = WebsocketServer::new();
    let (a, ra) = server.add_client_socket("alpha");
    drop(ra);
    let mut controller = ServerController::new();
    let event = TemplateEvent { kind: TemplateEventKind::Created, channel: "alpha".to_string() };
    assert_eq!(controller.handle_event(&mut server, Some(event)), Some(vec![a]));
}

#[test]
fn refused_subscriber_does_not_stop_later_ones() {
    let mut server = WebsocketServer::new();
    let (_a, mut ra) = server.add_client_socket("alpha");
    let (b, rb) = server.add_client_socket("alpha");
    let (_c, mut rc) = server.add_client_socket("alpha");
    drop(rb);
    let refused = server.send_message_to_template_clients("alpha", &set_text("t", "v"));
    assert_eq!(refused, vec![b]);
    assert_eq!(ra.try_recv().unwrap(), r#"{"type":"SetText","id":"t","text":"v"}"#);
    assert_eq!(rc.try_recv().unwrap(), r#"{"type":"SetText","id":"t","text":"v"}"#);
}
