use modbus_stream::session::{on_client_event, on_feed_event, ClientEvent, FeedEvent, SessionAction};

#[test]
fn ping_is_answered_with_pong() {
    assert_eq!(on_client_event(&ClientEvent::Text("ping".to_string())), SessionAction::Reply("pong".to_string()));
    assert_eq!(on_client_event(&ClientEvent::Text("PING".to_string())), SessionAction::Continue);
    assert_eq!(on_client_event(&ClientEvent::Text(String::new())), SessionAction::Continue);
    assert_eq!(on_client_event(&ClientEvent::Other), SessionAction::Continue);
}

#[test]
fn client_leaving_ends_session() {
    assert_eq!(on_client_event(&ClientEvent::Close), SessionAction::Stop);
    assert_eq!(on_client_event(&ClientEvent::Failed), SessionAction::Stop);
    assert_eq!(on_client_event(&ClientEvent::Ended), SessionAction::Stop);
}

#[test]
fn feed_items() {
    assert_eq!(on_feed_event(FeedEvent::Message, true), SessionAction::Forward);
    assert_eq!(on_feed_event(FeedEvent::Message, false), SessionAction::Forward);
    assert_eq!(on_feed_event(FeedEvent::Closed, true), SessionAction::Stop);
    assert_eq!(on_feed_event(FeedEvent::Closed, false), SessionAction::Stop);
}

#[test]
fn lag_is_reported_only_where_asked() {
    assert_eq!(
        on_feed_event(FeedEvent::Lagged(12), true),
        SessionAction::ReportError("Client lagging, skipped 12 messages".to_string(), "CLIENT_LAGGING".to_string())
    );
    assert_eq!(on_feed_event(FeedEvent::Lagged(12), false), SessionAction::Continue);
}
