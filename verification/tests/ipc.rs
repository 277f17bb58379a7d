use glazewm::ipc_server::{
    client_text, connection_step, is_subscribed, response_step, subscription_step, to_client_response_msg,
    to_event_subscription_msg, try_collect, AppCommand, ClientFrame, ConnectionInput,
    ConnectionStep, InvalidText, IpcError, IpcFacts, IpcReply, IpcServer, QueryCommand, ResponseStep,
    SubscribableEvent, SubscriptionInput, SubscriptionStep, WmEvent,
};

const FACTS: IpcFacts =
    IpcFacts { is_paused: true, has_focused_container: true, has_direction_container: true };

fn handle(command: AppCommand, facts: IpcFacts) -> Result<IpcReply, IpcError> {
    IpcServer::<u8>::handle_app_command(&command, facts)
}

fn sub() -> AppCommand {
    AppCommand::Sub { events: vec![SubscribableEvent::All] }
}

#[test]
fn disconnected_client_before_subscribe_does_not_leak() {
    let mut server: IpcServer<usize> = IpcServer::new();
    for task in 0..100 {
        assert_eq!(handle(sub(), FACTS).unwrap(), IpcReply::EventSubscribe);
        // The tasks of clients that are gone have finished.
        server.subscribe(IpcServer::<usize>::new_subscription_id(), task, |_| true);
    }
    assert!(server.subscriptions.len() <= 1);
    server.stop();
    assert!(server.subscriptions.is_empty());
}

#[test]
fn unsubscribe_burst_cannot_lose_cancellation() {
    let mut server: IpcServer<usize> = IpcServer::new();
    let mut ids = Vec::new();
    for task in 0..100 {
        assert_eq!(handle(sub(), FACTS).unwrap(), IpcReply::EventSubscribe);
        let id = IpcServer::<usize>::new_subscription_id();
        server.subscribe(id, task, |_| false);
        ids.push(id);
    }
    for (task, subscription_id) in ids.into_iter().enumerate() {
        let reply = handle(AppCommand::Unsub { subscription_id }, FACTS).unwrap();
        let IpcReply::EventUnsubscribe(id) = reply else { panic!("Missing subscription") };
        assert_eq!(id, subscription_id);
        assert_eq!(server.unsubscribe(id), Some(task));
        assert_eq!(server.unsubscribe(id), None);
    }
    assert!(server.subscriptions.is_empty());
    server.stop();
}

#[test]
fn slow_subscriber_is_disconnected_instead_of_growing_queue() {
    let command = sub();
    assert_eq!(IpcServer::<u8>::handle_app_command(&command, FACTS), Ok(IpcReply::EventSubscribe));
    let AppCommand::Sub { events } = command else { panic!("Missing subscription") };
    let capacity = 1;
    let mut queue = Vec::new();
    let mut disconnected = false;
    for event in [WmEvent::ApplicationExiting, WmEvent::ApplicationExiting] {
        let event_type = IpcServer::<u8>::process_event(event);
        let step = subscription_step(&events, SubscriptionInput::Event(event_type));
        assert_eq!(step, SubscriptionStep::Send);
        let sent = queue.len() < capacity;
        if sent {
            queue.push(event_type);
        }
        let step = subscription_step(&events, SubscriptionInput::Sent(sent));
        disconnected = disconnected || step == SubscriptionStep::DisconnectAndStop;
    }
    assert!(disconnected);
    assert_eq!(queue.len(), 1);
}

#[test]
fn stopping_hands_out_everything_once() {
    let mut server: IpcServer<usize> = IpcServer::new();
    server.subscribe(1, 10, |_| false);
    server.subscribe(2, 20, |task| *task == 10);
    server.subscribe(3, 30, |_| false);
    let mut plan = server.stop();
    plan.subscriptions.sort();
    assert!(plan.signal_and_await_server);
    assert_eq!(plan.subscriptions, vec![20, 30]);
    let again = server.stop();
    assert!(!again.signal_and_await_server);
    assert!(again.subscriptions.is_empty());
}

#[test]
fn messages_are_split_like_command_lines() {
    assert_eq!(
        IpcServer::<u8>::process_message("  query \u{2003}windows\t\n"),
        vec!["", "query", "windows"]
    );
    assert_eq!(IpcServer::<u8>::process_message(""), vec![""]);
    assert_eq!(IpcServer::<u8>::process_message("sub"), vec!["", "sub"]);
    for message in ["a  b", " x", "y ", "\u{85}q\u{a0}r", "one\u{3000}two\u{b}three"] {
        let expected: Vec<&str> = std::iter::once("").chain(message.split_whitespace()).collect();
        assert_eq!(IpcServer::<u8>::process_message(message), expected);
    }
}

#[test]
fn queries_are_answered() {
    for (query, reply) in [
        (QueryCommand::Windows, IpcReply::Windows),
        (QueryCommand::Workspaces, IpcReply::Workspaces),
        (QueryCommand::Monitors, IpcReply::Monitors),
        (QueryCommand::BindingModes, IpcReply::BindingModes),
        (QueryCommand::Focused, IpcReply::Focused),
        (QueryCommand::AppMetadata, IpcReply::AppMetadata),
        (QueryCommand::TilingDirection, IpcReply::TilingDirection),
        (QueryCommand::Paused, IpcReply::Paused(true)),
    ] {
        assert_eq!(handle(AppCommand::Query(query), FACTS), Ok(reply));
    }
    let command = AppCommand::Command { subject_container_id: Some(4) };
    assert_eq!(handle(command, FACTS), Ok(IpcReply::Command(Some(4))));
    assert_eq!(handle(sub(), FACTS), Ok(IpcReply::EventSubscribe));
    let unsub = AppCommand::Unsub { subscription_id: 6 };
    assert_eq!(handle(unsub, FACTS), Ok(IpcReply::EventUnsubscribe(6)));
}

#[test]
fn refused_clients_read_why() {
    let facts = IpcFacts {
        is_paused: false,
        has_focused_container: false,
        has_direction_container: false,
    };
    let error = handle(AppCommand::Query(QueryCommand::Focused), facts).unwrap_err();
    assert_eq!(error.message(), "No focused container.");
    let error = handle(AppCommand::Query(QueryCommand::TilingDirection), facts).unwrap_err();
    assert_eq!(error.message(), "No direction container.");
    let error = handle(AppCommand::Start, facts).unwrap_err();
    assert_eq!(error, IpcError::UnsupportedCommand);
    let response =
        to_client_response_msg::<u8>("start".to_string(), Err(error.message().to_string()));
    assert_eq!(response.client_message, "start");
    assert_eq!(response.error.as_deref(), Some("Unsupported IPC command."));
    assert_eq!(response.data, None);
    assert!(!response.success);
    let response = to_client_response_msg("query paused".to_string(), Ok(true));
    assert_eq!((response.data, response.error, response.success), (Some(true), None, true));
}

#[test]
fn every_message_is_served_or_refused() {
    let message = || "query focused".to_string();
    let query = || Ok(AppCommand::Query(QueryCommand::Focused));
    let accepted = IpcServer::<u8>::accept_command::<u8>(message(), query(), FACTS);
    assert_eq!(accepted.ok(), Some((message(), IpcReply::Focused)));
    let facts = IpcFacts { has_focused_container: false, ..FACTS };
    let refusal = IpcServer::<u8>::accept_command::<u8>(message(), query(), facts).err().unwrap();
    assert_eq!((refusal.client_message, refusal.success), (message(), false));
    assert_eq!(refusal.error.as_deref(), Some("No focused container."));
    assert_eq!(refusal.data, None);
    let unknown = Err("unrecognized subcommand".to_string());
    let refusal = IpcServer::<u8>::accept_command::<u8>(message(), unknown, FACTS).err().unwrap();
    assert_eq!(refusal.error.as_deref(), Some("unrecognized subcommand"));
}

#[test]
fn events_are_told_to_their_subscribers() {
    let message = to_event_subscription_msg(8, "event");
    assert_eq!((message.subscription_id, message.data, message.success), (8, Some("event"), true));
    assert_eq!(message.error, None);
    let events = vec![SubscribableEvent::FocusChanged];
    assert!(is_subscribed(&events, IpcServer::<u8>::process_event(WmEvent::FocusChanged)));
    let paused = IpcServer::<u8>::process_event(WmEvent::PauseChanged { is_paused: true });
    assert_eq!(paused, SubscribableEvent::PauseChanged);
    assert!(!is_subscribed(&events, paused));
    assert!(is_subscribed(&vec![SubscribableEvent::All], paused));
    assert_eq!(
        subscription_step(&events, SubscriptionInput::Event(paused)),
        SubscriptionStep::Wait
    );
    for (input, step) in [
        (SubscriptionInput::ResponseClosed, SubscriptionStep::Stop),
        (SubscriptionInput::Disconnected, SubscriptionStep::Stop),
        (SubscriptionInput::Closed, SubscriptionStep::Stop),
        (SubscriptionInput::Lagged, SubscriptionStep::Wait),
        (SubscriptionInput::Sent(true), SubscriptionStep::Wait),
    ] {
        assert_eq!(subscription_step(&events, input), step);
    }
}

#[test]
fn every_event_has_its_own_type() {
    let events = [
        (WmEvent::ApplicationExiting, SubscribableEvent::ApplicationExiting),
        (WmEvent::BindingModesChanged, SubscribableEvent::BindingModesChanged),
        (WmEvent::FocusChanged, SubscribableEvent::FocusChanged),
        (WmEvent::FocusedContainerMoved, SubscribableEvent::FocusedContainerMoved),
        (WmEvent::MonitorAdded, SubscribableEvent::MonitorAdded),
        (WmEvent::MonitorUpdated, SubscribableEvent::MonitorUpdated),
        (WmEvent::MonitorRemoved, SubscribableEvent::MonitorRemoved),
        (WmEvent::TilingDirectionChanged, SubscribableEvent::TilingDirectionChanged),
        (WmEvent::UserConfigChanged, SubscribableEvent::UserConfigChanged),
        (WmEvent::WindowManaged, SubscribableEvent::WindowManaged),
        (WmEvent::WindowUnmanaged, SubscribableEvent::WindowUnmanaged),
        (WmEvent::WorkspaceActivated, SubscribableEvent::WorkspaceActivated),
        (WmEvent::WorkspaceDeactivated, SubscribableEvent::WorkspaceDeactivated),
        (WmEvent::WorkspaceUpdated, SubscribableEvent::WorkspaceUpdated),
    ];
    for (event, event_type) in events {
        assert_eq!(IpcServer::<u8>::process_event(event), event_type);
    }
}

#[test]
fn text_may_come_as_bytes() {
    assert_eq!(client_text(ClientFrame::Text("query".to_string())), Ok(Some("query".to_string())));
    assert_eq!(
        client_text(ClientFrame::Binary("oké".as_bytes().to_vec())),
        Ok(Some("oké".to_string()))
    );
    assert_eq!(client_text(ClientFrame::Binary(vec![0xff])), Err(InvalidText));
    assert_eq!(client_text(ClientFrame::Control), Ok(None));
}

#[test]
fn connections_end_when_they_have_to() {
    for (input, step) in [
        (ConnectionInput::Disconnect, ConnectionStep::EndOk),
        (ConnectionInput::Closed, ConnectionStep::EndOk),
        (ConnectionInput::Failed, ConnectionStep::EndFailed),
        (ConnectionInput::InvalidMessage, ConnectionStep::EndFailed),
        (ConnectionInput::ResponseSent(false), ConnectionStep::EndFailed),
        (ConnectionInput::Forwarded(false), ConnectionStep::EndFailed),
        (ConnectionInput::ResponseSent(true), ConnectionStep::Wait),
        (ConnectionInput::Forwarded(true), ConnectionStep::Wait),
        (ConnectionInput::OtherMessage, ConnectionStep::Wait),
        (ConnectionInput::Response, ConnectionStep::SendResponse),
        (ConnectionInput::TextMessage, ConnectionStep::Forward),
    ] {
        assert_eq!(connection_step(input), step);
    }
}

#[test]
fn clients_that_take_no_more_answers_are_disconnected() {
    assert_eq!(response_step(true), ResponseStep::Done);
    assert_eq!(response_step(false), ResponseStep::DisconnectAndFail);
}

#[test]
fn collecting_stops_at_the_first_error() {
    assert_eq!(try_collect::<u8, u8>(vec![Ok(1), Ok(2)]), Ok(vec![1, 2]));
    assert_eq!(try_collect::<u8, u8>(vec![Ok(1), Err(7), Ok(2), Err(8)]), Err(7));
    assert_eq!(try_collect::<u8, u8>(vec![]), Ok(vec![]));
}
