//! The protocol between the window manager and its clients.
use std::collections::HashMap;
use vstd::prelude::*;

use crate::ids::random_id;
use crate::model::ContainerId;
use crate::text::{append_words, utf8_text};

verus! {

/// What a client may ask for.
#[derive(Clone, Copy, Debug, PartialEq, Eq, Structural)]
pub enum QueryCommand {
    Windows,
    Workspaces,
    Monitors,
    BindingModes,
    Focused,
    AppMetadata,
    TilingDirection,
    Paused,
}

/// What a client may subscribe to.
#[derive(Clone, Copy, Debug, PartialEq, Eq, Structural)]
pub enum SubscribableEvent {
    All,
    ApplicationExiting,
    BindingModesChanged,
    FocusChanged,
    FocusedContainerMoved,
    MonitorAdded,
    MonitorUpdated,
    MonitorRemoved,
    TilingDirectionChanged,
    UserConfigChanged,
    WindowManaged,
    WindowUnmanaged,
    WorkspaceActivated,
    WorkspaceDeactivated,
    WorkspaceUpdated,
    PauseChanged,
}

/// What happens in the window manager.
#[derive(Clone, Copy, Debug, PartialEq, Eq, Structural)]
pub enum WmEvent {
    ApplicationExiting,
    BindingModesChanged,
    FocusChanged,
    FocusedContainerMoved,
    MonitorAdded,
    MonitorUpdated,
    MonitorRemoved,
    TilingDirectionChanged,
    UserConfigChanged,
    WindowManaged,
    WindowUnmanaged,
    WorkspaceActivated,
    WorkspaceDeactivated,
    WorkspaceUpdated,
    PauseChanged { is_paused: bool },
}

/// A command, as a client sends it.
pub enum AppCommand {
    Query(QueryCommand),
    /// Runs a command, on the given container or on the focused one.
    Command { subject_container_id: Option<ContainerId> },
    Sub { events: Vec<SubscribableEvent> },
    Unsub { subscription_id: u128 },
    Start,
}

/// What the answer to a client depends on.
#[derive(Clone, Copy, Debug, PartialEq, Eq, Structural)]
pub struct IpcFacts {
    pub is_paused: bool,
    pub has_focused_container: bool,
    /// The focused container has, or is in, a container with a tiling
    /// direction.
    pub has_direction_container: bool,
}

/// What a client is answered with.
#[derive(Clone, Copy, Debug, PartialEq, Eq, Structural)]
pub enum IpcReply {
    Windows,
    Workspaces,
    Monitors,
    BindingModes,
    Focused,
    AppMetadata,
    TilingDirection,
    Paused(bool),
    /// The outcome of running the command.
    Command(Option<ContainerId>),
    /// The id of a new subscription.
    EventSubscribe,
    /// The subscription is gone, whether or not there was one.
    EventUnsubscribe(u128),
}

/// Why a client is refused.
#[derive(Clone, Copy, Debug, PartialEq, Eq, Structural)]
pub enum IpcError {
    NoFocusedContainer,
    NoDirectionContainer,
    UnsupportedCommand,
}

impl IpcError {
    /// The words that a refused client reads.
    pub open spec fn text(self) -> Seq<char> {
        match self {
            IpcError::NoFocusedContainer => "No focused container."@,
            IpcError::NoDirectionContainer => "No direction container."@,
            IpcError::UnsupportedCommand => "Unsupported IPC command."@,
        }
    }

    pub fn message(&self) -> (message: &'static str)
        ensures
            message@ == self.text(),
    {
        match self {
            IpcError::NoFocusedContainer => "No focused container.",
            IpcError::NoDirectionContainer => "No direction container.",
            IpcError::UnsupportedCommand => "Unsupported IPC command.",
        }
    }
}

/// What a client is answered with, or why it is refused.
pub open spec fn reply_to(command: AppCommand, facts: IpcFacts) -> Result<IpcReply, IpcError> {
    match command {
        AppCommand::Query(query) => match query {
            QueryCommand::Windows => Ok(IpcReply::Windows),
            QueryCommand::Workspaces => Ok(IpcReply::Workspaces),
            QueryCommand::Monitors => Ok(IpcReply::Monitors),
            QueryCommand::BindingModes => Ok(IpcReply::BindingModes),
            QueryCommand::Focused => if facts.has_focused_container {
                Ok(IpcReply::Focused)
            } else {
                Err(IpcError::NoFocusedContainer)
            },
            QueryCommand::AppMetadata => Ok(IpcReply::AppMetadata),
            QueryCommand::TilingDirection => if facts.has_direction_container {
                Ok(IpcReply::TilingDirection)
            } else {
                Err(IpcError::NoDirectionContainer)
            },
            QueryCommand::Paused => Ok(IpcReply::Paused(facts.is_paused)),
        },
        AppCommand::Command { subject_container_id } => Ok(
            IpcReply::Command(subject_container_id),
        ),
        AppCommand::Sub { .. } => Ok(IpcReply::EventSubscribe),
        AppCommand::Unsub { subscription_id } => Ok(IpcReply::EventUnsubscribe(subscription_id)),
        AppCommand::Start => Err(IpcError::UnsupportedCommand),
    }
}

/// The type under which clients subscribe to an event.
pub open spec fn type_of(event: WmEvent) -> SubscribableEvent {
    match event {
        WmEvent::ApplicationExiting => SubscribableEvent::ApplicationExiting,
        WmEvent::BindingModesChanged => SubscribableEvent::BindingModesChanged,
        WmEvent::FocusChanged => SubscribableEvent::FocusChanged,
        WmEvent::FocusedContainerMoved => SubscribableEvent::FocusedContainerMoved,
        WmEvent::MonitorAdded => SubscribableEvent::MonitorAdded,
        WmEvent::MonitorUpdated => SubscribableEvent::MonitorUpdated,
        WmEvent::MonitorRemoved => SubscribableEvent::MonitorRemoved,
        WmEvent::TilingDirectionChanged => SubscribableEvent::TilingDirectionChanged,
        WmEvent::UserConfigChanged => SubscribableEvent::UserConfigChanged,
        WmEvent::WindowManaged => SubscribableEvent::WindowManaged,
        WmEvent::WindowUnmanaged => SubscribableEvent::WindowUnmanaged,
        WmEvent::WorkspaceActivated => SubscribableEvent::WorkspaceActivated,
        WmEvent::WorkspaceDeactivated => SubscribableEvent::WorkspaceDeactivated,
        WmEvent::WorkspaceUpdated => SubscribableEvent::WorkspaceUpdated,
        WmEvent::PauseChanged { .. } => SubscribableEvent::PauseChanged,
    }
}

/// All values, unless one of them is an error.
pub open spec fn collected<T, E>(items: Seq<Result<T, E>>) -> Result<Seq<T>, E>
    decreases items.len(),
{
    if items.len() == 0 {
        Ok(seq![])
    } else {
        match (collected(items.drop_last()), items.last()) {
            (Err(error), _) => Err(error),
            (Ok(_), Err(error)) => Err(error),
            (Ok(values), Ok(value)) => Ok(values.push(value)),
        }
    }
}

/// Collects values up to the first error.
pub fn try_collect<T, E>(items: Vec<Result<T, E>>) -> (result: Result<Vec<T>, E>)
    ensures
        match (result, collected(items@)) {
            (Ok(values), Ok(expected)) => values@ == expected,
            (Err(error), Err(expected)) => error == expected,
            _ => false,
        },
{
    let mut rest = items;
    let mut values: Vec<T> = Vec::new();
    let ghost all = items@;
    let ghost mut taken: int = 0;
    assert(all.take(0) =~= seq![]);
    while rest.len() > 0
        invariant
            0 <= taken <= all.len(),
            rest@ =~= all.skip(taken),
            collected(all.take(taken)) == Ok::<Seq<T>, E>(values@),
            all == items@,
        decreases rest.len(),
    {
        let item = rest.remove(0);
        assert(item == all[taken]);
        assert(all.take(taken + 1).drop_last() =~= all.take(taken));
        match item {
            Ok(value) => {
                values.push(value);
            },
            Err(error) => {
                proof {
                    lemma_first_error(all, taken);
                }
                return Err(error);
            },
        }
        proof {
            taken = taken + 1;
        }
    }
    assert(all.take(taken) =~= all);
    Ok(values)
}

/// What follows the first error changes nothing.
proof fn lemma_first_error<T, E>(items: Seq<Result<T, E>>, i: int)
    requires
        0 <= i < items.len(),
        collected(items.take(i)) is Ok,
        items[i] is Err,
    ensures
        collected(items) == Err::<Seq<T>, E>(items[i]->Err_0),
    decreases items.len(),
{
    if i == items.len() - 1 {
        assert(items.drop_last() =~= items.take(i));
    } else {
        assert(items.drop_last().take(i) =~= items.take(i));
        lemma_first_error(items.drop_last(), i);
    }
}

/// What a client is told of its message.
pub struct ClientResponse<D> {
    pub client_message: String,
    pub data: Option<D>,
    pub error: Option<String>,
    pub success: bool,
}

/// What a client is told of an event that it subscribed to.
pub struct EventMessage<E> {
    pub subscription_id: u128,
    pub data: Option<E>,
    pub error: Option<String>,
    pub success: bool,
}

/// Answers a client: with data, or with the words of an error, never with both.
pub fn to_client_response_msg<D>(client_message: String, response_data: Result<D, String>) -> (
response: ClientResponse<D>)
    ensures
        response.client_message == client_message,
        response.success == response_data is Ok,
        response.data == match response_data {
            Ok(data) => Some(data),
            Err(_) => None,
        },
        response.error == match response_data {
            Ok(_) => None,
            Err(error) => Some(error),
        },
        response.success <==> response.data is Some,
        response.success <==> response.error is None,
{
    match response_data {
        Ok(data) => ClientResponse { client_message, data: Some(data), error: None, success: true },
        Err(error) => ClientResponse {
            client_message,
            data: None,
            error: Some(error),
            success: false,
        },
    }
}

/// The response tells the client that its message was refused, and why.
pub open spec fn refuses<D>(
    response: ClientResponse<D>,
    client_message: Seq<char>,
    words: Seq<char>,
) -> bool {
    &&& response.client_message@ == client_message
    &&& !response.success
    &&& response.data is None
    &&& response.error matches Some(error) && error@ == words
}

/// Tells a client of an event.
pub fn to_event_subscription_msg<E>(subscription_id: u128, event: E) -> (message: EventMessage<E>)
    ensures
        message == (EventMessage {
            subscription_id,
            data: Some(event),
            error: None,
            success: true,
        }),
{
    EventMessage { subscription_id, data: Some(event), error: None, success: true }
}

/// The server, with a task `T` for each subscription.
pub struct IpcServer<T> {
    /// The task that accepts connections is running.
    pub running: bool,
    pub subscriptions: HashMap<u128, T>,
}

/// What is left to do when the server stops, in this order: no more messages
/// are taken, the server is told to close its connections and is waited for,
/// and the tasks of the subscriptions are ended and waited for.
pub struct StopPlan<T> {
    pub signal_and_await_server: bool,
    pub subscriptions: Vec<T>,
}

/// The keys of a map, in some order.
pub open spec fn enumerates(ids: Seq<u128>, dom: Set<u128>) -> bool {
    ids.no_duplicates() && ids.to_set() == dom
}

impl<T> IpcServer<T> {
    pub fn new() -> (server: IpcServer<T>)
        ensures
            server.running,
            server.subscriptions@ == Map::<u128, T>::empty(),
    {
        IpcServer { running: true, subscriptions: HashMap::new() }
    }

    /// Takes a message apart into the arguments of a command line, the first of
    /// which is the empty program name.
    pub fn process_message(message: &str) -> (args: Vec<String>)
        ensures
            crate::text::texts(args@) == seq![Seq::<char>::empty()] + crate::text::words(message@),
    {
        let mut args: Vec<String> = Vec::new();
        args.push(String::new());
        assert(crate::text::texts(args@) =~= seq![Seq::<char>::empty()]);
        append_words(&mut args, message);
        args
    }

    /// Decides what a client is answered with.
    pub fn handle_app_command(command: &AppCommand, facts: IpcFacts) -> (reply: Result<
        IpcReply,
        IpcError,
    >)
        ensures
            reply == reply_to(*command, facts),
    {
        match command {
            AppCommand::Query(query) => match query {
                QueryCommand::Windows => Ok(IpcReply::Windows),
                QueryCommand::Workspaces => Ok(IpcReply::Workspaces),
                QueryCommand::Monitors => Ok(IpcReply::Monitors),
                QueryCommand::BindingModes => Ok(IpcReply::BindingModes),
                QueryCommand::Focused => {
                    if !facts.has_focused_container {
                        return Err(IpcError::NoFocusedContainer);
                    }
                    Ok(IpcReply::Focused)
                },
                QueryCommand::AppMetadata => Ok(IpcReply::AppMetadata),
                QueryCommand::TilingDirection => {
                    if !facts.has_direction_container {
                        return Err(IpcError::NoDirectionContainer);
                    }
                    Ok(IpcReply::TilingDirection)
                },
                QueryCommand::Paused => Ok(IpcReply::Paused(facts.is_paused)),
            },
            AppCommand::Command { subject_container_id } => Ok(
                IpcReply::Command(*subject_container_id),
            ),
            AppCommand::Sub { .. } => Ok(IpcReply::EventSubscribe),
            AppCommand::Unsub { subscription_id } => Ok(
                IpcReply::EventUnsubscribe(*subscription_id),
            ),
            AppCommand::Start => Err(IpcError::UnsupportedCommand),
        }
    }

    /// Takes a client's command, once its message has been parsed: either the
    /// command is served, or the client gets the response that refuses it. A
    /// message that is no command is refused with the parser's words.
    pub fn accept_command<D>(
        client_message: String,
        parsed: Result<AppCommand, String>,
        facts: IpcFacts,
    ) -> (accepted: Result<(String, IpcReply), ClientResponse<D>>)
        ensures
            accepted is Ok <==> (parsed matches Ok(command) && reply_to(command, facts) is Ok),
            accepted matches Ok(accepted) ==> accepted.0 == client_message && Ok::<
                IpcReply,
                IpcError,
            >(accepted.1) == reply_to(parsed->Ok_0, facts),
            accepted matches Err(response) ==> refuses(
                response,
                client_message@,
                match parsed {
                    Err(words) => words@,
                    Ok(command) => reply_to(command, facts)->Err_0.text(),
                },
            ),
    {
        let refusal = match parsed {
            Err(words) => words,
            Ok(command) => match Self::handle_app_command(&command, facts) {
                Ok(reply) => return Ok((client_message, reply)),
                Err(error) => String::from_str(error.message()),
            },
        };
        Err(to_client_response_msg(client_message, Err(refusal)))
    }

    /// The type under which an event is broadcast.
    pub fn process_event(event: WmEvent) -> (event_type: SubscribableEvent)
        ensures
            event_type == type_of(event),
    {
        match event {
            WmEvent::ApplicationExiting => SubscribableEvent::ApplicationExiting,
            WmEvent::BindingModesChanged => SubscribableEvent::BindingModesChanged,
            WmEvent::FocusChanged => SubscribableEvent::FocusChanged,
            WmEvent::FocusedContainerMoved => SubscribableEvent::FocusedContainerMoved,
            WmEvent::MonitorAdded => SubscribableEvent::MonitorAdded,
            WmEvent::MonitorUpdated => SubscribableEvent::MonitorUpdated,
            WmEvent::MonitorRemoved => SubscribableEvent::MonitorRemoved,
            WmEvent::TilingDirectionChanged => SubscribableEvent::TilingDirectionChanged,
            WmEvent::UserConfigChanged => SubscribableEvent::UserConfigChanged,
            WmEvent::WindowManaged => SubscribableEvent::WindowManaged,
            WmEvent::WindowUnmanaged => SubscribableEvent::WindowUnmanaged,
            WmEvent::WorkspaceActivated => SubscribableEvent::WorkspaceActivated,
            WmEvent::WorkspaceDeactivated => SubscribableEvent::WorkspaceDeactivated,
            WmEvent::WorkspaceUpdated => SubscribableEvent::WorkspaceUpdated,
            WmEvent::PauseChanged { .. } => SubscribableEvent::PauseChanged,
        }
    }

    /// The id of a new subscription.
    pub fn new_subscription_id() -> (id: u128)
        ensures
            crate::ids::is_random(id),
    {
        random_id()
    }

    /// The ids of the subscriptions, in no particular order.
    fn subscription_ids(&self) -> (ids: Vec<u128>)
        ensures
            enumerates(ids@, self.subscriptions@.dom()),
    {
        broadcast use vstd::std_specs::hash::group_hash_axioms;

        let mut ids: Vec<u128> = Vec::new();
        let ghost keys = vstd::std_specs::iter::IteratorSpec::remaining(
            &vstd::std_specs::hash::spec_keys_iter(&self.subscriptions),
        );
        for id in iter: self.subscriptions.keys()
            invariant
                iter.seq() == keys,
                ids@ =~= keys.unref().take(iter.index()),
        {
            ids.push(*id);
        }
        assert(ids@ =~= keys.unref());
        ids
    }

    /// Adds a subscription. Those whose task has finished are forgotten, so that
    /// clients that are gone leave nothing behind.
    pub fn subscribe<F: Fn(&T) -> bool>(&mut self, id: u128, task: T, is_finished: F)
        requires
            forall|id: u128| #[trigger]
                old(self).subscriptions@.contains_key(id) ==> call_requires(
                    is_finished,
                    (&old(self).subscriptions@[id],),
                ),
        ensures
            final(self).running == old(self).running,
            final(self).subscriptions@.contains_key(id),
            final(self).subscriptions@[id] == task,
            forall|other: u128|
                other != id && #[trigger] final(self).subscriptions@.contains_key(other) ==> {
                    &&& old(self).subscriptions@.contains_key(other)
                    &&& final(self).subscriptions@[other] == old(self).subscriptions@[other]
                    &&& call_ensures(is_finished, (&old(self).subscriptions@[other],), false)
                },
            forall|other: u128|
                other != id && #[trigger] old(self).subscriptions@.contains_key(other)
                    && !final(self).subscriptions@.contains_key(other) ==> call_ensures(
                    is_finished,
                    (&old(self).subscriptions@[other],),
                    true,
                ),
    {
        broadcast use vstd::std_specs::hash::group_hash_axioms;

        let ghost before = self.subscriptions@;
        let ids = self.subscription_ids();
        let mut i: usize = 0;
        while i < ids.len()
            invariant
                i <= ids.len(),
                enumerates(ids@, before.dom()),
                self.running == old(self).running,
                forall|id: u128| #[trigger]
                    before.contains_key(id) ==> call_requires(is_finished, (&before[id],)),
                forall|k: int|
                    i <= k < ids@.len() ==> self.subscriptions@.contains_key(#[trigger] ids@[k]),
                forall|other: u128| #[trigger]
                    self.subscriptions@.contains_key(other) ==> before.contains_key(other)
                        && self.subscriptions@[other] == before[other],
                forall|k: int|
                    0 <= k < i && self.subscriptions@.contains_key(#[trigger] ids@[k])
                        ==> call_ensures(is_finished, (&before[ids@[k]],), false),
                forall|k: int|
                    0 <= k < i && !self.subscriptions@.contains_key(#[trigger] ids@[k])
                        ==> call_ensures(is_finished, (&before[ids@[k]],), true),
            decreases ids.len() - i,
        {
            let current: u128 = ids[i];
            assert(self.subscriptions@.contains_key(ids@[i as int]));
            let mut finished = false;
            if let Some(task) = self.subscriptions.get(&current) {
                finished = is_finished(task);
            }
            if finished {
                self.subscriptions.remove(&current);
            }
            i += 1;
        }
        proof {
            assert forall|other: u128| #[trigger] before.contains_key(other) implies exists|k: int|
                0 <= k < ids@.len() && ids@[k] == other by {
                assert(ids@.to_set().contains(other));
            }
        }
        self.subscriptions.insert(id, task);
    }

    /// Removes a subscription; its task is to be ended.
    pub fn unsubscribe(&mut self, id: u128) -> (task: Option<T>)
        ensures
            final(self).running == old(self).running,
            final(self).subscriptions@ == old(self).subscriptions@.remove(id),
            task == if old(self).subscriptions@.contains_key(id) {
                Some(old(self).subscriptions@[id])
            } else {
                None
            },
    {
        broadcast use vstd::std_specs::hash::group_hash_axioms;

        let task = self.subscriptions.remove(&id);
        if task.is_none() {
            assert(old(self).subscriptions@ =~= old(self).subscriptions@.remove(id));
        }
        task
    }

    /// Stops the server. Whatever it still ran is handed out once: a second stop
    /// finds nothing.
    pub fn stop(&mut self) -> (plan: StopPlan<T>)
        ensures
            !final(self).running,
            final(self).subscriptions@ == Map::<u128, T>::empty(),
            plan.signal_and_await_server == old(self).running,
            exists|ids: Seq<u128>| #[trigger]
                enumerates(ids, old(self).subscriptions@.dom()) && plan.subscriptions@
                    == ids.map_values(|id: u128| old(self).subscriptions@[id]),
    {
        broadcast use vstd::std_specs::hash::group_hash_axioms;

        let ghost before = self.subscriptions@;
        let signal_and_await_server = self.running;
        self.running = false;
        let ids = self.subscription_ids();
        let mut tasks: Vec<T> = Vec::new();
        let mut i: usize = 0;
        while i < ids.len()
            invariant
                i <= ids.len(),
                !self.running,
                enumerates(ids@, before.dom()),
                tasks@ =~= ids@.take(i as int).map_values(|id: u128| before[id]),
                forall|other: u128| #[trigger]
                    self.subscriptions@.contains_key(other) ==> before.contains_key(other)
                        && self.subscriptions@[other] == before[other] && !ids@.take(
                        i as int,
                    ).contains(other),
                forall|k: int|
                    i <= k < ids@.len() ==> self.subscriptions@.contains_key(#[trigger] ids@[k]),
            decreases ids.len() - i,
        {
            let current: u128 = ids[i];
            assert(self.subscriptions@.contains_key(ids@[i as int]));
            let ghost rest = self.subscriptions@;
            if let Some(task) = self.subscriptions.remove(&current) {
                tasks.push(task);
            }
            proof {
                assert forall|other: u128| #[trigger]
                    self.subscriptions@.contains_key(other) implies before.contains_key(other)
                    && self.subscriptions@[other] == before[other] && !ids@.take(
                    i + 1,
                ).contains(other) by {
                    assert(rest.contains_key(other));
                    let taken = ids@.take(i + 1);
                    if taken.contains(other) {
                        let k = choose|k: int| 0 <= k < taken.len() && taken[k] == other;
                        if k < i {
                            assert(ids@.take(i as int)[k] == other);
                        }
                    }
                }
            }
            i += 1;
        }
        proof {
            assert(ids@.take(i as int) =~= ids@);
            assert forall|other: u128| !(#[trigger] self.subscriptions@.contains_key(other)) by {
                if self.subscriptions@.contains_key(other) {
                    assert(ids@.to_set().contains(other));
                }
            }
            assert(self.subscriptions@ =~= Map::<u128, T>::empty());
            assert(enumerates(ids@, before.dom()));
        }
        StopPlan { signal_and_await_server, subscriptions: tasks }
    }
}

/// Whether a subscription covers an event.
pub fn is_subscribed(events: &Vec<SubscribableEvent>, event_type: SubscribableEvent) -> (covered:
    bool)
    ensures
        covered == (events@.contains(event_type) || events@.contains(SubscribableEvent::All)),
{
    let mut i: usize = 0;
    while i < events.len()
        invariant
            i <= events.len(),
            forall|k: int|
                0 <= k < i ==> #[trigger] events@[k] != event_type && events@[k]
                    != SubscribableEvent::All,
        decreases events.len() - i,
    {
        if events[i] == event_type || events[i] == SubscribableEvent::All {
            assert(events@.contains(events@[i as int]));
            return true;
        }
        i += 1;
    }
    false
}

/// What a subscription's task learns.
#[derive(Clone, Copy, Debug, PartialEq, Eq, Structural)]
pub enum SubscriptionInput {
    /// Nobody reads the client's responses anymore.
    ResponseClosed,
    Disconnected,
    /// An event was broadcast.
    Event(SubscribableEvent),
    /// Some events were missed.
    Lagged,
    /// There will be no more events.
    Closed,
    /// The message could be queued for the client, or not.
    Sent(bool),
}

/// What a subscription's task does.
#[derive(Clone, Copy, Debug, PartialEq, Eq, Structural)]
pub enum SubscriptionStep {
    Wait,
    /// Queue the event for the client.
    Send,
    Stop,
    /// Disconnect the client and stop.
    DisconnectAndStop,
}

/// Decides what a subscription's task does. A client that does not keep up with
/// its events is disconnected instead of growing its queue.
pub fn subscription_step(events: &Vec<SubscribableEvent>, input: SubscriptionInput) -> (step:
    SubscriptionStep)
    ensures
        step == match input {
            SubscriptionInput::ResponseClosed
            | SubscriptionInput::Disconnected
            | SubscriptionInput::Closed => SubscriptionStep::Stop,
            SubscriptionInput::Lagged | SubscriptionInput::Sent(true) => SubscriptionStep::Wait,
            SubscriptionInput::Sent(false) => SubscriptionStep::DisconnectAndStop,
            SubscriptionInput::Event(event) => if events@.contains(event) || events@.contains(
                SubscribableEvent::All,
            ) {
                SubscriptionStep::Send
            } else {
                SubscriptionStep::Wait
            },
        },
        step is Stop <==> input is ResponseClosed || input is Disconnected || input is Closed,
        step is DisconnectAndStop <==> input == SubscriptionInput::Sent(false),
        step is Send ==> input is Event,
{
    match input {
        SubscriptionInput::ResponseClosed
        | SubscriptionInput::Disconnected
        | SubscriptionInput::Closed => SubscriptionStep::Stop,
        SubscriptionInput::Lagged => SubscriptionStep::Wait,
        SubscriptionInput::Event(event) => if is_subscribed(events, event) {
            SubscriptionStep::Send
        } else {
            SubscriptionStep::Wait
        },
        SubscriptionInput::Sent(sent) => if sent {
            SubscriptionStep::Wait
        } else {
            SubscriptionStep::DisconnectAndStop
        },
    }
}

/// What follows the answer to a client.
#[derive(Clone, Copy, Debug, PartialEq, Eq, Structural)]
pub enum ResponseStep {
    Done,
    /// Disconnect the client and report the failure.
    DisconnectAndFail,
}

/// Decides what follows the answer to a client. A client whose queue takes no
/// more answers is disconnected.
pub fn response_step(queued: bool) -> (step: ResponseStep)
    ensures
        step == if queued {
            ResponseStep::Done
        } else {
            ResponseStep::DisconnectAndFail
        },
{
    if queued {
        ResponseStep::Done
    } else {
        ResponseStep::DisconnectAndFail
    }
}

/// A message of a client, as it comes over the connection.
pub enum ClientFrame {
    Text(String),
    Binary(Vec<u8>),
    /// A message that only keeps the connection going.
    Control,
}

/// The bytes of a client's message are no text.
#[derive(Clone, Copy, Debug, PartialEq, Eq, Structural)]
pub struct InvalidText;

/// The text that a client's message carries, if it carries any. Text may come as
/// bytes.
pub fn client_text(frame: ClientFrame) -> (text: Result<Option<String>, InvalidText>)
    ensures
        match frame {
            ClientFrame::Text(message) => text == Ok::<Option<String>, InvalidText>(Some(message)),
            ClientFrame::Binary(bytes) => match text {
                Ok(Some(message)) => vstd::utf8::valid_utf8(bytes@) && vstd::utf8::encode_utf8(
                    message@,
                ) == bytes@,
                Ok(None) => false,
                Err(_) => !vstd::utf8::valid_utf8(bytes@),
            },
            ClientFrame::Control => text == Ok::<Option<String>, InvalidText>(None),
        },
{
    match frame {
        ClientFrame::Text(message) => Ok(Some(message)),
        ClientFrame::Binary(bytes) => match utf8_text(bytes) {
            Some(message) => Ok(Some(message)),
            None => Err(InvalidText),
        },
        ClientFrame::Control => Ok(None),
    }
}

/// What happens on a client's connection.
#[derive(Clone, Copy, Debug, PartialEq, Eq, Structural)]
pub enum ConnectionInput {
    /// The client is to be disconnected.
    Disconnect,
    /// A response waits to be sent.
    Response,
    /// The response could be sent in time, or not.
    ResponseSent(bool),
    /// A message arrived that carries text.
    TextMessage,
    /// A message arrived that carries none.
    OtherMessage,
    /// A message arrived whose bytes are no text.
    InvalidMessage,
    /// The message could be handed on, or not.
    Forwarded(bool),
    /// The connection failed.
    Failed,
    /// The client closed the connection.
    Closed,
}

/// What a connection's task does. Whenever it ends, all subscriptions of the
/// client are told that it is gone.
#[derive(Clone, Copy, Debug, PartialEq, Eq, Structural)]
pub enum ConnectionStep {
    Wait,
    SendResponse,
    /// Hand the message on to the window manager.
    Forward,
    EndOk,
    EndFailed,
}

/// Decides what a connection's task does.
pub fn connection_step(input: ConnectionInput) -> (step: ConnectionStep)
    ensures
        step == match input {
            ConnectionInput::Disconnect | ConnectionInput::Closed => ConnectionStep::EndOk,
            ConnectionInput::Failed
            | ConnectionInput::InvalidMessage
            | ConnectionInput::ResponseSent(false)
            | ConnectionInput::Forwarded(false) => ConnectionStep::EndFailed,
            ConnectionInput::Response => ConnectionStep::SendResponse,
            ConnectionInput::TextMessage => ConnectionStep::Forward,
            ConnectionInput::OtherMessage
            | ConnectionInput::ResponseSent(true)
            | ConnectionInput::Forwarded(true) => ConnectionStep::Wait,
        },
        step is EndOk <==> input is Disconnect || input is Closed,
        step is EndFailed <==> input is Failed || input is InvalidMessage || input
            == ConnectionInput::ResponseSent(false) || input == ConnectionInput::Forwarded(false),
        step is SendResponse <==> input is Response,
        step is Forward <==> input is TextMessage,
{
    match input {
        ConnectionInput::Disconnect | ConnectionInput::Closed => ConnectionStep::EndOk,
        ConnectionInput::Failed | ConnectionInput::InvalidMessage => ConnectionStep::EndFailed,
        ConnectionInput::Response => ConnectionStep::SendResponse,
        ConnectionInput::TextMessage => ConnectionStep::Forward,
        ConnectionInput::OtherMessage => ConnectionStep::Wait,
        ConnectionInput::ResponseSent(done) | ConnectionInput::Forwarded(done) => if done {
            ConnectionStep::Wait
        } else {
            ConnectionStep::EndFailed
        },
    }
}

/// A client that asks to start the window manager is refused, as is one that
/// asks for what is not there; every other command is served. Why a command is
/// refused depends on the command alone.
pub proof fn law_refusals_have_a_reason(command: AppCommand, facts: IpcFacts)
    ensures
        reply_to(command, facts) == Err::<IpcReply, IpcError>(IpcError::UnsupportedCommand)
            <==> command is Start,
        reply_to(command, facts) == Err::<IpcReply, IpcError>(IpcError::NoFocusedContainer)
            <==> command == AppCommand::Query(QueryCommand::Focused)
            && !facts.has_focused_container,
        reply_to(command, facts) == Err::<IpcReply, IpcError>(IpcError::NoDirectionContainer)
            <==> command == AppCommand::Query(QueryCommand::TilingDirection)
            && !facts.has_direction_container,
{
}

/// Different events are broadcast under different types, and none under the
/// type that stands for all of them.
pub proof fn law_event_types_are_distinct(first: WmEvent, second: WmEvent)
    ensures
        type_of(first) != SubscribableEvent::All,
        type_of(first) == type_of(second) ==> first == second || (first is PauseChanged
            && second is PauseChanged),
{
}

/// A client that asks whether the manager is paused is told just that, whatever
/// else holds.
pub proof fn law_pause_queries_tell_the_pause(facts: IpcFacts)
    ensures
        reply_to(AppCommand::Query(QueryCommand::Paused), facts) matches Ok(IpcReply::Paused(told))
            && told == facts.is_paused,
{
}

/// Every command that is served is served with the reply of its own kind, and
/// with what it named: a command with the container that it runs on, the end of
/// a subscription with the subscription.
pub proof fn law_replies_match_their_commands(command: AppCommand, facts: IpcFacts)
    ensures
        reply_to(command, facts) matches Ok(reply) ==> match reply {
            IpcReply::Windows => command == AppCommand::Query(QueryCommand::Windows),
            IpcReply::Workspaces => command == AppCommand::Query(QueryCommand::Workspaces),
            IpcReply::Monitors => command == AppCommand::Query(QueryCommand::Monitors),
            IpcReply::BindingModes => command == AppCommand::Query(QueryCommand::BindingModes),
            IpcReply::Focused => command == AppCommand::Query(QueryCommand::Focused)
                && facts.has_focused_container,
            IpcReply::AppMetadata => command == AppCommand::Query(QueryCommand::AppMetadata),
            IpcReply::TilingDirection => command == AppCommand::Query(QueryCommand::TilingDirection)
                && facts.has_direction_container,
            IpcReply::Paused(told) => command == AppCommand::Query(QueryCommand::Paused) && told
                == facts.is_paused,
            IpcReply::Command(subject) => command == (AppCommand::Command {
                subject_container_id: subject,
            }),
            IpcReply::EventSubscribe => command is Sub,
            IpcReply::EventUnsubscribe(id) => command == (AppCommand::Unsub { subscription_id: id }),
        },
{
}

/// What is asked for is given: only a command that starts the manager, or that
/// asks for a container that is not there, is refused.
pub proof fn law_only_what_is_missing_is_refused(command: AppCommand, facts: IpcFacts)
    ensures
        reply_to(command, facts) is Err <==> {
            ||| command is Start
            ||| command == AppCommand::Query(QueryCommand::Focused) && !facts.has_focused_container
            ||| command == AppCommand::Query(QueryCommand::TilingDirection)
                && !facts.has_direction_container
        },
{
}

/// A client learns of an event under the type that it subscribed to: each type
/// stands for the event of its name.
pub proof fn law_events_go_by_their_names(event: WmEvent)
    ensures
        match type_of(event) {
            SubscribableEvent::All => false,
            SubscribableEvent::ApplicationExiting => event is ApplicationExiting,
            SubscribableEvent::BindingModesChanged => event is BindingModesChanged,
            SubscribableEvent::FocusChanged => event is FocusChanged,
            SubscribableEvent::FocusedContainerMoved => event is FocusedContainerMoved,
            SubscribableEvent::MonitorAdded => event is MonitorAdded,
            SubscribableEvent::MonitorUpdated => event is MonitorUpdated,
            SubscribableEvent::MonitorRemoved => event is MonitorRemoved,
            SubscribableEvent::TilingDirectionChanged => event is TilingDirectionChanged,
            SubscribableEvent::UserConfigChanged => event is UserConfigChanged,
            SubscribableEvent::WindowManaged => event is WindowManaged,
            SubscribableEvent::WindowUnmanaged => event is WindowUnmanaged,
            SubscribableEvent::WorkspaceActivated => event is WorkspaceActivated,
            SubscribableEvent::WorkspaceDeactivated => event is WorkspaceDeactivated,
            SubscribableEvent::WorkspaceUpdated => event is WorkspaceUpdated,
            SubscribableEvent::PauseChanged => event is PauseChanged,
        },
{
}

/// Values are collected in their order, all of them, if none is an error;
/// otherwise the first error is what comes of it.
pub proof fn law_the_first_error_wins<T, E>(items: Seq<Result<T, E>>)
    ensures
        match collected(items) {
            Ok(values) => {
                &&& values.len() == items.len()
                &&& forall|i: int| 0 <= i < items.len() ==> #[trigger] items[i] == Ok::<T, E>(values[i])
            },
            Err(error) => exists|i: int|
                {
                    &&& 0 <= i < items.len()
                    &&& #[trigger] items[i] == Err::<T, E>(error)
                    &&& forall|k: int| 0 <= k < i ==> #[trigger] items[k] is Ok
                },
        },
    decreases items.len(),
{
    if items.len() > 0 {
        let front = items.drop_last();
        law_the_first_error_wins(front);
        match collected(front) {
            Ok(values) => {
                assert forall|i: int| 0 <= i < front.len() implies #[trigger] items[i] == Ok::<T, E>(
                    values[i],
                ) by {
                    assert(front[i] == items[i]);
                }
                if let Err(error) = items.last() {
                    assert(items[items.len() - 1] == Err::<T, E>(error));
                }
            },
            Err(error) => {
                let i = choose|i: int|
                    {
                        &&& 0 <= i < front.len()
                        &&& #[trigger] front[i] == Err::<T, E>(error)
                        &&& forall|k: int| 0 <= k < i ==> #[trigger] front[k] is Ok
                    };
                assert(items[i] == front[i]);
                assert forall|k: int| 0 <= k < i implies #[trigger] items[k] is Ok by {
                    assert(front[k] == items[k]);
                }
            },
        }
    }
}

/// An enumeration names every key of the map, once, and nothing else.
pub proof fn law_enumerations_name_every_key(ids: Seq<u128>, dom: Set<u128>, id: u128)
    requires
        enumerates(ids, dom),
    ensures
        ids.contains(id) <==> dom.contains(id),
        ids.no_duplicates(),
{
    assert(ids.to_set().contains(id) <==> ids.contains(id));
}

/// A refusal repeats the client's message, gives the reason and carries no data.
pub proof fn law_refusals_carry_no_data<D>(
    response: ClientResponse<D>,
    client_message: Seq<char>,
    words: Seq<char>,
)
    requires
        refuses(response, client_message, words),
    ensures
        !response.success,
        response.data is None,
        response.client_message@ == client_message,
        response.error is Some,
        response.error->0@ == words,
{
}

/// A refused client reads what is missing, or that its command is not one that
/// is served here.
pub proof fn law_refusals_name_what_is_missing(error: IpcError)
    ensures
        error.text() == "No focused container."@ <==> error is NoFocusedContainer,
        error.text() == "No direction container."@ <==> error is NoDirectionContainer,
        error.text() == "Unsupported IPC command."@ <==> error is UnsupportedCommand,
{
    reveal_strlit("No focused container.");
    reveal_strlit("No direction container.");
    reveal_strlit("Unsupported IPC command.");
    assert("No focused container."@.len() == 21);
    assert("No direction container."@.len() == 23);
    assert("Unsupported IPC command."@.len() == 24);
}

} // verus!
