//! The window's state and how messages change it.

use crate::screen::{
    detail_of, detail_pane, entry_rows, input_field, rows_of, typed, Detail, EntryRow, Field,
    InputModel, Screen, ScreenModel, Section,
};
use crate::text::{decimal_value, parse_port, port_of};
use crate::types::{ProxyConfig, ProxyEntry, ProxyEvent};
use vstd::prelude::*;

verus! {

/// What the window can be told.
#[derive(Debug, Clone)]
pub enum Message {
    UpstreamUrlChanged(String),
    BindAddrChanged(String),
    BindPortChanged(String),
    StartServer,
    StopServer,
    SelectEntry(usize),
    ProxyEvent(ProxyEvent),
}

/// What is left to do once a message has been taken in.
#[derive(Debug, Clone)]
pub enum Action {
    /// Nothing.
    Idle,
    /// Open the channels of a new session, in place of those of the session before, and run the
    /// proxy in it.
    Launch { session: u64, config: ProxyConfig },
    /// Tell the proxy of that session to stop.
    SignalStop { session: u64 },
}

/// The bookkeeping on the proxy that was started last. Sessions are numbered from one on.
struct Session {
    /// Whether the proxy is taken to run.
    server_running: bool,
    /// The session whose proxy can still be told to stop.
    stop_sender: Option<u64>,
    /// The session whose reports the window listens to.
    event_rx: Option<u64>,
    /// How often the proxy was started.
    subscription_id: u64,
}

impl Session {
    #[verifier::type_invariant]
    spec fn coherent(self) -> bool {
        sessions_agree(
            self.server_running,
            self.stop_sender,
            self.event_rx,
            self.subscription_id,
        )
    }
}

/// The state of the window.
pub struct App {
    upstream_url: String,
    bind_addr: String,
    bind_port: String,
    session: Session,
    entries: Vec<ProxyEntry>,
    selected_entry: Option<usize>,
    status_message: String,
}

// ---------------------------------------------------------------------------------------------
// The model
// ---------------------------------------------------------------------------------------------

/// The state of the window as values that can be compared.
pub struct AppModel {
    pub upstream_url: Seq<char>,
    pub bind_addr: Seq<char>,
    pub bind_port: Seq<char>,
    /// Whether the proxy is taken to run.
    pub server_running: bool,
    /// The session whose proxy can still be told to stop.
    pub stop_sender: Option<u64>,
    /// The session whose reports the window listens to.
    pub event_rx: Option<u64>,
    /// How often the proxy was started, which is the number of the last session.
    pub subscription_id: u64,
    /// The requests that were answered, in order.
    pub entries: Seq<ProxyEntry>,
    /// The number of the selected request.
    pub selected_entry: Option<usize>,
    pub status_message: Seq<char>,
}

/// A [`ProxyConfig`] as values that can be compared.
pub struct ConfigModel {
    pub upstream_url: Seq<char>,
    pub bind_addr: Seq<char>,
    pub bind_port: u16,
}

/// An [`Action`] as values that can be compared.
pub enum ActionModel {
    Idle,
    Launch { session: u64, config: ConfigModel },
    SignalStop { session: u64 },
}

impl View for Action {
    type V = ActionModel;

    open spec fn view(&self) -> ActionModel {
        match self {
            Action::Idle => ActionModel::Idle,
            Action::Launch { session, config } => ActionModel::Launch {
                session: *session,
                config: ConfigModel {
                    upstream_url: config.upstream_url@,
                    bind_addr: config.bind_addr@,
                    bind_port: config.bind_port,
                },
            },
            Action::SignalStop { session } => ActionModel::SignalStop { session: *session },
        }
    }
}

/// Whether the bookkeeping on sessions fits together: the window listens to the last session, only
/// the last session's proxy can be told to stop, and a proxy that is taken to run can be.
pub open spec fn sessions_agree(
    server_running: bool,
    stop_sender: Option<u64>,
    event_rx: Option<u64>,
    subscription_id: u64,
) -> bool {
    &&& event_rx == if subscription_id == 0 {
        None::<u64>
    } else {
        Some(subscription_id)
    }
    &&& stop_sender is Some ==> stop_sender == event_rx
    &&& server_running ==> stop_sender is Some
}

/// Whether a state is one that the window can be in.
pub open spec fn consistent(m: AppModel) -> bool {
    sessions_agree(m.server_running, m.stop_sender, m.event_rx, m.subscription_id)
}

/// The state that the window opens in.
pub open spec fn initial() -> AppModel {
    AppModel {
        upstream_url: "http://localhost:8080"@,
        bind_addr: "0.0.0.0"@,
        bind_port: "3000"@,
        server_running: false,
        stop_sender: None,
        event_rx: None,
        subscription_id: 0,
        entries: Seq::empty(),
        selected_entry: None,
        status_message: "Ready"@,
    }
}

/// The port to listen on: the one in the field, or 3000 if the field holds none.
pub open spec fn chosen_port(bind_port: Seq<char>) -> u16 {
    match port_of(bind_port) {
        Some(port) => port,
        None => 3000,
    }
}

/// The state after a report of the proxy.
pub open spec fn after_event(m: AppModel, event: ProxyEvent) -> AppModel {
    match event {
        ProxyEvent::Entry(entry) => AppModel { entries: m.entries.push(*entry), ..m },
        ProxyEvent::Error(e) => AppModel {
            status_message: "Error: "@ + e@,
            server_running: false,
            ..m
        },
        ProxyEvent::Started => AppModel {
            status_message: "Listening on "@ + m.bind_addr + ":"@ + m.bind_port,
            ..m
        },
        ProxyEvent::Stopped => AppModel {
            status_message: "Stopped"@,
            server_running: false,
            ..m
        },
    }
}

/// The state after a message.
pub open spec fn after(m: AppModel, message: Message) -> AppModel {
    match message {
        Message::UpstreamUrlChanged(v) => AppModel { upstream_url: v@, ..m },
        Message::BindAddrChanged(v) => AppModel { bind_addr: v@, ..m },
        Message::BindPortChanged(v) => AppModel { bind_port: v@, ..m },
        Message::StartServer => AppModel {
            bind_port: if port_of(m.bind_port) is Some {
                m.bind_port
            } else {
                "3000"@
            },
            server_running: true,
            stop_sender: Some((m.subscription_id + 1) as u64),
            event_rx: Some((m.subscription_id + 1) as u64),
            subscription_id: (m.subscription_id + 1) as u64,
            status_message: "Starting…"@,
            ..m
        },
        Message::StopServer => AppModel {
            stop_sender: None,
            server_running: false,
            status_message: "Stopped"@,
            ..m
        },
        Message::SelectEntry(id) => AppModel { selected_entry: Some(id), ..m },
        Message::ProxyEvent(event) => after_event(m, event),
    }
}

/// What a message leaves to do.
pub open spec fn action_on(m: AppModel, message: Message) -> ActionModel {
    match message {
        Message::StartServer => ActionModel::Launch {
            session: (m.subscription_id + 1) as u64,
            config: ConfigModel {
                upstream_url: m.upstream_url,
                bind_addr: m.bind_addr,
                bind_port: chosen_port(m.bind_port),
            },
        },
        Message::StopServer => match m.stop_sender {
            Some(session) => ActionModel::SignalStop { session },
            None => ActionModel::Idle,
        },
        _ => ActionModel::Idle,
    }
}

/// What the window shows in a state.
pub open spec fn screen_of(m: AppModel) -> ScreenModel {
    ScreenModel {
        upstream_url: InputModel {
            field: Field::UpstreamUrl,
            placeholder: "http://localhost:8080"@,
            value: m.upstream_url,
        },
        bind_addr: InputModel {
            field: Field::BindAddr,
            placeholder: "0.0.0.0"@,
            value: m.bind_addr,
        },
        bind_port: InputModel { field: Field::BindPort, placeholder: "3000"@, value: m.bind_port },
        start: if m.server_running {
            None
        } else {
            Some(Message::StartServer)
        },
        stop: if m.server_running {
            Some(Message::StopServer)
        } else {
            None
        },
        status: m.status_message,
        rows: rows_of(m.entries, m.selected_entry),
        detail: detail_of(m.entries, m.selected_entry),
    }
}

// ---------------------------------------------------------------------------------------------
// The window
// ---------------------------------------------------------------------------------------------

impl App {
    /// The state as values that can be compared.
    pub closed spec fn model(&self) -> AppModel {
        AppModel {
            upstream_url: self.upstream_url@,
            bind_addr: self.bind_addr@,
            bind_port: self.bind_port@,
            server_running: self.session.server_running,
            stop_sender: self.session.stop_sender,
            event_rx: self.session.event_rx,
            subscription_id: self.session.subscription_id,
            entries: self.entries@,
            selected_entry: self.selected_entry,
            status_message: self.status_message@,
        }
    }

    /// The window as it opens.
    pub fn new() -> (app: App)
        ensures
            app.model() == initial(),
            consistent(app.model()),
    {
        App {
            upstream_url: "http://localhost:8080".to_owned(),
            bind_addr: "0.0.0.0".to_owned(),
            bind_port: "3000".to_owned(),
            session: Session {
                server_running: false,
                stop_sender: None,
                event_rx: None,
                subscription_id: 0,
            },
            entries: Vec::new(),
            selected_entry: None,
            status_message: "Ready".to_owned(),
        }
    }

    /// Takes in a message and says what is left to do. The proxy can be started as often as
    /// sessions can be numbered.
    pub fn update(&mut self, message: Message) -> (action: Action)
        requires
            message is StartServer ==> old(self).model().subscription_id < u64::MAX,
        ensures
            final(self).model() == after(old(self).model(), message),
            action@ == action_on(old(self).model(), message),
            consistent(old(self).model()),
            consistent(final(self).model()),
    {
        proof {
            use_type_invariant(&self.session);
        }
        match message {
            Message::UpstreamUrlChanged(v) => {
                self.upstream_url = v;
                Action::Idle
            },
            Message::BindAddrChanged(v) => {
                self.bind_addr = v;
                Action::Idle
            },
            Message::BindPortChanged(v) => {
                self.bind_port = v;
                Action::Idle
            },
            Message::StartServer => self.start_server(),
            Message::StopServer => self.stop_server(),
            Message::SelectEntry(id) => {
                self.selected_entry = Some(id);
                Action::Idle
            },
            Message::ProxyEvent(event) => {
                self.take_event(event);
                Action::Idle
            },
        }
    }

    /// Opens a new session.
    fn start_server(&mut self) -> (action: Action)
        requires
            old(self).model().subscription_id < u64::MAX,
        ensures
            final(self).model() == after(old(self).model(), Message::StartServer),
            action@ == action_on(old(self).model(), Message::StartServer),
            consistent(final(self).model()),
    {
        let port: u16 = match parse_port(self.bind_port.as_str()) {
            Some(port) => port,
            None => {
                self.bind_port = "3000".to_owned();
                3000
            },
        };
        let config = ProxyConfig {
            upstream_url: self.upstream_url.clone(),
            bind_addr: self.bind_addr.clone(),
            bind_port: port,
        };
        let id: u64 = self.session.subscription_id + 1;
        self.session = Session {
            server_running: true,
            stop_sender: Some(id),
            event_rx: Some(id),
            subscription_id: id,
        };
        self.status_message = "Starting…".to_owned();
        Action::Launch { session: id, config }
    }

    /// Tells the last session's proxy to stop, unless it was told already.
    fn stop_server(&mut self) -> (action: Action)
        ensures
            final(self).model() == after(old(self).model(), Message::StopServer),
            action@ == action_on(old(self).model(), Message::StopServer),
            consistent(final(self).model()),
    {
        proof {
            use_type_invariant(&self.session);
        }
        let action = match self.session.stop_sender {
            Some(session) => Action::SignalStop { session },
            None => Action::Idle,
        };
        self.session = Session {
            server_running: false,
            stop_sender: None,
            event_rx: self.session.event_rx,
            subscription_id: self.session.subscription_id,
        };
        self.status_message = "Stopped".to_owned();
        action
    }

    /// Takes the proxy for stopped.
    fn server_ended(&mut self)
        ensures
            final(self).model() == (AppModel { server_running: false, ..old(self).model() }),
            consistent(final(self).model()),
    {
        proof {
            use_type_invariant(&self.session);
        }
        self.session = Session {
            server_running: false,
            stop_sender: self.session.stop_sender,
            event_rx: self.session.event_rx,
            subscription_id: self.session.subscription_id,
        };
    }

    /// Takes in a report of the proxy.
    fn take_event(&mut self, event: ProxyEvent)
        ensures
            final(self).model() == after_event(old(self).model(), event),
            consistent(final(self).model()),
    {
        proof {
            use_type_invariant(&self.session);
        }
        match event {
            ProxyEvent::Entry(entry) => {
                self.entries.push(*entry);
            },
            ProxyEvent::Error(e) => {
                let mut status = "Error: ".to_owned();
                status.append(e.as_str());
                self.status_message = status;
                self.server_ended();
            },
            ProxyEvent::Started => {
                let mut status = "Listening on ".to_owned();
                status.append(self.bind_addr.as_str());
                status.append(":");
                status.append(self.bind_port.as_str());
                self.status_message = status;
            },
            ProxyEvent::Stopped => {
                self.status_message = "Stopped".to_owned();
                self.server_ended();
            },
        }
    }

    /// What the window shows.
    pub fn view(&self) -> (screen: Screen)
        ensures
            screen@ == screen_of(self.model()),
    {
        let running = self.session.server_running;
        Screen {
            upstream_url: input_field(
                Field::UpstreamUrl,
                "http://localhost:8080",
                &self.upstream_url,
            ),
            bind_addr: input_field(Field::BindAddr, "0.0.0.0", &self.bind_addr),
            bind_port: input_field(Field::BindPort, "3000", &self.bind_port),
            start: if running {
                None
            } else {
                Some(Message::StartServer)
            },
            stop: if running {
                Some(Message::StopServer)
            } else {
                None
            },
            status: self.status_message.clone(),
            rows: entry_rows(&self.entries, self.selected_entry),
            detail: detail_pane(&self.entries, self.selected_entry),
        }
    }

    /// The session whose reports the window listens to: the last one, if there was any.
    pub fn subscription(&self) -> (session: Option<u64>)
        ensures
            session == self.model().event_rx,
            consistent(self.model()),
    {
        proof {
            use_type_invariant(&self.session);
        }
        match self.session.event_rx {
            Some(_) => Some(self.session.subscription_id),
            None => None,
        }
    }
}

// ---------------------------------------------------------------------------------------------
// Laws
// ---------------------------------------------------------------------------------------------

/// The state after a row of messages.
pub open spec fn run(m: AppModel, messages: Seq<Message>) -> AppModel
    decreases messages.len(),
{
    if messages.len() == 0 {
        m
    } else {
        after(run(m, messages.drop_last()), messages.last())
    }
}

/// The requests that a row of messages reports.
pub open spec fn reported(messages: Seq<Message>) -> Seq<ProxyEntry>
    decreases messages.len(),
{
    if messages.len() == 0 {
        Seq::empty()
    } else {
        match messages.last() {
            Message::ProxyEvent(ProxyEvent::Entry(entry)) => reported(messages.drop_last()).push(
                *entry,
            ),
            _ => reported(messages.drop_last()),
        }
    }
}

/// How often a row of messages starts the proxy.
pub open spec fn starts(messages: Seq<Message>) -> nat
    decreases messages.len(),
{
    if messages.len() == 0 {
        0
    } else {
        starts(messages.drop_last()) + if messages.last() is StartServer {
            1nat
        } else {
            0nat
        }
    }
}

/// Whether no message starts or stops the proxy.
pub open spec fn leaves_session(messages: Seq<Message>) -> bool {
    forall|i: int|
        0 <= i < messages.len() ==> !(#[trigger] messages[i] is StartServer)
            && !(messages[i] is StopServer)
}

/// Whether no message starts the proxy.
pub open spec fn never_starts(messages: Seq<Message>) -> bool {
    forall|i: int| 0 <= i < messages.len() ==> !(#[trigger] messages[i] is StartServer)
}

/// In every state that messages lead to, the bookkeeping on sessions fits together, and the last
/// session's number is the number of starts.
pub proof fn runs_stay_consistent(m: AppModel, messages: Seq<Message>)
    requires
        consistent(m),
        m.subscription_id + starts(messages) <= u64::MAX,
    ensures
        consistent(run(m, messages)),
        run(m, messages).subscription_id == m.subscription_id + starts(messages),
    decreases messages.len(),
{
    if messages.len() > 0 {
        runs_stay_consistent(m, messages.drop_last());
    }
}

/// In every state exactly one of the two buttons can be pressed.
pub proof fn one_button_is_live(m: AppModel)
    ensures
        screen_of(m).start is Some <==> screen_of(m).stop is None,
{
}

/// Whenever the stop button can be pressed, pressing it tells the last session's proxy to stop.
pub proof fn live_stop_button_stops(m: AppModel)
    requires
        consistent(m),
        screen_of(m).stop is Some,
    ensures
        action_on(m, screen_of(m).stop->0) == (ActionModel::SignalStop {
            session: m.subscription_id,
        }),
        !after(m, screen_of(m).stop->0).server_running,
{
}

/// Whenever the start button can be pressed, pressing it launches a proxy in a session of its own,
/// and then the stop button can be pressed.
pub proof fn live_start_button_starts(m: AppModel)
    requires
        m.subscription_id < u64::MAX,
        screen_of(m).start is Some,
    ensures
        action_on(m, screen_of(m).start->0) matches ActionModel::Launch { session, .. } && session
            == m.subscription_id + 1,
        screen_of(after(m, screen_of(m).start->0)).stop is Some,
{
}

/// The window listens to another session after each start, and to the same one after any other
/// message.
pub proof fn each_start_renews_the_subscription(m: AppModel, message: Message)
    requires
        consistent(m),
        m.subscription_id < u64::MAX,
    ensures
        message is StartServer ==> after(m, message).event_rx is Some && after(m, message).event_rx
            != m.event_rx,
        !(message is StartServer) ==> after(m, message).event_rx == m.event_rx,
{
}

/// The list holds what was in it and then what was reported, in order: nothing is ever changed,
/// moved or lost.
pub proof fn history_only_grows(m: AppModel, messages: Seq<Message>)
    ensures
        run(m, messages).entries == m.entries + reported(messages),
    decreases messages.len(),
{
    if messages.len() > 0 {
        history_only_grows(m, messages.drop_last());
    }
    assert(run(m, messages).entries =~= m.entries + reported(messages));
}

/// The port that the proxy is launched with is the port that the field holds from then on.
pub proof fn launched_port_is_shown(m: AppModel)
    ensures
        action_on(m, Message::StartServer) matches ActionModel::Launch { config, .. } && port_of(
            after(m, Message::StartServer).bind_port,
        ) == Some(config.bind_port),
{
    reveal_strlit("3000");
    reveal_with_fuel(decimal_value, 5);
    let s = "3000"@;
    assert(s =~= seq!['3', '0', '0', '0']);
    assert(s.drop_last() =~= seq!['3', '0', '0']);
    assert(s.drop_last().drop_last() =~= seq!['3', '0']);
    assert(s.drop_last().drop_last().drop_last() =~= seq!['3']);
    assert(s.drop_last().drop_last().drop_last().drop_last() =~= Seq::<char>::empty());
    assert(decimal_value(s) == 3000);
}

/// A proxy that was launched can be stopped whatever happens in between, short of another start or
/// stop.
pub proof fn launched_proxy_can_be_stopped(m: AppModel, messages: Seq<Message>)
    requires
        m.subscription_id < u64::MAX,
        leaves_session(messages),
    ensures
        action_on(run(after(m, Message::StartServer), messages), Message::StopServer) == (
        ActionModel::SignalStop { session: (m.subscription_id + 1) as u64 }),
    decreases messages.len(),
{
    if messages.len() > 0 {
        let before = messages.drop_last();
        assert forall|i: int| 0 <= i < before.len() implies !(#[trigger] before[i] is StartServer)
            && !(before[i] is StopServer) by {
            assert(before[i] == messages[i]);
        }
        launched_proxy_can_be_stopped(m, before);
        assert(!(messages[messages.len() - 1] is StartServer));
    }
}

/// A proxy that has ended, because it was stopped, it could not start or it says so, is taken for
/// ended until the next start.
pub proof fn ended_stays_ended(m: AppModel, messages: Seq<Message>)
    requires
        !m.server_running,
        never_starts(messages),
    ensures
        !run(m, messages).server_running,
    decreases messages.len(),
{
    if messages.len() > 0 {
        let before = messages.drop_last();
        assert forall|i: int| 0 <= i < before.len() implies !(#[trigger] before[i]
            is StartServer) by {
            assert(before[i] == messages[i]);
        }
        ended_stays_ended(m, before);
        assert(!(messages[messages.len() - 1] is StartServer));
    }
}

/// Messages one after the other, or in two rows.
pub proof fn runs_compose(m: AppModel, first: Seq<Message>, second: Seq<Message>)
    ensures
        run(m, first + second) == run(run(m, first), second),
    decreases second.len(),
{
    if second.len() == 0 {
        assert(first + second =~= first);
    } else {
        runs_compose(m, first, second.drop_last());
        assert((first + second).drop_last() =~= first + second.drop_last());
        assert((first + second).last() == second.last());
    }
}

/// Once nobody can be told to stop, only a session that starts later can be.
proof fn lemma_later_sessions(m: AppModel, messages: Seq<Message>)
    requires
        m.stop_sender is None,
        m.subscription_id + starts(messages) <= u64::MAX,
    ensures
        run(m, messages).subscription_id == m.subscription_id + starts(messages),
        run(m, messages).stop_sender matches Some(s) ==> m.subscription_id < s,
    decreases messages.len(),
{
    if messages.len() > 0 {
        lemma_later_sessions(m, messages.drop_last());
    }
}

/// The starts in two rows of messages add up.
proof fn lemma_starts_add(first: Seq<Message>, second: Seq<Message>)
    ensures
        starts(first + second) == starts(first) + starts(second),
    decreases second.len(),
{
    if second.len() == 0 {
        assert(first + second =~= first);
    } else {
        lemma_starts_add(first, second.drop_last());
        assert((first + second).drop_last() =~= first + second.drop_last());
        assert((first + second).last() == second.last());
    }
}

/// No proxy is told to stop twice: of two signals, the later one is for a later session.
pub proof fn stop_is_signalled_once(
    m: AppModel,
    messages: Seq<Message>,
    i: int,
    j: int,
    s: u64,
    t: u64,
)
    requires
        consistent(m),
        m.subscription_id + starts(messages) <= u64::MAX,
        0 <= i < j < messages.len(),
        action_on(run(m, messages.take(i)), messages[i]) == (ActionModel::SignalStop {
            session: s,
        }),
        action_on(run(m, messages.take(j)), messages[j]) == (ActionModel::SignalStop {
            session: t,
        }),
    ensures
        s < t,
{
    assert(messages =~= messages.take(i) + messages.skip(i));
    lemma_starts_add(messages.take(i), messages.skip(i));
    runs_stay_consistent(m, messages.take(i));
    let stopped = run(m, messages.take(i + 1));
    assert(messages.take(i + 1).drop_last() =~= messages.take(i));
    assert(stopped == after(run(m, messages.take(i)), messages[i]));
    let between = messages.subrange(i + 1, j);
    assert(messages.take(j) =~= messages.take(i + 1) + between);
    runs_compose(m, messages.take(i + 1), between);
    assert(messages =~= messages.take(j) + messages.skip(j));
    lemma_starts_add(messages.take(j), messages.skip(j));
    lemma_starts_add(messages.take(i + 1), between);
    lemma_later_sessions(stopped, between);
}

/// The window opens with nothing started, listed or selected, and with its fields filled in.
pub proof fn window_opens_ready(app: App)
    requires
        call_ensures(App::new, (), app),
    ensures
        app.model().upstream_url == "http://localhost:8080"@,
        app.model().bind_addr == "0.0.0.0"@,
        app.model().bind_port == "3000"@,
        !app.model().server_running,
        app.model().stop_sender is None,
        app.model().event_rx is None,
        app.model().subscription_id == 0,
        app.model().entries.len() == 0,
        app.model().selected_entry is None,
        app.model().status_message == "Ready"@,
{
}

/// The window shows its state: each field with its text, whole, the status, and as buttons that can
/// be pressed the one that starts if no proxy runs and the one that stops if one does.
pub proof fn window_shows_its_state(app: &App, screen: Screen)
    requires
        call_ensures(App::view, (app,), screen),
    ensures
        screen.upstream_url.value@ == app.model().upstream_url,
        screen.bind_addr.value@ == app.model().bind_addr,
        screen.bind_port.value@ == app.model().bind_port,
        screen.upstream_url.field is UpstreamUrl,
        screen.bind_addr.field is BindAddr,
        screen.bind_port.field is BindPort,
        screen.upstream_url.placeholder@ == "http://localhost:8080"@,
        screen.bind_addr.placeholder@ == "0.0.0.0"@,
        screen.bind_port.placeholder@ == "3000"@,
        screen.status@ == app.model().status_message,
        screen.start is Some <==> !app.model().server_running,
        screen.stop is Some <==> app.model().server_running,
        screen.start matches Some(message) ==> message is StartServer,
        screen.stop matches Some(message) ==> message is StopServer,
{
}

/// The window lists the requests that were reported and shows the details of the selected one, as
/// the list and the pane do on their own.
pub proof fn window_lists_its_requests(
    app: &App,
    screen: Screen,
    entries: &Vec<ProxyEntry>,
    rows: Vec<EntryRow>,
    detail: Detail,
)
    requires
        call_ensures(App::view, (app,), screen),
        entries@ == app.model().entries,
        call_ensures(entry_rows, (entries, app.model().selected_entry), rows),
        call_ensures(detail_pane, (entries, app.model().selected_entry), detail),
    ensures
        screen.rows@.len() == app.model().entries.len(),
        rows@.len() == app.model().entries.len(),
        forall|k: int|
            0 <= k < rows@.len() ==> (#[trigger] screen.rows@[k]).label@ == rows@[k].label@
                && screen.rows@[k].on_press == rows@[k].on_press && screen.rows@[k].selected
                == rows@[k].selected,
        detail matches Detail::Hint(text) ==> (screen.detail matches Detail::Hint(hint) && hint@
            == text@),
        detail matches Detail::Sections(parts) ==> (screen.detail matches Detail::Sections(sections)
            && sections@.len() == parts@.len() && forall|k: int|
            0 <= k < parts@.len() ==> (#[trigger] sections@[k]).title@ == parts@[k].title@
                && sections@[k].text@ == parts@[k].text@),
{
    let mine = screen.rows@.map_values(|r: EntryRow| r@);
    let theirs = rows@.map_values(|r: EntryRow| r@);
    assert(mine.len() == screen.rows@.len());
    assert(theirs.len() == rows@.len());
    assert(mine == theirs);
    assert forall|k: int| 0 <= k < rows@.len() implies (#[trigger] screen.rows@[k]).label@
        == rows@[k].label@ && screen.rows@[k].on_press == rows@[k].on_press
        && screen.rows@[k].selected == rows@[k].selected by {
        assert(mine[k] == theirs[k]);
    }
    if let (Detail::Sections(parts), Detail::Sections(sections)) = (detail, screen.detail) {
        let left = parts@.map_values(|s: Section| s@);
        let right = sections@.map_values(|s: Section| s@);
        assert(left.len() == parts@.len());
        assert(right.len() == sections@.len());
        assert forall|k: int| 0 <= k < parts@.len() implies (#[trigger] sections@[k]).title@
            == parts@[k].title@ && sections@[k].text@ == parts@[k].text@ by {
            assert(left[k] == right[k]);
        }
    }
}

/// A press on a row of the list leads to the details of a request with that row's number.
pub proof fn rows_lead_to_their_details(
    app: &mut App,
    shown: &App,
    screen: Screen,
    k: int,
    action: Action,
)
    requires
        *shown == *old(app),
        call_ensures(App::view, (shown,), screen),
        0 <= k < screen.rows@.len(),
        call_ensures(App::update, (app, screen.rows@[k].on_press), action),
    ensures
        k < old(app).model().entries.len(),
        final(app).model().selected_entry == Some(old(app).model().entries[k].id),
        final(app).model().entries == old(app).model().entries,
{
    let rows = screen.rows@.map_values(|r: EntryRow| r@);
    assert(rows.len() == screen.rows@.len());
    assert(rows[k] == rows_of(old(app).model().entries, old(app).model().selected_entry)[k]);
}

/// The proxy is launched with the upstream and the address that the window shows at that moment,
/// whole, and with the port that it shows, or 3000 if it shows none; in a session of its own.
pub proof fn launch_is_what_the_window_shows(
    app: &mut App,
    shown: &App,
    screen: Screen,
    text: &str,
    port: Option<u16>,
    action: Action,
)
    requires
        old(app).model().subscription_id < u64::MAX,
        *shown == *old(app),
        call_ensures(App::view, (shown,), screen),
        text@ == screen.bind_port.value@,
        call_ensures(parse_port, (text,), port),
        call_ensures(App::update, (app, Message::StartServer), action),
    ensures
        action matches Action::Launch { session, config } && {
            &&& config.upstream_url@ == screen.upstream_url.value@
            &&& config.bind_addr@ == screen.bind_addr.value@
            &&& port matches Some(p) ==> config.bind_port == p
            &&& port is None ==> config.bind_port == 3000
            &&& session == old(app).model().subscription_id + 1
        },
{
}

/// In every state, the proxy is launched with what the fields show in that state, and the fields
/// for the upstream and the address show the same afterwards.
pub proof fn launched_fields_are_shown(m: AppModel)
    ensures
        action_on(m, Message::StartServer) matches ActionModel::Launch { config, .. } && {
            &&& config.upstream_url == screen_of(m).upstream_url.value
            &&& config.bind_addr == screen_of(m).bind_addr.value
            &&& config.upstream_url == screen_of(after(m, Message::StartServer)).upstream_url.value
            &&& config.bind_addr == screen_of(after(m, Message::StartServer)).bind_addr.value
        },
{
}

/// A start changes the port's field if and only if it shows no port, and then to 3000. The window
/// listens to the new session, whose proxy it takes to run and can tell to stop. The list, the
/// selection and the other fields stay.
pub proof fn a_start_opens_a_session(
    app: &mut App,
    text: &str,
    port: Option<u16>,
    action: Action,
)
    requires
        old(app).model().subscription_id < u64::MAX,
        text@ == old(app).model().bind_port,
        call_ensures(parse_port, (text,), port),
        call_ensures(App::update, (app, Message::StartServer), action),
    ensures
        action matches Action::Launch { session, .. } && {
            &&& final(app).model().subscription_id == session
            &&& final(app).model().event_rx == Some(session)
            &&& final(app).model().stop_sender == Some(session)
        },
        final(app).model().subscription_id == old(app).model().subscription_id + 1,
        final(app).model().server_running,
        final(app).model().status_message == "Starting…"@,
        port is Some ==> final(app).model().bind_port == old(app).model().bind_port,
        port is None ==> final(app).model().bind_port == "3000"@,
        final(app).model().upstream_url == old(app).model().upstream_url,
        final(app).model().bind_addr == old(app).model().bind_addr,
        final(app).model().entries == old(app).model().entries,
        final(app).model().selected_entry == old(app).model().selected_entry,
{
}

/// A stop is signalled to the session that can still be told, if there is one, and then to none
/// any more; the proxy is taken for stopped, and all else stays.
pub proof fn a_stop_ends_the_session(app: &mut App, action: Action)
    requires
        call_ensures(App::update, (app, Message::StopServer), action),
    ensures
        old(app).model().stop_sender matches Some(told) ==> (action matches Action::SignalStop {
            session,
        } && session == told),
        old(app).model().stop_sender is None ==> action is Idle,
        final(app).model().stop_sender is None,
        !final(app).model().server_running,
        final(app).model().status_message == "Stopped"@,
        final(app).model().event_rx == old(app).model().event_rx,
        final(app).model().subscription_id == old(app).model().subscription_id,
        final(app).model().upstream_url == old(app).model().upstream_url,
        final(app).model().bind_addr == old(app).model().bind_addr,
        final(app).model().bind_port == old(app).model().bind_port,
        final(app).model().entries == old(app).model().entries,
        final(app).model().selected_entry == old(app).model().selected_entry,
{
}

/// What is typed into a field is what the window shows there next, whole; no other field changes,
/// nor anything else, and there is nothing to do.
pub proof fn typing_changes_one_field(
    app: &mut App,
    field: Field,
    text: String,
    message: Message,
    action: Action,
    shown: &App,
    screen: Screen,
)
    requires
        call_ensures(typed, (field, text), message),
        call_ensures(App::update, (app, message), action),
        *shown == *final(app),
        call_ensures(App::view, (shown,), screen),
    ensures
        action is Idle,
        field is UpstreamUrl ==> screen.upstream_url.value@ == text@ && final(app).model() == (
        AppModel { upstream_url: text@, ..old(app).model() }),
        field is BindAddr ==> screen.bind_addr.value@ == text@ && final(app).model() == (AppModel {
            bind_addr: text@,
            ..old(app).model()
        }),
        field is BindPort ==> screen.bind_port.value@ == text@ && final(app).model() == (AppModel {
            bind_port: text@,
            ..old(app).model()
        }),
{
}

/// A number that is selected stays so until another one is; nothing else changes with it, and there
/// is nothing to do.
pub proof fn selecting_changes_the_selection(app: &mut App, message: Message, action: Action)
    requires
        message is StartServer ==> old(app).model().subscription_id < u64::MAX,
        call_ensures(App::update, (app, message), action),
    ensures
        message matches Message::SelectEntry(id) ==> action is Idle && final(app).model() == (
        AppModel { selected_entry: Some(id), ..old(app).model() }),
        !(message is SelectEntry) ==> final(app).model().selected_entry
            == old(app).model().selected_entry,
{
}

/// A report of an answered request adds it to the end of the list, as it is, and changes nothing
/// else; no other message changes the list.
pub proof fn reported_requests_are_listed(app: &mut App, message: Message, action: Action)
    requires
        message is StartServer ==> old(app).model().subscription_id < u64::MAX,
        call_ensures(App::update, (app, message), action),
    ensures
        match message {
            Message::ProxyEvent(ProxyEvent::Entry(entry)) => {
                &&& action is Idle
                &&& final(app).model() == AppModel {
                    entries: final(app).model().entries,
                    ..old(app).model()
                }
                &&& final(app).model().entries.len() == old(app).model().entries.len() + 1
                &&& final(app).model().entries.drop_last() == old(app).model().entries
                &&& final(app).model().entries.last() == *entry
            },
            _ => final(app).model().entries == old(app).model().entries,
        },
{
    if let Message::ProxyEvent(ProxyEvent::Entry(entry)) = message {
        assert(old(app).model().entries.push(*entry).drop_last() =~= old(app).model().entries);
    }
}

/// What the proxy reports about itself is what the status says next: that it listens, and on the
/// address and port that the window shows; that it has stopped; or that it failed, and why, whole.
/// A proxy that has stopped or failed is taken not to run, one that listens is left as it was, and
/// there is nothing to do.
pub proof fn reports_become_the_status(
    app: &mut App,
    event: ProxyEvent,
    action: Action,
    shown: &App,
    screen: Screen,
)
    requires
        !(event is Entry),
        call_ensures(App::update, (app, Message::ProxyEvent(event)), action),
        *shown == *final(app),
        call_ensures(App::view, (shown,), screen),
    ensures
        action is Idle,
        event is Started ==> screen.status@ == "Listening on "@ + screen.bind_addr.value@ + ":"@
            + screen.bind_port.value@ && final(app).model().server_running
            == old(app).model().server_running,
        event is Stopped ==> screen.status@ == "Stopped"@ && !final(app).model().server_running,
        event matches ProxyEvent::Error(e) ==> {
            &&& screen.status@ == "Error: "@ + e@
            &&& !final(app).model().server_running
        },
        final(app).model() == (AppModel {
            status_message: final(app).model().status_message,
            server_running: final(app).model().server_running,
            ..old(app).model()
        }),
{
}

/// The window listens to the session that was started last, and to none before the first.
pub proof fn window_listens_to_the_last_session(app: &App, session: Option<u64>)
    requires
        call_ensures(App::subscription, (app,), session),
    ensures
        session == app.model().event_rx,
        session is None <==> app.model().subscription_id == 0,
        session matches Some(s) ==> s == app.model().subscription_id,
{
}

/// The text that was last typed for the upstream is what the field shows, and what the proxy would
/// be launched with, whatever else has happened since; what the field showed at first, if nothing
/// was typed there.
pub proof fn upstream_last_typed_is_used(m: AppModel, messages: Seq<Message>, i: int, v: String)
    requires
        -1 <= i < messages.len(),
        i >= 0 ==> messages[i] == Message::UpstreamUrlChanged(v),
        i == -1 ==> v@ == m.upstream_url,
        forall|j: int|
            i < j < messages.len() ==> !(#[trigger] messages[j] is UpstreamUrlChanged),
    ensures
        screen_of(run(m, messages)).upstream_url.value == v@,
        action_on(run(m, messages), Message::StartServer) matches ActionModel::Launch {
            config,
            ..
        } && config.upstream_url == v@,
    decreases messages.len(),
{
    if messages.len() > 0 {
        let last = messages.len() - 1;
        let before = messages.drop_last();
        if i < last {
            assert(!(messages[last] is UpstreamUrlChanged));
            assert forall|j: int| i < j < before.len() implies !(#[trigger] before[j]
                is UpstreamUrlChanged) by {
                assert(before[j] == messages[j]);
            }
            upstream_last_typed_is_used(m, before, i, v);
        }
    }
}

/// The text that was last typed for the address is what the field shows, and what the proxy would
/// be launched with, whatever else has happened since; what the field showed at first, if nothing
/// was typed there.
pub proof fn address_last_typed_is_used(m: AppModel, messages: Seq<Message>, i: int, v: String)
    requires
        -1 <= i < messages.len(),
        i >= 0 ==> messages[i] == Message::BindAddrChanged(v),
        i == -1 ==> v@ == m.bind_addr,
        forall|j: int| i < j < messages.len() ==> !(#[trigger] messages[j] is BindAddrChanged),
    ensures
        screen_of(run(m, messages)).bind_addr.value == v@,
        action_on(run(m, messages), Message::StartServer) matches ActionModel::Launch {
            config,
            ..
        } && config.bind_addr == v@,
    decreases messages.len(),
{
    if messages.len() > 0 {
        let last = messages.len() - 1;
        let before = messages.drop_last();
        if i < last {
            assert(!(messages[last] is BindAddrChanged));
            assert forall|j: int| i < j < before.len() implies !(#[trigger] before[j]
                is BindAddrChanged) by {
                assert(before[j] == messages[j]);
            }
            address_last_typed_is_used(m, before, i, v);
        }
    }
}

/// The port that was last typed is what the field shows, and what the proxy would be launched with,
/// whatever else has happened since; what the field showed at first, if nothing was typed there.
pub proof fn port_last_typed_is_used(
    m: AppModel,
    messages: Seq<Message>,
    i: int,
    v: String,
    text: &str,
    port: u16,
)
    requires
        -1 <= i < messages.len(),
        i >= 0 ==> messages[i] == Message::BindPortChanged(v),
        i == -1 ==> v@ == m.bind_port,
        forall|j: int| i < j < messages.len() ==> !(#[trigger] messages[j] is BindPortChanged),
        text@ == v@,
        call_ensures(parse_port, (text,), Some(port)),
    ensures
        screen_of(run(m, messages)).bind_port.value == v@,
        action_on(run(m, messages), Message::StartServer) matches ActionModel::Launch {
            config,
            ..
        } && config.bind_port == port,
    decreases messages.len(),
{
    if messages.len() > 0 {
        let last = messages.len() - 1;
        let before = messages.drop_last();
        if i < last {
            assert(!(messages[last] is BindPortChanged));
            assert forall|j: int| i < j < before.len() implies !(#[trigger] before[j]
                is BindPortChanged) by {
                assert(before[j] == messages[j]);
            }
            port_last_typed_is_used(m, before, i, v, text, port);
        }
    }
}

} // verus!
