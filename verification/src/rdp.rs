//! RDP sessions.
//!
//! An RDP session is not drawn by the application. A loopback tunnel is opened, and the platform's
//! RDP client is launched with a temporary `.rdp` file that points at the local end of it. The tunnel
//! connects to the real target, directly or through a proxy.

use vstd::prelude::*;
use vstd::string::StringExecFns;

use crate::i18n;
use crate::i18n::t;
use crate::i18n::Language;
use crate::rdp_file;
use crate::rdp_file::rdp_file_body;
use crate::session::Session;
use crate::session::SessionCommand;
use crate::session::SessionEvent;
use crate::session::SessionEventView;
use crate::text;
use crate::text::decimal;
use crate::text::trim;

verus! {

/// The usual port of RDP.
pub const DEFAULT_RDP_PORT: u16 = 3389;

/// The address that tunnels listen at.
pub const LOOPBACK: &'static str = "127.0.0.1";

// ---------------------------------------------------------------------------
// Texts

/// A host and port as they are written together.
pub open spec fn target_of(host: Seq<char>, port: nat) -> Seq<char> {
    host + ":"@ + text::decimal_of(port)
}

/// A host and port as they are written together.
fn target(host: &str, port: u16) -> (s: String)
    ensures
        s@ == target_of(host@, port as nat),
{
    let mut s = host.to_owned();
    s.append(":");
    s.append(decimal(port as usize).as_str());
    s
}

/// The port that a session connects to.
pub open spec fn effective_port_of(port: u16) -> u16 {
    if port == 0 {
        DEFAULT_RDP_PORT
    } else {
        port
    }
}

/// The port that a session connects to: its own, or where that is zero the usual port of RDP.
pub fn effective_port(port: u16) -> (r: u16)
    ensures
        r == effective_port_of(port),
{
    if port == 0 {
        DEFAULT_RDP_PORT
    } else {
        port
    }
}

/// How the tunnel reaches its target, in words: through the proxy so described, or directly.
pub open spec fn route_of(language: Language, proxy: Option<Seq<char>>) -> Seq<char> {
    match proxy {
        Some(p) => i18n::in_language(language, "代理"@, "proxy"@) + " "@ + p,
        None => i18n::in_language(language, "直连"@, "direct"@),
    }
}

/// The text of an optional proxy description.
pub open spec fn proxy_text(proxy: Option<&str>) -> Option<Seq<char>> {
    match proxy {
        Some(p) => Some(p@),
        None => None,
    }
}

/// How the tunnel reaches its target, in words: through the proxy so described, or directly.
pub fn route(language: Language, proxy: Option<&str>) -> (s: String)
    ensures
        s@ == route_of(language, proxy_text(proxy)),
{
    match proxy {
        Some(p) => {
            let mut s = t(language, "代理", "proxy").to_owned();
            s.append(" ");
            s.append(p);
            s
        },
        None => t(language, "直连", "direct").to_owned(),
    }
}

/// A passage from one address to another, with a word before it.
pub open spec fn passage(word: Seq<char>, from: Seq<char>, to: Seq<char>) -> Seq<char> {
    word + " "@ + from + " → "@ + to
}

fn passage_text(word: &str, from: &str, to: &str) -> (s: String)
    ensures
        s@ == passage(word@, from@, to@),
{
    let mut s = word.to_owned();
    s.append(" ");
    s.append(from);
    s.append(" → ");
    s.append(to);
    s
}

/// What happened, and for what cause.
pub open spec fn because(what: Seq<char>, cause: Seq<char>) -> Seq<char> {
    what + ": "@ + cause
}

fn because_text(what: &str, cause: &str) -> (s: String)
    ensures
        s@ == because(what@, cause@),
{
    let mut s = what.to_owned();
    s.append(": ");
    s.append(cause);
    s
}

/// What the terminal shows once the client is open.
pub open spec fn banner_of(
    language: Language,
    target: Seq<char>,
    route: Seq<char>,
    address: Seq<char>,
) -> Seq<char> {
    "\r\n"@ + i18n::in_language(
        language,
        "已打开系统 RDP 客户端。RDP 画面在外部窗口中显示，关闭此标签会停止本地隧道。"@,
        "Opened the system RDP client. The desktop is shown in the external window; closing this tab stops the local tunnel."@,
    ) + "\r\n"@ + i18n::in_language(language, "目标"@, "Target"@) + ": "@ + target + "\r\n"@
        + i18n::in_language(language, "路由"@, "Route"@) + ": "@ + route + "\r\n"@
        + i18n::in_language(language, "本地端口"@, "Local endpoint"@) + ": "@ + address
        + "\r\n\r\n"@
}

fn banner(language: Language, target: &str, route: &str, address: &str) -> (s: String)
    ensures
        s@ == banner_of(language, target@, route@, address@),
{
    let mut s = "\r\n".to_owned();
    s.append(
        t(
            language,
            "已打开系统 RDP 客户端。RDP 画面在外部窗口中显示，关闭此标签会停止本地隧道。",
            "Opened the system RDP client. The desktop is shown in the external window; closing this tab stops the local tunnel.",
        ),
    );
    s.append("\r\n");
    s.append(t(language, "目标", "Target"));
    s.append(": ");
    s.append(target);
    s.append("\r\n");
    s.append(t(language, "路由", "Route"));
    s.append(": ");
    s.append(route);
    s.append("\r\n");
    s.append(t(language, "本地端口", "Local endpoint"));
    s.append(": ");
    s.append(address);
    s.append("\r\n\r\n");
    s
}

// ---------------------------------------------------------------------------
// Relays

/// What a relay was doing when it failed.
#[derive(Debug, Clone, Copy, PartialEq, Eq, Structural)]
pub enum RelayStage {
    /// Connecting to the target through the proxy.
    ProxyConnect,
    /// Connecting to the target directly.
    Connect,
    /// Passing data on.
    Copy,
}

/// What a relay does first: connect to the target through the proxy, where there is one, or directly.
pub fn relay_stage(through_proxy: bool) -> (s: RelayStage)
    ensures
        s == (if through_proxy {
            RelayStage::ProxyConnect
        } else {
            RelayStage::Connect
        }),
{
    if through_proxy {
        RelayStage::ProxyConnect
    } else {
        RelayStage::Connect
    }
}

/// What failed in a relay to the target.
pub open spec fn relay_failure_of(stage: RelayStage, host: Seq<char>, port: nat) -> Seq<char> {
    match stage {
        RelayStage::ProxyConnect => "proxy connect to "@ + target_of(host, port) + " failed"@,
        RelayStage::Connect => "connect "@ + target_of(host, port) + " failed"@,
        RelayStage::Copy => "RDP relay failed"@,
    }
}

/// What is told of a relay to the target that failed, for a cause.
pub fn relay_failed(
    language: Language,
    stage: RelayStage,
    host: &str,
    port: u16,
    cause: &str,
) -> (event: SessionEvent)
    ensures
        event@ == SessionEventView::Status(
            because(
                i18n::in_language(language, "RDP 隧道错误"@, "RDP tunnel error"@),
                because(relay_failure_of(stage, host@, port as nat), cause@),
            ),
        ),
{
    let target = target(host, port);
    let failure = match stage {
        RelayStage::ProxyConnect => {
            let mut s = "proxy connect to ".to_owned();
            s.append(target.as_str());
            s.append(" failed");
            s
        },
        RelayStage::Connect => {
            let mut s = "connect ".to_owned();
            s.append(target.as_str());
            s.append(" failed");
            s
        },
        RelayStage::Copy => "RDP relay failed".to_owned(),
    };
    let message = because_text(failure.as_str(), cause);
    SessionEvent::Status(
        because_text(t(language, "RDP 隧道错误", "RDP tunnel error"), message.as_str()),
    )
}

// ---------------------------------------------------------------------------
// The course of a session

/// What a tunnel asks for. What it asks for at one time is done in order.
#[derive(Debug)]
pub enum TunnelAction {
    /// Listen at this address, on a free port.
    Listen { address: &'static str },
    /// Write a new `.rdp` file with this text.
    WriteFile { body: String },
    /// Launch the RDP client with the file.
    OpenClient { local_port: u16, user: String },
    /// Tell this.
    Emit(SessionEvent),
    /// Relay the connection that was accepted to the target, after telling `connected`.
    Relay { connected: SessionEvent, host: String, port: u16 },
    /// Stop every relay.
    AbortRelays,
    /// Remove the `.rdp` file.
    RemoveFile,
}

/// What a tunnel is told.
#[derive(Debug)]
pub enum TunnelEvent {
    /// The tunnel listens at this address and port.
    Listening { address: String, local_port: u16 },
    ListenFailed { cause: String },
    /// The address that the tunnel listens at cannot be had.
    AddressFailed { cause: String },
    FileWritten,
    FileFailed { path: String, cause: String },
    ClientOpened,
    ClientFailed { cause: String },
    Command(SessionCommand),
    /// No more commands will come.
    CommandsEnded,
    /// The client connected from this address.
    Accepted { peer: String },
    AcceptFailed { cause: String },
}

/// How far a tunnel has come.
#[derive(Debug)]
enum Phase {
    Listening,
    WritingFile { address: String, local_port: u16 },
    OpeningClient { address: String },
    Serving,
    Ended,
}

/// The tunnel of a session.
pub struct Tunnel<'a> {
    session: &'a Session,
    host: String,
    port: u16,
    route: String,
    phase: Phase,
}

/// The contents of a [`TunnelAction`].
pub enum TunnelActionView {
    Listen { address: Seq<char> },
    WriteFile { body: Seq<char> },
    OpenClient { local_port: u16, user: Seq<char> },
    Emit(SessionEventView),
    Relay { connected: SessionEventView, host: Seq<char>, port: u16 },
    AbortRelays,
    RemoveFile,
}

/// The contents of a [`TunnelEvent`].
pub enum TunnelEventView {
    Listening { address: Seq<char>, local_port: u16 },
    ListenFailed { cause: Seq<char> },
    AddressFailed { cause: Seq<char> },
    FileWritten,
    FileFailed { path: Seq<char>, cause: Seq<char> },
    ClientOpened,
    ClientFailed { cause: Seq<char> },
    Command(SessionCommand),
    CommandsEnded,
    Accepted { peer: Seq<char> },
    AcceptFailed { cause: Seq<char> },
}

/// How far a tunnel has come.
pub enum PhaseView {
    Listening,
    WritingFile { address: Seq<char>, local_port: u16 },
    OpeningClient { address: Seq<char> },
    Serving,
    Ended,
}

/// The contents of a [`Tunnel`].
pub struct TunnelView {
    pub session: Session,
    pub host: Seq<char>,
    pub port: u16,
    pub route: Seq<char>,
    pub phase: PhaseView,
}

impl View for TunnelAction {
    type V = TunnelActionView;

    open spec fn view(&self) -> TunnelActionView {
        match self {
            TunnelAction::Listen { address } => TunnelActionView::Listen { address: address@ },
            TunnelAction::WriteFile { body } => TunnelActionView::WriteFile { body: body@ },
            TunnelAction::OpenClient { local_port, user } => TunnelActionView::OpenClient {
                local_port: *local_port,
                user: user@,
            },
            TunnelAction::Emit(event) => TunnelActionView::Emit(event@),
            TunnelAction::Relay { connected, host, port } => TunnelActionView::Relay {
                connected: connected@,
                host: host@,
                port: *port,
            },
            TunnelAction::AbortRelays => TunnelActionView::AbortRelays,
            TunnelAction::RemoveFile => TunnelActionView::RemoveFile,
        }
    }
}

impl View for TunnelEvent {
    type V = TunnelEventView;

    open spec fn view(&self) -> TunnelEventView {
        match self {
            TunnelEvent::Listening { address, local_port } => TunnelEventView::Listening {
                address: address@,
                local_port: *local_port,
            },
            TunnelEvent::ListenFailed { cause } => TunnelEventView::ListenFailed { cause: cause@ },
            TunnelEvent::AddressFailed { cause } => TunnelEventView::AddressFailed { cause: cause@ },
            TunnelEvent::FileWritten => TunnelEventView::FileWritten,
            TunnelEvent::FileFailed { path, cause } => TunnelEventView::FileFailed {
                path: path@,
                cause: cause@,
            },
            TunnelEvent::ClientOpened => TunnelEventView::ClientOpened,
            TunnelEvent::ClientFailed { cause } => TunnelEventView::ClientFailed { cause: cause@ },
            TunnelEvent::Command(command) => TunnelEventView::Command(*command),
            TunnelEvent::CommandsEnded => TunnelEventView::CommandsEnded,
            TunnelEvent::Accepted { peer } => TunnelEventView::Accepted { peer: peer@ },
            TunnelEvent::AcceptFailed { cause } => TunnelEventView::AcceptFailed { cause: cause@ },
        }
    }
}

impl View for Phase {
    type V = PhaseView;

    closed spec fn view(&self) -> PhaseView {
        match self {
            Phase::Listening => PhaseView::Listening,
            Phase::WritingFile { address, local_port } => PhaseView::WritingFile {
                address: address@,
                local_port: *local_port,
            },
            Phase::OpeningClient { address } => PhaseView::OpeningClient { address: address@ },
            Phase::Serving => PhaseView::Serving,
            Phase::Ended => PhaseView::Ended,
        }
    }
}

impl<'a> View for Tunnel<'a> {
    type V = TunnelView;

    closed spec fn view(&self) -> TunnelView {
        TunnelView {
            session: *self.session,
            host: self.host@,
            port: self.port,
            route: self.route@,
            phase: self.phase@,
        }
    }
}

/// The contents of a list of actions.
pub open spec fn actions_of(actions: Seq<TunnelAction>) -> Seq<TunnelActionView> {
    actions.map_values(|a: TunnelAction| a@)
}

/// The events that can reach a tunnel in each phase. One that has ended waits for none.
pub open spec fn expects(phase: PhaseView, event: TunnelEventView) -> bool {
    match phase {
        PhaseView::Listening => event is Listening || event is ListenFailed || event
            is AddressFailed,
        PhaseView::WritingFile { .. } => event is FileWritten || event is FileFailed,
        PhaseView::OpeningClient { .. } => event is ClientOpened || event is ClientFailed,
        PhaseView::Serving => event is Command || event is CommandsEnded || event is Accepted
            || event is AcceptFailed,
        PhaseView::Ended => false,
    }
}

/// The tunnel in another phase.
pub open spec fn in_phase(tunnel: TunnelView, phase: PhaseView) -> TunnelView {
    TunnelView { phase, ..tunnel }
}

/// The target of the tunnel, as it is written.
pub open spec fn target_text(tunnel: TunnelView) -> Seq<char> {
    target_of(tunnel.host, tunnel.port as nat)
}

/// Telling that the session is over.
pub open spec fn closed(reason: Seq<char>) -> TunnelActionView {
    TunnelActionView::Emit(SessionEventView::Closed(reason))
}

/// Telling how things are.
pub open spec fn status(message: Seq<char>) -> TunnelActionView {
    TunnelActionView::Emit(SessionEventView::Status(message))
}

/// The tunnel ends with these actions.
pub open spec fn ends_with(tunnel: TunnelView, actions: Seq<TunnelActionView>) -> (
    TunnelView,
    Seq<TunnelActionView>,
) {
    (in_phase(tunnel, PhaseView::Ended), actions)
}

/// How a session begins: without a host there is nothing to connect to.
pub open spec fn begin_tunnel(
    session: Session,
    proxy: Option<Seq<char>>,
    language: Language,
) -> (TunnelView, Seq<TunnelActionView>) {
    let tunnel = TunnelView {
        session,
        host: text::trimmed(session.host@),
        port: effective_port_of(session.port),
        route: route_of(language, proxy),
        phase: PhaseView::Listening,
    };
    if tunnel.host.len() == 0 {
        ends_with(
            tunnel,
            seq![closed(i18n::in_language(language, "RDP 主机为空"@, "RDP host is empty"@))],
        )
    } else {
        (tunnel, seq![TunnelActionView::Listen { address: LOOPBACK@ }])
    }
}

/// How a tunnel that serves goes on.
pub open spec fn serves(tunnel: TunnelView, event: TunnelEventView, language: Language) -> (
    TunnelView,
    Seq<TunnelActionView>,
) {
    match event {
        TunnelEventView::Command(SessionCommand::RawInput(_)) => (
            tunnel,
            seq![
                status(
                    i18n::in_language(
                        language,
                        "RDP 会话在外部窗口中运行"@,
                        "RDP session is running in the external window"@,
                    ),
                ),
            ],
        ),
        TunnelEventView::Command(SessionCommand::Resize(_, _)) => (tunnel, seq![]),
        TunnelEventView::Accepted { peer } => (
            tunnel,
            seq![
                TunnelActionView::Relay {
                    connected: SessionEventView::Status(
                        passage(
                            i18n::in_language(
                                language,
                                "RDP 客户端已连接"@,
                                "RDP client connected"@,
                            ),
                            peer,
                            target_text(tunnel),
                        ),
                    ),
                    host: tunnel.host,
                    port: tunnel.port,
                },
            ],
        ),
        TunnelEventView::AcceptFailed { cause } => ends_with(
            tunnel,
            seq![
                TunnelActionView::AbortRelays,
                TunnelActionView::RemoveFile,
                closed(because("accept RDP loopback connection"@, cause)),
            ],
        ),
        _ => ends_with(
            tunnel,
            seq![
                TunnelActionView::AbortRelays,
                TunnelActionView::RemoveFile,
                closed(i18n::in_language(language, "RDP 隧道已关闭"@, "RDP tunnel closed"@)),
            ],
        ),
    }
}

/// How a tunnel goes on: its next phase and what it asks for, after an event that it expects. What it
/// tells, it tells in the language.
pub open spec fn next(tunnel: TunnelView, event: TunnelEventView, language: Language) -> (
    TunnelView,
    Seq<TunnelActionView>,
) {
    match (tunnel.phase, event) {
        (PhaseView::Listening, TunnelEventView::Listening { address, local_port }) => (
            in_phase(tunnel, PhaseView::WritingFile { address, local_port }),
            seq![
                TunnelActionView::WriteFile {
                    body: rdp_file::rdp_file_of(tunnel.session, local_port as nat),
                },
            ],
        ),
        (PhaseView::Listening, TunnelEventView::ListenFailed { cause }) => ends_with(
            tunnel,
            seq![closed(because("bind RDP loopback tunnel"@, cause))],
        ),
        (PhaseView::Listening, TunnelEventView::AddressFailed { cause }) => ends_with(
            tunnel,
            seq![closed(because("read RDP loopback tunnel address"@, cause))],
        ),
        (PhaseView::WritingFile { address, local_port }, TunnelEventView::FileWritten) => (
            in_phase(tunnel, PhaseView::OpeningClient { address }),
            seq![
                status(
                    passage(
                        i18n::in_language(language, "RDP 隧道就绪"@, "RDP tunnel ready"@),
                        address,
                        target_text(tunnel),
                    ),
                ),
                TunnelActionView::OpenClient { local_port, user: tunnel.session.user@ },
            ],
        ),
        (PhaseView::WritingFile { .. }, TunnelEventView::FileFailed { path, cause }) => ends_with(
            tunnel,
            seq![closed(because("write "@ + path, cause))],
        ),
        (PhaseView::OpeningClient { address }, TunnelEventView::ClientOpened) => (
            in_phase(tunnel, PhaseView::Serving),
            seq![
                TunnelActionView::Emit(SessionEventView::Connected),
                TunnelActionView::Emit(
                    SessionEventView::Output(
                        banner_of(language, target_text(tunnel), tunnel.route, address),
                    ),
                ),
            ],
        ),
        (PhaseView::OpeningClient { .. }, TunnelEventView::ClientFailed { cause }) => ends_with(
            tunnel,
            seq![
                TunnelActionView::RemoveFile,
                closed(
                    because(
                        i18n::in_language(
                            language,
                            "启动系统 RDP 客户端失败"@,
                            "failed to launch system RDP client"@,
                        ),
                        cause,
                    ),
                ),
            ],
        ),
        (_, _) => serves(tunnel, event, language),
    }
}

/// Telling that the session is over.
fn close(reason: String) -> (a: TunnelAction)
    ensures
        a@ == closed(reason@),
{
    TunnelAction::Emit(SessionEvent::Closed(reason))
}

impl<'a> Tunnel<'a> {
    /// Begins a session, through the proxy so described or directly: returns the tunnel and what it
    /// asks for first.
    pub fn begin(session: &'a Session, proxy: Option<&str>, language: Language) -> (r: (
        Tunnel<'a>,
        Vec<TunnelAction>,
    ))
        ensures
            (r.0@, actions_of(r.1@)) == begin_tunnel(*session, proxy_text(proxy), language),
    {
        let host = trim(session.host.as_str()).to_owned();
        let port = effective_port(session.port);
        let route = route(language, proxy);
        if host.as_str().is_empty() {
            let reason = t(language, "RDP 主机为空", "RDP host is empty").to_owned();
            let actions = vec![close(reason)];
            let tunnel = Tunnel { session, host, port, route, phase: Phase::Ended };
            assert(actions_of(actions@) =~= begin_tunnel(*session, proxy_text(proxy), language).1);
            (tunnel, actions)
        } else {
            let actions = vec![TunnelAction::Listen { address: LOOPBACK }];
            let tunnel = Tunnel { session, host, port, route, phase: Phase::Listening };
            assert(actions_of(actions@) =~= begin_tunnel(*session, proxy_text(proxy), language).1);
            (tunnel, actions)
        }
    }

    /// Whether the session is over.
    pub fn has_ended(&self) -> (r: bool)
        ensures
            r == self@.phase is Ended,
    {
        match self.phase {
            Phase::Ended => true,
            _ => false,
        }
    }

    /// Whether `event` can reach the tunnel as far as it has come.
    pub fn awaits(&self, event: &TunnelEvent) -> (r: bool)
        ensures
            r == expects(self@.phase, event@),
    {
        match (&self.phase, event) {
            (Phase::Listening, TunnelEvent::Listening { .. }) => true,
            (Phase::Listening, TunnelEvent::ListenFailed { .. }) => true,
            (Phase::Listening, TunnelEvent::AddressFailed { .. }) => true,
            (Phase::WritingFile { .. }, TunnelEvent::FileWritten) => true,
            (Phase::WritingFile { .. }, TunnelEvent::FileFailed { .. }) => true,
            (Phase::OpeningClient { .. }, TunnelEvent::ClientOpened) => true,
            (Phase::OpeningClient { .. }, TunnelEvent::ClientFailed { .. }) => true,
            (Phase::Serving, TunnelEvent::Command(_)) => true,
            (Phase::Serving, TunnelEvent::CommandsEnded) => true,
            (Phase::Serving, TunnelEvent::Accepted { .. }) => true,
            (Phase::Serving, TunnelEvent::AcceptFailed { .. }) => true,
            (_, _) => false,
        }
    }

    /// Goes on after `event`: returns the tunnel and what it asks for next.
    pub fn step(self, event: TunnelEvent, language: Language) -> (r: (
        Tunnel<'a>,
        Vec<TunnelAction>,
    ))
        requires
            expects(self@.phase, event@),
        ensures
            (r.0@, actions_of(r.1@)) == next(self@, event@, language),
    {
        let ghost expected = next(self@, event@, language);
        let Tunnel { session, host, port, route, phase } = self;
        let (phase, actions) = match (phase, event) {
            (Phase::Listening, TunnelEvent::Listening { address, local_port }) => {
                let body = rdp_file_body(session, local_port);
                (
                    Phase::WritingFile { address, local_port },
                    vec![TunnelAction::WriteFile { body }],
                )
            },
            (Phase::Listening, TunnelEvent::ListenFailed { cause }) => {
                let reason = because_text("bind RDP loopback tunnel", cause.as_str());
                (Phase::Ended, vec![close(reason)])
            },
            (Phase::Listening, TunnelEvent::AddressFailed { cause }) => {
                let reason = because_text("read RDP loopback tunnel address", cause.as_str());
                (Phase::Ended, vec![close(reason)])
            },
            (Phase::WritingFile { address, local_port }, TunnelEvent::FileWritten) => {
                let ready = passage_text(
                    t(language, "RDP 隧道就绪", "RDP tunnel ready"),
                    address.as_str(),
                    target(host.as_str(), port).as_str(),
                );
                let user = session.user.clone();
                (
                    Phase::OpeningClient { address },
                    vec![
                        TunnelAction::Emit(SessionEvent::Status(ready)),
                        TunnelAction::OpenClient { local_port, user },
                    ],
                )
            },
            (Phase::WritingFile { .. }, TunnelEvent::FileFailed { path, cause }) => {
                let mut what = "write ".to_owned();
                what.append(path.as_str());
                let reason = because_text(what.as_str(), cause.as_str());
                (Phase::Ended, vec![close(reason)])
            },
            (Phase::OpeningClient { address }, TunnelEvent::ClientOpened) => {
                let output = banner(
                    language,
                    target(host.as_str(), port).as_str(),
                    route.as_str(),
                    address.as_str(),
                );
                (
                    Phase::Serving,
                    vec![
                        TunnelAction::Emit(SessionEvent::Connected),
                        TunnelAction::Emit(SessionEvent::Output(output)),
                    ],
                )
            },
            (Phase::OpeningClient { .. }, TunnelEvent::ClientFailed { cause }) => {
                let reason = because_text(
                    t(
                        language,
                        "启动系统 RDP 客户端失败",
                        "failed to launch system RDP client",
                    ),
                    cause.as_str(),
                );
                (Phase::Ended, vec![TunnelAction::RemoveFile, close(reason)])
            },
            (_, TunnelEvent::Command(SessionCommand::RawInput(_))) => {
                let message = t(
                    language,
                    "RDP 会话在外部窗口中运行",
                    "RDP session is running in the external window",
                ).to_owned();
                (Phase::Serving, vec![TunnelAction::Emit(SessionEvent::Status(message))])
            },
            (_, TunnelEvent::Command(SessionCommand::Resize(_, _))) => {
                let nothing: Vec<TunnelAction> = Vec::new();
                (Phase::Serving, nothing)
            },
            (_, TunnelEvent::Accepted { peer }) => {
                let message = passage_text(
                    t(language, "RDP 客户端已连接", "RDP client connected"),
                    peer.as_str(),
                    target(host.as_str(), port).as_str(),
                );
                let connected = SessionEvent::Status(message);
                (
                    Phase::Serving,
                    vec![TunnelAction::Relay { connected, host: host.clone(), port }],
                )
            },
            (_, TunnelEvent::AcceptFailed { cause }) => {
                let reason = because_text("accept RDP loopback connection", cause.as_str());
                (
                    Phase::Ended,
                    vec![TunnelAction::AbortRelays, TunnelAction::RemoveFile, close(reason)],
                )
            },
            (_, _) => {
                let reason = t(language, "RDP 隧道已关闭", "RDP tunnel closed").to_owned();
                (
                    Phase::Ended,
                    vec![TunnelAction::AbortRelays, TunnelAction::RemoveFile, close(reason)],
                )
            },
        };
        assert(actions_of(actions@) =~= expected.1);
        (Tunnel { session, host, port, route, phase }, actions)
    }
}

} // verus!
