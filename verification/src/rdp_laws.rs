//! What holds of RDP sessions as a whole.

use vstd::prelude::*;

use crate::i18n::Language;
use crate::rdp;
use crate::rdp_file;
use crate::session;
use crate::text;

verus! {

/// A tunnel that is told one event after the other, until it ends: how it is then, and everything
/// that it asked for.
pub open spec fn run(
    tunnel: rdp::TunnelView,
    events: Seq<(rdp::TunnelEventView, Language)>,
) -> (rdp::TunnelView, Seq<rdp::TunnelActionView>)
    decreases events.len(),
{
    if events.len() == 0 || tunnel.phase is Ended {
        (tunnel, seq![])
    } else {
        let (one, first) = rdp::next(tunnel, events[0].0, events[0].1);
        let (last, rest) = run(one, events.skip(1));
        (last, first + rest)
    }
}

/// The action tells that the session is over.
pub open spec fn is_closing(action: rdp::TunnelActionView) -> bool {
    action matches rdp::TunnelActionView::Emit(session::SessionEventView::Closed(_))
}

/// A list of actions that tells that the session is over once, at its end, or, if it does not end,
/// not at all.
pub open spec fn closes(actions: Seq<rdp::TunnelActionView>, ended: bool) -> bool {
    &&& ended ==> actions.len() > 0
    &&& forall|i: int|
        0 <= i < actions.len() ==> (is_closing(#[trigger] actions[i]) <==> ended && i
            == actions.len() - 1)
}

/// Law: a session tells that it is over exactly when it is: once, and after everything else.
pub proof fn sessions_close_once(
    tunnel: rdp::TunnelView,
    events: Seq<(rdp::TunnelEventView, Language)>,
)
    requires
        !(tunnel.phase is Ended),
    ensures
        closes(run(tunnel, events).1, run(tunnel, events).0.phase is Ended),
    decreases events.len(),
{
    if events.len() > 0 {
        let (one, first) = rdp::next(tunnel, events[0].0, events[0].1);
        let (last, rest) = run(one, events.skip(1));
        assert(closes(first, one.phase is Ended));
        let all = first + rest;
        if !(one.phase is Ended) {
            sessions_close_once(one, events.skip(1));
        }
        assert forall|i: int| 0 <= i < all.len() implies (is_closing(#[trigger] all[i])
            <==> last.phase is Ended && i == all.len() - 1) by {
            if i < first.len() {
                assert(all[i] == first[i]);
            } else {
                assert(all[i] == rest[i - first.len()]);
            }
        }
    }
}

/// Law: a session without a host ends at once, and says so; every other one begins to listen.
pub proof fn sessions_need_a_host(
    session: session::Session,
    proxy: Option<Seq<char>>,
    language: Language,
)
    ensures
        ({
            let (tunnel, actions) = rdp::begin_tunnel(session, proxy, language);
            let ended = text::trimmed(session.host@).len() == 0;
            &&& tunnel.phase is Ended <==> ended
            &&& closes(actions, ended)
        }),
{
}

/// Law: a tunnel keeps its session, its target and its route.
pub proof fn tunnels_keep_their_target(
    tunnel: rdp::TunnelView,
    events: Seq<(rdp::TunnelEventView, Language)>,
)
    ensures
        run(tunnel, events).0 == rdp::in_phase(tunnel, run(tunnel, events).0.phase),
    decreases events.len(),
{
    if events.len() > 0 && !(tunnel.phase is Ended) {
        let (one, _) = rdp::next(tunnel, events[0].0, events[0].1);
        tunnels_keep_their_target(one, events.skip(1));
    }
}

/// Every relay among the actions goes to this host and port.
pub open spec fn relays_to(
    actions: Seq<rdp::TunnelActionView>,
    to_host: Seq<char>,
    to_port: u16,
) -> bool {
    forall|i: int|
        0 <= i < actions.len() ==> (#[trigger] actions[i] matches rdp::TunnelActionView::Relay {
            host,
            port,
            ..
        } ==> host == to_host && port == to_port)
}

/// Law: every relay of a session goes to the host of the session, without the white space around
/// it, and to its port or, where it has none, to the usual one; never to port zero.
pub proof fn relays_go_to_the_target(
    session: session::Session,
    proxy: Option<Seq<char>>,
    begun_in: Language,
    events: Seq<(rdp::TunnelEventView, Language)>,
)
    ensures
        relays_to(
            run(rdp::begin_tunnel(session, proxy, begun_in).0, events).1,
            text::trimmed(session.host@),
            rdp::effective_port_of(session.port),
        ),
        rdp::effective_port_of(session.port) != 0,
{
    lemma_relays(rdp::begin_tunnel(session, proxy, begun_in).0, events);
}

proof fn lemma_relays(tunnel: rdp::TunnelView, events: Seq<(rdp::TunnelEventView, Language)>)
    ensures
        relays_to(run(tunnel, events).1, tunnel.host, tunnel.port),
    decreases events.len(),
{
    if events.len() > 0 && !(tunnel.phase is Ended) {
        let (one, first) = rdp::next(tunnel, events[0].0, events[0].1);
        let (_, rest) = run(one, events.skip(1));
        lemma_relays(one, events.skip(1));
        let all = first + rest;
        assert(relays_to(first, tunnel.host, tunnel.port));
        assert forall|i: int| 0 <= i < all.len() implies (#[trigger] all[i] matches
            rdp::TunnelActionView::Relay { host, port, .. } ==> host == tunnel.host && port
            == tunnel.port) by {
            if i < first.len() {
                assert(all[i] == first[i]);
            } else {
                assert(all[i] == rest[i - first.len()]);
            }
        }
    }
}

/// Law: once the `.rdp` file was written, a session does not end without removing it.
pub proof fn files_are_removed(
    tunnel: rdp::TunnelView,
    event: rdp::TunnelEventView,
    language: Language,
)
    requires
        rdp::expects(tunnel.phase, event),
        tunnel.phase is OpeningClient || tunnel.phase is Serving,
    ensures
        ({
            let (after, actions) = rdp::next(tunnel, event, language);
            after.phase is Ended ==> actions.contains(rdp::TunnelActionView::RemoveFile)
        }),
{
    let (after, actions) = rdp::next(tunnel, event, language);
    if after.phase is Ended {
        if tunnel.phase is Serving {
            assert(actions[1] == rdp::TunnelActionView::RemoveFile);
        } else {
            assert(actions[0] == rdp::TunnelActionView::RemoveFile);
        }
    }
}

/// Law: when the tab is closed, no more commands will come or no connection can be accepted, a session
/// that serves stops its relays, removes its file and tells that it is over.
pub proof fn closing_ends_the_session(
    tunnel: rdp::TunnelView,
    event: rdp::TunnelEventView,
    language: Language,
)
    requires
        tunnel.phase is Serving,
        event == rdp::TunnelEventView::Command(session::SessionCommand::Close)
            || event is CommandsEnded || event is AcceptFailed,
    ensures
        ({
            let (after, actions) = rdp::next(tunnel, event, language);
            &&& after.phase is Ended
            &&& actions.len() == 3
            &&& actions[0] is AbortRelays
            &&& actions[1] is RemoveFile
            &&& is_closing(actions[2])
        }),
{
}

/// Law: nothing else that a session is told while it serves ends it.
pub proof fn sessions_serve_until_closed(
    tunnel: rdp::TunnelView,
    event: rdp::TunnelEventView,
    language: Language,
)
    requires
        tunnel.phase is Serving,
        rdp::expects(tunnel.phase, event),
        event != rdp::TunnelEventView::Command(session::SessionCommand::Close),
        !(event is CommandsEnded),
        !(event is AcceptFailed),
    ensures
        rdp::next(tunnel, event, language).0 == tunnel,
{
}

/// Two tunnels that differ in nothing but what their sessions hold besides the user.
pub open spec fn alike(one: rdp::TunnelView, other: rdp::TunnelView) -> bool {
    &&& one.session.user@ == other.session.user@
    &&& one.host == other.host
    &&& one.port == other.port
    &&& one.route == other.route
    &&& one.phase == other.phase
}

/// Law: the password of a session plays no part in it, nor does its protocol. Two sessions with the
/// same host, port and user ask for the same, whatever they are told.
pub proof fn passwords_play_no_part(
    one: session::Session,
    other: session::Session,
    proxy: Option<Seq<char>>,
    begun_in: Language,
    events: Seq<(rdp::TunnelEventView, Language)>,
)
    requires
        one.host@ == other.host@,
        one.port == other.port,
        one.user@ == other.user@,
    ensures
        ({
            let (tunnel, actions) = rdp::begin_tunnel(one, proxy, begun_in);
            let (other_tunnel, other_actions) = rdp::begin_tunnel(other, proxy, begun_in);
            &&& actions == other_actions
            &&& run(tunnel, events).1 == run(other_tunnel, events).1
        }),
{
    let (tunnel, _) = rdp::begin_tunnel(one, proxy, begun_in);
    let (other_tunnel, _) = rdp::begin_tunnel(other, proxy, begun_in);
    lemma_alike(tunnel, other_tunnel, events);
}

proof fn lemma_alike(
    one: rdp::TunnelView,
    other: rdp::TunnelView,
    events: Seq<(rdp::TunnelEventView, Language)>,
)
    requires
        alike(one, other),
    ensures
        run(one, events).1 == run(other, events).1,
        alike(run(one, events).0, run(other, events).0),
    decreases events.len(),
{
    if events.len() > 0 && !(one.phase is Ended) {
        let (one_after, first) = rdp::next(one, events[0].0, events[0].1);
        let (other_after, other_first) = rdp::next(other, events[0].0, events[0].1);
        assert(first == other_first);
        lemma_alike(one_after, other_after, events.skip(1));
    }
}

// ---------------------------------------------------------------------------
// What a session does next

/// The tunnel is as it was, but for its phase.
pub open spec fn keeps(before: rdp::TunnelView, after: rdp::TunnelView) -> bool {
    &&& after.session == before.session
    &&& after.host == before.host
    &&& after.port == before.port
    &&& after.route == before.route
}

/// Law: the port of a session is used as it is, unless it is zero, which stands for the usual one.
pub proof fn ports_are_used_as_they_are(port: u16)
    ensures
        port != 0 ==> rdp::effective_port_of(port) == port,
        rdp::effective_port_of(0) == 3389,
{
}

/// Law: a target is its host, whole, a colon, and digits that are read as its port.
pub proof fn targets_name_host_and_port(host: Seq<char>, port: nat)
    ensures
        ({
            let s = rdp::target_of(host, port);
            let n = host.len() as int;
            &&& s.len() > n + 1
            &&& s.take(n) == host
            &&& s[n] == ':'
            &&& s.skip(n + 1) == text::decimal_of(port)
            &&& text::number(s.skip(n + 1)) == port
        }),
{
    reveal_strlit(":");
    let s = rdp::target_of(host, port);
    let n = host.len() as int;
    text::numbers_read_back(port);
    text::lemma_decimal_digits(port);
    assert(s.take(n) =~= host);
    assert(s.skip(n + 1) =~= text::decimal_of(port));
}

/// Law: a route is direct, or through the proxy as it is described, in the language.
pub proof fn routes_tell_the_proxy(proxy: Seq<char>)
    ensures
        rdp::route_of(Language::English, None) == "direct"@,
        rdp::route_of(Language::Chinese, None) == "直连"@,
        rdp::route_of(Language::English, Some(proxy)) == "proxy"@ + (" "@ + proxy),
        rdp::route_of(Language::Chinese, Some(proxy)) == "代理"@ + (" "@ + proxy),
{
    assert("proxy"@ + " "@ + proxy =~= "proxy"@ + (" "@ + proxy));
    assert("代理"@ + " "@ + proxy =~= "代理"@ + (" "@ + proxy));
}

/// Law: a proxy is described by the text that it is given with.
pub proof fn proxies_are_told_as_described(proxy: &str)
    ensures
        rdp::proxy_text(Some(proxy)) == Some(proxy@),
        rdp::proxy_text(None) is None,
{
}

/// Law: what is told of a passage names both ends whole, and what is told with a cause tells it whole.
pub proof fn messages_are_told_whole(
    word: Seq<char>,
    from: Seq<char>,
    to: Seq<char>,
    cause: Seq<char>,
)
    ensures
        rdp::passage(word, from, to) == word + (" "@ + (from + (" → "@ + to))),
        rdp::because(word, cause) == word + (": "@ + cause),
{
    assert(rdp::passage(word, from, to) =~= word + (" "@ + (from + (" → "@ + to))));
    assert(rdp::because(word, cause) =~= word + (": "@ + cause));
}

/// Law: a relay that fails names what it was doing, and a connection its target.
pub proof fn relay_failures_name_the_target(host: Seq<char>, port: nat)
    ensures
        rdp::relay_failure_of(rdp::RelayStage::ProxyConnect, host, port) == "proxy connect to "@ + (
        host + (":"@ + (text::decimal_of(port) + " failed"@))),
        rdp::relay_failure_of(rdp::RelayStage::Connect, host, port) == "connect "@ + (host + (":"@ + (
        text::decimal_of(port) + " failed"@))),
        rdp::relay_failure_of(rdp::RelayStage::Copy, host, port) == "RDP relay failed"@,
{
    assert(rdp::relay_failure_of(rdp::RelayStage::ProxyConnect, host, port)
        =~= "proxy connect to "@ + (host + (":"@ + (text::decimal_of(port) + " failed"@))));
    assert(rdp::relay_failure_of(rdp::RelayStage::Connect, host, port) =~= "connect "@ + (host + (
    ":"@ + (text::decimal_of(port) + " failed"@))));
}

/// Law: what the terminal shows tells the target, the route and the local address, each whole and
/// after its word in the language.
pub proof fn banners_tell_target_route_and_address(
    target: Seq<char>,
    route: Seq<char>,
    address: Seq<char>,
)
    ensures
        rdp::banner_of(Language::English, target, route, address) == "\r\n"@
            + "Opened the system RDP client. The desktop is shown in the external window; closing this tab stops the local tunnel."@
            + "\r\n"@ + "Target"@ + ": "@ + target + "\r\n"@ + "Route"@ + ": "@ + route + "\r\n"@
            + "Local endpoint"@ + ": "@ + address + "\r\n\r\n"@,
        rdp::banner_of(Language::Chinese, target, route, address) == "\r\n"@
            + "已打开系统 RDP 客户端。RDP 画面在外部窗口中显示，关闭此标签会停止本地隧道。"@
            + "\r\n"@ + "目标"@ + ": "@ + target + "\r\n"@ + "路由"@ + ": "@ + route + "\r\n"@
            + "本地端口"@ + ": "@ + address + "\r\n\r\n"@,
{
}

/// What is told in the language.
pub open spec fn told(language: Language, chinese: Seq<char>, english: Seq<char>) -> Seq<char> {
    if language == Language::English {
        english
    } else {
        chinese
    }
}

/// Law: a session begins with its own host, trimmed, and its own port, and asks for one thing: to
/// listen at the loopback address. One without a host tells that, and ends.
pub proof fn sessions_begin_by_listening(
    session: session::Session,
    proxy: Option<Seq<char>>,
    language: Language,
)
    ensures
        ({
            let (tunnel, actions) = rdp::begin_tunnel(session, proxy, language);
            let listen = rdp::TunnelActionView::Listen { address: "127.0.0.1"@ };
            let empty = session::SessionEventView::Closed(
                told(language, "RDP 主机为空"@, "RDP host is empty"@),
            );
            &&& tunnel.session == session
            &&& tunnel.host == text::trimmed(session.host@)
            &&& tunnel.port == rdp::effective_port_of(session.port)
            &&& tunnel.route == rdp::route_of(language, proxy)
            &&& tunnel.host.len() > 0 ==> tunnel.phase is Listening && actions == seq![listen]
            &&& tunnel.host.len() == 0 ==> tunnel.phase is Ended && actions == seq![
                rdp::TunnelActionView::Emit(empty),
            ]
        }),
{
}

/// Law: once it listens, a session asks for its file, written for the port that it listens at.
pub proof fn listening_sessions_write_their_file(
    tunnel: rdp::TunnelView,
    address: Seq<char>,
    local_port: u16,
    language: Language,
)
    requires
        tunnel.phase is Listening,
    ensures
        ({
            let (after, actions) = rdp::next(
                tunnel,
                rdp::TunnelEventView::Listening { address, local_port },
                language,
            );
            &&& keeps(tunnel, after)
            &&& after.phase == (rdp::PhaseView::WritingFile { address, local_port })
            &&& actions.len() == 1
            &&& actions[0] == (rdp::TunnelActionView::WriteFile {
                body: rdp_file::rdp_file_of(tunnel.session, local_port as nat),
            })
        }),
{
}

/// Law: once the file is written, a session tells its ends, and asks for the client with its own user
/// and the port that it listens at.
pub proof fn written_files_are_opened(
    tunnel: rdp::TunnelView,
    address: Seq<char>,
    local_port: u16,
    language: Language,
)
    requires
        tunnel.phase == (rdp::PhaseView::WritingFile { address, local_port }),
    ensures
        ({
            let (after, actions) = rdp::next(tunnel, rdp::TunnelEventView::FileWritten, language);
            let ready = told(language, "RDP 隧道就绪"@, "RDP tunnel ready"@);
            let ends = rdp::passage(
                ready,
                address,
                rdp::target_of(tunnel.host, tunnel.port as nat),
            );
            &&& keeps(tunnel, after)
            &&& after.phase == (rdp::PhaseView::OpeningClient { address })
            &&& actions.len() == 2
            &&& actions[0] == rdp::TunnelActionView::Emit(session::SessionEventView::Status(ends))
            &&& actions[1] == (rdp::TunnelActionView::OpenClient {
                local_port,
                user: tunnel.session.user@,
            })
        }),
{
}

/// Law: once the client is open, a session tells that it is connected, and shows its target, its route
/// and its address; then it serves.
pub proof fn open_clients_are_served(
    tunnel: rdp::TunnelView,
    address: Seq<char>,
    language: Language,
)
    requires
        tunnel.phase == (rdp::PhaseView::OpeningClient { address }),
    ensures
        ({
            let (after, actions) = rdp::next(
                tunnel,
                rdp::TunnelEventView::ClientOpened,
                language,
            );
            let shown = rdp::banner_of(
                language,
                rdp::target_of(tunnel.host, tunnel.port as nat),
                tunnel.route,
                address,
            );
            &&& keeps(tunnel, after)
            &&& after.phase is Serving
            &&& actions.len() == 2
            &&& actions[0] == rdp::TunnelActionView::Emit(session::SessionEventView::Connected)
            &&& actions[1] == rdp::TunnelActionView::Emit(session::SessionEventView::Output(shown))
        }),
{
}

/// Law: whenever a session that serves is told of a connection, it asks for exactly one thing: to relay
/// it to the session's host and port, whatever they are, and to tell both ends. It serves on.
pub proof fn accepted_connections_are_relayed(
    tunnel: rdp::TunnelView,
    peer: Seq<char>,
    language: Language,
)
    requires
        tunnel.phase is Serving,
    ensures
        ({
            let (after, actions) = rdp::next(
                tunnel,
                rdp::TunnelEventView::Accepted { peer },
                language,
            );
            let word = told(language, "RDP 客户端已连接"@, "RDP client connected"@);
            let ends = rdp::passage(word, peer, rdp::target_of(tunnel.host, tunnel.port as nat));
            &&& after == tunnel
            &&& actions.len() == 1
            &&& actions[0] == (rdp::TunnelActionView::Relay {
                connected: session::SessionEventView::Status(ends),
                host: tunnel.host,
                port: tunnel.port,
            })
        }),
{
}

/// Law: what is typed into a session that serves is answered with where it runs, whatever it is; a new
/// size is passed over. It serves on.
pub proof fn terminals_play_no_part(
    tunnel: rdp::TunnelView,
    typed: Vec<u8>,
    columns: u32,
    rows: u32,
    language: Language,
)
    requires
        tunnel.phase is Serving,
    ensures
        ({
            let (after, actions) = rdp::next(
                tunnel,
                rdp::TunnelEventView::Command(session::SessionCommand::RawInput(typed)),
                language,
            );
            let message = told(
                language,
                "RDP 会话在外部窗口中运行"@,
                "RDP session is running in the external window"@,
            );
            &&& after == tunnel
            &&& actions.len() == 1
            &&& actions[0] == rdp::TunnelActionView::Emit(
                session::SessionEventView::Status(message),
            )
        }),
        ({
            let (after, actions) = rdp::next(
                tunnel,
                rdp::TunnelEventView::Command(session::SessionCommand::Resize(columns, rows)),
                language,
            );
            after == tunnel && actions.len() == 0
        }),
{
}

/// The tunnel is over, and tells this reason last, after `before`.
pub open spec fn closes_with(
    after: rdp::TunnelView,
    actions: Seq<rdp::TunnelActionView>,
    before: Seq<rdp::TunnelActionView>,
    reason: Seq<char>,
) -> bool {
    &&& after.phase is Ended
    &&& actions == before.push(
        rdp::TunnelActionView::Emit(session::SessionEventView::Closed(reason)),
    )
}

/// Law: whatever fails while a session is set up ends it, and is told with its whole cause. Nothing is
/// left to undo but the file, once it is written.
pub proof fn sessions_that_cannot_begin_say_why(
    tunnel: rdp::TunnelView,
    path: Seq<char>,
    cause: Seq<char>,
    language: Language,
)
    ensures
        tunnel.phase is Listening ==> ({
            let (after, actions) = rdp::next(
                tunnel,
                rdp::TunnelEventView::ListenFailed { cause },
                language,
            );
            let reason = rdp::because("bind RDP loopback tunnel"@, cause);
            keeps(tunnel, after) && closes_with(after, actions, seq![], reason)
        }),
        tunnel.phase is Listening ==> ({
            let (after, actions) = rdp::next(
                tunnel,
                rdp::TunnelEventView::AddressFailed { cause },
                language,
            );
            let reason = rdp::because("read RDP loopback tunnel address"@, cause);
            keeps(tunnel, after) && closes_with(after, actions, seq![], reason)
        }),
        tunnel.phase is WritingFile ==> ({
            let (after, actions) = rdp::next(
                tunnel,
                rdp::TunnelEventView::FileFailed { path, cause },
                language,
            );
            let reason = rdp::because("write "@ + path, cause);
            keeps(tunnel, after) && closes_with(after, actions, seq![], reason)
        }),
        tunnel.phase is OpeningClient ==> ({
            let (after, actions) = rdp::next(
                tunnel,
                rdp::TunnelEventView::ClientFailed { cause },
                language,
            );
            let what = told(
                language,
                "启动系统 RDP 客户端失败"@,
                "failed to launch system RDP client"@,
            );
            let undone = seq![rdp::TunnelActionView::RemoveFile];
            keeps(tunnel, after) && closes_with(
                after,
                actions,
                undone,
                rdp::because(what, cause),
            )
        }),
{
    let closing = |reason: Seq<char>| rdp::TunnelActionView::Emit(
        session::SessionEventView::Closed(reason),
    );
    let none: Seq<rdp::TunnelActionView> = seq![];
    let listen = rdp::because("bind RDP loopback tunnel"@, cause);
    assert(none.push(closing(listen)) =~= seq![closing(listen)]);
    let address = rdp::because("read RDP loopback tunnel address"@, cause);
    assert(none.push(closing(address)) =~= seq![closing(address)]);
    let write = rdp::because("write "@ + path, cause);
    assert(none.push(closing(write)) =~= seq![closing(write)]);
    let what = told(
        language,
        "启动系统 RDP 客户端失败"@,
        "failed to launch system RDP client"@,
    );
    let open = rdp::because(what, cause);
    assert(seq![rdp::TunnelActionView::RemoveFile].push(closing(open)) =~= seq![
        rdp::TunnelActionView::RemoveFile,
        closing(open),
    ]);
}

/// Law: a session that serves and ends tells why: that the tunnel is closed, or the whole cause for which
/// no connection can be accepted. Before that it stops its relays and removes its file.
pub proof fn sessions_that_end_say_why(
    tunnel: rdp::TunnelView,
    event: rdp::TunnelEventView,
    cause: Seq<char>,
    language: Language,
)
    requires
        tunnel.phase is Serving,
        event == rdp::TunnelEventView::Command(session::SessionCommand::Close)
            || event is CommandsEnded,
    ensures
        ({
            let (after, actions) = rdp::next(tunnel, event, language);
            let undone = seq![
                rdp::TunnelActionView::AbortRelays,
                rdp::TunnelActionView::RemoveFile,
            ];
            let reason = told(language, "RDP 隧道已关闭"@, "RDP tunnel closed"@);
            keeps(tunnel, after) && closes_with(after, actions, undone, reason)
        }),
        ({
            let (after, actions) = rdp::next(
                tunnel,
                rdp::TunnelEventView::AcceptFailed { cause },
                language,
            );
            let undone = seq![
                rdp::TunnelActionView::AbortRelays,
                rdp::TunnelActionView::RemoveFile,
            ];
            let reason = rdp::because("accept RDP loopback connection"@, cause);
            keeps(tunnel, after) && closes_with(after, actions, undone, reason)
        }),
{
    let undone = seq![rdp::TunnelActionView::AbortRelays, rdp::TunnelActionView::RemoveFile];
    let closed = rdp::TunnelActionView::Emit(
        session::SessionEventView::Closed(
            told(language, "RDP 隧道已关闭"@, "RDP tunnel closed"@),
        ),
    );
    assert(undone.push(closed) =~= seq![
        rdp::TunnelActionView::AbortRelays,
        rdp::TunnelActionView::RemoveFile,
        closed,
    ]);
    let failed = rdp::TunnelActionView::Emit(
        session::SessionEventView::Closed(
            rdp::because("accept RDP loopback connection"@, cause),
        ),
    );
    assert(undone.push(failed) =~= seq![
        rdp::TunnelActionView::AbortRelays,
        rdp::TunnelActionView::RemoveFile,
        failed,
    ]);
}

/// Law: a session can be told of every outcome of what it asked for and, while it serves, of every
/// command and connection, with any contents; of nothing else, and of nothing once it has ended.
pub proof fn sessions_are_told_every_outcome(phase: rdp::PhaseView, event: rdp::TunnelEventView)
    ensures
        event is Listening || event is ListenFailed || event is AddressFailed ==> (rdp::expects(
            phase,
            event,
        ) <==> phase is Listening),
        event is FileWritten || event is FileFailed ==> (rdp::expects(phase, event) <==> phase
            is WritingFile),
        event is ClientOpened || event is ClientFailed ==> (rdp::expects(phase, event) <==> phase
            is OpeningClient),
        event is Command || event is CommandsEnded || event is Accepted || event is AcceptFailed
            ==> (rdp::expects(phase, event) <==> phase is Serving),
{
}

/// Law: the contents of what a session tells are all that it tells.
pub proof fn told_events_are_seen_whole(s: String)
    ensures
        session::SessionEvent::Status(s)@ == session::SessionEventView::Status(s@),
        session::SessionEvent::Connected@ == session::SessionEventView::Connected,
        session::SessionEvent::Output(s)@ == session::SessionEventView::Output(s@),
        session::SessionEvent::Closed(s)@ == session::SessionEventView::Closed(s@),
{
}

/// Law: the contents of what a tunnel asks for are all that it asks for, one by one and in order.
pub proof fn actions_are_seen_whole(
    actions: Seq<rdp::TunnelAction>,
    address: &'static str,
    text: String,
    port: u16,
    event: session::SessionEvent,
)
    ensures
        rdp::actions_of(actions).len() == actions.len(),
        forall|i: int|
            0 <= i < actions.len() ==> #[trigger] rdp::actions_of(actions)[i] == actions[i]@,
        (rdp::TunnelAction::Listen { address })@ == (rdp::TunnelActionView::Listen {
            address: address@,
        }),
        (rdp::TunnelAction::WriteFile { body: text })@ == (rdp::TunnelActionView::WriteFile {
            body: text@,
        }),
        (rdp::TunnelAction::OpenClient { local_port: port, user: text })@ == (
        rdp::TunnelActionView::OpenClient { local_port: port, user: text@ }),
        rdp::TunnelAction::Emit(event)@ == rdp::TunnelActionView::Emit(event@),
        (rdp::TunnelAction::Relay { connected: event, host: text, port })@ == (
        rdp::TunnelActionView::Relay { connected: event@, host: text@, port }),
        rdp::TunnelAction::AbortRelays@ == rdp::TunnelActionView::AbortRelays,
        rdp::TunnelAction::RemoveFile@ == rdp::TunnelActionView::RemoveFile,
{
}

/// Law: the contents of what a tunnel is told are all that it is told.
pub proof fn events_are_seen_whole(
    text: String,
    cause: String,
    local_port: u16,
    command: session::SessionCommand,
)
    ensures
        (rdp::TunnelEvent::Listening { address: text, local_port })@ == (
        rdp::TunnelEventView::Listening { address: text@, local_port }),
        (rdp::TunnelEvent::ListenFailed { cause })@ == (rdp::TunnelEventView::ListenFailed {
            cause: cause@,
        }),
        (rdp::TunnelEvent::AddressFailed { cause })@ == (rdp::TunnelEventView::AddressFailed {
            cause: cause@,
        }),
        rdp::TunnelEvent::FileWritten@ == rdp::TunnelEventView::FileWritten,
        (rdp::TunnelEvent::FileFailed { path: text, cause })@ == (
        rdp::TunnelEventView::FileFailed { path: text@, cause: cause@ }),
        rdp::TunnelEvent::ClientOpened@ == rdp::TunnelEventView::ClientOpened,
        (rdp::TunnelEvent::ClientFailed { cause })@ == (rdp::TunnelEventView::ClientFailed {
            cause: cause@,
        }),
        rdp::TunnelEvent::Command(command)@ == rdp::TunnelEventView::Command(command),
        rdp::TunnelEvent::CommandsEnded@ == rdp::TunnelEventView::CommandsEnded,
        (rdp::TunnelEvent::Accepted { peer: text })@ == (rdp::TunnelEventView::Accepted {
            peer: text@,
        }),
        (rdp::TunnelEvent::AcceptFailed { cause })@ == (rdp::TunnelEventView::AcceptFailed {
            cause: cause@,
        }),
{
}

} // verus!
