use meatshell::i18n::{t, Language};
use meatshell::launcher::{
    client_arguments, Arguments, Launch, LaunchAction, LaunchEvent, Platform,
};
use meatshell::rdp::{
    effective_port, relay_failed, relay_stage, route, RelayStage, Tunnel, TunnelAction, TunnelEvent,
    DEFAULT_RDP_PORT, LOOPBACK,
};
use meatshell::rdp_file::{clean_rdp_value, new_rdp_file_name, rdp_file_body, rdp_file_name};
use meatshell::session::{Secret, Session, SessionCommand, SessionEvent, SessionKind};

const EN: Language = Language::English;
const ZH: Language = Language::Chinese;

fn session() -> Session {
    let mut session = Session::new_empty();
    session.kind = SessionKind::Rdp;
    session.host = " 10.0.0.7 ".into();
    session.user = "admin".into();
    session
}

fn shown(actions: &[TunnelAction]) -> Vec<String> {
    actions.iter().map(|a| format!("{a:?}")).collect()
}

#[test]
fn rdp_file_points_to_loopback_and_omits_password() {
    let mut session = Session::new_empty();
    session.kind = SessionKind::Rdp;
    session.host = "10.0.0.7".into();
    session.port = DEFAULT_RDP_PORT;
    session.user = "admin".into();
    session.password = Secret::new("do-not-write");

    let body = rdp_file_body(&session, 49152);
    assert!(body.contains("full address:s:127.0.0.1:49152"));
    assert!(body.contains("username:s:admin"));
    assert!(!body.contains("10.0.0.7"));
    assert!(!body.contains("do-not-write"));
}

#[test]
fn rdp_values_strip_line_breaks() {
    assert_eq!(clean_rdp_value("domain\\user\r\nx"), "domain\\userx");
}

#[test]
fn the_file_has_its_lines_alone() {
    let mut session = Session::new_empty();
    session.user = "a\r\nfull address:s:evil\nb".into();
    let body = rdp_file_body(&session, 1);
    assert_eq!(
        body,
        "screen mode id:i:2\r\nuse multimon:i:0\r\ndesktopwidth:i:1440\r\ndesktopheight:i:900\r\n\
         session bpp:i:32\r\nfull address:s:127.0.0.1:1\r\nprompt for credentials:i:1\r\n\
         promptcredentialonce:i:0\r\nauthentication level:i:2\r\nredirectclipboard:i:1\r\n\
         redirectprinters:i:0\r\nredirectsmartcards:i:0\r\naudiomode:i:0\r\n\
         username:s:afull address:s:evilb\r\n"
    );
    assert_eq!(body.lines().count(), 14);
}

#[test]
fn the_file_omits_an_empty_user() {
    let mut session = Session::new_empty();
    session.user = "\r\n".into();
    let body = rdp_file_body(&session, 65535);
    assert!(!body.contains("username"));
    assert_eq!(body.lines().count(), 13);
    assert!(body.ends_with("audiomode:i:0\r\n"));
}

#[test]
fn the_file_tells_only_the_user() {
    let mut one = session();
    one.password = Secret::new("secret");
    let mut other = Session::new_empty();
    other.user = "admin".into();
    other.port = 1;
    assert_eq!(rdp_file_body(&one, 5), rdp_file_body(&other, 5));
}

#[test]
fn new_files_have_names_of_their_own() {
    let one = new_rdp_file_name();
    let other = new_rdp_file_name();
    assert_ne!(one, other);
    let id = one
        .strip_prefix("meatshell-rdp-")
        .and_then(|s| s.strip_suffix(".rdp"))
        .unwrap();
    assert_eq!(id.len(), 36);
    for (i, c) in id.chars().enumerate() {
        match i {
            8 | 13 | 18 | 23 => assert_eq!(c, '-'),
            14 => assert_eq!(c, '4'),
            19 => assert!("89ab".contains(c)),
            _ => assert!(c.is_ascii_digit() || ('a'..='f').contains(&c)),
        }
    }
    assert_eq!(rdp_file_name(id), one);
}

#[test]
fn freerdp_is_given_the_local_port_and_the_user() {
    assert_eq!(
        client_arguments(49152, "ad\nmin"),
        [
            "/v:127.0.0.1:49152",
            "/dynamic-resolution",
            "/clipboard",
            "/u:admin"
        ]
    );
    assert_eq!(
        client_arguments(7, "\r\n"),
        ["/v:127.0.0.1:7", "/dynamic-resolution", "/clipboard"]
    );
}

#[test]
fn unix_tries_each_freerdp_and_then_opens_the_file() {
    let (launch, action) = Launch::begin(Platform::Unix, "/tmp/x.rdp", 5, "u");
    match action {
        LaunchAction::Spawn {
            program,
            arguments: Arguments::List(list),
        } => {
            assert_eq!(program, "xfreerdp");
            assert_eq!(list, client_arguments(5, "u"));
        }
        a => panic!("{a:?}"),
    }
    let missing = || LaunchEvent::NotFound {
        cause: "missing".into(),
    };
    let (launch, action) = launch.step(missing());
    match action {
        LaunchAction::Spawn {
            program,
            arguments: Arguments::List(list),
        } => {
            assert_eq!(program, "wlfreerdp");
            assert_eq!(list, client_arguments(5, "u"));
        }
        a => panic!("{a:?}"),
    }
    let (launch, action) = launch.step(missing());
    match action {
        LaunchAction::Spawn {
            program,
            arguments: Arguments::RdpFile,
        } => assert_eq!(program, "xdg-open"),
        a => panic!("{a:?}"),
    }
    let (_, action) = launch.step(missing());
    match action {
        LaunchAction::GiveUp { message } => assert_eq!(message, "xdg-open /tmp/x.rdp: missing"),
        a => panic!("{a:?}"),
    }
}

#[test]
fn a_client_that_runs_ends_the_launch() {
    let (launch, _) = Launch::begin(Platform::Unix, "f", 5, "u");
    let (_, action) = launch.step(LaunchEvent::Spawned);
    assert!(matches!(action, LaunchAction::Opened));
}

#[test]
fn a_freerdp_that_fails_ends_the_launch() {
    let (launch, _) = Launch::begin(Platform::Unix, "f", 5, "u");
    let (_, action) = launch.step(LaunchEvent::Failed {
        cause: "denied".into(),
    });
    match action {
        LaunchAction::GiveUp { message } => assert_eq!(message, "launch xfreerdp: denied"),
        a => panic!("{a:?}"),
    }
}

#[test]
fn other_platforms_open_the_file() {
    for (platform, opener) in [(Platform::MacOs, "open"), (Platform::Windows, "mstsc")] {
        let (launch, action) = Launch::begin(platform, "f.rdp", 5, "u");
        match action {
            LaunchAction::Spawn {
                program,
                arguments: Arguments::RdpFile,
            } => assert_eq!(program, opener),
            a => panic!("{a:?}"),
        }
        let (_, action) = launch.step(LaunchEvent::Failed {
            cause: "denied".into(),
        });
        match action {
            LaunchAction::GiveUp { message } => {
                assert_eq!(message, format!("{opener} f.rdp: denied"))
            }
            a => panic!("{a:?}"),
        }
    }
    let (_, action) = Launch::begin(Platform::Other, "f.rdp", 5, "u");
    match action {
        LaunchAction::GiveUp { message } => {
            assert_eq!(message, "no RDP launcher is available on this platform")
        }
        a => panic!("{a:?}"),
    }
}

#[test]
fn texts_follow_the_language() {
    assert_eq!(t(EN, "目标", "Target"), "Target");
    assert_eq!(t(ZH, "目标", "Target"), "目标");
    assert_eq!(route(EN, None), "direct");
    assert_eq!(route(ZH, Some("socks5://p:1")), "代理 socks5://p:1");
}

#[test]
fn port_zero_is_the_usual_port() {
    assert_eq!(effective_port(0), 3389);
    assert_eq!(effective_port(4000), 4000);
}

#[test]
fn a_session_runs_from_listening_to_closed() {
    let session = session();
    let (tunnel, actions) = Tunnel::begin(&session, None, EN);
    assert!(matches!(&actions[..], [TunnelAction::Listen { address: LOOPBACK }]));
    assert_eq!(LOOPBACK, "127.0.0.1");
    let (tunnel, actions) = tunnel.step(
        TunnelEvent::Listening {
            address: "127.0.0.1:49152".into(),
            local_port: 49152,
        },
        EN,
    );
    match &actions[..] {
        [TunnelAction::WriteFile { body }] => assert_eq!(*body, rdp_file_body(&session, 49152)),
        a => panic!("{a:?}"),
    }
    let (tunnel, actions) = tunnel.step(TunnelEvent::FileWritten, EN);
    match &actions[..] {
        [TunnelAction::Emit(SessionEvent::Status(status)), TunnelAction::OpenClient { local_port, user }] =>
        {
            assert_eq!(status, "RDP tunnel ready 127.0.0.1:49152 → 10.0.0.7:3389");
            assert_eq!(*local_port, 49152);
            assert_eq!(user, "admin");
        }
        a => panic!("{a:?}"),
    }
    let (tunnel, actions) = tunnel.step(TunnelEvent::ClientOpened, EN);
    match &actions[..] {
        [TunnelAction::Emit(SessionEvent::Connected), TunnelAction::Emit(SessionEvent::Output(output))] => {
            assert_eq!(
                output,
                "\r\nOpened the system RDP client. The desktop is shown in the external window; closing this tab stops the local tunnel.\r\nTarget: 10.0.0.7:3389\r\nRoute: direct\r\nLocal endpoint: 127.0.0.1:49152\r\n\r\n"
            )
        }
        a => panic!("{a:?}"),
    }
    let (tunnel, actions) = tunnel.step(
        TunnelEvent::Accepted {
            peer: "127.0.0.1:5000".into(),
        },
        EN,
    );
    match &actions[..] {
        [TunnelAction::Relay {
            connected: SessionEvent::Status(status),
            host,
            port,
        }] => {
            assert_eq!(
                status,
                "RDP client connected 127.0.0.1:5000 → 10.0.0.7:3389"
            );
            assert_eq!(host, "10.0.0.7");
            assert_eq!(*port, 3389);
        }
        a => panic!("{a:?}"),
    }
    let (tunnel, actions) = tunnel.step(
        TunnelEvent::Command(SessionCommand::RawInput(vec![1])),
        ZH,
    );
    match &actions[..] {
        [TunnelAction::Emit(SessionEvent::Status(status))] => {
            assert_eq!(status, "RDP 会话在外部窗口中运行")
        }
        a => panic!("{a:?}"),
    }
    let (tunnel, actions) = tunnel.step(TunnelEvent::Command(SessionCommand::Resize(80, 25)), EN);
    assert!(actions.is_empty());
    assert!(!tunnel.has_ended());
    let (tunnel, actions) = tunnel.step(TunnelEvent::Command(SessionCommand::Close), EN);
    assert!(tunnel.has_ended());
    assert_eq!(
        shown(&actions),
        [
            "AbortRelays",
            "RemoveFile",
            "Emit(Closed(\"RDP tunnel closed\"))"
        ]
    );
}

fn serving(session: &Session) -> Tunnel<'_> {
    let (tunnel, _) = Tunnel::begin(session, Some("p"), EN);
    let (tunnel, _) = tunnel.step(
        TunnelEvent::Listening {
            address: "a".into(),
            local_port: 1,
        },
        EN,
    );
    let (tunnel, _) = tunnel.step(TunnelEvent::FileWritten, EN);
    let (tunnel, _) = tunnel.step(TunnelEvent::ClientOpened, EN);
    tunnel
}

#[test]
fn a_session_ends_when_no_more_commands_come() {
    let session = session();
    let (tunnel, actions) = serving(&session).step(TunnelEvent::CommandsEnded, ZH);
    assert!(tunnel.has_ended());
    assert_eq!(
        shown(&actions),
        [
            "AbortRelays",
            "RemoveFile",
            "Emit(Closed(\"RDP 隧道已关闭\"))"
        ]
    );
}

#[test]
fn a_session_ends_when_no_connection_can_be_accepted() {
    let session = session();
    let (tunnel, actions) = serving(&session).step(
        TunnelEvent::AcceptFailed {
            cause: "gone".into(),
        },
        EN,
    );
    assert!(tunnel.has_ended());
    assert_eq!(
        shown(&actions),
        [
            "AbortRelays",
            "RemoveFile",
            "Emit(Closed(\"accept RDP loopback connection: gone\"))"
        ]
    );
}

#[test]
fn a_session_without_a_host_is_closed_at_once() {
    let mut session = session();
    session.host = " \t".into();
    let (tunnel, actions) = Tunnel::begin(&session, None, EN);
    assert!(tunnel.has_ended());
    assert_eq!(shown(&actions), ["Emit(Closed(\"RDP host is empty\"))"]);
}

#[test]
fn a_session_that_cannot_be_set_up_says_why() {
    let session = session();
    let begin = || Tunnel::begin(&session, None, EN).0;
    let (tunnel, actions) = begin().step(
        TunnelEvent::ListenFailed {
            cause: "busy".into(),
        },
        EN,
    );
    assert!(tunnel.has_ended());
    assert_eq!(
        shown(&actions),
        ["Emit(Closed(\"bind RDP loopback tunnel: busy\"))"]
    );
    let (_, actions) = begin().step(TunnelEvent::AddressFailed { cause: "x".into() }, EN);
    assert_eq!(
        shown(&actions),
        ["Emit(Closed(\"read RDP loopback tunnel address: x\"))"]
    );
    let listening = || {
        begin()
            .step(
                TunnelEvent::Listening {
                    address: "a".into(),
                    local_port: 1,
                },
                EN,
            )
            .0
    };
    let (_, actions) = listening().step(
        TunnelEvent::FileFailed {
            path: "/tmp/f".into(),
            cause: "full".into(),
        },
        EN,
    );
    assert_eq!(
        shown(&actions),
        ["Emit(Closed(\"write /tmp/f: full\"))"]
    );
    let (tunnel, _) = listening().step(TunnelEvent::FileWritten, EN);
    let (tunnel, actions) = tunnel.step(
        TunnelEvent::ClientFailed {
            cause: "launch xfreerdp: denied".into(),
        },
        EN,
    );
    assert!(tunnel.has_ended());
    assert_eq!(
        shown(&actions),
        [
            "RemoveFile",
            "Emit(Closed(\"failed to launch system RDP client: launch xfreerdp: denied\"))"
        ]
    );
}

#[test]
fn a_relay_that_fails_says_where() {
    let text = |stage| match relay_failed(EN, stage, "h", 1, "refused") {
        SessionEvent::Status(s) => s,
        e => panic!("{e:?}"),
    };
    assert_eq!(
        text(RelayStage::ProxyConnect),
        "RDP tunnel error: proxy connect to h:1 failed: refused"
    );
    assert_eq!(
        text(RelayStage::Connect),
        "RDP tunnel error: connect h:1 failed: refused"
    );
    assert_eq!(
        text(RelayStage::Copy),
        "RDP tunnel error: RDP relay failed: refused"
    );
}

#[test]
fn a_tunnel_awaits_what_can_reach_it() {
    let session = session();
    let (tunnel, _) = Tunnel::begin(&session, None, EN);
    assert!(tunnel.awaits(&TunnelEvent::ListenFailed { cause: "no".into() }));
    assert!(!tunnel.awaits(&TunnelEvent::CommandsEnded));

    let tunnel = serving(&session);
    assert!(tunnel.awaits(&TunnelEvent::Command(SessionCommand::Close)));
    assert!(tunnel.awaits(&TunnelEvent::Accepted { peer: "p".into() }));
    assert!(!tunnel.awaits(&TunnelEvent::FileWritten));

    let (tunnel, _) = tunnel.step(TunnelEvent::CommandsEnded, EN);
    assert!(!tunnel.awaits(&TunnelEvent::CommandsEnded));
}

#[test]
fn a_launch_is_over_when_it_asks_for_no_program() {
    let (launch, _) = Launch::begin(Platform::Windows, "f.rdp", 1, "");
    assert!(!launch.is_over());
    let (launch, _) = launch.step(LaunchEvent::Spawned);
    assert!(launch.is_over());
    let (launch, _) = Launch::begin(Platform::Other, "f.rdp", 1, "");
    assert!(launch.is_over());
}

#[test]
fn a_relay_connects_through_the_proxy_or_directly() {
    assert_eq!(relay_stage(true), RelayStage::ProxyConnect);
    assert_eq!(relay_stage(false), RelayStage::Connect);
}

#[test]
fn passwords_play_no_part_in_a_session() {
    let one = session();
    let mut other = session();
    other.password = Secret::new("secret");
    let mut asked: Vec<Vec<String>> = Vec::new();
    for session in [&one, &other] {
        let mut told: Vec<String> = Vec::new();
        let (tunnel, actions) = Tunnel::begin(session, None, EN);
        told.extend(shown(&actions));
        let listening = TunnelEvent::Listening {
            address: "a".into(),
            local_port: 1,
        };
        let (tunnel, actions) = tunnel.step(listening, EN);
        told.extend(shown(&actions));
        let (_, actions) = tunnel.step(TunnelEvent::FileWritten, EN);
        told.extend(shown(&actions));
        asked.push(told);
    }
    assert_eq!(asked[0], asked[1]);
    assert!(asked.iter().flatten().all(|a| !a.contains("secret")));
}
