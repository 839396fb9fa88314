//! Launching the platform's RDP client.

use vstd::prelude::*;
use vstd::string::StringExecFns;

use crate::rdp_file;
use crate::rdp_file::clean_rdp_value;
use crate::text;
use crate::text::decimal;

verus! {

/// The platforms that differ in how an RDP client is launched.
#[derive(Debug, Clone, Copy, PartialEq, Eq, Structural)]
pub enum Platform {
    MacOs,
    Windows,
    /// Unix, but not macOS.
    Unix,
    Other,
}

/// What a program is given: the `.rdp` file, or a list of arguments.
#[derive(Debug)]
pub enum Arguments {
    RdpFile,
    List(Vec<String>),
}

/// What a launch asks for.
#[derive(Debug)]
pub enum LaunchAction {
    Spawn { program: String, arguments: Arguments },
    /// Nothing more: a client is running.
    Opened,
    /// Nothing more: no client could be launched, for this reason.
    GiveUp { message: String },
}

/// What came of the last program.
#[derive(Debug)]
pub enum LaunchEvent {
    Spawned,
    /// There is no such program.
    NotFound { cause: String },
    /// It could not be run for another reason.
    Failed { cause: String },
}

/// The program that is being tried.
#[derive(Debug, Clone, Copy, PartialEq, Eq, Structural)]
pub enum Attempt {
    XFreeRdp,
    WlFreeRdp,
    /// The program with which the platform opens a file.
    Opener,
    /// None any more.
    Over,
}

/// A launch under way.
#[derive(Debug)]
pub struct Launch {
    platform: Platform,
    path: String,
    local_port: u16,
    user: String,
    attempt: Attempt,
}

/// The contents of [`Arguments`].
pub enum ArgumentsView {
    RdpFile,
    List(Seq<Seq<char>>),
}

/// The contents of a [`LaunchAction`].
pub enum LaunchActionView {
    Spawn { program: Seq<char>, arguments: ArgumentsView },
    Opened,
    GiveUp { message: Seq<char> },
}

/// The contents of a [`LaunchEvent`].
pub enum LaunchEventView {
    Spawned,
    NotFound { cause: Seq<char> },
    Failed { cause: Seq<char> },
}

/// The contents of a [`Launch`].
pub struct LaunchView {
    pub platform: Platform,
    pub path: Seq<char>,
    pub local_port: u16,
    pub user: Seq<char>,
    pub attempt: Attempt,
}

impl View for Arguments {
    type V = ArgumentsView;

    open spec fn view(&self) -> ArgumentsView {
        match self {
            Arguments::RdpFile => ArgumentsView::RdpFile,
            Arguments::List(list) => ArgumentsView::List(text::texts(list@)),
        }
    }
}

impl View for LaunchAction {
    type V = LaunchActionView;

    open spec fn view(&self) -> LaunchActionView {
        match self {
            LaunchAction::Spawn { program, arguments } => LaunchActionView::Spawn {
                program: program@,
                arguments: arguments@,
            },
            LaunchAction::Opened => LaunchActionView::Opened,
            LaunchAction::GiveUp { message } => LaunchActionView::GiveUp { message: message@ },
        }
    }
}

impl View for LaunchEvent {
    type V = LaunchEventView;

    open spec fn view(&self) -> LaunchEventView {
        match self {
            LaunchEvent::Spawned => LaunchEventView::Spawned,
            LaunchEvent::NotFound { cause } => LaunchEventView::NotFound { cause: cause@ },
            LaunchEvent::Failed { cause } => LaunchEventView::Failed { cause: cause@ },
        }
    }
}

impl View for Launch {
    type V = LaunchView;

    closed spec fn view(&self) -> LaunchView {
        LaunchView {
            platform: self.platform,
            path: self.path@,
            local_port: self.local_port,
            user: self.user@,
            attempt: self.attempt,
        }
    }
}

// ---------------------------------------------------------------------------
// The course of a launch

/// The arguments of FreeRDP for the local port of a tunnel and a user.
pub open spec fn client_arguments_of(local_port: nat, user: Seq<char>) -> Seq<Seq<char>> {
    let arguments = seq![
        "/v:127.0.0.1:"@ + text::decimal_of(local_port),
        "/dynamic-resolution"@,
        "/clipboard"@,
    ];
    let user = rdp_file::cleaned(user);
    if user.len() == 0 {
        arguments
    } else {
        arguments.push("/u:"@ + user)
    }
}

/// The program of an attempt.
pub open spec fn program_of(platform: Platform, attempt: Attempt) -> Seq<char> {
    match attempt {
        Attempt::XFreeRdp => "xfreerdp"@,
        Attempt::WlFreeRdp => "wlfreerdp"@,
        _ => match platform {
            Platform::MacOs => "open"@,
            Platform::Windows => "mstsc"@,
            _ => "xdg-open"@,
        },
    }
}

/// The launch tries a program.
pub open spec fn tries(launch: LaunchView, attempt: Attempt) -> (LaunchView, LaunchActionView) {
    let program = program_of(launch.platform, attempt);
    let arguments = if attempt == Attempt::Opener {
        ArgumentsView::RdpFile
    } else {
        ArgumentsView::List(client_arguments_of(launch.local_port as nat, launch.user))
    };
    (LaunchView { attempt, ..launch }, LaunchActionView::Spawn { program, arguments })
}

/// The launch ends.
pub open spec fn ends(launch: LaunchView, action: LaunchActionView) -> (
    LaunchView,
    LaunchActionView,
) {
    (LaunchView { attempt: Attempt::Over, ..launch }, action)
}

/// Why the launch gives up on the program that it tries, for a cause.
pub open spec fn failure_of(launch: LaunchView, cause: Seq<char>) -> Seq<char> {
    let program = program_of(launch.platform, launch.attempt);
    if launch.attempt == Attempt::Opener {
        program + " "@ + launch.path + ": "@ + cause
    } else {
        "launch "@ + program + ": "@ + cause
    }
}

/// How a launch begins: with FreeRDP where there may be one, else with the program that opens files.
pub open spec fn begin_launch(
    platform: Platform,
    path: Seq<char>,
    local_port: u16,
    user: Seq<char>,
) -> (LaunchView, LaunchActionView) {
    let launch = LaunchView { platform, path, local_port, user, attempt: Attempt::Over };
    match platform {
        Platform::MacOs => tries(launch, Attempt::Opener),
        Platform::Windows => tries(launch, Attempt::Opener),
        Platform::Unix => tries(launch, Attempt::XFreeRdp),
        Platform::Other => ends(
            launch,
            LaunchActionView::GiveUp {
                message: "no RDP launcher is available on this platform"@,
            },
        ),
    }
}

/// How a launch goes on: a FreeRDP that is not there is passed over, and any other failure ends it.
pub open spec fn next_launch(launch: LaunchView, event: LaunchEventView) -> (
    LaunchView,
    LaunchActionView,
) {
    match event {
        LaunchEventView::Spawned => ends(launch, LaunchActionView::Opened),
        LaunchEventView::NotFound { cause } => match launch.attempt {
            Attempt::XFreeRdp => tries(launch, Attempt::WlFreeRdp),
            Attempt::WlFreeRdp => tries(launch, Attempt::Opener),
            _ => ends(launch, LaunchActionView::GiveUp { message: failure_of(launch, cause) }),
        },
        LaunchEventView::Failed { cause } => ends(
            launch,
            LaunchActionView::GiveUp { message: failure_of(launch, cause) },
        ),
    }
}

/// The arguments of FreeRDP for the local port of a tunnel and a user.
pub fn client_arguments(local_port: u16, user: &str) -> (r: Vec<String>)
    ensures
        text::texts(r@) == client_arguments_of(local_port as nat, user@),
{
    let mut address = "/v:127.0.0.1:".to_owned();
    address.append(decimal(local_port as usize).as_str());
    let mut r: Vec<String> = Vec::new();
    r.push(address);
    r.push("/dynamic-resolution".to_owned());
    r.push("/clipboard".to_owned());
    let clean_user = clean_rdp_value(user);
    if !clean_user.as_str().is_empty() {
        let mut argument = "/u:".to_owned();
        argument.append(clean_user.as_str());
        r.push(argument);
    }
    assert(text::texts(r@) =~= client_arguments_of(local_port as nat, user@));
    r
}

/// The program of an attempt.
fn program(platform: Platform, attempt: Attempt) -> (s: &'static str)
    ensures
        s@ == program_of(platform, attempt),
{
    match attempt {
        Attempt::XFreeRdp => "xfreerdp",
        Attempt::WlFreeRdp => "wlfreerdp",
        _ => match platform {
            Platform::MacOs => "open",
            Platform::Windows => "mstsc",
            _ => "xdg-open",
        },
    }
}

impl Launch {
    /// Tries a program.
    fn attempt(self, attempt: Attempt) -> (r: (Launch, LaunchAction))
        ensures
            (r.0@, r.1@) == tries(self@, attempt),
    {
        let program = program(self.platform, attempt).to_owned();
        let arguments = if attempt == Attempt::Opener {
            Arguments::RdpFile
        } else {
            Arguments::List(client_arguments(self.local_port, self.user.as_str()))
        };
        let launch = Launch {
            platform: self.platform,
            path: self.path,
            local_port: self.local_port,
            user: self.user,
            attempt,
        };
        (launch, LaunchAction::Spawn { program, arguments })
    }

    /// Ends.
    fn end(self, action: LaunchAction) -> (r: (Launch, LaunchAction))
        ensures
            (r.0@, r.1@) == ends(self@, action@),
    {
        let launch = Launch {
            platform: self.platform,
            path: self.path,
            local_port: self.local_port,
            user: self.user,
            attempt: Attempt::Over,
        };
        (launch, action)
    }

    /// Why the launch gives up on the program that it tries.
    fn failure(&self, cause: &str) -> (s: String)
        ensures
            s@ == failure_of(self@, cause@),
    {
        let program = program(self.platform, self.attempt);
        if self.attempt == Attempt::Opener {
            let mut s = program.to_owned();
            s.append(" ");
            s.append(self.path.as_str());
            s.append(": ");
            s.append(cause);
            s
        } else {
            let mut s = "launch ".to_owned();
            s.append(program);
            s.append(": ");
            s.append(cause);
            s
        }
    }

    /// Begins to launch a client for the `.rdp` file at `path`, which points at the local port.
    /// Returns the launch and what it asks for first.
    pub fn begin(platform: Platform, path: &str, local_port: u16, user: &str) -> (r: (
        Launch,
        LaunchAction,
    ))
        ensures
            (r.0@, r.1@) == begin_launch(platform, path@, local_port, user@),
    {
        let launch = Launch {
            platform,
            path: path.to_owned(),
            local_port,
            user: user.to_owned(),
            attempt: Attempt::Over,
        };
        match platform {
            Platform::MacOs => launch.attempt(Attempt::Opener),
            Platform::Windows => launch.attempt(Attempt::Opener),
            Platform::Unix => launch.attempt(Attempt::XFreeRdp),
            Platform::Other => {
                let message = "no RDP launcher is available on this platform".to_owned();
                launch.end(LaunchAction::GiveUp { message })
            },
        }
    }

    /// Whether there is nothing more to try.
    pub fn is_over(&self) -> (r: bool)
        ensures
            r == (self@.attempt == Attempt::Over),
    {
        self.attempt == Attempt::Over
    }

    /// Goes on after `event`, the outcome of the program that was tried last: returns the launch and
    /// what it asks for next.
    pub fn step(self, event: LaunchEvent) -> (r: (Launch, LaunchAction))
        requires
            self@.attempt != Attempt::Over,
        ensures
            (r.0@, r.1@) == next_launch(self@, event@),
    {
        match event {
            LaunchEvent::Spawned => self.end(LaunchAction::Opened),
            LaunchEvent::NotFound { cause } => match self.attempt {
                Attempt::XFreeRdp => self.attempt(Attempt::WlFreeRdp),
                Attempt::WlFreeRdp => self.attempt(Attempt::Opener),
                _ => {
                    let message = self.failure(cause.as_str());
                    self.end(LaunchAction::GiveUp { message })
                },
            },
            LaunchEvent::Failed { cause } => {
                let message = self.failure(cause.as_str());
                self.end(LaunchAction::GiveUp { message })
            },
        }
    }
}

// ---------------------------------------------------------------------------
// What holds of every launch

/// How many programs the launch may still try, the one that it tries included.
pub open spec fn attempts_left(attempt: Attempt) -> nat {
    match attempt {
        Attempt::XFreeRdp => 3,
        Attempt::WlFreeRdp => 2,
        Attempt::Opener => 1,
        Attempt::Over => 0,
    }
}

/// Law: every launch ends. Each outcome leaves fewer programs to try, and a launch is over exactly
/// where it asks for no further program.
pub proof fn launches_end(launch: LaunchView, event: LaunchEventView)
    requires
        launch.attempt != Attempt::Over,
    ensures
        ({
            let (after, action) = next_launch(launch, event);
            &&& attempts_left(after.attempt) < attempts_left(launch.attempt)
            &&& after.attempt == Attempt::Over <==> !(action is Spawn)
        }),
{
}

/// Law: a client that was spawned ends the launch, and no other outcome reports one.
pub proof fn launches_open_one_client(launch: LaunchView, event: LaunchEventView)
    ensures
        next_launch(launch, event).1 is Opened <==> event is Spawned,
{
}

/// Law: a launch for one tunnel never asks for another: its file, port and user stay what they are.
pub proof fn launches_keep_their_target(launch: LaunchView, event: LaunchEventView)
    ensures
        next_launch(launch, event).0 == (LaunchView {
            attempt: next_launch(launch, event).0.attempt,
            ..launch
        }),
{
}

/// Law: FreeRDP is given the loopback address with the local port, then how to show the desktop and
/// that the clipboard is shared. Where the cleaned name of the user is not empty, the whole of it
/// follows; where it is empty, nothing does.
pub proof fn freerdp_is_given_port_and_user(local_port: nat, user: Seq<char>)
    ensures
        ({
            let given = client_arguments_of(local_port, user);
            let name = rdp_file::cleaned(user);
            &&& given.len() == if name.len() > 0 {
                4nat
            } else {
                3nat
            }
            &&& given[0] == "/v:127.0.0.1:"@ + text::decimal_of(local_port)
            &&& given[1] == "/dynamic-resolution"@
            &&& given[2] == "/clipboard"@
            &&& name.len() > 0 ==> given[3] == "/u:"@ + name
        }),
{
}

/// Law: a launch begins with a program on every platform that has one, whatever the file, the port and
/// the user, no user included: with FreeRDP on Unix, and with the opener and the file on macOS and
/// Windows. Elsewhere it gives up at once.
pub proof fn launches_begin_with_a_program(path: Seq<char>, local_port: u16, user: Seq<char>)
    ensures
        ({
            let (launch, action) = begin_launch(Platform::Unix, path, local_port, user);
            &&& action == (LaunchActionView::Spawn {
                program: "xfreerdp"@,
                arguments: ArgumentsView::List(client_arguments_of(local_port as nat, user)),
            })
            &&& launch.platform == Platform::Unix
            &&& launch.path == path && launch.local_port == local_port && launch.user == user
            &&& launch.attempt == Attempt::XFreeRdp
        }),
        ({
            let (launch, action) = begin_launch(Platform::MacOs, path, local_port, user);
            &&& action == (LaunchActionView::Spawn {
                program: "open"@,
                arguments: ArgumentsView::RdpFile,
            })
            &&& launch.platform == Platform::MacOs
            &&& launch.path == path && launch.local_port == local_port && launch.user == user
            &&& launch.attempt == Attempt::Opener
        }),
        ({
            let (launch, action) = begin_launch(Platform::Windows, path, local_port, user);
            &&& action == (LaunchActionView::Spawn {
                program: "mstsc"@,
                arguments: ArgumentsView::RdpFile,
            })
            &&& launch.platform == Platform::Windows
            &&& launch.path == path && launch.local_port == local_port && launch.user == user
            &&& launch.attempt == Attempt::Opener
        }),
        ({
            let (launch, action) = begin_launch(Platform::Other, path, local_port, user);
            &&& action == (LaunchActionView::GiveUp {
                message: "no RDP launcher is available on this platform"@,
            })
            &&& launch.attempt == Attempt::Over
        }),
{
}

/// Law: a program that is running ends the launch, whichever it is. A FreeRDP that is not there is
/// followed by the other one, with the same arguments, and that one by the opener with the file.
pub proof fn missing_clients_are_passed_over(launch: LaunchView, cause: Seq<char>)
    requires
        launch.platform == Platform::Unix,
    ensures
        ({
            let missing = LaunchEventView::NotFound { cause };
            let (first, second, third) = (
                LaunchView { attempt: Attempt::XFreeRdp, ..launch },
                LaunchView { attempt: Attempt::WlFreeRdp, ..launch },
                LaunchView { attempt: Attempt::Opener, ..launch },
            );
            &&& next_launch(first, missing) == (
                second,
                LaunchActionView::Spawn {
                    program: "wlfreerdp"@,
                    arguments: ArgumentsView::List(
                        client_arguments_of(launch.local_port as nat, launch.user),
                    ),
                },
            )
            &&& next_launch(second, missing) == (
                third,
                LaunchActionView::Spawn {
                    program: "xdg-open"@,
                    arguments: ArgumentsView::RdpFile,
                },
            )
            &&& next_launch(launch, LaunchEventView::Spawned) == (
                LaunchView { attempt: Attempt::Over, ..launch },
                LaunchActionView::Opened,
            )
        }),
{
}

/// Law: any other failure ends the launch at once, and so does an opener that is not there. It is told
/// which program failed, an opener with the file, and the whole cause.
pub proof fn failed_clients_are_told(launch: LaunchView, cause: Seq<char>)
    ensures
        ({
            let failed = LaunchEventView::Failed { cause };
            let missing = LaunchEventView::NotFound { cause };
            let over = LaunchView { attempt: Attempt::Over, ..launch };
            let opener = LaunchView { attempt: Attempt::Opener, ..launch };
            let named = match launch.platform {
                Platform::MacOs => "open"@,
                Platform::Windows => "mstsc"@,
                _ => "xdg-open"@,
            };
            let gives_up = |message: Seq<char>| (over, LaunchActionView::GiveUp { message });
            &&& next_launch(LaunchView { attempt: Attempt::XFreeRdp, ..launch }, failed) == gives_up(
                "launch "@ + "xfreerdp"@ + (": "@ + cause),
            )
            &&& next_launch(LaunchView { attempt: Attempt::WlFreeRdp, ..launch }, failed)
                == gives_up("launch "@ + "wlfreerdp"@ + (": "@ + cause))
            &&& next_launch(opener, failed) == gives_up(
                named + " "@ + (launch.path + (": "@ + cause)),
            )
            &&& next_launch(opener, missing) == next_launch(opener, failed)
        }),
{
    assert("launch "@ + "xfreerdp"@ + ": "@ + cause =~= "launch "@ + "xfreerdp"@ + (": "@ + cause));
    assert("launch "@ + "wlfreerdp"@ + ": "@ + cause =~= "launch "@ + "wlfreerdp"@ + (": "@
        + cause));
    let named = program_of(launch.platform, Attempt::Opener);
    assert(named + " "@ + launch.path + ": "@ + cause =~= named + " "@ + (launch.path + (": "@
        + cause)));
}

/// Law: the contents of what a launch asks for, and is told, are all that they hold.
pub proof fn launches_are_seen_whole(
    program: String,
    arguments: Arguments,
    list: Vec<String>,
    message: String,
    cause: String,
)
    ensures
        (LaunchAction::Spawn { program, arguments })@ == (LaunchActionView::Spawn {
            program: program@,
            arguments: arguments@,
        }),
        LaunchAction::Opened@ == LaunchActionView::Opened,
        (LaunchAction::GiveUp { message })@ == (LaunchActionView::GiveUp { message: message@ }),
        Arguments::RdpFile@ == ArgumentsView::RdpFile,
        Arguments::List(list)@ == ArgumentsView::List(Seq::new(list@.len(), |i: int| list@[i]@)),
        LaunchEvent::Spawned@ == LaunchEventView::Spawned,
        (LaunchEvent::NotFound { cause })@ == (LaunchEventView::NotFound { cause: cause@ }),
        (LaunchEvent::Failed { cause })@ == (LaunchEventView::Failed { cause: cause@ }),
{
    assert(text::texts(list@) =~= Seq::new(list@.len(), |i: int| list@[i]@));
}

} // verus!
