//! Bringing up the backend and the main window.
//!
//! A launch starts the backend as a child process unless one is there already,
//! waits for it, opens the main window on it and closes the splash window. The
//! caller performs what [`Launch::phase`] asks for and reports the outcome.

use vstd::prelude::*;
use vstd::string::*;

use std::path::PathBuf;

use crate::address::ServerAddr;
use crate::args::apply_args;
use crate::config::load_config;
use crate::poll::PollEnd;
use crate::text::decimal_text;

verus! {

/// The label of the window that shows the user interface.
pub const MAIN_LABEL: &'static str = "main";

/// The label of the window that is shown until the backend is up.
pub const SPLASH_LABEL: &'static str = "splash";

/// The title of the main window.
pub const MAIN_TITLE: &'static str = "Rizzo PII";

/// The variable that tells the backend its host.
pub const HOST_VARIABLE: &'static str = "PII_HOST";

/// The variable that tells the backend its port.
pub const PORT_VARIABLE: &'static str = "PII_PORT";

/// What a launch asks its caller to do next.
#[derive(Clone, Copy, Debug, PartialEq, Eq)]
pub enum LaunchPhase {
    /// Take the child process that is held, if any, kill it and wait for its end.
    StopOld,
    /// Find out whether our backend answers already.
    Probe,
    /// Find the resources of the application.
    Locate,
    /// Start the backend as a child process, and hold it.
    Spawn,
    /// Poll until the backend answers or will not.
    Poll,
    /// Open the main window.
    OpenMain,
    /// Close the splash window.
    CloseSplash,
    Finished,
}

/// A launch, between two reports of its caller.
#[derive(Clone, Copy, Debug, PartialEq, Eq)]
pub struct Launch {
    pub phase: LaunchPhase,
    /// Whether a child process is held.
    pub holds_child: bool,
}

/// What a launch works with: the address that it uses throughout, and its first step.
#[derive(Debug)]
pub struct Startup {
    pub addr: ServerAddr,
    pub launch: Launch,
}

/// The command that starts the backend: the program, and variables that are added
/// to its environment.
#[derive(Debug)]
pub struct SidecarCommand {
    pub program: PathBuf,
    pub env: Vec<(String, String)>,
}

/// The main window: what it shows, and its sizes in logical pixels.
#[derive(Debug)]
pub struct MainWindow {
    pub label: &'static str,
    pub title: &'static str,
    pub url: String,
    pub width: u32,
    pub height: u32,
    pub min_width: u32,
    pub min_height: u32,
}

/// The first launch, at the start of the application: no child process yet.
pub open spec fn first_launch() -> Launch {
    Launch { phase: LaunchPhase::Probe, holds_child: false }
}

/// A launch that replaces an earlier one.
pub open spec fn renewed_launch(holds_child: bool) -> Launch {
    Launch { phase: LaunchPhase::StopOld, holds_child }
}

/// The launch once no child process of an earlier one is left.
pub open spec fn after_stop(l: Launch) -> Launch {
    Launch { phase: LaunchPhase::Probe, holds_child: false }
}

/// The launch once it is known whether our backend answers already.
pub open spec fn after_probe(l: Launch, ours: bool) -> Launch {
    Launch {
        phase: if ours {
            LaunchPhase::Poll
        } else {
            LaunchPhase::Locate
        },
        ..l
    }
}

/// The launch once the resources were looked for.
pub open spec fn after_locate(l: Launch, found: bool) -> Launch {
    Launch {
        phase: if found {
            LaunchPhase::Spawn
        } else {
            LaunchPhase::Poll
        },
        ..l
    }
}

/// The launch once the start of the backend was tried.
pub open spec fn after_spawn(l: Launch, started: bool) -> Launch {
    Launch { phase: LaunchPhase::Poll, holds_child: l.holds_child || started }
}

/// The launch once the poll has ended. A child process that has ended is no longer
/// held.
pub open spec fn after_poll(l: Launch, end: PollEnd) -> Launch {
    match end {
        PollEnd::Ready => Launch { phase: LaunchPhase::OpenMain, ..l },
        PollEnd::PortBusy => Launch { phase: LaunchPhase::Finished, holds_child: false },
        PollEnd::Exited(_) => Launch { phase: LaunchPhase::Finished, holds_child: false },
        PollEnd::TimedOut => Launch { phase: LaunchPhase::Finished, ..l },
    }
}

/// The launch once the main window was opened, or could not be.
pub open spec fn after_open(l: Launch, opened: bool) -> Launch {
    Launch {
        phase: if opened {
            LaunchPhase::CloseSplash
        } else {
            LaunchPhase::Finished
        },
        ..l
    }
}

/// The launch once the splash window is closed.
pub open spec fn after_close(l: Launch) -> Launch {
    Launch { phase: LaunchPhase::Finished, ..l }
}

/// The texts of variables and their values.
pub open spec fn env_texts(env: Seq<(String, String)>) -> Seq<(Seq<char>, Seq<char>)> {
    env.map_values(|variable: (String, String)| (variable.0@, variable.1@))
}

/// The variables that tell the backend its address.
pub open spec fn sidecar_env(addr: (Seq<char>, u16)) -> Seq<(Seq<char>, Seq<char>)> {
    seq![
        (HOST_VARIABLE@, addr.0),
        (PORT_VARIABLE@, crate::text::decimal(addr.1 as nat)),
    ]
}

/// The script that shows the version of the application in the splash window.
pub open spec fn version_script_text(version: Seq<char>) -> Seq<char> {
    "var v=document.getElementById('ver');if(v){v.textContent='v"@ + version + "';};"@
}

/// What the application starts with. `saved` is the content of the configuration
/// file, if it can be read; the command line takes precedence over it.
pub fn run(saved: Option<&str>, args: &Vec<String>) -> (startup: Startup)
    ensures
        startup.addr@ == crate::args::overridden(
            match saved {
                Some(text) => crate::config::addr_in(text@),
                None => crate::address::default_addr(),
            },
            crate::args::texts(args@),
            1,
        ),
        startup.launch == first_launch(),
        startup.launch.wf(),
{
    let addr = apply_args(load_config(saved), args);
    Startup { addr, launch: Launch { phase: LaunchPhase::Probe, holds_child: false } }
}

/// Starts over on the current address: ends the child process that is held, if any,
/// then launches anew.
pub fn retry_backend(current: &ServerAddr, holds_child: bool) -> (startup: Startup)
    ensures
        startup.addr@ == current@,
        startup.launch == renewed_launch(holds_child),
        startup.launch.wf(),
{
    Startup {
        addr: current.clone(),
        launch: Launch { phase: LaunchPhase::StopOld, holds_child },
    }
}

/// The command that starts the backend `exe` on `host` and `port`. The backend reads
/// back the same port.
pub fn spawn_sidecar(exe: PathBuf, host: &str, port: u16) -> (command: SidecarCommand)
    ensures
        command.program == exe,
        env_texts(command.env@) == sidecar_env((host@, port)),
        command.env@.len() == 2,
        crate::text::parsed_port(command.env@[1].1@) == Some(port),
{
    let port_text = decimal_text(port as u64);
    let mut env: Vec<(String, String)> = Vec::new();
    env.push((HOST_VARIABLE.to_owned(), host.to_owned()));
    env.push((PORT_VARIABLE.to_owned(), port_text));
    proof {
        crate::text::port_reads_back(port);
        assert(env_texts(env@) =~= sidecar_env((host@, port)));
    }
    SidecarCommand { program: exe, env }
}

/// The main window on the user interface that the backend at `addr` serves.
pub fn main_window(addr: &ServerAddr) -> (window: MainWindow)
    ensures
        window.label@ == MAIN_LABEL@,
        window.title@ == MAIN_TITLE@,
        window.url@ == crate::address::url_text(addr@),
        window.width == 1240,
        window.height == 840,
        window.min_width == 900,
        window.min_height == 600,
{
    MainWindow {
        label: MAIN_LABEL,
        title: MAIN_TITLE,
        url: addr.url(),
        width: 1240,
        height: 840,
        min_width: 900,
        min_height: 600,
    }
}

/// The script that shows the version of the application in the splash window.
pub fn version_script(version: &str) -> (script: String)
    ensures
        script@ == version_script_text(version@),
{
    let mut script = "var v=document.getElementById('ver');if(v){v.textContent='v".to_owned();
    script.append(version);
    script.append("';};");
    script
}

impl Startup {
    /// Reports that no child process of an earlier launch is left. The launch goes on
    /// with the address that is current now: what was saved meanwhile counts.
    pub fn old_stopped(&mut self, current: &ServerAddr)
        requires
            old(self).launch.wf(),
            old(self).launch.phase is StopOld,
        ensures
            final(self).addr@ == current@,
            final(self).launch == after_stop(old(self).launch),
            final(self).launch.wf(),
    {
        self.addr = current.clone();
        self.launch.old_stopped();
    }
}

impl Launch {
    /// No child process is held before this launch starts its own: starting one
    /// never loses sight of another.
    pub open spec fn wf(self) -> bool {
        self.phase is Probe || self.phase is Locate || self.phase is Spawn ==> !self.holds_child
    }

    /// Reports that no child process of an earlier launch is left.
    pub fn old_stopped(&mut self)
        requires
            old(self).wf(),
            old(self).phase is StopOld,
        ensures
            *final(self) == after_stop(*old(self)),
            final(self).wf(),
    {
        self.phase = LaunchPhase::Probe;
        self.holds_child = false;
    }

    /// Reports whether our backend answers already.
    pub fn probed(&mut self, ours: bool)
        requires
            old(self).wf(),
            old(self).phase is Probe,
        ensures
            *final(self) == after_probe(*old(self), ours),
            final(self).wf(),
    {
        self.phase = if ours {
            LaunchPhase::Poll
        } else {
            LaunchPhase::Locate
        };
    }

    /// Reports whether the resources of the application were found.
    pub fn located(&mut self, found: bool)
        requires
            old(self).wf(),
            old(self).phase is Locate,
        ensures
            *final(self) == after_locate(*old(self), found),
            final(self).wf(),
    {
        self.phase = if found {
            LaunchPhase::Spawn
        } else {
            LaunchPhase::Poll
        };
    }

    /// Reports whether the backend was started. The launch waits for it in any case.
    pub fn spawned(&mut self, started: bool)
        requires
            old(self).wf(),
            old(self).phase is Spawn,
        ensures
            *final(self) == after_spawn(*old(self), started),
            final(self).wf(),
    {
        self.phase = LaunchPhase::Poll;
        self.holds_child = self.holds_child || started;
    }

    /// Reports how the poll has ended.
    pub fn polled(&mut self, end: PollEnd)
        requires
            old(self).wf(),
            old(self).phase is Poll,
        ensures
            *final(self) == after_poll(*old(self), end),
            final(self).wf(),
    {
        match end {
            PollEnd::Ready => {
                self.phase = LaunchPhase::OpenMain;
            },
            PollEnd::PortBusy => {
                self.phase = LaunchPhase::Finished;
                self.holds_child = false;
            },
            PollEnd::Exited(_) => {
                self.phase = LaunchPhase::Finished;
                self.holds_child = false;
            },
            PollEnd::TimedOut => {
                self.phase = LaunchPhase::Finished;
            },
        }
    }

    /// Reports whether the main window was opened.
    pub fn opened(&mut self, ok: bool)
        requires
            old(self).wf(),
            old(self).phase is OpenMain,
        ensures
            *final(self) == after_open(*old(self), ok),
            final(self).wf(),
    {
        self.phase = if ok {
            LaunchPhase::CloseSplash
        } else {
            LaunchPhase::Finished
        };
    }

    /// Reports that the splash window was closed, or is not there.
    pub fn splash_closed(&mut self)
        requires
            old(self).wf(),
            old(self).phase is CloseSplash,
        ensures
            *final(self) == after_close(*old(self)),
            final(self).wf(),
    {
        self.phase = LaunchPhase::Finished;
    }
}

/// What a launch meets on its way.
pub struct Course {
    /// Our backend answers already.
    pub ours: bool,
    /// The resources of the application are found.
    pub found: bool,
    /// The backend can be started.
    pub starts: bool,
    /// How the poll ends.
    pub end: PollEnd,
    /// The main window can be opened.
    pub opens: bool,
}

/// The launch after its next step.
pub open spec fn step(l: Launch, c: Course) -> Launch {
    match l.phase {
        LaunchPhase::StopOld => after_stop(l),
        LaunchPhase::Probe => after_probe(l, c.ours),
        LaunchPhase::Locate => after_locate(l, c.found),
        LaunchPhase::Spawn => after_spawn(l, c.starts),
        LaunchPhase::Poll => after_poll(l, c.end),
        LaunchPhase::OpenMain => after_open(l, c.opens),
        LaunchPhase::CloseSplash => after_close(l),
        LaunchPhase::Finished => l,
    }
}

/// How many steps a launch in this phase can still take.
pub open spec fn steps_left(phase: LaunchPhase) -> nat {
    match phase {
        LaunchPhase::StopOld => 7,
        LaunchPhase::Probe => 6,
        LaunchPhase::Locate => 5,
        LaunchPhase::Spawn => 4,
        LaunchPhase::Poll => 3,
        LaunchPhase::OpenMain => 2,
        LaunchPhase::CloseSplash => 1,
        LaunchPhase::Finished => 0,
    }
}

/// A launch in the phase `phase` comes by on the way from `l` to the end.
pub open spec fn comes_by(l: Launch, c: Course, phase: LaunchPhase) -> bool
    decreases steps_left(l.phase),
{
    l.phase == phase || (l.phase !is Finished && comes_by(step(l, c), c, phase))
}

/// The launch at its end.
pub open spec fn launch_end(l: Launch, c: Course) -> Launch
    decreases steps_left(l.phase),
{
    if l.phase is Finished {
        l
    } else {
        launch_end(step(l, c), c)
    }
}

/// `l` is how a launch starts.
pub open spec fn is_start(l: Launch) -> bool {
    l == first_launch() || l == renewed_launch(true) || l == renewed_launch(false)
}

/// The backend is started exactly where none answers already and its executable is
/// found. The launch waits in any case, opens the main window exactly where the
/// backend is ready, and closes the splash window exactly where the main window is
/// open.
pub proof fn each_step_has_its_reason(l: Launch, c: Course)
    requires
        is_start(l),
    ensures
        comes_by(l, c, LaunchPhase::Spawn) <==> !c.ours && c.found,
        comes_by(l, c, LaunchPhase::Poll),
        comes_by(l, c, LaunchPhase::OpenMain) <==> c.end is Ready,
        comes_by(l, c, LaunchPhase::CloseSplash) <==> c.end is Ready && c.opens,
        launch_end(l, c).phase is Finished,
{
    reveal_with_fuel(comes_by, 9);
    reveal_with_fuel(launch_end, 9);
}

/// A child process is held at the end exactly where the launch has started one and
/// the poll has not seen it end.
pub proof fn child_is_held_while_it_runs(l: Launch, c: Course)
    requires
        is_start(l),
    ensures
        launch_end(l, c).holds_child <==> !c.ours && c.found && c.starts && (c.end is Ready
            || c.end is TimedOut),
{
    reveal_with_fuel(launch_end, 9);
}

/// A launch that starts over runs as the first one does once the child process of
/// the earlier launch has been stopped.
pub proof fn starting_over_is_starting(holds_child: bool, c: Course)
    ensures
        step(renewed_launch(holds_child), c) == first_launch(),
        launch_end(renewed_launch(holds_child), c) == launch_end(first_launch(), c),
{
}

/// An address that was saved is the one that the next start of the application uses,
/// unless the command line names another: `text` is any configuration that reads as
/// that address, as the one that `save_config` gives does.
pub proof fn saved_address_survives_a_restart(
    text: Seq<char>,
    host: Seq<char>,
    port: u16,
    args: Seq<Seq<char>>,
)
    requires
        crate::config::addr_in(text) == (host, port),
    ensures
        crate::args::host_arg(args, 1) is None ==> crate::args::overridden(
            crate::config::addr_in(text),
            args,
            1,
        ).0 == host,
        crate::args::port_arg(args, 1) is None ==> crate::args::overridden(
            crate::config::addr_in(text),
            args,
            1,
        ).1 == port,
{
}

/// A launch that starts over uses the address that was saved last, whatever the
/// configuration file holds: it is the current one, which `retry_backend` and
/// `Startup::old_stopped` take, and with it the probe, the backend and the main window are told that host and port.
pub proof fn retry_uses_the_address_saved_last(
    initial: (Seq<char>, u16),
    saves: Seq<(Seq<char>, u16)>,
)
    requires
        saves.len() > 0,
    ensures
        ({
            let used = crate::config::after_saves(initial, saves);
            let host = saves.last().0;
            let port = crate::text::decimal(saves.last().1 as nat);
            &&& used == saves.last()
            &&& crate::address::socket_text(used) == host + ":"@ + port
            &&& crate::address::url_text(used) == "http://"@ + (host + ":"@ + port)
            &&& crate::probe::request_text(crate::address::socket_text(used))
                == "GET /config HTTP/1.1\r\nHost: "@ + (host + ":"@ + port)
                + "\r\nConnection: close\r\n\r\n"@
            &&& sidecar_env(used) == seq![(HOST_VARIABLE@, host), (PORT_VARIABLE@, port)]
        }),
{
}

/// The backend is told its host and its port in decimal, in the variables that it reads, for
/// every host and port.
pub proof fn backend_is_told_host_and_port(host: Seq<char>, port: u16)
    ensures
        sidecar_env((host, port)) == seq![
            ("PII_HOST"@, host),
            ("PII_PORT"@, crate::text::decimal(port as nat)),
        ],
{
}

/// Variables are told one for one.
pub proof fn variables_are_told_one_for_one(env: Seq<(String, String)>)
    ensures
        env_texts(env).len() == env.len(),
        forall|i: int|
            0 <= i < env.len() ==> #[trigger] env_texts(env)[i] == (env[i].0@, env[i].1@),
{
}

/// The version stands in the splash window behind the letter v.
pub proof fn version_is_shown_in_full(version: Seq<char>)
    ensures
        version_script_text(version)
            == "var v=document.getElementById('ver');if(v){v.textContent='v"@ + version
            + "';};"@,
{
}

/// The windows, the title and the variables have the names that the other parts of the
/// application know them by.
pub proof fn names_are_agreed()
    ensures
        MAIN_LABEL@ == "main"@,
        SPLASH_LABEL@ == "splash"@,
        MAIN_TITLE@ == "Rizzo PII"@,
        HOST_VARIABLE@ == "PII_HOST"@,
        PORT_VARIABLE@ == "PII_PORT"@,
{
}

/// A launch probes first, or stops what was there and then probes. It locates and starts the
/// backend where none answers, polls in any case, and goes on to the windows only from a
/// backend that is ready. It holds a child process from the start of one until the poll sees
/// it ended.
pub proof fn each_report_leads_on(l: Launch, yes: bool, code: i32)
    ensures
        first_launch() == (Launch { phase: LaunchPhase::Probe, holds_child: false }),
        renewed_launch(yes) == (Launch { phase: LaunchPhase::StopOld, holds_child: yes }),
        after_stop(l) == (Launch { phase: LaunchPhase::Probe, holds_child: false }),
        after_probe(l, true) == (Launch { phase: LaunchPhase::Poll, holds_child: l.holds_child }),
        after_probe(l, false) == (Launch {
            phase: LaunchPhase::Locate,
            holds_child: l.holds_child,
        }),
        after_locate(l, true) == (Launch { phase: LaunchPhase::Spawn, holds_child: l.holds_child }),
        after_locate(l, false) == (Launch { phase: LaunchPhase::Poll, holds_child: l.holds_child }),
        after_spawn(l, true) == (Launch { phase: LaunchPhase::Poll, holds_child: true }),
        after_spawn(l, false) == (Launch { phase: LaunchPhase::Poll, holds_child: l.holds_child }),
        after_poll(l, PollEnd::Ready) == (Launch {
            phase: LaunchPhase::OpenMain,
            holds_child: l.holds_child,
        }),
        after_poll(l, PollEnd::PortBusy) == (Launch {
            phase: LaunchPhase::Finished,
            holds_child: false,
        }),
        after_poll(l, PollEnd::Exited(code)) == (Launch {
            phase: LaunchPhase::Finished,
            holds_child: false,
        }),
        after_poll(l, PollEnd::TimedOut) == (Launch {
            phase: LaunchPhase::Finished,
            holds_child: l.holds_child,
        }),
        after_open(l, true) == (Launch {
            phase: LaunchPhase::CloseSplash,
            holds_child: l.holds_child,
        }),
        after_open(l, false) == (Launch {
            phase: LaunchPhase::Finished,
            holds_child: l.holds_child,
        }),
        after_close(l) == (Launch { phase: LaunchPhase::Finished, holds_child: l.holds_child }),
{
}

} // verus!
