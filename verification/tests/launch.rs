use rizzo_pii::address::ServerAddr;
use rizzo_pii::config::{config_text, save_config};
use rizzo_pii::launch::{
    main_window, retry_backend, run, spawn_sidecar, version_script, Launch, LaunchPhase,
};
use rizzo_pii::poll::PollEnd;
use std::path::PathBuf;

struct Course {
    ours: bool,
    found: bool,
    starts: bool,
    end: PollEnd,
    opens: bool,
}

/// Runs a launch to its end and lists the phases that it comes by.
fn drive(mut launch: Launch, c: &Course) -> (Vec<LaunchPhase>, bool) {
    let mut phases = Vec::new();
    loop {
        phases.push(launch.phase);
        match launch.phase {
            LaunchPhase::StopOld => launch.old_stopped(),
            LaunchPhase::Probe => launch.probed(c.ours),
            LaunchPhase::Locate => launch.located(c.found),
            LaunchPhase::Spawn => {
                assert!(!launch.holds_child);
                launch.spawned(c.starts)
            }
            LaunchPhase::Poll => launch.polled(c.end),
            LaunchPhase::OpenMain => launch.opened(c.opens),
            LaunchPhase::CloseSplash => launch.splash_closed(),
            LaunchPhase::Finished => return (phases, launch.holds_child),
        }
    }
}

fn first() -> Launch {
    run(None, &vec!["app".to_string()]).launch
}

fn again(holds_child: bool) -> Launch {
    retry_backend(&ServerAddr::default(), holds_child).launch
}

#[test]
fn ordinary_start() {
    let c = Course { ours: false, found: true, starts: true, end: PollEnd::Ready, opens: true };
    let (phases, held) = drive(first(), &c);
    assert_eq!(
        phases,
        vec![
            LaunchPhase::Probe,
            LaunchPhase::Locate,
            LaunchPhase::Spawn,
            LaunchPhase::Poll,
            LaunchPhase::OpenMain,
            LaunchPhase::CloseSplash,
            LaunchPhase::Finished,
        ]
    );
    assert!(held);
}

#[test]
fn running_backend_is_not_started_again() {
    let c = Course { ours: true, found: true, starts: true, end: PollEnd::Ready, opens: true };
    let (phases, held) = drive(first(), &c);
    assert!(!phases.contains(&LaunchPhase::Spawn));
    assert!(phases.contains(&LaunchPhase::CloseSplash));
    assert!(!held);
}

#[test]
fn every_course_of_a_launch() {
    let ends = [PollEnd::Ready, PollEnd::PortBusy, PollEnd::Exited(1), PollEnd::TimedOut];
    for bits in 0..16 {
        for end in ends {
            for start in [first(), again(true), again(false)] {
                let c = Course {
                    ours: bits & 1 != 0,
                    found: bits & 2 != 0,
                    starts: bits & 4 != 0,
                    end,
                    opens: bits & 8 != 0,
                };
                let (phases, held) = drive(start, &c);
                let ready = end == PollEnd::Ready;
                assert_eq!(phases.contains(&LaunchPhase::Spawn), !c.ours && c.found);
                assert!(phases.contains(&LaunchPhase::Poll));
                assert_eq!(phases.contains(&LaunchPhase::OpenMain), ready);
                assert_eq!(phases.contains(&LaunchPhase::CloseSplash), ready && c.opens);
                let runs = ready || end == PollEnd::TimedOut;
                assert_eq!(held, !c.ours && c.found && c.starts && runs);
            }
        }
    }
}

#[test]
fn starting_over_stops_the_old_child_first() {
    let c = Course { ours: false, found: true, starts: true, end: PollEnd::PortBusy, opens: true };
    let (phases, held) = drive(again(true), &c);
    assert_eq!(phases[0], LaunchPhase::StopOld);
    assert_eq!(phases[1..], drive(first(), &c).0[..]);
    assert!(!held);
}

#[test]
fn startup_address() {
    let args: Vec<String> = ["app", "--port", "7000"].iter().map(|s| s.to_string()).collect();
    let startup = run(None, &args);
    assert_eq!((startup.addr.host.as_str(), startup.addr.port), ("127.0.0.1", 7000));
    let saved = config_text("10.0.0.2", 6006);
    let startup = run(Some(&saved), &args);
    assert_eq!((startup.addr.host.as_str(), startup.addr.port), ("10.0.0.2", 7000));
    let startup = run(Some(&saved), &vec!["app".to_string()]);
    assert_eq!((startup.addr.host.as_str(), startup.addr.port), ("10.0.0.2", 6006));
}

#[test]
fn retry_uses_what_was_saved_last() {
    let mut current = ServerAddr::default();
    save_config("10.0.0.1".to_string(), 1, &mut current);
    save_config("10.0.0.2".to_string(), 6006, &mut current);
    let startup = retry_backend(&current, true);
    assert_eq!((startup.addr.host.as_str(), startup.addr.port), ("10.0.0.2", 6006));
    assert_eq!(startup.launch.phase, LaunchPhase::StopOld);
    assert!(startup.launch.holds_child);
    assert_eq!(main_window(&startup.addr).url, "http://10.0.0.2:6006");
    let command = spawn_sidecar(PathBuf::from("x"), &startup.addr.host, startup.addr.port);
    assert_eq!(command.env[0].1, "10.0.0.2");
    assert_eq!(command.env[1].1, "6006");
}

#[test]
fn what_is_saved_while_the_old_child_stops_counts() {
    let mut current = ServerAddr::default();
    let mut startup = retry_backend(&current, true);
    save_config("10.0.0.3".to_string(), 7007, &mut current);
    startup.old_stopped(&current);
    assert_eq!(startup.addr.url(), "http://10.0.0.3:7007");
    assert_eq!(startup.launch.phase, LaunchPhase::Probe);
    assert!(!startup.launch.holds_child);
}

#[test]
fn sidecar_is_told_its_address() {
    let command = spawn_sidecar(PathBuf::from("x.exe"), "127.0.0.1", 5005);
    assert_eq!(command.program, PathBuf::from("x.exe"));
    assert_eq!(
        command.env,
        vec![
            ("PII_HOST".to_string(), "127.0.0.1".to_string()),
            ("PII_PORT".to_string(), "5005".to_string()),
        ]
    );
}

#[test]
fn main_window_shows_the_backend() {
    let window = main_window(&ServerAddr::default());
    assert_eq!(window.label, "main");
    assert_eq!(window.title, "Rizzo PII");
    assert_eq!(window.url, "http://127.0.0.1:5005");
    assert_eq!((window.width, window.height), (1240, 840));
    assert_eq!((window.min_width, window.min_height), (900, 600));
}

#[test]
fn version_is_shown() {
    assert_eq!(
        version_script("1.2.0"),
        "var v=document.getElementById('ver');if(v){v.textContent='v1.2.0';};"
    );
}
