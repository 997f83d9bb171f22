use rizzo_pii::poll::{
    poll_backend, ChildStatus, Poll, PollEnd, PollPhase, EXIT_PORT_CONFLICT, POLL_ATTEMPTS,
    POLL_PAUSE_MS,
};

/// Runs a poll on what each round brings, and counts its pauses.
fn run(round: impl Fn(u32) -> (ChildStatus, bool)) -> (PollEnd, u32) {
    let mut poll: Poll = poll_backend();
    let mut pauses = 0;
    loop {
        let (status, ours) = round(poll.attempt);
        match poll.phase {
            PollPhase::CheckChild => {
                let gone = poll.child_checked(status);
                assert_eq!(gone, matches!(status, ChildStatus::Exited(_)));
            }
            PollPhase::Probe => poll.probed(ours),
            PollPhase::Pause => {
                pauses += 1;
                poll.paused();
            }
            PollPhase::Finished(end) => return (end, pauses),
        }
    }
}

#[test]
fn backend_that_answers_is_ready() {
    assert_eq!(run(|_| (ChildStatus::Running, true)), (PollEnd::Ready, 0));
    assert_eq!(run(|i| (ChildStatus::Running, i == 12)), (PollEnd::Ready, 12));
    assert_eq!(run(|i| (ChildStatus::Absent, i == 899)), (PollEnd::Ready, 899));
    assert_eq!(run(|i| (ChildStatus::Unknown, i == 3)), (PollEnd::Ready, 3));
}

#[test]
fn quiet_backend_times_out() {
    assert_eq!(run(|_| (ChildStatus::Running, false)), (PollEnd::TimedOut, 900));
    assert_eq!(POLL_ATTEMPTS as u64 * POLL_PAUSE_MS, 180_000);
    assert_eq!(run(|i| (ChildStatus::Running, i >= 900)), (PollEnd::TimedOut, 900));
}

#[test]
fn exit_ends_the_poll() {
    assert_eq!(EXIT_PORT_CONFLICT, 76);
    let exit = |code| run(move |i| (if i == 2 { ChildStatus::Exited(code) } else { ChildStatus::Running }, false));
    assert_eq!(exit(Some(76)), (PollEnd::PortBusy, 2));
    assert_eq!(exit(Some(0)), (PollEnd::Exited(0), 2));
    assert_eq!(exit(Some(1)), (PollEnd::Exited(1), 2));
    assert_eq!(exit(None), (PollEnd::Exited(-1), 2));
}

#[test]
fn exit_comes_before_a_stranger_on_the_port() {
    assert_eq!(run(|_| (ChildStatus::Exited(Some(76)), true)), (PollEnd::PortBusy, 0));
}

#[test]
fn results_of_a_poll() {
    assert_eq!(PollEnd::Ready.result(5005), Ok(()));
    assert_eq!(PollEnd::PortBusy.result(5005), Err("porta 5005 occupata (exit code 76)".to_string()));
    assert_eq!(PollEnd::Exited(-1).result(5005), Err("backend uscito con codice -1".to_string()));
    assert_eq!(PollEnd::TimedOut.result(5005), Err("timeout in attesa del backend".to_string()));
}

#[test]
fn scripts_of_a_poll() {
    assert_eq!(PollEnd::Ready.script("h", 1), None);
    assert_eq!(
        PollEnd::PortBusy.script("127.0.0.1", 5005).unwrap(),
        "if(typeof showConfigForm==='function'){showConfigForm('127.0.0.1',5005,'Porta 5005 occupata. Scegli un\\'altra porta.')}"
    );
    assert_eq!(
        PollEnd::Exited(3).script("h", 1).unwrap(),
        "var n=document.querySelector('.note');\
         if(n){n.textContent='Errore: il backend si è chiuso inaspettatamente.';}\
         var b=document.querySelector('.bar');if(b){b.style.display='none';}"
    );
    assert_eq!(
        PollEnd::TimedOut.script("h", 1).unwrap(),
        "var n=document.querySelector('.note');\
         if(n){n.textContent='Errore: il backend non si è avviato. \
         Vedi il log in %LOCALAPPDATA%\\\\rizzo-pii\\\\backend.log';}\
         var b=document.querySelector('.bar');if(b){b.style.display='none';}"
    );
}

#[test]
fn log_of_a_poll() {
    assert_eq!(PollEnd::Ready.log_text(12).unwrap(), "poll_backend: backend pronto (iter 12)");
    assert_eq!(PollEnd::PortBusy.log_text(0).unwrap(), "poll_backend: child uscito con codice 76 (iter 0)");
    assert_eq!(PollEnd::Exited(-1).log_text(899).unwrap(), "poll_backend: child uscito con codice -1 (iter 899)");
    assert_eq!(PollEnd::TimedOut.log_text(900), None);
}
