//! Waiting for the backend to come up.
//!
//! A poll runs in rounds. Each round looks at the child process, then probes
//! the backend, then pauses. The caller performs what [`Poll::phase`] asks for
//! and reports the outcome.

use vstd::prelude::*;
use vstd::string::*;

use crate::text::{decimal_text, signed_decimal_text};

verus! {

/// The exit code by which the backend reports that its port is taken.
pub const EXIT_PORT_CONFLICT: i32 = 76;

/// How many rounds a poll runs before it gives up.
pub const POLL_ATTEMPTS: u32 = 900;

/// How long a poll pauses at the end of a round, in milliseconds.
pub const POLL_PAUSE_MS: u64 = 200;

/// What a look at the child process shows.
#[derive(Clone, Copy, Debug, PartialEq, Eq)]
pub enum ChildStatus {
    /// No child process is held.
    Absent,
    /// The child process is still running.
    Running,
    /// The state of the child process could not be read.
    Unknown,
    /// The child process has ended, with this exit code if it has one.
    Exited(Option<i32>),
}

/// How a poll ends.
#[derive(Clone, Copy, Debug, PartialEq, Eq)]
pub enum PollEnd {
    /// The backend answers.
    Ready,
    /// The backend left because its port is taken.
    PortBusy,
    /// The backend left with this exit code.
    Exited(i32),
    /// The backend did not answer in time.
    TimedOut,
}

/// What a poll asks its caller to do next.
#[derive(Clone, Copy, Debug, PartialEq, Eq)]
pub enum PollPhase {
    CheckChild,
    Probe,
    Pause,
    Finished(PollEnd),
}

/// A poll, between two reports of its caller.
#[derive(Clone, Copy, Debug, PartialEq, Eq)]
pub struct Poll {
    /// How many rounds have gone by.
    pub attempt: u32,
    pub phase: PollPhase,
}

/// How a poll ends when the child process has ended with `code`. A process
/// without an exit code counts as one that left with -1.
pub open spec fn end_of_exit(code: Option<i32>) -> PollEnd {
    match code {
        Some(c) => if c == EXIT_PORT_CONFLICT {
            PollEnd::PortBusy
        } else {
            PollEnd::Exited(c)
        },
        None => PollEnd::Exited((-1) as i32),
    }
}

/// The poll once the child process was looked at.
pub open spec fn after_child(p: Poll, status: ChildStatus) -> Poll {
    match status {
        ChildStatus::Exited(code) => Poll {
            attempt: p.attempt,
            phase: PollPhase::Finished(end_of_exit(code)),
        },
        _ => Poll { attempt: p.attempt, phase: PollPhase::Probe },
    }
}

/// The poll once the backend was probed.
pub open spec fn after_probe(p: Poll, ours: bool) -> Poll {
    if ours {
        Poll { attempt: p.attempt, phase: PollPhase::Finished(PollEnd::Ready) }
    } else {
        Poll { attempt: p.attempt, phase: PollPhase::Pause }
    }
}

/// The poll once the pause at the end of a round is over.
pub open spec fn after_pause(p: Poll) -> Poll {
    if p.attempt + 1 < POLL_ATTEMPTS {
        Poll { attempt: (p.attempt + 1) as u32, phase: PollPhase::CheckChild }
    } else {
        Poll { attempt: POLL_ATTEMPTS, phase: PollPhase::Finished(PollEnd::TimedOut) }
    }
}

/// The poll before its first round.
pub open spec fn poll_start() -> Poll {
    Poll { attempt: 0, phase: PollPhase::CheckChild }
}

/// The script that shows `message` in the splash window and hides its bar.
pub open spec fn note_script(message: Seq<char>) -> Seq<char> {
    "var n=document.querySelector('.note');if(n){n.textContent='"@ + message
        + "';}var b=document.querySelector('.bar');if(b){b.style.display='none';}"@
}

/// What the splash window says of a backend that ended by itself.
pub open spec fn exited_note() -> Seq<char> {
    "Errore: il backend si è chiuso inaspettatamente."@
}

/// What the splash window says of a backend that never answered.
pub open spec fn timeout_note() -> Seq<char> {
    "Errore: il backend non si è avviato. Vedi il log in %LOCALAPPDATA%\\\\rizzo-pii\\\\backend.log"@
}

/// The script that shows the configuration form in the splash window.
pub open spec fn form_script(host: Seq<char>, port: Seq<char>) -> Seq<char> {
    "if(typeof showConfigForm==='function'){showConfigForm('"@ + host + "',"@ + port + ",'Porta "@
        + port + " occupata. Scegli un\\'altra porta.')}"@
}

/// The script that the splash window runs at the end of a poll, if any.
pub open spec fn end_script(end: PollEnd, host: Seq<char>, port: u16) -> Option<Seq<char>> {
    match end {
        PollEnd::Ready => None,
        PollEnd::PortBusy => Some(form_script(host, crate::text::decimal(port as nat))),
        PollEnd::Exited(_) => Some(note_script(exited_note())),
        PollEnd::TimedOut => Some(note_script(timeout_note())),
    }
}

/// The error that a poll reports at its end, if any.
pub open spec fn end_error(end: PollEnd, port: u16) -> Option<Seq<char>> {
    match end {
        PollEnd::Ready => None,
        PollEnd::PortBusy => Some(
            "porta "@ + crate::text::decimal(port as nat) + " occupata (exit code 76)"@,
        ),
        PollEnd::Exited(code) => Some(
            "backend uscito con codice "@ + crate::text::signed_decimal(code as int),
        ),
        PollEnd::TimedOut => Some("timeout in attesa del backend"@),
    }
}

/// What the log says of the end of a poll in the round `attempt`, if anything.
pub open spec fn end_log(end: PollEnd, attempt: u32) -> Option<Seq<char>> {
    match end {
        PollEnd::Ready => Some(
            "poll_backend: backend pronto (iter "@ + crate::text::decimal(attempt as nat) + ")"@,
        ),
        PollEnd::PortBusy => Some(exit_log(EXIT_PORT_CONFLICT, attempt)),
        PollEnd::Exited(code) => Some(exit_log(code, attempt)),
        PollEnd::TimedOut => None,
    }
}

/// What the log says of a child process that left with `code` in the round `attempt`.
pub open spec fn exit_log(code: i32, attempt: u32) -> Seq<char> {
    "poll_backend: child uscito con codice "@ + crate::text::signed_decimal(code as int)
        + " (iter "@ + crate::text::decimal(attempt as nat) + ")"@
}

/// Starts a poll.
pub fn poll_backend() -> (poll: Poll)
    ensures
        poll == poll_start(),
        poll.wf(),
{
    Poll { attempt: 0, phase: PollPhase::CheckChild }
}

impl Poll {
    /// A poll that goes on has rounds left.
    pub open spec fn wf(self) -> bool {
        self.phase !is Finished ==> self.attempt < POLL_ATTEMPTS
    }

    /// Reports what a look at the child process showed. Says whether the child
    /// process is gone and must no longer be held.
    pub fn child_checked(&mut self, status: ChildStatus) -> (gone: bool)
        requires
            old(self).wf(),
            old(self).phase is CheckChild,
        ensures
            *final(self) == after_child(*old(self), status),
            final(self).wf(),
            gone == (status is Exited),
    {
        match status {
            ChildStatus::Exited(code) => {
                let c: i32 = match code {
                    Some(c) => c,
                    None => -1,
                };
                let end = if c == EXIT_PORT_CONFLICT {
                    PollEnd::PortBusy
                } else {
                    PollEnd::Exited(c)
                };
                self.phase = PollPhase::Finished(end);
                true
            },
            _ => {
                self.phase = PollPhase::Probe;
                false
            },
        }
    }

    /// Reports whether the probe found the backend.
    pub fn probed(&mut self, ours: bool)
        requires
            old(self).wf(),
            old(self).phase is Probe,
        ensures
            *final(self) == after_probe(*old(self), ours),
            final(self).wf(),
    {
        if ours {
            self.phase = PollPhase::Finished(PollEnd::Ready);
        } else {
            self.phase = PollPhase::Pause;
        }
    }

    /// Reports that the pause at the end of a round is over.
    pub fn paused(&mut self)
        requires
            old(self).wf(),
            old(self).phase is Pause,
        ensures
            *final(self) == after_pause(*old(self)),
            final(self).wf(),
    {
        self.attempt = self.attempt + 1;
        if self.attempt < POLL_ATTEMPTS {
            self.phase = PollPhase::CheckChild;
        } else {
            self.phase = PollPhase::Finished(PollEnd::TimedOut);
        }
    }
}

fn note_script_text(message: &str) -> (script: String)
    ensures
        script@ == note_script(message@),
{
    let mut script = String::new();
    script.append("var n=document.querySelector('.note');if(n){n.textContent='");
    script.append(message);
    script.append("';}var b=document.querySelector('.bar');if(b){b.style.display='none';}");
    assert(script@ =~= note_script(message@));
    script
}

fn form_script_text(host: &str, port: u16) -> (script: String)
    ensures
        script@ == form_script(host@, crate::text::decimal(port as nat)),
{
    let port_text = decimal_text(port as u64);
    let mut script = String::new();
    script.append("if(typeof showConfigForm==='function'){showConfigForm('");
    script.append(host);
    script.append("',");
    script.append(port_text.as_str());
    script.append(",'Porta ");
    script.append(port_text.as_str());
    script.append(" occupata. Scegli un\\'altra porta.')}");
    assert(script@ =~= form_script(host@, crate::text::decimal(port as nat)));
    script
}

fn exit_log_text(code: i32, attempt: u32) -> (text: String)
    ensures
        text@ == exit_log(code, attempt),
{
    let code_text = signed_decimal_text(code);
    let attempt_text = decimal_text(attempt as u64);
    let mut text = "poll_backend: child uscito con codice ".to_owned();
    text.append(code_text.as_str());
    text.append(" (iter ");
    text.append(attempt_text.as_str());
    text.append(")");
    text
}

impl PollEnd {
    /// What the log says of this end in the round `attempt`, if anything.
    pub fn log_text(&self, attempt: u32) -> (text: Option<String>)
        ensures
            (match text {
                Some(t) => Some(t@),
                None => None,
            }) == end_log(*self, attempt),
    {
        match self {
            PollEnd::Ready => {
                let attempt_text = decimal_text(attempt as u64);
                let mut text = "poll_backend: backend pronto (iter ".to_owned();
                text.append(attempt_text.as_str());
                text.append(")");
                Some(text)
            },
            PollEnd::PortBusy => Some(exit_log_text(EXIT_PORT_CONFLICT, attempt)),
            PollEnd::Exited(code) => Some(exit_log_text(*code, attempt)),
            PollEnd::TimedOut => None,
        }
    }

    /// The script that the splash window runs at this end, if any.
    pub fn script(&self, host: &str, port: u16) -> (script: Option<String>)
        ensures
            (match script {
                Some(s) => Some(s@),
                None => None,
            }) == end_script(*self, host@, port),
    {
        match self {
            PollEnd::Ready => None,
            PollEnd::PortBusy => Some(form_script_text(host, port)),
            PollEnd::Exited(_) => Some(
                note_script_text("Errore: il backend si è chiuso inaspettatamente."),
            ),
            PollEnd::TimedOut => Some(
                note_script_text(
                    "Errore: il backend non si è avviato. Vedi il log in %LOCALAPPDATA%\\\\rizzo-pii\\\\backend.log",
                ),
            ),
        }
    }

    /// Success where the backend is ready, an error text otherwise.
    pub fn result(&self, port: u16) -> (result: Result<(), String>)
        ensures
            (match result {
                Ok(_) => None,
                Err(e) => Some(e@),
            }) == end_error(*self, port),
    {
        match self {
            PollEnd::Ready => Ok(()),
            PollEnd::PortBusy => {
                let port_text = decimal_text(port as u64);
                let mut e = String::new();
                e.append("porta ");
                e.append(port_text.as_str());
                e.append(" occupata (exit code 76)");
                assert(e@ =~= "porta "@ + crate::text::decimal(port as nat)
                    + " occupata (exit code 76)"@);
                Err(e)
            },
            PollEnd::Exited(code) => {
                let code_text = signed_decimal_text(*code);
                let mut e = String::new();
                e.append("backend uscito con codice ");
                e.append(code_text.as_str());
                assert(e@ =~= "backend uscito con codice "@ + crate::text::signed_decimal(
                    *code as int,
                ));
                Err(e)
            },
            PollEnd::TimedOut => Err("timeout in attesa del backend".to_owned()),
        }
    }
}

/// What one round brings to light.
pub struct Round {
    pub status: ChildStatus,
    /// Whether a probe in this round would find the backend.
    pub ours: bool,
}

/// A round that neither sees the child process ended nor finds the backend.
pub open spec fn quiet(r: Round) -> bool {
    r.status !is Exited && !r.ours
}

/// How a round that is not quiet ends the poll.
pub open spec fn round_end(r: Round) -> PollEnd {
    match r.status {
        ChildStatus::Exited(code) => end_of_exit(code),
        _ => PollEnd::Ready,
    }
}

/// The poll after one more round. A poll that has ended stays as it is.
pub open spec fn after_round(p: Poll, r: Round) -> Poll {
    if p.phase is Finished {
        p
    } else {
        let looked = after_child(p, r.status);
        if looked.phase is Finished {
            looked
        } else {
            let probed = after_probe(looked, r.ours);
            if probed.phase is Finished {
                probed
            } else {
                after_pause(probed)
            }
        }
    }
}

/// The poll after `rounds`.
pub open spec fn after_rounds(rounds: Seq<Round>) -> Poll
    decreases rounds.len(),
{
    if rounds.len() == 0 {
        poll_start()
    } else {
        after_round(after_rounds(rounds.drop_last()), rounds.last())
    }
}

/// How long the poll has paused during `rounds`, in milliseconds.
pub open spec fn paused_ms(rounds: Seq<Round>) -> nat
    decreases rounds.len(),
{
    if rounds.len() == 0 {
        0
    } else {
        let before = rounds.drop_last();
        paused_ms(before) + if after_rounds(before).phase !is Finished && quiet(rounds.last()) {
            POLL_PAUSE_MS as nat
        } else {
            0
        }
    }
}

proof fn lemma_quiet_rounds(rounds: Seq<Round>)
    requires
        rounds.len() <= POLL_ATTEMPTS,
        forall|i: int| 0 <= i < rounds.len() ==> quiet(#[trigger] rounds[i]),
    ensures
        paused_ms(rounds) == rounds.len() * POLL_PAUSE_MS,
        rounds.len() < POLL_ATTEMPTS ==> after_rounds(rounds) == (Poll {
            attempt: rounds.len() as u32,
            phase: PollPhase::CheckChild,
        }),
        rounds.len() == POLL_ATTEMPTS ==> after_rounds(rounds) == (Poll {
            attempt: POLL_ATTEMPTS,
            phase: PollPhase::Finished(PollEnd::TimedOut),
        }),
    decreases rounds.len(),
{
    if rounds.len() > 0 {
        lemma_quiet_rounds(rounds.drop_last());
        assert(quiet(rounds.last()));
    }
}

proof fn lemma_end_stays(rounds: Seq<Round>, k: int)
    requires
        0 <= k <= rounds.len(),
        after_rounds(rounds.take(k)).phase is Finished,
    ensures
        after_rounds(rounds) == after_rounds(rounds.take(k)),
        paused_ms(rounds) == paused_ms(rounds.take(k)),
    decreases rounds.len() - k,
{
    if k == rounds.len() {
        assert(rounds.take(k) =~= rounds);
    } else {
        assert(rounds.take(k + 1).drop_last() =~= rounds.take(k));
        lemma_end_stays(rounds, k + 1);
    }
}

/// The first round that is not quiet decides how the poll ends. Where that round
/// sees the child process ended, this counts, whatever a probe would have found:
/// a stranger on the port cannot hide that the port was taken.
pub proof fn first_eventful_round_decides(rounds: Seq<Round>, k: int)
    requires
        0 <= k < rounds.len(),
        k < POLL_ATTEMPTS,
        forall|i: int| 0 <= i < k ==> quiet(#[trigger] rounds[i]),
        !quiet(rounds[k]),
    ensures
        after_rounds(rounds).phase == PollPhase::Finished(round_end(rounds[k])),
        paused_ms(rounds) == k * POLL_PAUSE_MS,
{
    lemma_quiet_rounds(rounds.take(k));
    assert(rounds.take(k + 1).drop_last() =~= rounds.take(k));
    assert(rounds.take(k + 1).last() == rounds[k]);
    lemma_end_stays(rounds, k + 1);
}

/// A poll whose rounds all stay quiet gives up after the last of them, with three
/// minutes of pauses behind it.
pub proof fn quiet_poll_times_out(rounds: Seq<Round>)
    requires
        rounds.len() >= POLL_ATTEMPTS,
        forall|i: int| 0 <= i < POLL_ATTEMPTS ==> quiet(#[trigger] rounds[i]),
    ensures
        after_rounds(rounds).phase == PollPhase::Finished(PollEnd::TimedOut),
        paused_ms(rounds) == 180_000,
{
    let first = rounds.take(POLL_ATTEMPTS as int);
    assert forall|i: int| 0 <= i < first.len() implies quiet(#[trigger] first[i]) by {
        assert(quiet(rounds[i]));
    }
    lemma_quiet_rounds(first);
    lemma_end_stays(rounds, POLL_ATTEMPTS as int);
}

/// As long as all rounds were quiet and some are left, the poll goes on.
pub proof fn quiet_poll_goes_on(rounds: Seq<Round>)
    requires
        rounds.len() < POLL_ATTEMPTS,
        forall|i: int| 0 <= i < rounds.len() ==> quiet(#[trigger] rounds[i]),
    ensures
        after_rounds(rounds) == (Poll {
            attempt: rounds.len() as u32,
            phase: PollPhase::CheckChild,
        }),
{
    lemma_quiet_rounds(rounds);
}

proof fn lemma_rounds_are_counted(rounds: Seq<Round>)
    ensures
        after_rounds(rounds).wf(),
        after_rounds(rounds).phase is CheckChild || after_rounds(rounds).phase is Finished,
        after_rounds(rounds).phase !is Finished ==> after_rounds(rounds).attempt == rounds.len()
            && paused_ms(rounds) == rounds.len() * POLL_PAUSE_MS,
        paused_ms(rounds) <= POLL_ATTEMPTS * POLL_PAUSE_MS,
    decreases rounds.len(),
{
    if rounds.len() > 0 {
        lemma_rounds_are_counted(rounds.drop_last());
    }
}

/// Whatever its rounds bring, a poll ends with the last of them at the latest, and
/// never pauses for more than three minutes.
pub proof fn every_poll_ends(rounds: Seq<Round>)
    ensures
        rounds.len() >= POLL_ATTEMPTS ==> after_rounds(rounds).phase is Finished,
        paused_ms(rounds) <= 180_000,
{
    lemma_rounds_are_counted(rounds);
}

/// A poll succeeds exactly where it ends with a backend that answers.
pub proof fn only_a_ready_backend_is_success(end: PollEnd, host: Seq<char>, port: u16)
    ensures
        end_error(end, port) is None <==> end is Ready,
        end_script(end, host, port) is None <==> end is Ready,
{
}

/// A child process that has ended ends the poll: the port is taken exactly where it left
/// with 76, and any other code is reported as it is, with -1 where there is none. A child
/// process that has not ended leads to the probe.
pub proof fn exit_code_decides(p: Poll, status: ChildStatus)
    ensures
        after_child(p, status).attempt == p.attempt,
        status matches ChildStatus::Exited(Some(c)) ==> after_child(p, status).phase == (if c
            == 76 {
            PollPhase::Finished(PollEnd::PortBusy)
        } else {
            PollPhase::Finished(PollEnd::Exited(c))
        }),
        status == ChildStatus::Exited(None) ==> after_child(p, status).phase
            == PollPhase::Finished(PollEnd::Exited((-1) as i32)),
        after_child(p, status).phase == PollPhase::Finished(PollEnd::PortBusy) <==> status
            == ChildStatus::Exited(Some(76)),
        status !is Exited ==> after_child(p, status).phase == PollPhase::Probe,
{
}

/// A probe that finds the backend ends the poll in success; any other leads to a pause.
/// After a pause the next of nine hundred rounds begins, or the time is up.
pub proof fn probe_and_pause_decide(p: Poll, ours: bool)
    ensures
        after_probe(p, ours).attempt == p.attempt,
        ours ==> after_probe(p, ours).phase == PollPhase::Finished(PollEnd::Ready),
        !ours ==> after_probe(p, ours).phase == PollPhase::Pause,
        p.attempt < 899 ==> after_pause(p) == (Poll {
            attempt: (p.attempt + 1) as u32,
            phase: PollPhase::CheckChild,
        }),
        p.attempt >= 899 ==> after_pause(p).phase == PollPhase::Finished(PollEnd::TimedOut),
        poll_start() == (Poll { attempt: 0, phase: PollPhase::CheckChild }),
{
}

/// Whatever the rounds after it bring, and whatever a probe would find, the first round
/// that sees the child process ended ends the poll by its exit code, if none before it found
/// the backend: 76 means that the port is taken, and no other code does.
pub proof fn first_exit_ends_the_poll(rounds: Seq<Round>, k: int, code: i32)
    requires
        0 <= k < rounds.len(),
        k < 900,
        forall|i: int|
            0 <= i < k ==> !((#[trigger] rounds[i]).status is Exited) && !rounds[i].ours,
        rounds[k].status == ChildStatus::Exited(Some(code)) || (rounds[k].status
            == ChildStatus::Exited(None) && code == -1),
    ensures
        code == 76 ==> after_rounds(rounds).phase == PollPhase::Finished(PollEnd::PortBusy),
        code != 76 ==> after_rounds(rounds).phase == PollPhase::Finished(PollEnd::Exited(code)),
        paused_ms(rounds) == k * 200,
{
    assert forall|i: int| 0 <= i < k implies quiet(#[trigger] rounds[i]) by {
        assert(!(rounds[i].status is Exited));
    }
    first_eventful_round_decides(rounds, k);
}

/// The first round whose probe finds the backend ends the poll in success, if no child
/// process was seen ended up to then.
pub proof fn first_answer_ends_the_poll(rounds: Seq<Round>, k: int)
    requires
        0 <= k < rounds.len(),
        k < 900,
        forall|i: int|
            0 <= i < k ==> !((#[trigger] rounds[i]).status is Exited) && !rounds[i].ours,
        !(rounds[k].status is Exited),
        rounds[k].ours,
    ensures
        after_rounds(rounds).phase == PollPhase::Finished(PollEnd::Ready),
        paused_ms(rounds) == k * 200,
{
    assert forall|i: int| 0 <= i < k implies quiet(#[trigger] rounds[i]) by {
        assert(!(rounds[i].status is Exited));
    }
    first_eventful_round_decides(rounds, k);
}

/// A poll of which no round sees the child process ended and none finds the backend goes on
/// round by round, pausing after each, and gives up after nine hundred.
pub proof fn silent_poll_gives_up_at_last(rounds: Seq<Round>)
    requires
        forall|i: int|
            0 <= i < rounds.len() ==> !((#[trigger] rounds[i]).status is Exited)
                && !rounds[i].ours,
    ensures
        rounds.len() < 900 ==> after_rounds(rounds) == (Poll {
            attempt: rounds.len() as u32,
            phase: PollPhase::CheckChild,
        }) && paused_ms(rounds) == rounds.len() * 200,
        rounds.len() >= 900 ==> after_rounds(rounds).phase == PollPhase::Finished(
            PollEnd::TimedOut,
        ) && paused_ms(rounds) == 180_000,
{
    assert forall|i: int| 0 <= i < rounds.len() implies quiet(#[trigger] rounds[i]) by {
        assert(!(rounds[i].status is Exited));
    }
    if rounds.len() < POLL_ATTEMPTS {
        lemma_quiet_rounds(rounds);
    } else {
        quiet_poll_times_out(rounds);
    }
}

/// At a port conflict the configuration form is shown with the host and the port that were
/// tried, and the message names that port, for every host and port.
pub proof fn conflict_shows_the_address_that_was_tried(host: Seq<char>, port: u16)
    ensures
        end_script(PollEnd::PortBusy, host, port) == Some(
            "if(typeof showConfigForm==='function'){showConfigForm('"@ + host + "',"@
                + crate::text::decimal(port as nat) + ",'Porta "@ + crate::text::decimal(
                port as nat,
            ) + " occupata. Scegli un\\'altra porta.')}"@,
        ),
        end_error(PollEnd::PortBusy, port) == Some(
            "porta "@ + crate::text::decimal(port as nat) + " occupata (exit code 76)"@,
        ),
{
}

/// A backend that left by itself, or never answered, is told in the note of the splash
/// window, and its bar is hidden; neither host nor port matters there. The error names the
/// exit code.
pub proof fn other_ends_show_a_note(host: Seq<char>, port: u16, code: i32)
    ensures
        end_script(PollEnd::Exited(code), host, port) == Some(
            "var n=document.querySelector('.note');if(n){n.textContent='"@
                + "Errore: il backend si è chiuso inaspettatamente."@
                + "';}var b=document.querySelector('.bar');if(b){b.style.display='none';}"@,
        ),
        end_script(PollEnd::TimedOut, host, port) == Some(
            "var n=document.querySelector('.note');if(n){n.textContent='"@
                + "Errore: il backend non si è avviato. Vedi il log in %LOCALAPPDATA%\\\\rizzo-pii\\\\backend.log"@
                + "';}var b=document.querySelector('.bar');if(b){b.style.display='none';}"@,
        ),
        end_script(PollEnd::Ready, host, port) is None,
        end_error(PollEnd::Exited(code), port) == Some(
            "backend uscito con codice "@ + crate::text::signed_decimal(code as int),
        ),
        end_error(PollEnd::TimedOut, port) == Some("timeout in attesa del backend"@),
        end_error(PollEnd::Ready, port) is None,
{
}

/// The log tells in which round the backend answered, or left, and with which code; of a
/// poll whose time is up it tells nothing.
pub proof fn log_names_round_and_code(attempt: u32, code: i32)
    ensures
        end_log(PollEnd::Ready, attempt) == Some(
            "poll_backend: backend pronto (iter "@ + crate::text::decimal(attempt as nat) + ")"@,
        ),
        end_log(PollEnd::Exited(code), attempt) == Some(
            "poll_backend: child uscito con codice "@ + crate::text::signed_decimal(code as int)
                + " (iter "@ + crate::text::decimal(attempt as nat) + ")"@,
        ),
        end_log(PollEnd::PortBusy, attempt) == end_log(PollEnd::Exited(76), attempt),
        end_log(PollEnd::TimedOut, attempt) is None,
{
}

/// A poll pauses for a fifth of a second and runs nine hundred rounds at most.
pub proof fn poll_takes_three_minutes()
    ensures
        POLL_PAUSE_MS == 200,
        POLL_ATTEMPTS == 900,
        EXIT_PORT_CONFLICT == 76,
{
}

} // verus!
