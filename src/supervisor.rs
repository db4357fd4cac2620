use vstd::prelude::*;
use vstd::string::*;

use crate::error::{Error, RollbackError};
use crate::rollback::{parse_rollback_output, rollback_outcome};

verus! {

/// What the environment holds for the variable that locates the engine
/// binary.
#[derive(Debug, Clone)]
pub enum EnvValue {
    Present(String),
    NotPresent,
    /// Set, but not valid Unicode; the text is a lossy rendering of it.
    NotUnicode(String),
}

/// The executable that is looked up on the search path when no location is
/// configured.
pub open spec fn default_engine_binary() -> Seq<char> {
    "cometbft"@
}

/// The engine binary to run: the configured location, or the default name
/// when none is set. A location that is not valid Unicode is an error.
pub fn from_env_or_default(var: EnvValue) -> (r: Result<String, Error>)
    ensures
        match var {
            EnvValue::Present(p) => r matches Ok(s) && s@ == p@,
            EnvValue::NotPresent => r matches Ok(s) && s@ == default_engine_binary(),
            EnvValue::NotUnicode(m) => r matches Err(Error::TendermintPath(t)) && t@ == m@,
        },
{
    match var {
        EnvValue::Present(path) => Ok(path),
        EnvValue::NotPresent => Ok(String::from_str("cometbft")),
        EnvValue::NotUnicode(msg) => Err(Error::TendermintPath(msg)),
    }
}

/// White space as `char::is_whitespace` knows it.
pub open spec fn is_white_space(c: char) -> bool {
    ('\u{9}' <= c <= '\u{d}') || c == ' ' || c == '\u{85}' || c == '\u{a0}' || c == '\u{1680}'
        || ('\u{2000}' <= c <= '\u{200a}') || c == '\u{2028}' || c == '\u{2029}'
        || c == '\u{202f}' || c == '\u{205f}' || c == '\u{3000}'
}

pub open spec fn trim_start(s: Seq<char>) -> Seq<char>
    decreases s.len(),
{
    if s.len() > 0 && is_white_space(s[0]) {
        trim_start(s.drop_first())
    } else {
        s
    }
}

pub open spec fn trim_end(s: Seq<char>) -> Seq<char>
    decreases s.len(),
{
    if s.len() > 0 && is_white_space(s.last()) {
        trim_end(s.drop_last())
    } else {
        s
    }
}

/// The text is "true" in any ASCII case.
pub open spec fn is_true_word(t: Seq<char>) -> bool {
    t.len() == 4 && (t[0] == 't' || t[0] == 'T') && (t[1] == 'r' || t[1] == 'R')
        && (t[2] == 'u' || t[2] == 'U') && (t[3] == 'e' || t[3] == 'E')
}

/// Whether the toggle's value asks for the engine's standard output to be
/// kept: "true" in any ASCII case, with white space around it.
pub open spec fn stdout_toggle(s: Seq<char>) -> bool {
    is_true_word(trim_end(trim_start(s)))
}

fn is_white_space_char(c: char) -> (r: bool)
    ensures
        r == is_white_space(c),
{
    ('\u{9}' <= c && c <= '\u{d}') || c == ' ' || c == '\u{85}' || c == '\u{a0}' || c == '\u{1680}'
        || ('\u{2000}' <= c && c <= '\u{200a}') || c == '\u{2028}' || c == '\u{2029}'
        || c == '\u{202f}' || c == '\u{205f}' || c == '\u{3000}'
}

/// Whether the engine's standard output is kept, given the toggle's value
/// if it is set.
pub fn log_stdout_enabled(value: Option<&str>) -> (r: bool)
    ensures
        r == match value {
            None => false,
            Some(v) => stdout_toggle(v@),
        },
{
    let v = match value {
        None => return false,
        Some(v) => v,
    };
    let n = v.unicode_len();
    let mut a: usize = 0;
    assert(v@.subrange(0, n as int) =~= v@);
    while a < n && is_white_space_char(v.get_char(a))
        invariant
            n == v@.len(),
            a <= n,
            trim_start(v@) == trim_start(v@.subrange(a as int, n as int)),
        decreases n - a,
    {
        assert(v@.subrange(a as int, n as int).drop_first() =~= v@.subrange(a + 1, n as int));
        a = a + 1;
    }
    let ghost front = v@.subrange(a as int, n as int);
    assert(trim_start(v@) == front);
    let mut b: usize = n;
    while b > a && is_white_space_char(v.get_char(b - 1))
        invariant
            n == v@.len(),
            a <= b <= n,
            trim_end(front) == trim_end(v@.subrange(a as int, b as int)),
        decreases b - a,
    {
        assert(v@.subrange(a as int, b as int).drop_last() =~= v@.subrange(a as int, b - 1));
        b = b - 1;
    }
    let ghost t = v@.subrange(a as int, b as int);
    assert(trim_end(front) == t);
    if b - a != 4 {
        return false;
    }
    let c0 = v.get_char(a);
    let c1 = v.get_char(a + 1);
    let c2 = v.get_char(a + 2);
    let c3 = v.get_char(a + 3);
    (c0 == 't' || c0 == 'T') && (c1 == 'r' || c1 == 'R') && (c2 == 'u' || c2 == 'U') && (c3 == 'e'
        || c3 == 'E')
}

/// How the race between the engine's exit and a shutdown request ended.
#[derive(Debug, Clone)]
pub enum RaceOutcome {
    /// The engine exited; `status` describes its exit status.
    ChildExited { success: bool, status: String },
    /// Waiting on the engine failed.
    WaitFailed(String),
    /// A shutdown request arrived, with a way to acknowledge it.
    AbortRequested,
    /// The sender of shutdown requests went away without sending one.
    AbortSenderDropped,
}

/// What the supervisor does once the race has ended.
#[derive(Debug)]
pub struct Decision {
    /// Kill the engine process.
    pub kill_child: bool,
    /// Acknowledge the shutdown request, after the kill.
    pub send_reply: bool,
    /// What the run returns.
    pub result: Result<(), Error>,
}

/// How a supervised run ends after each outcome of the race.
pub open spec fn decision_of(outcome: RaceOutcome) -> Decision {
    match outcome {
        RaceOutcome::ChildExited { success, status } => Decision {
            kill_child: false,
            send_reply: false,
            result: if success { Ok(()) } else { Err(Error::Runtime(status)) },
        },
        RaceOutcome::WaitFailed(e) => Decision { kill_child: false, send_reply: false, result: Err(Error::Runtime(e)) },
        RaceOutcome::AbortRequested => Decision { kill_child: true, send_reply: true, result: Ok(()) },
        RaceOutcome::AbortSenderDropped => Decision { kill_child: true, send_reply: false, result: Ok(()) },
    }
}

/// Decides the end of a supervised run from the event that ended the race.
pub fn decide(outcome: RaceOutcome) -> (r: Decision)
    ensures
        r == decision_of(outcome),
        match outcome {
            RaceOutcome::ChildExited { success, status } => !r.kill_child && !r.send_reply && (if success {
                r.result is Ok
            } else {
                (r.result matches Err(Error::Runtime(m)) && m@ == status@)
            }),
            RaceOutcome::WaitFailed(e) => !r.kill_child && !r.send_reply
                && (r.result matches Err(Error::Runtime(m)) && m@ == e@),
            RaceOutcome::AbortRequested => r.kill_child && r.send_reply && r.result is Ok,
            RaceOutcome::AbortSenderDropped => r.kill_child && !r.send_reply && r.result is Ok,
        },
{
    match outcome {
        RaceOutcome::ChildExited { success, status } => {
            if success {
                Decision { kill_child: false, send_reply: false, result: Ok(()) }
            } else {
                Decision { kill_child: false, send_reply: false, result: Err(Error::Runtime(status)) }
            }
        },
        RaceOutcome::WaitFailed(e) => {
            Decision { kill_child: false, send_reply: false, result: Err(Error::Runtime(e)) }
        },
        RaceOutcome::AbortRequested => Decision { kill_child: true, send_reply: true, result: Ok(()) },
        RaceOutcome::AbortSenderDropped => {
            Decision { kill_child: true, send_reply: false, result: Ok(()) }
        },
    }
}

/// Where a supervised run stands.
#[derive(Debug, Clone, Copy, PartialEq, Eq, Structural)]
pub enum Phase {
    /// The engine's init command is running.
    Initializing,
    /// The genesis document is being patched.
    PatchingGenesis,
    /// The configuration document is being patched.
    PatchingConfig,
    /// The engine is being spawned.
    Starting,
    /// The engine runs; its exit races a shutdown request.
    Running,
    /// The run is over.
    Stopped,
}

/// What happened to the step that the supervisor asked for last.
#[derive(Debug)]
pub enum Event {
    /// The init command ran and exited, successfully or not, or could not
    /// be run at all.
    InitFinished(Result<bool, String>),
    /// The genesis document was patched, or why not.
    GenesisPatched(Result<(), Error>),
    /// The configuration document was patched, or why not.
    ConfigPatched(Result<(), Error>),
    /// The engine was spawned, or why not.
    Spawned(Result<(), String>),
    /// The race ended.
    RaceEnded(RaceOutcome),
}

/// What the supervisor asks for next.
#[derive(Debug)]
pub enum Command {
    PatchGenesis,
    PatchConfig,
    Spawn,
    AwaitRace,
    Finish(Decision),
}

/// The phase in which each event is expected.
pub open spec fn expected_phase(ev: Event) -> Phase {
    match ev {
        Event::InitFinished(_) => Phase::Initializing,
        Event::GenesisPatched(_) => Phase::PatchingGenesis,
        Event::ConfigPatched(_) => Phase::PatchingConfig,
        Event::Spawned(_) => Phase::Starting,
        Event::RaceEnded(_) => Phase::Running,
    }
}

/// A finish that reports an error without touching any process.
pub open spec fn fails_with(c: Command, e: Error) -> bool {
    c matches Command::Finish(d) && !d.kill_child && !d.send_reply && d.result == Err::<(), Error>(e)
}

/// The supervisor of one run of the engine: it asks for init, both
/// document patches and the spawn strictly in that order, and stops at the
/// first failure.
#[derive(Debug)]
pub struct Supervisor {
    pub phase: Phase,
}

impl Supervisor {
    /// A run that starts with the engine's init command.
    pub fn new() -> (r: Supervisor)
        ensures
            r.phase == Phase::Initializing,
    {
        Supervisor { phase: Phase::Initializing }
    }

    /// Whether `ev` is what the supervisor waits for now.
    pub fn accepts(&self, ev: &Event) -> (r: bool)
        ensures
            r == (self.phase == expected_phase(*ev)),
    {
        match ev {
            Event::InitFinished(_) => self.phase == Phase::Initializing,
            Event::GenesisPatched(_) => self.phase == Phase::PatchingGenesis,
            Event::ConfigPatched(_) => self.phase == Phase::PatchingConfig,
            Event::Spawned(_) => self.phase == Phase::Starting,
            Event::RaceEnded(_) => self.phase == Phase::Running,
        }
    }

    /// Takes the outcome of the last step and says what to do next.
    pub fn on_event(&mut self, ev: Event) -> (r: Command)
        requires
            old(self).phase == expected_phase(ev),
        ensures
            match ev {
                Event::InitFinished(Ok(true)) => final(self).phase == Phase::PatchingGenesis
                    && r is PatchGenesis,
                Event::InitFinished(Ok(false)) => final(self).phase == Phase::Stopped
                    && (r matches Command::Finish(d) && !d.kill_child && !d.send_reply
                    && d.result matches Err(Error::Init(_))),
                Event::InitFinished(Err(m)) => final(self).phase == Phase::Stopped
                    && (r matches Command::Finish(d) && !d.kill_child && !d.send_reply
                    && (d.result matches Err(Error::Init(t)) && t@ == m@)),
                Event::GenesisPatched(Ok(_)) => final(self).phase == Phase::PatchingConfig
                    && r is PatchConfig,
                Event::GenesisPatched(Err(e)) => final(self).phase == Phase::Stopped && fails_with(r, e),
                Event::ConfigPatched(Ok(_)) => final(self).phase == Phase::Starting && r is Spawn,
                Event::ConfigPatched(Err(e)) => final(self).phase == Phase::Stopped && fails_with(r, e),
                Event::Spawned(Ok(_)) => final(self).phase == Phase::Running && r is AwaitRace,
                Event::Spawned(Err(m)) => final(self).phase == Phase::Stopped
                    && (r matches Command::Finish(d) && !d.kill_child && !d.send_reply
                    && (d.result matches Err(Error::StartUp(t)) && t@ == m@)),
                Event::RaceEnded(_) => final(self).phase == Phase::Stopped && r is Finish,
            },
            ev matches Event::RaceEnded(o) ==> (r matches Command::Finish(d) && d == decision_of(o)),
    {
        match ev {
            Event::InitFinished(Ok(true)) => {
                self.phase = Phase::PatchingGenesis;
                Command::PatchGenesis
            },
            Event::InitFinished(Ok(false)) => {
                self.phase = Phase::Stopped;
                Command::Finish(failure(Error::Init(String::from_str("the engine's init command failed"))))
            },
            Event::InitFinished(Err(m)) => {
                self.phase = Phase::Stopped;
                Command::Finish(failure(Error::Init(m)))
            },
            Event::GenesisPatched(Ok(())) => {
                self.phase = Phase::PatchingConfig;
                Command::PatchConfig
            },
            Event::ConfigPatched(Ok(())) => {
                self.phase = Phase::Starting;
                Command::Spawn
            },
            Event::GenesisPatched(Err(e)) | Event::ConfigPatched(Err(e)) => {
                self.phase = Phase::Stopped;
                Command::Finish(failure(e))
            },
            Event::Spawned(Ok(())) => {
                self.phase = Phase::Running;
                Command::AwaitRace
            },
            Event::Spawned(Err(m)) => {
                self.phase = Phase::Stopped;
                Command::Finish(failure(Error::StartUp(m)))
            },
            Event::RaceEnded(o) => {
                self.phase = Phase::Stopped;
                Command::Finish(decide(o))
            },
        }
    }
}

fn failure(e: Error) -> (r: Decision)
    ensures
        !r.kill_child && !r.send_reply && r.result == Err::<(), Error>(e),
{
    Decision { kill_child: false, send_reply: false, result: Err(e) }
}

/// The height that the rollback command's report gives, or why it gives
/// none.
pub fn rollback_height(stdout: &str) -> (r: Result<u64, Error>)
    ensures
        match rollback_outcome(stdout.spec_bytes()) {
            Ok(h) => r == Ok::<u64, Error>(h),
            Err(e) => r matches Err(Error::RollBackOutput(f)) && f == e,
        },
{
    match parse_rollback_output(stdout) {
        Ok(h) => Ok(h),
        Err(e) => Err(Error::RollBackOutput(e)),
    }
}

} // verus!
