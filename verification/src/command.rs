//! The single hardened primitive through which every external program is
//! invoked: a command string split on spaces, a quiet flag that silences
//! stdout, and privilege elevation expressed only through a dedicated flag —
//! a command string that itself starts with `sudo` is rejected at
//! construction time. Every failure of an invocation is classified as a spawn
//! failure, a termination without a normal exit code, or a non-zero exit.

use vstd::prelude::*;

verus! {

/// The whitespace characters that construction strips from the ends of a
/// command string.
pub open spec fn is_space_char(c: char) -> bool {
    c == ' ' || c == '\t' || c == '\n' || c == '\r'
}

pub open spec fn spec_trim_front(s: Seq<char>) -> Seq<char>
    decreases s.len(),
{
    if s.len() > 0 && is_space_char(s[0]) {
        spec_trim_front(s.drop_first())
    } else {
        s
    }
}

pub open spec fn spec_trim_back(s: Seq<char>) -> Seq<char>
    decreases s.len(),
{
    if s.len() > 0 && is_space_char(s[s.len() - 1]) {
        spec_trim_back(s.drop_last())
    } else {
        s
    }
}

/// The command string with leading and trailing whitespace removed.
pub open spec fn spec_trim(s: Seq<char>) -> Seq<char> {
    spec_trim_back(spec_trim_front(s))
}

/// Whether the string begins with the four letters of `sudo`.
pub open spec fn spec_starts_with_sudo(s: Seq<char>) -> bool {
    s.len() >= 4 && s[0] == 's' && s[1] == 'u' && s[2] == 'd' && s[3] == 'o'
}

/// The parts of a string split on single spaces; two adjacent spaces yield an
/// empty part, and the split of any string has at least one part.
pub open spec fn spec_split_spaces(s: Seq<char>) -> Seq<Seq<char>>
    decreases s.len(),
{
    if s.len() == 0 {
        seq![Seq::<char>::empty()]
    } else if s[0] == ' ' {
        seq![Seq::<char>::empty()] + spec_split_spaces(s.drop_first())
    } else {
        let rest = spec_split_spaces(s.drop_first());
        seq![seq![s[0]] + rest[0]] + rest.drop_first()
    }
}

pub proof fn lemma_split_nonempty(s: Seq<char>)
    ensures
        spec_split_spaces(s).len() >= 1,
    decreases s.len(),
{
    if s.len() > 0 {
        lemma_split_nonempty(s.drop_first());
    }
}

proof fn lemma_split_no_space(s: Seq<char>)
    requires
        forall|j: int| 0 <= j < s.len() ==> s[j] != ' ',
    ensures
        spec_split_spaces(s) == seq![s],
    decreases s.len(),
{
    if s.len() == 0 {
        assert(seq![Seq::<char>::empty()] =~~= seq![s]);
    } else {
        lemma_split_no_space(s.drop_first());
        let rest = spec_split_spaces(s.drop_first());
        assert(rest == seq![s.drop_first()]);
        assert(seq![s[0]] + rest[0] =~= s);
        assert(spec_split_spaces(s) =~~= seq![s]);
    }
}

proof fn lemma_split_at_first_space(s: Seq<char>, i: int)
    requires
        0 <= i < s.len(),
        s[i] == ' ',
        forall|j: int| 0 <= j < i ==> s[j] != ' ',
    ensures
        spec_split_spaces(s) == seq![s.subrange(0, i)] + spec_split_spaces(
            s.subrange(i + 1, s.len() as int),
        ),
    decreases i,
{
    if i == 0 {
        assert(s.drop_first() =~= s.subrange(1, s.len() as int));
        assert(seq![Seq::<char>::empty()] =~~= seq![s.subrange(0, 0)]);
    } else {
        let t = s.drop_first();
        lemma_split_at_first_space(t, i - 1);
        let rest = spec_split_spaces(t);
        let tail_split = spec_split_spaces(t.subrange(i, t.len() as int));
        assert(rest == seq![t.subrange(0, i - 1)] + tail_split);
        assert(rest[0] == t.subrange(0, i - 1));
        assert(rest.drop_first() =~~= tail_split);
        assert(seq![s[0]] + t.subrange(0, i - 1) =~= s.subrange(0, i));
        assert(t.subrange(i, t.len() as int) =~= s.subrange(i + 1, s.len() as int));
        assert(spec_split_spaces(s) =~~= seq![s.subrange(0, i)] + spec_split_spaces(
            s.subrange(i + 1, s.len() as int),
        ));
    }
}

fn is_space(c: char) -> (r: bool)
    ensures
        r == is_space_char(c),
{
    c == ' ' || c == '\t' || c == '\n' || c == '\r'
}

fn trim_str(s: &str) -> (r: String)
    ensures
        r@ == spec_trim(s@),
{
    let n: usize = s.unicode_len();
    proof {
        assert(s@.subrange(0, n as int) =~= s@);
    }
    let mut a: usize = 0;
    while a < n && is_space(s.get_char(a))
        invariant
            a <= n,
            n == s@.len(),
            spec_trim_front(s@) == spec_trim_front(s@.subrange(a as int, n as int)),
        decreases n - a,
    {
        proof {
            let rem = s@.subrange(a as int, n as int);
            assert(rem.drop_first() =~= s@.subrange(a as int + 1, n as int));
        }
        a = a + 1;
    }
    proof {
        assert(spec_trim_front(s@) == s@.subrange(a as int, n as int));
    }
    let mut b: usize = n;
    while b > a && is_space(s.get_char(b - 1))
        invariant
            a <= b <= n,
            n == s@.len(),
            spec_trim_front(s@) == s@.subrange(a as int, n as int),
            spec_trim_back(s@.subrange(a as int, n as int)) == spec_trim_back(
                s@.subrange(a as int, b as int),
            ),
        decreases b,
    {
        proof {
            let rem = s@.subrange(a as int, b as int);
            assert(rem.drop_last() =~= s@.subrange(a as int, b as int - 1));
        }
        b = b - 1;
    }
    let r = s.substring_char(a, b).to_owned();
    r
}

fn starts_with_sudo(s: &str) -> (r: bool)
    ensures
        r == spec_starts_with_sudo(s@),
{
    let n: usize = s.unicode_len();
    n >= 4 && s.get_char(0) == 's' && s.get_char(1) == 'u' && s.get_char(2) == 'd'
        && s.get_char(3) == 'o'
}

fn split_spaces(s: &str) -> (parts: Vec<String>)
    ensures
        parts.deep_view() == spec_split_spaces(s@),
{
    let n: usize = s.unicode_len();
    let mut parts: Vec<String> = Vec::new();
    proof {
        assert(s@.subrange(0, n as int) =~= s@);
        assert(parts.deep_view() + spec_split_spaces(s@) =~~= spec_split_spaces(s@));
    }
    let mut start: usize = 0;
    let mut i: usize = 0;
    while i < n
        invariant
            start <= i <= n,
            n == s@.len(),
            forall|j: int| start <= j < i ==> s@[j] != ' ',
            spec_split_spaces(s@) == parts.deep_view() + spec_split_spaces(
                s@.subrange(start as int, n as int),
            ),
        decreases n - i,
    {
        if s.get_char(i) == ' ' {
            let part = s.substring_char(start, i).to_owned();
            proof {
                let rem = s@.subrange(start as int, n as int);
                lemma_split_at_first_space(rem, i - start);
                assert(rem.subrange(0, i - start) =~= s@.subrange(start as int, i as int));
                assert(rem.subrange(i - start + 1, rem.len() as int) =~= s@.subrange(
                    i as int + 1,
                    n as int,
                ));
            }
            let ghost old_parts = parts.deep_view();
            parts.push(part);
            proof {
                assert(parts.deep_view() =~~= old_parts.push(part@));
                assert(parts.deep_view() + spec_split_spaces(
                    s@.subrange(i as int + 1, n as int),
                ) =~~= spec_split_spaces(s@));
            }
            start = i + 1;
        }
        i = i + 1;
    }
    let last = s.substring_char(start, n).to_owned();
    proof {
        lemma_split_no_space(s@.subrange(start as int, n as int));
    }
    let ghost old_parts = parts.deep_view();
    parts.push(last);
    proof {
        assert(parts.deep_view() =~~= old_parts.push(last@));
        assert(parts.deep_view() =~~= spec_split_spaces(s@));
    }
    parts
}

/// The first argv entry that privilege elevation prepends.
pub open spec fn sudo_argv_head() -> Seq<char> {
    seq!['s', 'u', 'd', 'o']
}

/// How an invoked process came to an end, as plain values.
#[derive(Debug, Clone, Copy, PartialEq, Eq, Structural)]
pub enum ProcessStatus {
    /// The process exited normally with this code.
    Exited(u32),
    /// The process was terminated by a signal with this number.
    Signaled(u8),
    /// The process ended in a way that is neither a normal exit nor a signal.
    Other(i32),
    /// The process ended but its status could not be retrieved.
    Undetermined,
}

/// Everything that can go wrong around one external command: a rejected
/// command string at construction, or one of the three failure kinds of an
/// actual invocation.
#[derive(Debug, PartialEq, Eq)]
pub enum SingleCommandError {
    /// The command string itself starts with `sudo`; elevation must be
    /// requested through the dedicated flag instead.
    SudoEmbedded,
    /// The process image could not be created: missing binary, permission
    /// denied. Carries the spawn error's rendering.
    SpawnFailure(String),
    /// The process terminated without a normal exit code.
    SignalTermination,
    /// The process exited with this non-zero code.
    NonZeroExit(u32),
}

/// One external command to run: the program and its arguments in a single
/// string split on spaces, a quiet flag, and whether to elevate via `sudo`.
#[derive(Debug)]
pub struct SingleCommand {
    /// The trimmed command string; never starts with `sudo`.
    command: String,
    /// Whether to silence the command's standard output.
    quiet: bool,
    /// Whether to prepend `sudo` to the argument vector when running.
    sudo: bool,
}

impl SingleCommand {
    /// The stored (trimmed) command string.
    pub closed spec fn command_view(&self) -> Seq<char> {
        self.command@
    }

    pub closed spec fn is_quiet(&self) -> bool {
        self.quiet
    }

    pub closed spec fn uses_sudo(&self) -> bool {
        self.sudo
    }

    /// The argument vector the command runs with: the command string split on
    /// spaces, with `sudo` prepended iff elevation was requested.
    pub open spec fn spec_argv(&self) -> Seq<Seq<char>> {
        if self.uses_sudo() {
            seq![sudo_argv_head()] + spec_split_spaces(self.command_view())
        } else {
            spec_split_spaces(self.command_view())
        }
    }

    /// Trims the command string and rejects it when its trimmed form starts
    /// with `sudo`, whatever the elevation flag says.
    pub fn new(command: String, quiet: bool, sudo: bool) -> (r: Result<
        SingleCommand,
        SingleCommandError,
    >)
        ensures
            r is Ok <==> !spec_starts_with_sudo(spec_trim(command@)),
            r is Ok ==> r->Ok_0.command_view() == spec_trim(command@)
                && r->Ok_0.is_quiet() == quiet && r->Ok_0.uses_sudo() == sudo,
            r is Err ==> r->Err_0 == SingleCommandError::SudoEmbedded,
    {
        let trimmed = trim_str(command.as_str());
        if starts_with_sudo(trimmed.as_str()) {
            return Err(SingleCommandError::SudoEmbedded);
        }
        Ok(SingleCommand { command: trimmed, quiet, sudo })
    }

    /// Constructs a command from a string that provably does not start with
    /// `sudo` once trimmed, so construction cannot fail.
    pub(crate) fn from_clean(command: String, quiet: bool, sudo: bool) -> (r: SingleCommand)
        requires
            !spec_starts_with_sudo(spec_trim(command@)),
        ensures
            r.command_view() == spec_trim(command@),
            r.is_quiet() == quiet,
            r.uses_sudo() == sudo,
    {
        let trimmed = trim_str(command.as_str());
        SingleCommand { command: trimmed, quiet, sudo }
    }

    /// The argument vector this command runs with.
    pub fn argv(&self) -> (r: Vec<String>)
        ensures
            r.deep_view() == self.spec_argv(),
            r@.len() >= 1,
    {
        let mut parts = split_spaces(self.command.as_str());
        proof {
            lemma_split_nonempty(self.command@);
        }
        if self.sudo {
            let head = "sudo".to_owned();
            proof {
                reveal_strlit("sudo");
                assert(head@ =~= sudo_argv_head());
            }
            let ghost old_parts = parts.deep_view();
            parts.insert(0, head);
            proof {
                assert(parts.deep_view() =~~= seq![sudo_argv_head()] + old_parts);
            }
        }
        parts
    }

    /// Runs the command to completion: stdin is inherited from the caller,
    /// the environment is passed through unmodified, and stdout is silenced
    /// iff the command is quiet. The result is the classification of whatever
    /// outcome the invocation had; a construction-time error can never come
    /// out of here.
    pub fn run(&self) -> (r: Result<(), SingleCommandError>)
        ensures
            !(r matches Err(SingleCommandError::SudoEmbedded)),
            r matches Err(SingleCommandError::NonZeroExit(code)) ==> code != 0,
    {
        let argv = self.argv();
        match spawn_and_wait(&argv, self.quiet) {
            Err(reason) => Err(SingleCommandError::SpawnFailure(reason)),
            Ok(status) => classify_exit_status(&status),
        }
    }
}

/// The classification of a finished process: success exactly on a normal
/// exit with code zero, a non-zero exit reported with its code, and
/// everything else a termination without a normal exit code.
pub open spec fn spec_classify_status(status: ProcessStatus) -> Result<(), SingleCommandError> {
    match status {
        ProcessStatus::Exited(code) => if code == 0 {
            Ok(())
        } else {
            Err(SingleCommandError::NonZeroExit(code))
        },
        ProcessStatus::Signaled(_) => Err(SingleCommandError::SignalTermination),
        ProcessStatus::Other(_) => Err(SingleCommandError::SignalTermination),
        ProcessStatus::Undetermined => Err(SingleCommandError::SignalTermination),
    }
}

/// Turns the way a process ended into the command outcome.
pub fn classify_exit_status(status: &ProcessStatus) -> (r: Result<(), SingleCommandError>)
    ensures
        r == spec_classify_status(*status),
{
    match *status {
        ProcessStatus::Exited(code) => if code == 0 {
            Ok(())
        } else {
            Err(SingleCommandError::NonZeroExit(code))
        },
        ProcessStatus::Signaled(_) => Err(SingleCommandError::SignalTermination),
        ProcessStatus::Other(_) => Err(SingleCommandError::SignalTermination),
        ProcessStatus::Undetermined => Err(SingleCommandError::SignalTermination),
    }
}

/// Relies on subprocess::Exec: spawns the program `argv[0]` with the
/// remaining entries as its arguments — stdin inherited, the environment
/// passed through from this process, stdout redirected to the null device iff
/// `quiet` — waits for it, and reports how it ended. `Err` carries the
/// rendering of the spawn error when the process could not be created.
#[verifier::external_body]
fn spawn_and_wait(argv: &Vec<String>, quiet: bool) -> (r: Result<ProcessStatus, String>)
    requires
        argv@.len() >= 1,
{
    let mut exec = subprocess::Exec::cmd(&argv[0]).args(&argv[1..]);
    if quiet {
        exec = exec.stdout(subprocess::NullFile);
    }
    match exec.join() {
        Ok(subprocess::ExitStatus::Exited(code)) => Ok(ProcessStatus::Exited(code)),
        Ok(subprocess::ExitStatus::Signaled(signal)) => Ok(ProcessStatus::Signaled(signal)),
        Ok(subprocess::ExitStatus::Other(code)) => Ok(ProcessStatus::Other(code)),
        Ok(subprocess::ExitStatus::Undetermined) => Ok(ProcessStatus::Undetermined),
        Err(err) => Err(format!("{:?}", err)),
    }
}

} // verus!
