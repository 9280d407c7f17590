//! Talking to the LoRa module in its command mode: which commands are sent when,
//! and how an answer is recognized.

use vstd::prelude::*;
use vstd::string::*;

verus! {

/// How long the module needs after power-up.
pub const POWER_UP_MS: u64 = 1_500;

/// Pause before and after an escape, so that the module tells it from data.
pub const ESCAPE_PAUSE_MS: u64 = 1_000;

/// How long the module needs to restart.
pub const RESTART_MS: u64 = 1_500;

/// How long to wait for the module to enter command mode.
pub const ENTRY_TIMEOUT_MS: u64 = 3_000;

/// How long to wait for a command to be confirmed.
pub const OK_TIMEOUT_MS: u64 = 2_000;

/// Pause before looking for bytes again where there were none.
pub const POLL_INTERVAL_MS: u64 = 20;

/// Pause after a read that gave no byte.
pub const EMPTY_READ_PAUSE_MS: u64 = 10;

/// How many of the last bytes are kept while waiting for an answer.
pub const WINDOW_LEN: usize = 128;

/// A text without the line ends at its end.
pub open spec fn trimmed(text: Seq<char>) -> Seq<char>
    decreases text.len(),
{
    if text.len() > 0 && (text.last() == '\r' || text.last() == '\n') {
        trimmed(text.drop_last())
    } else {
        text
    }
}

/// The command is the escape that switches command mode on and off.
pub open spec fn is_escape(command: Seq<char>) -> bool {
    trimmed(command) == seq!['+', '+', '+']
}

/// Whether a command is the escape that switches command mode on and off.
pub fn is_at_escape(cmd: &str) -> (escape: bool)
    ensures
        escape == is_escape(cmd@),
{
    let mut len: usize = cmd.unicode_len();
    assert(cmd@.take(len as int) =~= cmd@);
    while len > 0 && (cmd.get_char(len - 1) == '\r' || cmd.get_char(len - 1) == '\n')
        invariant
            len <= cmd@.len(),
            trimmed(cmd@.take(len as int)) == trimmed(cmd@),
        decreases len,
    {
        assert(cmd@.take(len as int).drop_last() =~= cmd@.take(len - 1));
        len = len - 1;
    }
    let ghost text = cmd@.take(len as int);
    assert(trimmed(text) == text);
    let escape = len == 3 && cmd.get_char(0) == '+' && cmd.get_char(1) == '+' && cmd.get_char(2)
        == '+';
    proof {
        if escape {
            assert(text =~= seq!['+', '+', '+']);
        } else if text == seq!['+', '+', '+'] {
            assert(text[0] == '+' && text[1] == '+' && text[2] == '+');
        }
    }
    escape
}

/// One step of configuring the module.
#[derive(Debug, Clone, Copy, PartialEq, Eq, Structural)]
pub enum AtStep {
    /// Wait.
    Wait { ms: u64 },
    /// Send the command with this index.
    Send { index: usize },
    /// Wait for the module to enter command mode. Where it does not, the module
    /// is left as it is.
    AwaitEntry { timeout_ms: u64 },
    /// Wait for the command to be confirmed. Where it is not, configuration has
    /// failed.
    AwaitOk { timeout_ms: u64 },
}

/// How configuration stands after a step.
#[derive(Debug, Clone, Copy, PartialEq, Eq, Structural)]
pub enum AtOutcome {
    /// The next step is due; after the last one the module is configured.
    GoOn,
    /// The module does not take commands and keeps the settings that it has.
    KeepSettings,
    /// A command was not confirmed in time.
    TimedOut,
}

impl AtStep {
    pub open spec fn spec_outcome(self, answered: bool) -> AtOutcome {
        match self {
            AtStep::AwaitEntry { .. } if !answered => AtOutcome::KeepSettings,
            AtStep::AwaitOk { .. } if !answered => AtOutcome::TimedOut,
            _ => AtOutcome::GoOn,
        }
    }

    /// How configuration stands after the step, given whether an answer that it
    /// waited for has come.
    #[verifier::when_used_as_spec(spec_outcome)]
    pub fn outcome(self, answered: bool) -> (next: AtOutcome)
        ensures
            next == self.spec_outcome(answered),
    {
        match self {
            AtStep::AwaitEntry { .. } => {
                if answered {
                    AtOutcome::GoOn
                } else {
                    AtOutcome::KeepSettings
                }
            },
            AtStep::AwaitOk { .. } => {
                if answered {
                    AtOutcome::GoOn
                } else {
                    AtOutcome::TimedOut
                }
            },
            _ => AtOutcome::GoOn,
        }
    }

    /// The answer that a step waits for, and for how long.
    pub fn awaited(self) -> (answer: Option<(&'static str, u64)>)
        ensures
            match self {
                AtStep::AwaitEntry { timeout_ms } => answer matches Some((marker, ms)) && marker@
                    == "Entry AT"@ && ms == timeout_ms,
                AtStep::AwaitOk { timeout_ms } => answer matches Some((marker, ms)) && marker@
                    == "OK"@ && ms == timeout_ms,
                _ => answer is None,
            },
    {
        match self {
            AtStep::AwaitEntry { timeout_ms } => Some(("Entry AT", timeout_ms)),
            AtStep::AwaitOk { timeout_ms } => Some(("OK", timeout_ms)),
            _ => None,
        }
    }
}

/// The steps that enter command mode with the first command.
pub open spec fn entry_steps() -> Seq<AtStep> {
    seq![
        AtStep::Wait { ms: POWER_UP_MS },
        AtStep::Wait { ms: ESCAPE_PAUSE_MS },
        AtStep::Send { index: 0 },
        AtStep::Wait { ms: ESCAPE_PAUSE_MS },
        AtStep::AwaitEntry { timeout_ms: ENTRY_TIMEOUT_MS },
    ]
}

/// The steps for the commands after the first and before index `end`: each is
/// sent and its confirmation awaited. Escapes are left out.
pub open spec fn command_steps(commands: Seq<&'static str>, end: nat) -> Seq<AtStep>
    decreases end,
{
    if end <= 1 {
        Seq::empty()
    } else {
        let before = command_steps(commands, (end - 1) as nat);
        if is_escape(commands[end - 1]@) {
            before
        } else {
            before + seq![
                AtStep::Send { index: (end - 1) as usize },
                AtStep::AwaitOk { timeout_ms: OK_TIMEOUT_MS },
            ]
        }
    }
}

/// The steps that leave command mode, where the last command does so.
pub open spec fn exit_steps(commands: Seq<&'static str>) -> Seq<AtStep> {
    if is_escape(commands.last()@) {
        seq![
            AtStep::Wait { ms: ESCAPE_PAUSE_MS },
            AtStep::Send { index: (commands.len() - 1) as usize },
            AtStep::Wait { ms: RESTART_MS },
        ]
    } else {
        Seq::empty()
    }
}

/// All the steps that configure the module with a sequence of commands.
pub open spec fn program(commands: Seq<&'static str>) -> Seq<AtStep> {
    if commands.len() == 0 {
        seq![AtStep::Wait { ms: POWER_UP_MS }]
    } else {
        entry_steps() + command_steps(commands, commands.len()) + exit_steps(commands)
    }
}

/// All the steps that configure the module with a sequence of commands.
pub fn at_program(commands: &[&'static str]) -> (steps: Vec<AtStep>)
    ensures
        steps@ == program(commands@),
{
    let mut steps: Vec<AtStep> = Vec::new();
    steps.push(AtStep::Wait { ms: POWER_UP_MS });
    if commands.len() == 0 {
        assert(steps@ =~= program(commands@));
        return steps;
    }
    steps.push(AtStep::Wait { ms: ESCAPE_PAUSE_MS });
    steps.push(AtStep::Send { index: 0 });
    steps.push(AtStep::Wait { ms: ESCAPE_PAUSE_MS });
    steps.push(AtStep::AwaitEntry { timeout_ms: ENTRY_TIMEOUT_MS });
    assert(steps@ =~= entry_steps() + command_steps(commands@, 1));
    let mut i: usize = 1;
    while i < commands.len()
        invariant
            1 <= i <= commands@.len(),
            steps@ == entry_steps() + command_steps(commands@, i as nat),
        decreases commands@.len() - i,
    {
        if !is_at_escape(commands[i]) {
            steps.push(AtStep::Send { index: i });
            steps.push(AtStep::AwaitOk { timeout_ms: OK_TIMEOUT_MS });
        }
        i = i + 1;
        assert(steps@ =~= entry_steps() + command_steps(commands@, i as nat));
    }
    let last: usize = commands.len() - 1;
    if is_at_escape(commands[last]) {
        steps.push(AtStep::Wait { ms: ESCAPE_PAUSE_MS });
        steps.push(AtStep::Send { index: last });
        steps.push(AtStep::Wait { ms: RESTART_MS });
    }
    assert(steps@ =~= program(commands@));
    steps
}

/// How configuration ends if the answers that steps wait for come, or do not, as
/// `answers` says for each step: with the first step after which it does not go
/// on, or after the last.
pub open spec fn run_outcome(steps: Seq<AtStep>, answers: Seq<bool>) -> AtOutcome
    decreases steps.len(),
{
    if steps.len() == 0 {
        AtOutcome::GoOn
    } else if steps[0].outcome(answers[0]) != AtOutcome::GoOn {
        steps[0].outcome(answers[0])
    } else {
        run_outcome(steps.skip(1), answers.skip(1))
    }
}

/// Wait for an answer: the last bytes that came, and how long none has come.
pub struct MarkerScan {
    window: Vec<u8>,
    elapsed_ms: u64,
    timeout_ms: u64,
}

/// What a `MarkerScan` holds.
#[verifier::ext_equal]
pub struct ScanView {
    pub window: Seq<u8>,
    pub elapsed_ms: u64,
    pub timeout_ms: u64,
}

impl ScanView {
    /// It is too late for an answer.
    pub open spec fn is_expired(self) -> bool {
        self.elapsed_ms >= self.timeout_ms
    }

    /// After there was no byte to read.
    pub open spec fn after_silence(self) -> ScanView {
        ScanView {
            elapsed_ms: ((self.elapsed_ms + POLL_INTERVAL_MS) % 0x1_0000_0000_0000_0000) as u64,
            ..self
        }
    }
}

impl View for MarkerScan {
    type V = ScanView;

    closed spec fn view(&self) -> ScanView {
        ScanView {
            window: self.window@,
            elapsed_ms: self.elapsed_ms,
            timeout_ms: self.timeout_ms,
        }
    }
}

/// The last bytes of `bytes`, as many as are kept.
pub open spec fn last_bytes(bytes: Seq<u8>) -> Seq<u8> {
    if bytes.len() <= WINDOW_LEN {
        bytes
    } else {
        bytes.skip(bytes.len() - WINDOW_LEN)
    }
}

/// `bytes` end with `marker`.
pub open spec fn ends_with(bytes: Seq<u8>, marker: Seq<u8>) -> bool {
    bytes.len() >= marker.len() && bytes.skip(bytes.len() - marker.len()) == marker
}

impl MarkerScan {
    /// Nothing has come yet.
    pub fn new(timeout_ms: u64) -> (scan: MarkerScan)
        ensures
            scan@ == (ScanView { window: Seq::empty(), elapsed_ms: 0, timeout_ms }),
    {
        MarkerScan { window: Vec::new(), elapsed_ms: 0, timeout_ms }
    }

    /// Whether it is too late for an answer.
    pub fn is_expired(&self) -> (expired: bool)
        ensures
            expired == self@.is_expired(),
    {
        self.elapsed_ms >= self.timeout_ms
    }

    /// There was no byte to read: return how long to wait before looking again.
    /// The time counts toward the timeout.
    pub fn on_silence(&mut self) -> (pause_ms: u64)
        ensures
            pause_ms == 20,
            final(self)@ == old(self)@.after_silence(),
    {
        self.elapsed_ms = self.elapsed_ms.wrapping_add(POLL_INTERVAL_MS);
        POLL_INTERVAL_MS
    }

    /// A read gave no byte: return how long to wait before reading again. The time
    /// does not count toward the timeout.
    pub fn on_empty_read(&mut self) -> (pause_ms: u64)
        ensures
            pause_ms == 10,
            final(self)@ == old(self)@,
    {
        EMPTY_READ_PAUSE_MS
    }

    /// Take a byte into account. If the bytes that are kept end with `marker`,
    /// return how many are kept.
    pub fn on_byte(&mut self, byte: u8, marker: &[u8]) -> (found: Option<usize>)
        ensures
            final(self)@ == (ScanView {
                window: last_bytes(old(self)@.window.push(byte)),
                ..old(self)@
            }),
            match found {
                Some(len) => ends_with(final(self)@.window, marker@) && len
                    == final(self)@.window.len(),
                None => !ends_with(final(self)@.window, marker@),
            },
    {
        let ghost before = self.window@;
        while self.window.len() >= WINDOW_LEN
            invariant
                before.len() < WINDOW_LEN ==> self.window@ == before,
                before.len() >= WINDOW_LEN ==> WINDOW_LEN - 1 <= self.window@.len()
                    <= before.len() && self.window@ == before.skip(
                    before.len() - self.window@.len(),
                ),
                self@ == (ScanView { window: self.window@, ..old(self)@ }),
            decreases self.window@.len(),
        {
            let _ = self.window.remove(0);
        }
        self.window.push(byte);
        assert(self.window@ =~= last_bytes(before.push(byte)));
        if self.ends_with_marker(marker) {
            Some(self.window.len())
        } else {
            None
        }
    }

    /// Whether the bytes that are kept end with `marker`.
    fn ends_with_marker(&self, marker: &[u8]) -> (found: bool)
        ensures
            found == ends_with(self@.window, marker@),
    {
        if self.window.len() < marker.len() {
            return false;
        }
        let len: usize = self.window.len();
        let start: usize = len - marker.len();
        let ghost tail = self.window@.skip(start as int);
        let mut i: usize = 0;
        while i < marker.len()
            invariant
                i <= marker@.len(),
                start + marker@.len() == len,
                len == self.window@.len(),
                tail == self.window@.skip(start as int),
                forall|j: int| 0 <= j < i ==> tail[j] == marker@[j],
            decreases marker@.len() - i,
        {
            if self.window[start + i] != marker[i] {
                assert(tail[i as int] != marker@[i as int]);
                return false;
            }
            i = i + 1;
        }
        assert(tail =~= marker@);
        true
    }
}

/// What is kept after `bytes` came one after the other.
pub open spec fn window_after(bytes: Seq<u8>) -> Seq<u8>
    decreases bytes.len(),
{
    if bytes.len() == 0 {
        Seq::empty()
    } else {
        last_bytes(window_after(bytes.drop_last()).push(bytes.last()))
    }
}

/// However many bytes come, the last of them are kept, so that an answer that is
/// no longer than the window is recognized exactly when all that came ends with
/// it.
pub proof fn law_answer_is_recognized(bytes: Seq<u8>, marker: Seq<u8>)
    requires
        marker.len() <= WINDOW_LEN,
    ensures
        window_after(bytes) == last_bytes(bytes),
        ends_with(window_after(bytes), marker) == ends_with(bytes, marker),
    decreases bytes.len(),
{
    if bytes.len() > 0 {
        law_answer_is_recognized(bytes.drop_last(), marker);
        assert(bytes.drop_last().push(bytes.last()) =~= bytes);
        assert(last_bytes(last_bytes(bytes.drop_last()).push(bytes.last())) =~= last_bytes(bytes));
    } else {
        assert(window_after(bytes) =~= bytes);
    }
    let kept = last_bytes(bytes);
    if bytes.len() >= marker.len() {
        assert(kept.skip(kept.len() - marker.len()) =~= bytes.skip(bytes.len() - marker.len()));
    }
}

/// Each command after the first that is not an escape is sent, and its
/// confirmation is awaited right after.
pub proof fn law_commands_are_confirmed(commands: Seq<&'static str>, i: int)
    requires
        0 < i < commands.len() <= usize::MAX,
        !is_escape(commands[i]@),
    ensures
        exists|k: int|
            0 <= k && k + 1 < program(commands).len() && #[trigger] program(commands)[k]
                == (AtStep::Send { index: i as usize }) && program(commands)[k + 1]
                == (AtStep::AwaitOk { timeout_ms: OK_TIMEOUT_MS }),
{
    let steps = command_steps(commands, commands.len());
    let j = lemma_command_is_sent(commands, commands.len(), i);
    let k = entry_steps().len() + j;
    assert(program(commands)[k] == steps[j]);
    assert(program(commands)[k + 1] == steps[j + 1]);
}

/// Where a command is sent among those before index `end`.
proof fn lemma_command_is_sent(commands: Seq<&'static str>, end: nat, i: int) -> (k: int)
    requires
        0 < i < end <= commands.len() <= usize::MAX,
        !is_escape(commands[i]@),
    ensures
        0 <= k,
        k + 1 < command_steps(commands, end).len(),
        command_steps(commands, end)[k] == (AtStep::Send { index: i as usize }),
        command_steps(commands, end)[k + 1] == (AtStep::AwaitOk { timeout_ms: OK_TIMEOUT_MS }),
    decreases end,
{
    let before = command_steps(commands, (end - 1) as nat);
    if i == end - 1 {
        before.len() as int
    } else {
        lemma_command_is_sent(commands, (end - 1) as nat, i)
    }
}

/// What decides how configuration ends is the first answer that does not come: for
/// want of the answer to the first escape the module keeps its settings, and for
/// want of the confirmation of a command configuration times out.
pub proof fn law_first_missing_answer_decides(steps: Seq<AtStep>, answers: Seq<bool>, k: int)
    requires
        0 <= k < steps.len(),
        answers.len() == steps.len(),
        !answers[k],
        steps[k] is AwaitEntry || steps[k] is AwaitOk,
        forall|j: int| 0 <= j < k ==> answers[j],
    ensures
        run_outcome(steps, answers) == (if steps[k] is AwaitEntry {
            AtOutcome::KeepSettings
        } else {
            AtOutcome::TimedOut
        }),
    decreases k,
{
    if k > 0 {
        law_first_missing_answer_decides(steps.skip(1), answers.skip(1), k - 1);
    }
}

/// Where every answer comes, the module is configured.
pub proof fn law_all_answers_configure(steps: Seq<AtStep>, answers: Seq<bool>)
    requires
        answers.len() == steps.len(),
        forall|j: int| 0 <= j < steps.len() ==> answers[j],
    ensures
        run_outcome(steps, answers) == AtOutcome::GoOn,
    decreases steps.len(),
{
    if steps.len() > 0 {
        law_all_answers_configure(steps.skip(1), answers.skip(1));
    }
}

/// The module tells escapes from data by the silence around them: there is a pause
/// before and after each escape that is sent.
pub proof fn law_escapes_are_set_off(commands: Seq<&'static str>, k: int, index: usize)
    requires
        commands.len() <= usize::MAX,
        0 <= k < program(commands).len(),
        program(commands)[k] == (AtStep::Send { index }),
        is_escape(commands[index as int]@),
    ensures
        0 < k,
        k + 1 < program(commands).len(),
        program(commands)[k - 1] == (AtStep::Wait { ms: ESCAPE_PAUSE_MS }),
        program(commands)[k + 1] matches AtStep::Wait { ms } && ms >= ESCAPE_PAUSE_MS,
{
    let entry = entry_steps();
    let steps = command_steps(commands, commands.len());
    lemma_no_escape_among_commands(commands, commands.len());
    if k >= entry.len() && k < entry.len() + steps.len() {
        assert(program(commands)[k] == steps[k - entry.len()]);
    }
}

/// None of the commands between the first and the last that are sent is an
/// escape.
proof fn lemma_no_escape_among_commands(commands: Seq<&'static str>, end: nat)
    requires
        end <= commands.len() <= usize::MAX,
    ensures
        forall|k: int|
            0 <= k < command_steps(commands, end).len() ==> (#[trigger] command_steps(
                commands,
                end,
            )[k] matches AtStep::Send { index } ==> !is_escape(commands[index as int]@)),
    decreases end,
{
    if end > 1 {
        lemma_no_escape_among_commands(commands, (end - 1) as nat);
    }
}

/// A scan after there was no byte to read for `polls` times in a row.
pub open spec fn after_silences(scan: ScanView, polls: nat) -> ScanView
    decreases polls,
{
    if polls == 0 {
        scan
    } else {
        after_silences(scan, (polls - 1) as nat).after_silence()
    }
}

/// Silence ends a scan after its timeout, counted in whole poll intervals.
pub proof fn law_silence_ends_scan(scan: ScanView, polls: nat)
    requires
        scan.elapsed_ms + polls * POLL_INTERVAL_MS <= u64::MAX,
    ensures
        after_silences(scan, polls).elapsed_ms == scan.elapsed_ms + polls * POLL_INTERVAL_MS,
        after_silences(scan, polls).is_expired() == (scan.elapsed_ms + polls * POLL_INTERVAL_MS
            >= scan.timeout_ms),
        after_silences(scan, polls).timeout_ms == scan.timeout_ms,
    decreases polls,
{
    if polls > 0 {
        law_silence_ends_scan(scan, (polls - 1) as nat);
    }
}

/// The escape is three plus signs, with nothing behind them but line ends.
pub proof fn law_escape_is_three_plus_signs(command: Seq<char>)
    ensures
        is_escape(command) == (command.len() >= 3 && command[0] == '+' && command[1] == '+'
            && command[2] == '+' && forall|i: int|
            3 <= i < command.len() ==> #[trigger] command[i] == '\r' || command[i] == '\n'),
    decreases command.len(),
{
    if command.len() > 0 && (command.last() == '\r' || command.last() == '\n') {
        let shorter = command.drop_last();
        law_escape_is_three_plus_signs(shorter);
        assert forall|i: int| 3 <= i < shorter.len() implies shorter[i] == command[i] by {}
        if is_escape(command) {
            assert forall|i: int| 3 <= i < command.len() implies #[trigger] command[i] == '\r'
                || command[i] == '\n' by {
                if i < shorter.len() {
                    assert(shorter[i] == command[i]);
                }
            }
        }
    } else {
        let escape = seq!['+', '+', '+'];
        if command.len() == 3 && command[0] == '+' && command[1] == '+' && command[2] == '+' {
            assert(command =~= escape);
        } else if command.len() > 3 {
            assert(command.last() == command[command.len() - 1]);
        }
    }
}

/// The commands between entering and leaving come in pairs of sending and awaiting
/// confirmation, in the order of the commands, each at most once, and no escape is
/// among them.
proof fn lemma_command_pairs(commands: Seq<&'static str>, end: nat)
    requires
        end <= commands.len() <= usize::MAX,
    ensures
        ({
            let steps = command_steps(commands, end);
            &&& steps.len() % 2 == 0
            &&& forall|k: int|
                0 <= k < steps.len() && k % 2 == 0 ==> (#[trigger] steps[k] matches AtStep::Send {
                    index,
                } && 1 <= index < end && !is_escape(commands[index as int]@))
            &&& forall|k: int|
                0 <= k < steps.len() && k % 2 == 1 ==> #[trigger] steps[k] == (AtStep::AwaitOk {
                    timeout_ms: 2_000,
                })
            &&& forall|k: int, l: int|
                0 <= k < l < steps.len() && k % 2 == 0 && l % 2 == 0 ==> (
                #[trigger] steps[k])->index < (#[trigger] steps[l])->index
        }),
    decreases end,
{
    if end > 1 {
        lemma_command_pairs(commands, (end - 1) as nat);
    }
}

/// How the module is configured. After power-up, and with silence around it, the
/// first command is sent and the entry awaited. Then every command but the first
/// that is no escape is sent, in order and once each, and its confirmation awaited.
/// Where the last command is an escape, it is sent at the end, with silence around
/// it.
pub proof fn law_program_runs_in_order(commands: Seq<&'static str>)
    requires
        1 <= commands.len() <= usize::MAX,
    ensures
        ({
            let steps = program(commands);
            let leaves = is_escape(commands.last()@);
            let end = steps.len() - (if leaves {
                3int
            } else {
                0int
            });
            &&& end >= 5
            &&& (end - 5) % 2 == 0
            &&& steps[0] == AtStep::Wait { ms: 1_500 }
            &&& steps[1] == AtStep::Wait { ms: 1_000 }
            &&& steps[2] == AtStep::Send { index: 0 }
            &&& steps[3] == AtStep::Wait { ms: 1_000 }
            &&& steps[4] == AtStep::AwaitEntry { timeout_ms: 3_000 }
            &&& leaves ==> steps[end] == (AtStep::Wait { ms: 1_000 }) && steps[end + 1]
                == (AtStep::Send { index: (commands.len() - 1) as usize }) && steps[end + 2]
                == (AtStep::Wait { ms: 1_500 })
            &&& forall|k: int|
                5 <= k < end && k % 2 == 1 ==> (#[trigger] steps[k] matches AtStep::Send { index }
                    && 1 <= index < commands.len() && !is_escape(commands[index as int]@))
            &&& forall|k: int|
                5 <= k < end && k % 2 == 0 ==> #[trigger] steps[k] == (AtStep::AwaitOk {
                    timeout_ms: 2_000,
                })
            &&& forall|k: int, l: int|
                5 <= k < l < end && k % 2 == 1 && l % 2 == 1 ==> (#[trigger] steps[k])->index < (
                #[trigger] steps[l])->index
        }),
{
    let steps = program(commands);
    let middle = command_steps(commands, commands.len());
    lemma_command_pairs(commands, commands.len());
    let end = 5 + middle.len();
    assert forall|k: int| 5 <= k < end implies #[trigger] steps[k] == middle[k - 5] by {}
}

/// Without commands there is only the wait after power-up.
pub proof fn law_nothing_to_configure(commands: Seq<&'static str>)
    requires
        commands.len() == 0,
    ensures
        program(commands) == seq![AtStep::Wait { ms: 1_500 }],
{
}

/// Only a missing answer that was awaited keeps configuration from going on: without
/// the entry the settings are kept, and without a confirmation it has timed out.
pub proof fn law_only_missing_answers_stop(step: AtStep, answered: bool)
    ensures
        (step.outcome(answered) == AtOutcome::KeepSettings) == (step is AwaitEntry && !answered),
        (step.outcome(answered) == AtOutcome::TimedOut) == (step is AwaitOk && !answered),
{
}

/// Of what came, the last 128 bytes are kept, and an answer is there exactly if they
/// end with it, byte for byte.
pub proof fn law_last_bytes_are_compared(came: Seq<u8>, marker: Seq<u8>)
    ensures
        came.len() <= 128 ==> last_bytes(came) == came,
        came.len() > 128 ==> last_bytes(came) == came.subrange(
            came.len() - 128,
            came.len() as int,
        ),
        ends_with(came, marker) == (came.len() >= marker.len() && forall|i: int|
            0 <= i < marker.len() ==> came[came.len() - marker.len() + i] == #[trigger] marker[i]),
{
    if came.len() > 128 {
        assert(last_bytes(came) =~= came.subrange(came.len() - 128, came.len() as int));
    }
    if came.len() >= marker.len() {
        let tail = came.skip(came.len() - marker.len());
        assert forall|i: int| 0 <= i < marker.len() implies tail[i] == came[came.len()
            - marker.len() + i] by {}
        if forall|i: int|
            0 <= i < marker.len() ==> came[came.len() - marker.len() + i] == #[trigger] marker[i] {
            assert(tail =~= marker);
        }
        if tail == marker {
            assert forall|i: int| 0 <= i < marker.len() implies came[came.len() - marker.len() + i]
                == #[trigger] marker[i] by {
                assert(tail[i] == marker[i]);
            }
        }
    }
}

/// Each look at silence takes 20 ms, and a scan is over when its timeout is reached.
pub proof fn law_silence_is_counted(scan: ScanView)
    requires
        scan.elapsed_ms <= u64::MAX - 20,
    ensures
        scan.after_silence() == (ScanView { elapsed_ms: (scan.elapsed_ms + 20) as u64, ..scan }),
        scan.is_expired() == !(scan.elapsed_ms < scan.timeout_ms),
{
}

} // verus!
