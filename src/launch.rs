use vstd::prelude::*;
use vstd::string::{StrSliceExecFns, StringExecFns};

use crate::device::{slug_of, DeviceModel};

verus! {

/// The digit characters, in order of value.
pub open spec fn decimal_digit(d: int) -> char {
    "0123456789"@[d]
}

/// The decimal text of a number, without sign or leading zeros.
pub open spec fn decimal(n: nat) -> Seq<char>
    decreases n,
{
    if n < 10 {
        seq![decimal_digit(n as int)]
    } else {
        decimal(n / 10).push(decimal_digit((n % 10) as int))
    }
}

/// The one-character text of a decimal digit.
fn digit_text(d: u16) -> (r: &'static str)
    requires
        d < 10,
    ensures
        r@ == seq![decimal_digit(d as int)],
{
    proof { reveal_strlit("0123456789"); }
    match d {
        0 => {
            proof { reveal_strlit("0"); }
            "0"
        },
        1 => {
            proof { reveal_strlit("1"); }
            "1"
        },
        2 => {
            proof { reveal_strlit("2"); }
            "2"
        },
        3 => {
            proof { reveal_strlit("3"); }
            "3"
        },
        4 => {
            proof { reveal_strlit("4"); }
            "4"
        },
        5 => {
            proof { reveal_strlit("5"); }
            "5"
        },
        6 => {
            proof { reveal_strlit("6"); }
            "6"
        },
        7 => {
            proof { reveal_strlit("7"); }
            "7"
        },
        8 => {
            proof { reveal_strlit("8"); }
            "8"
        },
        _ => {
            proof { reveal_strlit("9"); }
            "9"
        },
    }
}

/// Writes a number in decimal.
pub fn decimal_text(n: u16) -> (r: String)
    ensures
        r@ == decimal(n as nat),
    decreases n,
{
    let digit = digit_text(n % 10);
    if n < 10 {
        digit.to_owned()
    } else {
        let mut text = decimal_text(n / 10);
        text.append(digit);
        text
    }
}

/// The emulator's command-line arguments, in their fixed order.
pub open spec fn launch_args_spec(model: DeviceModel, port: u16, app: Seq<char>) -> Seq<
    Seq<char>,
> {
    seq![
        "--api-port"@,
        decimal(port as nat),
        "--apdu-port"@,
        "0"@,
        "-m"@,
        slug_of(model),
        "--display"@,
        "headless"@,
        app,
    ]
}

/// The texts of a sequence of strings.
pub open spec fn texts(v: Seq<String>) -> Seq<Seq<char>> {
    v.map_values(|s: String| s@)
}

/// The arguments that launch the emulator for `model` with its API on `port`, running the
/// application at path `app`, with the raw APDU port disabled and the display headless.
pub fn launch_args(model: DeviceModel, port: u16, app: &str) -> (r: Vec<String>)
    ensures
        texts(r@) == launch_args_spec(model, port, app@),
{
    let r = vec![
        "--api-port".to_owned(),
        decimal_text(port),
        "--apdu-port".to_owned(),
        "0".to_owned(),
        "-m".to_owned(),
        model.slug().to_owned(),
        "--display".to_owned(),
        "headless".to_owned(),
        app.to_owned(),
    ];
    assert(texts(r@) =~= launch_args_spec(model, port, app@));
    r
}

/// `needle` occurs in `text` as a contiguous run of characters.
pub open spec fn contains_text(text: Seq<char>, needle: Seq<char>) -> bool {
    exists|i: int|
        0 <= i <= text.len() - needle.len() && #[trigger] text.subrange(i, i + needle.len())
            == needle
}

/// Searches `text` for `needle`.
fn find_text(text: &str, needle: &str) -> (r: bool)
    ensures
        r == contains_text(text@, needle@),
{
    let n = text.unicode_len();
    let m = needle.unicode_len();
    if m > n {
        return false;
    }
    let mut i: usize = 0;
    while i <= n - m
        invariant
            n == text@.len(),
            m == needle@.len(),
            m <= n,
            forall|k: int| 0 <= k < i ==> #[trigger] text@.subrange(k, k + m) != needle@,
        decreases n - m + 1 - i,
    {
        let mut j: usize = 0;
        while j < m && text.get_char(i + j) == needle.get_char(j)
            invariant
                n == text@.len(),
                m == needle@.len(),
                i + m <= n,
                j <= m,
                forall|t: int| 0 <= t < j ==> text@[i + t] == needle@[t],
            decreases m - j,
        {
            j += 1;
        }
        if j == m {
            assert(text@.subrange(i as int, i + m) =~= needle@);
            return true;
        }
        assert(text@.subrange(i as int, i + m)[j as int] != needle@[j as int]);
        i += 1;
    }
    false
}

/// The line the emulator writes on its diagnostic stream once it is ready.
pub open spec fn ready_marker() -> Seq<char> {
    "launcher: using default app name & version"@
}

/// Whether a line of the emulator's diagnostic stream announces that it is ready.
pub fn is_ready_line(line: &str) -> (r: bool)
    ensures
        r == contains_text(line@, ready_marker()),
{
    find_text(line, "launcher: using default app name & version")
}

/// Where the emulator's start-up stands.
#[derive(Debug, Clone, Copy, PartialEq, Eq, Structural)]
pub enum LaunchState {
    /// Started; waiting for the readiness line.
    Launching,
    /// The readiness line was seen: the API is up.
    Ready,
    /// The diagnostic stream ended before the readiness line.
    Failed,
}

/// What the emulator's diagnostic stream delivered.
#[derive(Debug, Clone, PartialEq, Eq)]
pub enum StderrEvent {
    /// One line of output.
    Line(String),
    /// The stream ended, or could no longer be read.
    Closed,
}

/// One step of the start-up handshake. Only a launch in progress moves: a readiness line
/// makes it ready, the end of the stream makes it fail, any other line leaves it waiting.
pub open spec fn next_state(state: LaunchState, event: StderrEvent) -> LaunchState {
    match state {
        LaunchState::Launching => match event {
            StderrEvent::Line(line) => if contains_text(line@, ready_marker()) {
                LaunchState::Ready
            } else {
                LaunchState::Launching
            },
            StderrEvent::Closed => LaunchState::Failed,
        },
        _ => state,
    }
}

/// The state reached from `state` after the given events, in order.
pub open spec fn run_events(state: LaunchState, events: Seq<StderrEvent>) -> LaunchState
    decreases events.len(),
{
    if events.len() == 0 {
        state
    } else {
        run_events(next_state(state, events[0]), events.drop_first())
    }
}

/// Advances the start-up handshake by one event of the diagnostic stream.
pub fn on_stderr_event(state: LaunchState, event: &StderrEvent) -> (r: LaunchState)
    ensures
        r == next_state(state, *event),
{
    match state {
        LaunchState::Launching => match event {
            StderrEvent::Line(line) => if is_ready_line(line.as_str()) {
                LaunchState::Ready
            } else {
                LaunchState::Launching
            },
            StderrEvent::Closed => LaunchState::Failed,
        },
        _ => state,
    }
}

/// The events of a stream that delivered `lines` and then ended.
pub open spec fn lines_then_close(lines: Seq<String>) -> Seq<StderrEvent> {
    lines.map_values(|l: String| StderrEvent::Line(l)).push(StderrEvent::Closed)
}

/// If the diagnostic stream ends and none of its lines announced readiness, the launch
/// fails: it neither waits on nor reports a ready emulator.
pub proof fn lemma_closed_without_marker_fails(lines: Seq<String>)
    requires
        forall|i: int| 0 <= i < lines.len() ==> !contains_text(#[trigger] lines[i]@, ready_marker()),
    ensures
        run_events(LaunchState::Launching, lines_then_close(lines)) == LaunchState::Failed,
    decreases lines.len(),
{
    let events = lines_then_close(lines);
    if lines.len() == 0 {
        assert(events[0] == StderrEvent::Closed);
        assert(events.drop_first() =~= Seq::<StderrEvent>::empty());
        assert(run_events(LaunchState::Failed, events.drop_first()) == LaunchState::Failed);
    } else {
        assert(!contains_text(lines[0]@, ready_marker()));
        assert(events[0] == StderrEvent::Line(lines[0]));
        let rest = lines.drop_first();
        assert forall|i: int| 0 <= i < rest.len() implies !contains_text(
            #[trigger] rest[i]@,
            ready_marker(),
        ) by {
            assert(rest[i] == lines[i + 1]);
        }
        lemma_closed_without_marker_fails(rest);
        assert(events.drop_first() =~= lines_then_close(rest));
    }
}

/// Once the launch is ready or has failed, no later event changes it.
pub proof fn lemma_settled_state_is_kept(state: LaunchState, events: Seq<StderrEvent>)
    requires
        state != LaunchState::Launching,
    ensures
        run_events(state, events) == state,
    decreases events.len(),
{
    if events.len() > 0 {
        lemma_settled_state_is_kept(state, events.drop_first());
    }
}

/// A readiness line seen before the stream ends makes the launch ready, whatever follows.
pub proof fn lemma_marker_makes_ready(lines: Seq<String>, k: int, rest: Seq<StderrEvent>)
    requires
        0 <= k < lines.len(),
        contains_text(lines[k]@, ready_marker()),
    ensures
        run_events(LaunchState::Launching, lines.map_values(|l: String| StderrEvent::Line(l)) + rest)
            == LaunchState::Ready,
    decreases k,
{
    let events = lines.map_values(|l: String| StderrEvent::Line(l)) + rest;
    let first = lines[0];
    assert(events[0] == StderrEvent::Line(first));
    if k == 0 {
        lemma_settled_state_is_kept(LaunchState::Ready, events.drop_first());
    } else if contains_text(first@, ready_marker()) {
        lemma_settled_state_is_kept(LaunchState::Ready, events.drop_first());
    } else {
        let tail = lines.drop_first();
        assert(tail[k - 1] == lines[k]);
        lemma_marker_makes_ready(tail, k - 1, rest);
        assert(events.drop_first() =~= tail.map_values(|l: String| StderrEvent::Line(l)) + rest);
    }
}

} // verus!
