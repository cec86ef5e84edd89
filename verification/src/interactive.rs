//! The interactive host selector, modeled as an input state machine.
//!
//! The picker owns one piece of state, a cursor into the list of profiles.
//! Every keystroke is one [`KeyInput`]; [`step`] is the machine's transition
//! function, and [`select_host_interactively`] runs it over a sequence of
//! inputs. Rendering is a pure function from the list and the cursor to
//! styled lines, so the screen-drawing caller needs no logic of its own.

use vstd::prelude::*;
use vstd::string::StringExecFns;
use crate::config::HostConfig;
use crate::config::HostView;
use crate::text::spec_endpoint;
use crate::text::spec_pad_right;
use crate::text::endpoint_string;
use crate::text::pad_right;

verus! {

/// One terminal input event, as the picker distinguishes them.
#[derive(Debug, Clone, Copy, PartialEq, Eq)]
pub enum KeyInput {
    /// Arrow up.
    Up,
    /// Arrow down.
    Down,
    /// Return: choose the highlighted entry.
    Enter,
    /// Escape: cancel the selection.
    Esc,
    /// Control-C: cancel the selection.
    CtrlC,
    /// Any other key or non-key event: ignored.
    Other,
    /// The input source failed; the picker degrades to no selection.
    ReadError,
}

/// Whether this input ends the picker.
pub open spec fn spec_is_terminal(input: KeyInput) -> bool {
    match input {
        KeyInput::Enter | KeyInput::Esc | KeyInput::CtrlC | KeyInput::ReadError => true,
        _ => false,
    }
}

/// The cursor after one input on a list of `n` entries: arrows move it by
/// one, clamped to `[0, n-1]` with no wraparound; everything else leaves it.
pub open spec fn spec_step_cursor(n: nat, cursor: nat, input: KeyInput) -> nat
    recommends
        0 < n,
        cursor < n,
{
    match input {
        KeyInput::Up => if cursor > 0 {
            (cursor - 1) as nat
        } else {
            0
        },
        KeyInput::Down => if cursor + 1 < n {
            (cursor + 1) as nat
        } else {
            cursor
        },
        _ => cursor,
    }
}

/// The cursor after a whole sequence of inputs.
pub open spec fn spec_nav_cursor(n: nat, cursor: nat, inputs: Seq<KeyInput>) -> nat
    decreases inputs.len(),
{
    if inputs.len() == 0 {
        cursor
    } else {
        spec_nav_cursor(n, spec_step_cursor(n, cursor, inputs[0]), inputs.drop_first())
    }
}

/// For every sequence of inputs the cursor stays within `[0, n-1]`, and the
/// clamping is exact: `Up` at the top and `Down` at the bottom are no-ops.
pub proof fn lemma_cursor_stays_in_bounds(n: nat, cursor: nat, inputs: Seq<KeyInput>)
    requires
        0 < n,
        cursor < n,
    ensures
        spec_nav_cursor(n, cursor, inputs) < n,
        spec_step_cursor(n, 0, KeyInput::Up) == 0,
        spec_step_cursor(n, (n - 1) as nat, KeyInput::Down) == n - 1,
    decreases inputs.len(),
{
    if inputs.len() > 0 {
        lemma_cursor_stays_in_bounds(n, spec_step_cursor(n, cursor, inputs[0]),
            inputs.drop_first());
    }
}

/// What one transition of the picker does.
#[derive(Debug, Clone, Copy, PartialEq, Eq)]
pub enum StepResult {
    /// Keep browsing, with the new cursor.
    Continue(usize),
    /// The entry at this index was chosen.
    Select(usize),
    /// The picker was cancelled.
    Cancel,
}

/// One transition of the picker's state machine.
pub fn step(n: usize, cursor: usize, input: KeyInput) -> (r: StepResult)
    requires
        0 < n,
        cursor < n,
    ensures
        match r {
            StepResult::Continue(c) => !spec_is_terminal(input) && c < n && c as nat
                == spec_step_cursor(n as nat, cursor as nat, input),
            StepResult::Select(i) => input == KeyInput::Enter && i == cursor,
            StepResult::Cancel => spec_is_terminal(input) && input != KeyInput::Enter,
        },
{
    match input {
        KeyInput::Up => StepResult::Continue(if cursor > 0 {
            cursor - 1
        } else {
            0
        }),
        KeyInput::Down => StepResult::Continue(if cursor + 1 < n {
            cursor + 1
        } else {
            cursor
        }),
        KeyInput::Enter => StepResult::Select(cursor),
        KeyInput::Esc => StepResult::Cancel,
        KeyInput::CtrlC => StepResult::Cancel,
        KeyInput::ReadError => StepResult::Cancel,
        KeyInput::Other => StepResult::Continue(cursor),
    }
}

/// How a run of the picker ends: an entry chosen, the picker cancelled, or
/// the input sequence exhausted with the picker still browsing. `consumed`
/// counts the inputs read.
pub enum SpecOutcome {
    Chosen { index: nat, consumed: nat },
    Cancelled { consumed: nat },
    Exhausted,
}

/// The same outcome, `k` inputs later.
pub open spec fn spec_shift(o: SpecOutcome, k: nat) -> SpecOutcome {
    match o {
        SpecOutcome::Chosen { index, consumed } => SpecOutcome::Chosen {
            index,
            consumed: (consumed + k) as nat,
        },
        SpecOutcome::Cancelled { consumed } => SpecOutcome::Cancelled {
            consumed: (consumed + k) as nat,
        },
        SpecOutcome::Exhausted => SpecOutcome::Exhausted,
    }
}

/// Running the picker from `cursor` over `events`, on a list of `n` entries.
pub open spec fn spec_select(n: nat, cursor: nat, events: Seq<KeyInput>) -> SpecOutcome
    decreases events.len(),
{
    if events.len() == 0 {
        SpecOutcome::Exhausted
    } else if events[0] == KeyInput::Enter {
        SpecOutcome::Chosen { index: cursor, consumed: 1 }
    } else if spec_is_terminal(events[0]) {
        SpecOutcome::Cancelled { consumed: 1 }
    } else {
        spec_shift(spec_select(n, spec_step_cursor(n, cursor, events[0]), events.drop_first()),
            1)
    }
}

/// What a run of the picker returned: the chosen profile's name, or none on
/// cancellation, together with how many inputs were read.
#[derive(Debug)]
pub struct SelectionResult {
    pub choice: Option<String>,
    pub consumed: usize,
}

/// Runs the picker over a sequence of inputs.
///
/// An empty list returns no selection at once; a single entry is returned
/// at once; both read no input. A longer list follows [`spec_select`]: the
/// first `Enter` chooses the highlighted entry, the first cancelling input
/// chooses nothing, arrows move the cursor, anything else is ignored.
#[verifier::loop_isolation(false)]
pub fn select_host_interactively(hosts: &Vec<&HostConfig>, events: &Vec<KeyInput>) -> (r:
    SelectionResult)
    ensures
        r.consumed <= events@.len(),
        hosts@.len() == 0 ==> r.choice is None && r.consumed == 0,
        hosts@.len() == 1 ==> ((r.choice matches Some(s) && s@ == hosts@[0]@.name)
            && r.consumed == 0),
        hosts@.len() > 1 ==> match spec_select(hosts@.len() as nat, 0, events@) {
            SpecOutcome::Chosen { index, consumed } => (r.choice matches Some(s) && s@
                == hosts@[index as int]@.name) && r.consumed == consumed,
            SpecOutcome::Cancelled { consumed } => r.choice is None && r.consumed == consumed,
            SpecOutcome::Exhausted => r.choice is None && r.consumed == events@.len(),
        },
{
    let n = hosts.len();
    if n == 0 {
        return SelectionResult { choice: None, consumed: 0 };
    }
    if n == 1 {
        return SelectionResult { choice: Some(hosts[0].name.clone()), consumed: 0 };
    }
    let mut cursor: usize = 0;
    let mut j: usize = 0;
    proof {
        assert(events@.skip(0) =~= events@);
    }
    while j < events.len()
        invariant
            cursor < n,
            j <= events@.len(),
            spec_shift(spec_select(n as nat, cursor as nat, events@.skip(j as int)), j as nat)
                == spec_select(n as nat, 0, events@),
        decreases events@.len() - j,
    {
        proof {
            assert(events@.skip(j as int)[0] == events@[j as int]);
            assert(events@.skip(j as int).drop_first() =~= events@.skip(j as int + 1));
        }
        let ev = events[j];
        match step(n, cursor, ev) {
            StepResult::Select(i) => {
                return SelectionResult { choice: Some(hosts[i].name.clone()), consumed: j + 1 };
            },
            StepResult::Cancel => {
                return SelectionResult { choice: None, consumed: j + 1 };
            },
            StepResult::Continue(c) => {
                cursor = c;
            },
        }
        j += 1;
    }
    SelectionResult { choice: None, consumed: j }
}

/// One line of the picker's screen. A highlighted line is the one under the
/// cursor; the caller renders it in inverted colors.
#[derive(Debug)]
pub struct StyledLine {
    pub text: String,
    pub highlighted: bool,
}

/// The text of one profile's row: an indicator glyph on the highlighted
/// row, the name in a fixed-width field, then `user@host:port`.
pub open spec fn spec_host_line(h: HostView, selected: bool) -> Seq<char> {
    (if selected {
        "\u{25b6} "@
    } else {
        "  "@
    }) + spec_pad_right(h.name, 20) + " "@ + spec_endpoint(h.username, h.hostname, h.port)
}

/// Renders the whole picker screen: a two-line instruction header, one
/// blank separator line, then one line per profile, the row under the
/// cursor highlighted and every other row plain.
#[verifier::loop_isolation(false)]
pub fn render_lines(hosts: &Vec<&HostConfig>, cursor: usize) -> (r: Vec<StyledLine>)
    requires
        cursor < hosts@.len(),
    ensures
        r@.len() == hosts@.len() + 3,
        r@[0].text@ == "Select a host to connect to:"@ && !r@[0].highlighted,
        r@[1].text@
            == "(Use \u{2191}/\u{2193} arrows to navigate, Enter to select, Esc/Ctrl+C to cancel)"@
            && !r@[1].highlighted,
        r@[2].text@ == Seq::<char>::empty() && !r@[2].highlighted,
        forall|i: int|
            3 <= i < r@.len() ==> (#[trigger] r@[i]).text@
                == spec_host_line(hosts@[i - 3]@, i - 3 == cursor as int) && r@[i].highlighted
                == (i - 3 == cursor as int),
{
    proof {
        reveal_strlit("");
        reveal_strlit(" ");
    }
    let mut r: Vec<StyledLine> = Vec::new();
    r.push(StyledLine {
        text: "Select a host to connect to:".to_owned(),
        highlighted: false,
    });
    r.push(StyledLine {
        text: "(Use \u{2191}/\u{2193} arrows to navigate, Enter to select, Esc/Ctrl+C to cancel)".to_owned(),
        highlighted: false,
    });
    r.push(StyledLine { text: "".to_owned(), highlighted: false });
    let n = hosts.len();
    let mut i: usize = 0;
    while i < n
        invariant
            i <= n,
            r@.len() == i + 3,
            r@[0].text@ == "Select a host to connect to:"@ && !r@[0].highlighted,
            r@[1].text@
                == "(Use \u{2191}/\u{2193} arrows to navigate, Enter to select, Esc/Ctrl+C to cancel)"@
                && !r@[1].highlighted,
            r@[2].text@ == Seq::<char>::empty() && !r@[2].highlighted,
            forall|k: int|
                3 <= k < r@.len() ==> (#[trigger] r@[k]).text@
                    == spec_host_line(hosts@[k - 3]@, k - 3 == cursor as int) && r@[k].highlighted
                    == (k - 3 == cursor as int),
        decreases n - i,
    {
        let selected = i == cursor;
        let h: &HostConfig = hosts[i];
        let mut t: String = if selected {
            "\u{25b6} ".to_owned()
        } else {
            "  ".to_owned()
        };
        let padded = pad_right(h.name.as_str(), 20);
        t.append(padded.as_str());
        t.append(" ");
        let ep = endpoint_string(h.username.as_str(), h.hostname.as_str(), h.port);
        t.append(ep.as_str());
        proof {
            assert(t@ =~= spec_host_line(hosts@[i as int]@, selected));
        }
        r.push(StyledLine { text: t, highlighted: selected });
        i += 1;
    }
    r
}

} // verus!
