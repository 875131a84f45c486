use vstd::prelude::*;
use vstd::string::StringExecFns;

use crate::types::{Action, ActionItem, LogLevel};

verus! {

/// The decimal digit character for a value below ten.
pub open spec fn digit_char(d: nat) -> char {
    if d == 0 {
        '0'
    } else if d == 1 {
        '1'
    } else if d == 2 {
        '2'
    } else if d == 3 {
        '3'
    } else if d == 4 {
        '4'
    } else if d == 5 {
        '5'
    } else if d == 6 {
        '6'
    } else if d == 7 {
        '7'
    } else if d == 8 {
        '8'
    } else {
        '9'
    }
}

/// The decimal rendering of a number: its digits in order, without leading
/// zeros (a single zero for zero itself).
pub open spec fn dec_digits(n: nat) -> Seq<char>
    decreases n,
{
    if n < 10 {
        seq![digit_char(n)]
    } else {
        dec_digits(n / 10).push(digit_char(n % 10))
    }
}

/// The machine encoding of one journal entry: upgrades and harvests are the
/// fixed codes zero and four, a shoot is its literal hit count, a turn is
/// eight plus its direction code, and a move is fifteen plus its step count.
pub open spec fn machine_code(item: ActionItem) -> nat {
    match item.0 {
        Action::Upgrade => 0,
        Action::Shoot => item.1 as nat,
        Action::Harvest => 4,
        Action::Turn => 8 + item.1 as nat,
        Action::Move => 15 + item.1 as nat,
    }
}

/// The human encoding of a shoot: the weapon glyph followed by one burst
/// glyph per hit, visually capped at three bursts; four or more hits render
/// identically to three. The journal itself keeps the true magnitude.
pub open spec fn shoot_glyphs(hits: u32) -> Seq<char> {
    if hits >= 3 {
        "🔫🎆🎆🎆"@
    } else if hits == 2 {
        "🔫🎆🎆"@
    } else if hits == 1 {
        "🔫🎆"@
    } else {
        "🔫"@
    }
}

/// The human encoding of a turn: one of eight directional glyphs indexed by
/// the direction code; a code outside the compass renders nothing.
pub open spec fn turn_glyph(direction: u32) -> Option<Seq<char>> {
    if direction == 0 {
        Some("⇧"@)
    } else if direction == 1 {
        Some("⇗"@)
    } else if direction == 2 {
        Some("⇒"@)
    } else if direction == 3 {
        Some("⇘"@)
    } else if direction == 4 {
        Some("⇩"@)
    } else if direction == 5 {
        Some("⇙"@)
    } else if direction == 6 {
        Some("⇦"@)
    } else if direction == 7 {
        Some("⇖"@)
    } else {
        None
    }
}

/// The human encoding of one journal entry.
pub open spec fn human_line(item: ActionItem) -> Option<Seq<char>> {
    match item.0 {
        Action::Harvest => Some("⛽"@),
        Action::Upgrade => Some("🧰"@),
        Action::Shoot => Some(shoot_glyphs(item.1)),
        Action::Move => Some("🚶 "@ + dec_digits(item.1 as nat)),
        Action::Turn => turn_glyph(item.1),
    }
}

/// The line one journal entry contributes at a given level: nothing when
/// quiet, its symbolic form when human, its decimal code when machine.
pub open spec fn entry_line(item: ActionItem, level: LogLevel) -> Option<Seq<char>> {
    match level {
        LogLevel::Quiet => None,
        LogLevel::Human => human_line(item),
        LogLevel::Machine => Some(dec_digits(machine_code(item))),
    }
}

/// The lines an optional entry line contributes to the trace.
pub open spec fn opt_line(line: Option<Seq<char>>) -> Seq<Seq<char>> {
    match line {
        Some(l) => seq![l],
        None => Seq::empty(),
    }
}

/// The per-entry lines of the trace, in journal order.
pub open spec fn entry_lines(entries: Seq<ActionItem>, level: LogLevel) -> Seq<Seq<char>>
    decreases entries.len(),
{
    if entries.len() == 0 {
        Seq::empty()
    } else {
        entry_lines(entries.drop_last(), level) + opt_line(entry_line(entries.last(), level))
    }
}

/// The fixed legend block of a level: the symbol-to-meaning table emitted
/// before the per-entry lines.
pub open spec fn legend_lines(level: LogLevel) -> Seq<Seq<char>> {
    match level {
        LogLevel::Human => seq![
            "🧰: upgrade"@,
            "🚶: move"@,
            "⇔⇕: turning"@,
            "🔫🎆[🎆[🎆]]: hit(s)"@,
            "⛽: harvest"@,
        ],
        LogLevel::Machine => seq![
            "0: upgrade"@,
            "1..3: hit"@,
            "4: harvest"@,
            "8..15: turning"@,
            "16..: move"@,
        ],
        LogLevel::Quiet => Seq::empty(),
    }
}

/// Everything a non-quiet trace emits before the per-entry lines.
pub open spec fn header_lines(level: LogLevel) -> Seq<Seq<char>> {
    seq!["\n"@, "📼 here are the recorded steps:\n"@, "\n==< MEANING >==\n"@] + legend_lines(level)
        + seq!["\n===< STEPS >===\n"@]
}

/// The full rendered trace: a pure function of the journal contents and the
/// verbosity level. The quiet level emits only the fixed notice, whatever
/// the journal holds; the other levels emit the legend, one line per entry,
/// and a closing marker.
pub open spec fn render_lines(entries: Seq<ActionItem>, level: LogLevel) -> Seq<Seq<char>> {
    if level == LogLevel::Quiet {
        seq!["\n"@, "🤷 `LogLevel::Quiet` won't output any logs."@]
    } else {
        header_lines(level) + entry_lines(entries, level) + seq!["\n===============\n"@]
    }
}

/// The views of a vector of rendered lines.
pub open spec fn views_of(lines: Seq<String>) -> Seq<Seq<char>> {
    lines.map_values(|s: String| s@)
}

proof fn lemma_views_push(lines: Seq<String>, line: String)
    ensures
        views_of(lines.push(line)) == views_of(lines).push(line@),
{
    assert(views_of(lines.push(line)) =~= views_of(lines).push(line@));
}

/// Rendering is a pure function of the journal and the level: two renderings
/// of an unchanged journal are line-for-line identical.
pub proof fn lemma_render_idempotent(
    entries: Seq<ActionItem>,
    level: LogLevel,
    first: Seq<Seq<char>>,
    second: Seq<Seq<char>>,
)
    requires
        first == render_lines(entries, level),
        second == render_lines(entries, level),
    ensures
        first == second,
{
}

/// The quiet level ignores the journal entirely: whatever the journal holds,
/// it renders exactly what the empty journal renders — the fixed notice,
/// never a per-entry line.
pub proof fn lemma_quiet_fixed(entries: Seq<ActionItem>)
    ensures
        render_lines(entries, LogLevel::Quiet) == render_lines(
            Seq::<ActionItem>::empty(),
            LogLevel::Quiet,
        ),
        render_lines(entries, LogLevel::Quiet) == seq![
            "\n"@,
            "🤷 `LogLevel::Quiet` won't output any logs."@,
        ],
{
}

/// A decimal rendering is never empty, and needs two or more digits from
/// ten upward.
pub proof fn lemma_dec_digits_len(n: nat)
    ensures
        dec_digits(n).len() >= 1,
        n >= 10 ==> dec_digits(n).len() >= 2,
    decreases n,
{
    if n >= 10 {
        lemma_dec_digits_len(n / 10);
    }
}

/// The digit characters are pairwise distinct.
proof fn lemma_digit_char_injective(x: nat, y: nat)
    requires
        x < 10,
        y < 10,
        digit_char(x) == digit_char(y),
    ensures
        x == y,
{
}

/// Decimal rendering is injective: equal digit strings come only from equal
/// numbers.
pub proof fn lemma_dec_digits_injective(a: nat, b: nat)
    requires
        dec_digits(a) == dec_digits(b),
    ensures
        a == b,
    decreases a,
{
    if a < 10 && b < 10 {
        assert(dec_digits(a)[0] == digit_char(a));
        assert(dec_digits(b)[0] == digit_char(b));
        lemma_digit_char_injective(a, b);
    } else if a >= 10 && b >= 10 {
        assert(dec_digits(a).last() == digit_char(a % 10));
        assert(dec_digits(b).last() == digit_char(b % 10));
        lemma_digit_char_injective(a % 10, b % 10);
        assert(dec_digits(a).drop_last() =~= dec_digits(a / 10));
        assert(dec_digits(b).drop_last() =~= dec_digits(b / 10));
        lemma_dec_digits_injective(a / 10, b / 10);
        assert(a == a / 10 * 10 + a % 10);
        assert(b == b / 10 * 10 + b % 10);
    } else {
        lemma_dec_digits_len(a);
        lemma_dec_digits_len(b);
        assert(false);
    }
}

/// A shoot entry's machine line carries the exact hit count even where the
/// human line caps the burst glyphs at three: above three hits every human
/// line looks alike while the machine lines still tell the magnitudes apart.
pub proof fn lemma_shoot_fidelity(hits: u32, other: u32)
    requires
        hits > 3,
        other > 3,
    ensures
        entry_line(ActionItem(Action::Shoot, hits), LogLevel::Machine) == Some(
            dec_digits(hits as nat),
        ),
        entry_line(ActionItem(Action::Shoot, hits), LogLevel::Human) == entry_line(
            ActionItem(Action::Shoot, other),
            LogLevel::Human,
        ),
        hits != other ==> entry_line(ActionItem(Action::Shoot, hits), LogLevel::Machine)
            != entry_line(ActionItem(Action::Shoot, other), LogLevel::Machine),
{
    if hits != other && dec_digits(hits as nat) == dec_digits(other as nat) {
        lemma_dec_digits_injective(hits as nat, other as nat);
    }
}

/// The decimal string of a digit.
fn digit_str(d: u64) -> (r: &'static str)
    requires
        d < 10,
    ensures
        r@ == seq![digit_char(d as nat)],
{
    proof {
        reveal_strlit("0");
        reveal_strlit("1");
        reveal_strlit("2");
        reveal_strlit("3");
        reveal_strlit("4");
        reveal_strlit("5");
        reveal_strlit("6");
        reveal_strlit("7");
        reveal_strlit("8");
        reveal_strlit("9");
    }
    let r: &'static str = if d == 0 {
        "0"
    } else if d == 1 {
        "1"
    } else if d == 2 {
        "2"
    } else if d == 3 {
        "3"
    } else if d == 4 {
        "4"
    } else if d == 5 {
        "5"
    } else if d == 6 {
        "6"
    } else if d == 7 {
        "7"
    } else if d == 8 {
        "8"
    } else {
        "9"
    };
    proof {
        assert(r@ =~= seq![digit_char(d as nat)]);
    }
    r
}

/// The decimal rendering of a number, digits in order.
pub fn u64_to_string(n: u64) -> (s: String)
    ensures
        s@ == dec_digits(n as nat),
    decreases n,
{
    if n < 10 {
        String::from_str(digit_str(n))
    } else {
        let mut s = u64_to_string(n / 10);
        s.append(digit_str(n % 10));
        proof {
            assert(s@ =~= dec_digits(n as nat));
        }
        s
    }
}

impl ActionItem {
    /// The line this entry contributes to the trace at the given level:
    /// none when quiet, the symbolic form when human, the decimal machine
    /// code when machine.
    pub fn log_format(&self, level: &LogLevel) -> (r: Option<String>)
        ensures
            match r {
                Some(line) => entry_line(*self, *level) == Some(line@),
                None => entry_line(*self, *level) is None,
            },
    {
        match level {
            LogLevel::Quiet => None,
            LogLevel::Machine => {
                let code: u64 = match self.0 {
                    Action::Upgrade => 0,
                    Action::Shoot => self.1 as u64,
                    Action::Harvest => 4,
                    Action::Turn => 8 + self.1 as u64,
                    Action::Move => 15 + self.1 as u64,
                };
                Some(u64_to_string(code))
            },
            LogLevel::Human => match self.0 {
                Action::Harvest => Some(String::from_str("⛽")),
                Action::Upgrade => Some(String::from_str("🧰")),
                Action::Shoot => {
                    if self.1 >= 3 {
                        Some(String::from_str("🔫🎆🎆🎆"))
                    } else if self.1 == 2 {
                        Some(String::from_str("🔫🎆🎆"))
                    } else if self.1 == 1 {
                        Some(String::from_str("🔫🎆"))
                    } else {
                        Some(String::from_str("🔫"))
                    }
                },
                Action::Move => {
                    let mut line = String::from_str("🚶 ");
                    let count = u64_to_string(self.1 as u64);
                    line.append(count.as_str());
                    Some(line)
                },
                Action::Turn => {
                    if self.1 == 0 {
                        Some(String::from_str("⇧"))
                    } else if self.1 == 1 {
                        Some(String::from_str("⇗"))
                    } else if self.1 == 2 {
                        Some(String::from_str("⇒"))
                    } else if self.1 == 3 {
                        Some(String::from_str("⇘"))
                    } else if self.1 == 4 {
                        Some(String::from_str("⇩"))
                    } else if self.1 == 5 {
                        Some(String::from_str("⇙"))
                    } else if self.1 == 6 {
                        Some(String::from_str("⇦"))
                    } else if self.1 == 7 {
                        Some(String::from_str("⇖"))
                    } else {
                        None
                    }
                },
            },
        }
    }
}

/// Renders a journal at the given verbosity level: the fixed notice alone
/// when quiet, otherwise the legend block, one line per entry in journal
/// order, and a closing marker.
pub fn render_log(entries: &Vec<ActionItem>, level: LogLevel) -> (lines: Vec<String>)
    ensures
        views_of(lines@) == render_lines(entries@, level),
{
    let mut lines: Vec<String> = Vec::new();
    lines.push(String::from_str("\n"));
    if level == LogLevel::Quiet {
        lines.push(String::from_str("🤷 `LogLevel::Quiet` won't output any logs."));
        proof {
            assert(views_of(lines@) =~= render_lines(entries@, level));
        }
        return lines;
    }
    lines.push(String::from_str("📼 here are the recorded steps:\n"));
    lines.push(String::from_str("\n==< MEANING >==\n"));
    match level {
        LogLevel::Human => {
            lines.push(String::from_str("🧰: upgrade"));
            lines.push(String::from_str("🚶: move"));
            lines.push(String::from_str("⇔⇕: turning"));
            lines.push(String::from_str("🔫🎆[🎆[🎆]]: hit(s)"));
            lines.push(String::from_str("⛽: harvest"));
        },
        LogLevel::Machine => {
            lines.push(String::from_str("0: upgrade"));
            lines.push(String::from_str("1..3: hit"));
            lines.push(String::from_str("4: harvest"));
            lines.push(String::from_str("8..15: turning"));
            lines.push(String::from_str("16..: move"));
        },
        LogLevel::Quiet => {},
    }
    lines.push(String::from_str("\n===< STEPS >===\n"));
    proof {
        assert(views_of(lines@) =~= header_lines(level) + entry_lines(
            entries@.take(0),
            level,
        ));
    }
    let n = entries.len();
    let mut i: usize = 0;
    while i < n
        invariant
            i <= n,
            n == entries@.len(),
            level != LogLevel::Quiet,
            views_of(lines@) == header_lines(level) + entry_lines(entries@.take(i as int), level),
        decreases n - i,
    {
        let item = entries[i];
        let ghost prior = lines@;
        match item.log_format(&level) {
            Some(line) => {
                proof {
                    lemma_views_push(lines@, line);
                }
                lines.push(line);
            },
            None => {},
        }
        proof {
            let pre_take = entries@.take(i as int);
            let post_take = entries@.take(i as int + 1);
            assert(post_take.drop_last() =~= pre_take);
            assert(post_take.last() == entries@[i as int]);
            assert(entry_lines(post_take, level) == entry_lines(pre_take, level) + opt_line(
                entry_line(entries@[i as int], level),
            ));
            assert(views_of(lines@) =~= header_lines(level) + entry_lines(post_take, level));
        }
        i += 1;
    }
    proof {
        assert(entries@.take(n as int) =~= entries@);
    }
    lines.push(String::from_str("\n===============\n"));
    proof {
        assert(views_of(lines@) =~= render_lines(entries@, level));
    }
    lines
}

} // verus!
