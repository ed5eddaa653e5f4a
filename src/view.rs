use vstd::prelude::*;
use vstd::string::StringExecFns;

verus! {

/// The colour a screen's headline is drawn in.
#[derive(Clone, Copy, Debug, PartialEq, Eq, Structural)]
pub enum Tint {
    Red,
    Green,
}

/// The two lines the timer shows: a coloured headline and the key legend.
pub struct Screen {
    pub headline: String,
    pub legend: String,
    pub tint: Tint,
}

pub open spec fn digit_char(d: nat) -> char {
    if d == 0 {
        '0'
    } else if d == 1 {
        '1'
    } else if d == 2 {
        '2'
    } else if d == 3 {
        '3'
    } else if d == 4 {
        '4'
    } else if d == 5 {
        '5'
    } else if d == 6 {
        '6'
    } else if d == 7 {
        '7'
    } else if d == 8 {
        '8'
    } else {
        '9'
    }
}

/// The decimal digits of `n`, without leading zeros.
pub open spec fn decimal(n: nat) -> Seq<char>
    decreases n,
{
    if n < 10 {
        seq![digit_char(n)]
    } else {
        decimal(n / 10).push(digit_char(n % 10))
    }
}

/// `n` in decimal, padded with a zero to at least two digits.
pub open spec fn pad2(n: nat) -> Seq<char> {
    if n < 10 {
        seq!['0', digit_char(n)]
    } else {
        decimal(n)
    }
}

/// A number of seconds as `MM:SS`: whole minutes, then the seconds left over.
pub open spec fn time_text(d: nat) -> Seq<char> {
    pad2(d / 60) + seq![':'] + pad2(d % 60)
}

pub open spec fn timer_legend() -> Seq<char> {
    "[Q]: quit, [Space]: pause/resume"@
}

pub open spec fn gate_legend() -> Seq<char> {
    "[Q]: quit, [Enter]: start"@
}

/// The headline of a running countdown: an icon, the time left and the round.
pub open spec fn timer_headline(icon: Seq<char>, remaining_sec: nat, round: nat) -> Seq<char> {
    icon + time_text(remaining_sec) + " (Round "@ + decimal(round) + ")"@
}

pub open spec fn work_icon() -> Seq<char> {
    "\u{1F345} "@
}

pub open spec fn break_icon() -> Seq<char> {
    "\u{2615} "@
}

pub open spec fn break_prompt() -> Seq<char> {
    "\u{1F389} press Enter to take a break"@
}

pub open spec fn work_prompt() -> Seq<char> {
    "\u{1F389} press Enter to work!!"@
}

fn push_digit(s: &mut String, d: u64)
    requires
        d < 10,
    ensures
        final(s)@ == old(s)@.push(digit_char(d as nat)),
{
    let ghost before = s@;
    if d == 0 {
        s.append("0");
        proof { reveal_strlit("0"); }
    } else if d == 1 {
        s.append("1");
        proof { reveal_strlit("1"); }
    } else if d == 2 {
        s.append("2");
        proof { reveal_strlit("2"); }
    } else if d == 3 {
        s.append("3");
        proof { reveal_strlit("3"); }
    } else if d == 4 {
        s.append("4");
        proof { reveal_strlit("4"); }
    } else if d == 5 {
        s.append("5");
        proof { reveal_strlit("5"); }
    } else if d == 6 {
        s.append("6");
        proof { reveal_strlit("6"); }
    } else if d == 7 {
        s.append("7");
        proof { reveal_strlit("7"); }
    } else if d == 8 {
        s.append("8");
        proof { reveal_strlit("8"); }
    } else {
        s.append("9");
        proof { reveal_strlit("9"); }
    }
    assert(s@ =~= before.push(digit_char(d as nat)));
}

/// Appends the decimal digits of `n`.
fn push_decimal(s: &mut String, n: u64)
    ensures
        final(s)@ == old(s)@ + decimal(n as nat),
    decreases n,
{
    let ghost before = s@;
    if n >= 10 {
        push_decimal(s, n / 10);
    }
    push_digit(s, n % 10);
    assert(s@ =~= before + decimal(n as nat));
}

/// Appends `n` in decimal, zero-padded to two digits.
fn push_pad2(s: &mut String, n: u64)
    ensures
        final(s)@ == old(s)@ + pad2(n as nat),
{
    let ghost before = s@;
    if n < 10 {
        push_digit(s, 0);
    }
    push_decimal(s, n);
    assert(s@ =~= before + pad2(n as nat));
}

/// Formats a duration in seconds as zero-padded `MM:SS`; the minutes may run
/// past 59.
pub fn convert_to_min(duration: u16) -> (r: String)
    ensures
        r@ == time_text(duration as nat),
{
    let mut r = String::new();
    push_pad2(&mut r, (duration / 60) as u64);
    r.append(":");
    proof { reveal_strlit(":"); }
    push_pad2(&mut r, (duration % 60) as u64);
    assert(r@ =~= time_text(duration as nat));
    r
}

fn timer_headline_text(icon: &str, remaining_sec: u16, current_round: u64) -> (r: String)
    ensures
        r@ == timer_headline(icon@, remaining_sec as nat, current_round as nat),
{
    let mut r = String::from_str(icon);
    let time = convert_to_min(remaining_sec);
    r.append(time.as_str());
    r.append(" (Round ");
    push_decimal(&mut r, current_round);
    r.append(")");
    assert(r@ =~= timer_headline(icon@, remaining_sec as nat, current_round as nat));
    r
}

/// What the work countdown shows with `remaining_sec` left in round
/// `current_round`.
pub fn work_timer_screen(remaining_sec: u16, current_round: u64) -> (r: Screen)
    ensures
        r.headline@ == timer_headline(work_icon(), remaining_sec as nat, current_round as nat),
        r.legend@ == timer_legend(),
        r.tint == Tint::Red,
{
    Screen {
        headline: timer_headline_text("\u{1F345} ", remaining_sec, current_round),
        legend: String::from_str("[Q]: quit, [Space]: pause/resume"),
        tint: Tint::Red,
    }
}

/// What the break countdown shows with `remaining_sec` left in round
/// `current_round`.
pub fn break_timer_screen(remaining_sec: u16, current_round: u64) -> (r: Screen)
    ensures
        r.headline@ == timer_headline(break_icon(), remaining_sec as nat, current_round as nat),
        r.legend@ == timer_legend(),
        r.tint == Tint::Green,
{
    Screen {
        headline: timer_headline_text("\u{2615} ", remaining_sec, current_round),
        legend: String::from_str("[Q]: quit, [Space]: pause/resume"),
        tint: Tint::Green,
    }
}

/// The prompt shown when a work period has ended.
pub fn break_interval_screen() -> (r: Screen)
    ensures
        r.headline@ == break_prompt(),
        r.legend@ == gate_legend(),
        r.tint == Tint::Green,
{
    Screen {
        headline: String::from_str("\u{1F389} press Enter to take a break"),
        legend: String::from_str("[Q]: quit, [Enter]: start"),
        tint: Tint::Green,
    }
}

/// The prompt shown when a break has ended.
pub fn work_interval_screen() -> (r: Screen)
    ensures
        r.headline@ == work_prompt(),
        r.legend@ == gate_legend(),
        r.tint == Tint::Red,
{
    Screen {
        headline: String::from_str("\u{1F389} press Enter to work!!"),
        legend: String::from_str("[Q]: quit, [Enter]: start"),
        tint: Tint::Red,
    }
}

} // verus!
