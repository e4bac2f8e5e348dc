//! Text rendering of snapshot values and the presentation loop's decisions.

use crate::cancel::CancellationFlag;
use crate::channel::Received;
use crate::services::{SystemInfoDynamicData, SystemInfoStaticData};
use vstd::prelude::*;
use vstd::string::StringExecFns;

verus! {

/// The character that stands for one decimal digit.
pub open spec fn digit_char(d: nat) -> char
    recommends
        d < 10,
{
    if d == 0 {
        '0'
    } else if d == 1 {
        '1'
    } else if d == 2 {
        '2'
    } else if d == 3 {
        '3'
    } else if d == 4 {
        '4'
    } else if d == 5 {
        '5'
    } else if d == 6 {
        '6'
    } else if d == 7 {
        '7'
    } else if d == 8 {
        '8'
    } else {
        '9'
    }
}

/// The decimal numeral of `n`, without leading zeros.
pub open spec fn decimal(n: nat) -> Seq<char>
    decreases n,
{
    if n < 10 {
        seq![digit_char(n)]
    } else {
        decimal(n / 10).push(digit_char(n % 10))
    }
}

/// The decimal numeral of `n`, padded with a zero to at least two digits.
pub open spec fn two_digits(n: nat) -> Seq<char> {
    if n < 10 {
        seq!['0'] + decimal(n)
    } else {
        decimal(n)
    }
}

/// An uptime in seconds as `hours:minutes:seconds`, each part zero-padded to
/// two digits; hours are not reduced modulo a day.
pub open spec fn uptime_text(uptime: nat) -> Seq<char> {
    two_digits(uptime / 3600) + seq![':'] + two_digits((uptime / 60) % 60) + seq![':']
        + two_digits(uptime % 60)
}

/// A number below a hundred takes exactly two places.
pub proof fn lemma_two_digits_len(n: nat)
    requires
        n < 100,
    ensures
        two_digits(n).len() == 2,
{
    reveal_with_fuel(decimal, 2);
}

/// Below a hundred hours an uptime reads as eight characters, `HH:MM:SS`,
/// with the colons in the third and sixth place.
pub proof fn lemma_uptime_text_shape(uptime: nat)
    requires
        uptime < 360000,
    ensures
        uptime_text(uptime).len() == 8,
        uptime_text(uptime)[2] == ':',
        uptime_text(uptime)[5] == ':',
{
    lemma_two_digits_len(uptime / 3600);
    lemma_two_digits_len((uptime / 60) % 60);
    lemma_two_digits_len(uptime % 60);
}

fn digit_str(d: u64) -> (s: &'static str)
    requires
        d < 10,
    ensures
        s@ == seq![digit_char(d as nat)],
{
    proof {
        reveal_strlit("0");
        reveal_strlit("1");
        reveal_strlit("2");
        reveal_strlit("3");
        reveal_strlit("4");
        reveal_strlit("5");
        reveal_strlit("6");
        reveal_strlit("7");
        reveal_strlit("8");
        reveal_strlit("9");
    }
    let s = if d == 0 {
        "0"
    } else if d == 1 {
        "1"
    } else if d == 2 {
        "2"
    } else if d == 3 {
        "3"
    } else if d == 4 {
        "4"
    } else if d == 5 {
        "5"
    } else if d == 6 {
        "6"
    } else if d == 7 {
        "7"
    } else if d == 8 {
        "8"
    } else {
        "9"
    };
    assert(s@ =~= seq![digit_char(d as nat)]);
    s
}

fn push_decimal(out: &mut String, n: u64)
    ensures
        final(out)@ == old(out)@ + decimal(n as nat),
    decreases n,
{
    if n >= 10 {
        push_decimal(out, n / 10);
    }
    out.append(digit_str(n % 10));
    assert(out@ =~= old(out)@ + decimal(n as nat));
}

fn push_two_digits(out: &mut String, n: u64)
    ensures
        final(out)@ == old(out)@ + two_digits(n as nat),
{
    if n < 10 {
        out.append(digit_str(0));
    }
    push_decimal(out, n);
    assert(out@ =~= old(out)@ + two_digits(n as nat));
}

fn push_colon(out: &mut String)
    ensures
        final(out)@ == old(out)@ + seq![':'],
{
    proof {
        reveal_strlit(":");
    }
    out.append(":");
    assert(out@ =~= old(out)@ + seq![':']);
}

/// Renders an uptime given in seconds as `HH:MM:SS`.
pub fn format_uptime(uptime: u64) -> (text: String)
    ensures
        text@ == uptime_text(uptime as nat),
{
    let seconds: u64 = uptime % 60;
    let minutes: u64 = (uptime / 60) % 60;
    let hours: u64 = (uptime / 60) / 60;
    assert(hours == uptime / 3600) by (nonlinear_arith)
        requires
            hours == (uptime / 60) / 60,
    ;
    let mut text = String::new();
    push_two_digits(&mut text, hours);
    push_colon(&mut text);
    push_two_digits(&mut text, minutes);
    push_colon(&mut text);
    push_two_digits(&mut text, seconds);
    assert(text@ =~= uptime_text(uptime as nat));
    text
}

/// The key that asks the dashboard to quit.
pub const QUIT_KEY: char = 'q';

/// What the presentation loop does with the outcome of a receive.
#[derive(Debug, Clone, Copy, PartialEq, Eq, Structural)]
pub enum UiStep {
    /// Draw this snapshot, then look for a key.
    Render(SystemInfoDynamicData),
    /// Nothing new to draw yet: look for a key and try again.
    Wait,
    /// The stream has ended: restore the terminal and leave.
    Exit,
}

/// What the presentation loop does with the outcome of a receive.
pub open spec fn ui_step(received: Received) -> UiStep {
    match received {
        Received::Snapshot(snapshot) => UiStep::Render(snapshot),
        Received::Empty => UiStep::Wait,
        Received::Closed => UiStep::Exit,
    }
}

/// Decides what the presentation loop does with the outcome of a receive: a
/// snapshot is drawn as it is, and the end of the stream ends the loop.
pub fn on_received(received: Received) -> (step: UiStep)
    ensures
        step == ui_step(received),
{
    match received {
        Received::Snapshot(snapshot) => UiStep::Render(snapshot),
        Received::Empty => UiStep::Wait,
        Received::Closed => UiStep::Exit,
    }
}

/// Handles a key press: the quit key requests shutdown and ends the
/// presentation loop, and every other key leaves the latch as it was.
pub fn on_key(key: char, flag: &mut CancellationFlag) -> (quit: bool)
    ensures
        quit == (key == QUIT_KEY),
        quit ==> *final(flag) == old(flag).after_request(),
        !quit ==> *final(flag) == *old(flag),
{
    if key == QUIT_KEY {
        flag.request();
        true
    } else {
        false
    }
}

/// The share of `total` that `used` is, in whole percent rounded down: zero
/// where there is no total, and a full gauge where more is used than there is.
pub open spec fn usage_percent_of(used: nat, total: nat) -> nat {
    if total == 0 {
        0
    } else if used >= total {
        100
    } else {
        used * 100 / total
    }
}

/// A usage never reads above a full gauge.
pub proof fn lemma_usage_percent_bounded(used: nat, total: nat)
    ensures
        usage_percent_of(used, total) <= 100,
{
    if total != 0 && used < total {
        assert(used * 100 / total <= 100) by (nonlinear_arith)
            requires
                used < total,
                total > 0,
        ;
    }
}

/// The fill of a usage gauge, in percent between 0 and 100.
pub fn usage_percent(used: u64, total: u64) -> (percent: u16)
    ensures
        percent == usage_percent_of(used as nat, total as nat),
        percent <= 100,
{
    proof {
        lemma_usage_percent_bounded(used as nat, total as nat);
    }
    if total == 0 {
        0
    } else if used >= total {
        100
    } else {
        let scaled: u128 = (used as u128) * 100;
        let share: u128 = scaled / (total as u128);
        share as u16
    }
}

/// Renders a count as its decimal numeral.
pub fn format_count(count: u64) -> (text: String)
    ensures
        text@ == decimal(count as nat),
{
    let mut text = String::new();
    push_decimal(&mut text, count);
    assert(text@ =~= decimal(count as nat));
    text
}

/// Renders the fill of a usage gauge as its label: the numeral and a percent
/// sign.
pub fn percent_label(percent: u16) -> (text: String)
    ensures
        text@ == decimal(percent as nat) + seq!['%'],
{
    proof {
        reveal_strlit("%");
    }
    let mut text = format_count(percent as u64);
    text.append("%");
    assert(text@ =~= decimal(percent as nat) + seq!['%']);
    text
}

/// The value lines of the identity panel, top to bottom: the number of
/// processes, the installed memory, the uptime and the processor's name.
pub fn info_values(
    identity: &SystemInfoStaticData,
    task_count: usize,
    uptime: u64,
) -> (values: Vec<String>)
    ensures
        values@.len() == 4,
        values@[0]@ == decimal(task_count as nat),
        values@[1]@ == decimal(identity.total_memory as nat),
        values@[2]@ == uptime_text(uptime as nat),
        values@[3] == identity.processor_name,
{
    let mut values: Vec<String> = Vec::new();
    values.push(format_count(task_count as u64));
    values.push(format_count(identity.total_memory));
    values.push(format_uptime(uptime));
    values.push(identity.processor_name.clone());
    values
}

} // verus!
