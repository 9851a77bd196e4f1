//! The HUD model: the numeric game state projected into display text, and
//! the game-over banner's visibility. The host engine owns fonts, layout and
//! colors; this module owns the text values themselves, rendered by verified
//! decimal formatting.

use vstd::prelude::*;
use crate::entities::{PlayerStats, Score};

verus! {

/// The decimal digit character for `d` (meaningful for `0 <= d < 10`).
pub open spec fn dec_digit(d: int) -> char {
    if d == 0 {
        '0'
    } else if d == 1 {
        '1'
    } else if d == 2 {
        '2'
    } else if d == 3 {
        '3'
    } else if d == 4 {
        '4'
    } else if d == 5 {
        '5'
    } else if d == 6 {
        '6'
    } else if d == 7 {
        '7'
    } else if d == 8 {
        '8'
    } else {
        '9'
    }
}

/// The decimal digits of a non-negative number, most significant first,
/// without leading zeros (a lone zero for 0).
pub open spec fn dec_seq(n: int) -> Seq<char>
    decreases n,
{
    if n < 10 {
        seq![dec_digit(n)]
    } else {
        dec_seq(n / 10).push(dec_digit(n % 10))
    }
}

/// A fixed-point value rendered with three fractional digits: the whole
/// part's decimal digits, a dot, and the thousandths zero-padded to width
/// three (meaningful for `m >= 0`).
pub open spec fn milli_seq(m: int) -> Seq<char> {
    let f = m % 1000;
    dec_seq(m / 1000) + seq!['.', dec_digit(f / 100), dec_digit((f / 10) % 10), dec_digit(f % 10)]
}

/// The fuel display: the milli-unit tank value as a signed decimal with
/// three fractional digits.
pub open spec fn fuel_seq(f: int) -> Seq<char> {
    if f < 0 {
        seq!['-'] + milli_seq(-f)
    } else {
        milli_seq(f)
    }
}

/// The decimal digit character for `d`.
fn dec_digit_exec(d: u64) -> (c: char)
    requires
        d < 10,
    ensures
        c == dec_digit(d as int),
{
    match d {
        0 => '0',
        1 => '1',
        2 => '2',
        3 => '3',
        4 => '4',
        5 => '5',
        6 => '6',
        7 => '7',
        8 => '8',
        _ => '9',
    }
}

/// The decimal digits of `n`, most significant first.
fn u64_digits(n: u64) -> (v: Vec<char>)
    ensures
        v@ == dec_seq(n as int),
    decreases n,
{
    if n < 10 {
        let mut v: Vec<char> = Vec::new();
        v.push(dec_digit_exec(n));
        v
    } else {
        let mut v = u64_digits(n / 10);
        v.push(dec_digit_exec(n % 10));
        v
    }
}

/// Relies on `String::push`: appends the given character to the end of the
/// string.
#[verifier::external_body]
fn push_char(s: &mut String, c: char)
    ensures
        final(s)@ == old(s)@.push(c),
{
    s.push(c)
}

/// Append every character of `v` to `s`.
fn push_chars(s: &mut String, v: &Vec<char>)
    ensures
        final(s)@ == old(s)@ + v@,
{
    let mut i: usize = 0;
    let n: usize = v.len();
    while i < n
        invariant
            n == v@.len(),
            i <= n,
            s@ == old(s)@ + v@.subrange(0, i as int),
        decreases n - i,
    {
        push_char(s, v[i]);
        proof {
            assert(v@.subrange(0, i as int).push(v@[i as int]) =~= v@.subrange(0, i as int + 1));
        }
        i = i + 1;
    }
    proof {
        assert(v@.subrange(0, n as int) =~= v@);
    }
}

/// Render a number in decimal.
pub fn u64_string(n: u64) -> (s: String)
    ensures
        s@ == dec_seq(n as int),
{
    let digits = u64_digits(n);
    let mut s = String::new();
    push_chars(&mut s, &digits);
    proof {
        assert(Seq::<char>::empty() + digits@ =~= digits@);
    }
    s
}

/// Render a fuel level: a milli-unit value as a signed decimal with three
/// fractional digits.
pub fn fuel_string(fuel: i64) -> (s: String)
    requires
        fuel > i64::MIN,
    ensures
        s@ == fuel_seq(fuel as int),
{
    let mag: u64 = if fuel < 0 {
        (-fuel) as u64
    } else {
        fuel as u64
    };
    let whole: u64 = mag / 1000;
    let frac: u64 = mag % 1000;
    let mut s = String::new();
    if fuel < 0 {
        push_char(&mut s, '-');
    }
    let digits = u64_digits(whole);
    push_chars(&mut s, &digits);
    push_char(&mut s, '.');
    push_char(&mut s, dec_digit_exec(frac / 100));
    push_char(&mut s, dec_digit_exec((frac / 10) % 10));
    push_char(&mut s, dec_digit_exec(frac % 10));
    proof {
        let m: int = mag as int;
        if fuel < 0 {
            assert(seq!['-'] + milli_seq(m) =~= (Seq::<char>::empty().push('-') + dec_seq(m / 1000))
                .push('.').push(dec_digit((m % 1000) / 100)).push(
                dec_digit(((m % 1000) / 10) % 10),
            ).push(dec_digit((m % 1000) % 10)));
        } else {
            assert(milli_seq(m) =~= (Seq::<char>::empty() + dec_seq(m / 1000)).push('.').push(
                dec_digit((m % 1000) / 100),
            ).push(dec_digit(((m % 1000) / 10) % 10)).push(dec_digit((m % 1000) % 10)));
        }
    }
    s
}

/// The text surface this crate drives: one value string per readout, and the
/// banner's visibility flag. Labels, fonts and layout stay with the host
/// engine.
pub struct Hud {
    pub health_text: String,
    pub score_text: String,
    pub fuel_text: String,
    pub game_over_visible: bool,
}

/// A fresh HUD: every readout's value text is empty and the game-over banner
/// is hidden.
pub fn setup_text() -> (hud: Hud)
    ensures
        hud.health_text@ == Seq::<char>::empty(),
        hud.score_text@ == Seq::<char>::empty(),
        hud.fuel_text@ == Seq::<char>::empty(),
        !hud.game_over_visible,
{
    Hud {
        health_text: String::new(),
        score_text: String::new(),
        fuel_text: String::new(),
        game_over_visible: false,
    }
}

/// Project the player's health into its readout, and show the banner exactly
/// when the health has run out.
pub fn update_health_text(hud: &mut Hud, stats: &PlayerStats)
    ensures
        final(hud).health_text@ == dec_seq(stats.health as int),
        final(hud).game_over_visible == (stats.health < 1),
        final(hud).score_text@ == old(hud).score_text@,
        final(hud).fuel_text@ == old(hud).fuel_text@,
{
    hud.game_over_visible = false;
    hud.health_text = u64_string(stats.health as u64);
    if stats.health < 1 {
        hud.game_over_visible = true;
    }
}

/// Project the score into its readout.
pub fn score_text(hud: &mut Hud, score: &Score)
    ensures
        final(hud).score_text@ == dec_seq(score.score as int),
        final(hud).health_text@ == old(hud).health_text@,
        final(hud).fuel_text@ == old(hud).fuel_text@,
        final(hud).game_over_visible == old(hud).game_over_visible,
{
    hud.score_text = u64_string(score.score as u64);
}

/// Project the fuel level into its readout.
pub fn update_fuel_text(hud: &mut Hud, stats: &PlayerStats)
    requires
        stats.fuel > i64::MIN,
    ensures
        final(hud).fuel_text@ == fuel_seq(stats.fuel as int),
        final(hud).health_text@ == old(hud).health_text@,
        final(hud).score_text@ == old(hud).score_text@,
        final(hud).game_over_visible == old(hud).game_over_visible,
{
    hud.fuel_text = fuel_string(stats.fuel);
}

/// Force the game-over banner visible: the action taken on the transition
/// edge, independent of the per-frame health check.
pub fn game_over(hud: &mut Hud)
    ensures
        final(hud).game_over_visible,
        final(hud).health_text@ == old(hud).health_text@,
        final(hud).score_text@ == old(hud).score_text@,
        final(hud).fuel_text@ == old(hud).fuel_text@,
{
    hud.game_over_visible = true;
}

} // verus!
