//! Decimal rendering of numbers and the small pieces of text the bot
//! publishes: timestamp markup, digit grouping, and profile links.

use vstd::prelude::*;

verus! {

/// The decimal digit character for `d` (meaningful for `d < 10`).
pub open spec fn digit_char(d: nat) -> char {
    if d == 0 {
        '0'
    } else if d == 1 {
        '1'
    } else if d == 2 {
        '2'
    } else if d == 3 {
        '3'
    } else if d == 4 {
        '4'
    } else if d == 5 {
        '5'
    } else if d == 6 {
        '6'
    } else if d == 7 {
        '7'
    } else if d == 8 {
        '8'
    } else {
        '9'
    }
}

/// The decimal representation of `n`, without leading zeros (except for
/// `n == 0`, which is rendered as "0").
pub open spec fn dec_str(n: nat) -> Seq<char>
    decreases n,
{
    if n < 10 {
        seq![digit_char(n)]
    } else {
        dec_str(n / 10).push(digit_char(n % 10))
    }
}

fn digit_str(d: u64) -> (r: &'static str)
    requires
        d < 10,
    ensures
        r@ == seq![digit_char(d as nat)],
{
    proof {
        reveal_strlit("0");
        reveal_strlit("1");
        reveal_strlit("2");
        reveal_strlit("3");
        reveal_strlit("4");
        reveal_strlit("5");
        reveal_strlit("6");
        reveal_strlit("7");
        reveal_strlit("8");
        reveal_strlit("9");
    }
    match d {
        0 => "0",
        1 => "1",
        2 => "2",
        3 => "3",
        4 => "4",
        5 => "5",
        6 => "6",
        7 => "7",
        8 => "8",
        _ => "9",
    }
}

/// Renders `n` in decimal.
pub fn u64_to_string(n: u64) -> (r: String)
    ensures
        r@ == dec_str(n as nat),
    decreases n,
{
    if n < 10 {
        digit_str(n).to_owned()
    } else {
        let mut s = u64_to_string(n / 10);
        s.append(digit_str(n % 10));
        s
    }
}

/// Zero-padding that brings a value below 1000 to exactly three digits.
pub open spec fn pad3(n: nat) -> Seq<char> {
    if n < 10 {
        seq!['0', '0'] + dec_str(n)
    } else if n < 100 {
        seq!['0'] + dec_str(n)
    } else {
        dec_str(n)
    }
}

/// The decimal representation of `n` with a comma between each group of
/// three digits, counted from the right.
pub open spec fn grouped_dec_str(n: nat) -> Seq<char>
    decreases n,
{
    if n < 1000 {
        dec_str(n)
    } else {
        grouped_dec_str(n / 1000).push(',') + pad3(n % 1000)
    }
}

fn pad3_string(n: u64) -> (r: String)
    requires
        n < 1000,
    ensures
        r@ == pad3(n as nat),
{
    proof {
        reveal_strlit("00");
        reveal_strlit("0");
    }
    if n < 10 {
        let mut s = "00".to_owned();
        s.append(u64_to_string(n).as_str());
        assert(s@ =~= pad3(n as nat));
        s
    } else if n < 100 {
        let mut s = "0".to_owned();
        s.append(u64_to_string(n).as_str());
        assert(s@ =~= pad3(n as nat));
        s
    } else {
        u64_to_string(n)
    }
}

/// Renders `number` in decimal with thousands separators, as in "1,234,567".
pub fn format_with_commas(number: u64) -> (r: String)
    ensures
        r@ == grouped_dec_str(number as nat),
    decreases number,
{
    proof {
        reveal_strlit(",");
    }
    if number < 1000 {
        u64_to_string(number)
    } else {
        let mut s = format_with_commas(number / 1000);
        s.append(",");
        s.append(pad3_string(number % 1000).as_str());
        assert(s@ =~= grouped_dec_str(number as nat));
        s
    }
}

/// The markup that renders a Unix timestamp as a full date and time.
pub open spec fn time_markup(t: nat) -> Seq<char> {
    "<t:"@ + dec_str(t) + ":f>"@
}

/// Wraps a Unix timestamp in the chat markup for a full date-time display.
pub fn format_time(time: u64) -> (r: String)
    ensures
        r@ == time_markup(time as nat),
{
    proof {
        reveal_strlit("<t:");
        reveal_strlit(":f>");
    }
    let mut s = "<t:".to_owned();
    s.append(u64_to_string(time).as_str());
    s.append(":f>");
    assert(s@ =~= time_markup(time as nat));
    s
}

/// The address of a player's profile page.
pub open spec fn player_link_text(id: nat) -> Seq<char> {
    "https://www.torn.com/profiles.php?XID="@ + dec_str(id)
}

/// Builds the address of the profile page for player `id`.
pub fn player_link(id: u64) -> (r: String)
    ensures
        r@ == player_link_text(id as nat),
{
    proof {
        reveal_strlit("https://www.torn.com/profiles.php?XID=");
    }
    let mut s = "https://www.torn.com/profiles.php?XID=".to_owned();
    s.append(u64_to_string(id).as_str());
    assert(s@ =~= player_link_text(id as nat));
    s
}

/// The address of a faction's profile page.
pub open spec fn faction_link_text(id: nat) -> Seq<char> {
    "https://www.torn.com/factions.php?step=profile&ID="@ + dec_str(id)
}

/// Builds the address of the profile page for faction `id`.
pub fn faction_link(id: u64) -> (r: String)
    ensures
        r@ == faction_link_text(id as nat),
{
    proof {
        reveal_strlit("https://www.torn.com/factions.php?step=profile&ID=");
    }
    let mut s = "https://www.torn.com/factions.php?step=profile&ID=".to_owned();
    s.append(u64_to_string(id).as_str());
    assert(s@ =~= faction_link_text(id as nat));
    s
}

} // verus!
