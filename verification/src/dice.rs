//! Dice: parsing `NdS+M` expressions, rolling, critical results on a single
//! d20, and the ASCII pictures and colours used to show a roll.
use vstd::prelude::*;
use crate::text::{
    is_first_of, digits_value, all_digits, parse_unsigned,
    decimal, first_index, find_char, parse_i32_spec, parse_u8_spec, parse_signed_range,
    parse_unsigned_range, str_chars, string_from_range, contains_text, chars_contain, labeled,
    push_decimal, is_digit,
};

verus! {

/// A random byte, every value possible (`rand::random::<u8>`).
#[verifier::external_body]
pub(crate) fn random_byte() -> (r: u8) {
    rand::random::<u8>()
}

/// The expression without a leading `r`.
pub open spec fn strip_roll_prefix(s: Seq<char>) -> Seq<char> {
    if s.len() > 0 && s[0] == 'r' {
        s.drop_first()
    } else {
        s
    }
}

/// The integer a text parses to, 0 when it does not parse.
pub open spec fn parse_or_zero(s: Seq<char>) -> int {
    match parse_i32_spec(s) {
        Some(v) => v as int,
        None => 0,
    }
}

/// The modifier of a dice expression: the text after the first `+` read as an
/// `i32` (0 if it does not read); else the negated text after the first `-`;
/// else 0.
pub open spec fn dice_modifier(input: Seq<char>) -> int {
    let b = strip_roll_prefix(input);
    match first_index(b, '+') {
        Some(p) => parse_or_zero(b.subrange(p + 1, b.len() as int)),
        None => match first_index(b, '-') {
            Some(p) => -parse_or_zero(b.subrange(p + 1, b.len() as int)),
            None => 0,
        },
    }
}

proof fn lemma_first_at(s: Seq<char>, ch: char, p: int)
    requires
        0 <= p < s.len(),
        s[p] == ch,
        forall|j: int| 0 <= j < p ==> s[j] != ch,
    ensures
        first_index(s, ch) == Some(p),
{
    assert(is_first_of(s, ch, p));
    let q = choose|q: int| is_first_of(s, ch, q);
    assert(q == p) by {
        if q < p {
            assert(s[q] != ch);
        } else if q > p {
            assert(s[p] != ch);
        }
    }
}

proof fn lemma_first_none(s: Seq<char>, ch: char)
    requires
        forall|j: int| 0 <= j < s.len() ==> s[j] != ch,
    ensures
        first_index(s, ch) is None,
{
    if exists|q: int| is_first_of(s, ch, q) {
        let q = choose|q: int| is_first_of(s, ch, q);
        assert(s[q] == ch);
    }
}

proof fn lemma_modifier_of_form(pre: Seq<char>, d: Seq<char>, sign: char, m_text: Seq<char>, m: i32)
    requires
        pre == Seq::<char>::empty() || pre == seq!['r'],
        sign == '-' || sign == '+',
        forall|i: int| 0 <= i < d.len() ==> d[i] != '+' && d[i] != '-',
        forall|i: int| 0 <= i < m_text.len() ==> m_text[i] != '+',
        parse_i32_spec(m_text) == Some(m),
    ensures
        sign == '-' ==> dice_modifier(pre + d + seq![sign] + m_text) == -m,
        sign == '+' ==> dice_modifier(pre + d + seq![sign] + m_text) == m,
{
    let input = pre + d + seq![sign] + m_text;
    let b = strip_roll_prefix(input);
    let dd = if pre.len() == 0 && d.len() > 0 && d[0] == 'r' { d.drop_first() } else { d };
    assert(b =~= dd + seq![sign] + m_text) by {
        if pre.len() == 0 {
            assert(input =~= d + seq![sign] + m_text);
            if d.len() > 0 && d[0] == 'r' {
                assert(input[0] == 'r');
                assert(input.drop_first() =~= d.drop_first() + seq![sign] + m_text);
            } else if d.len() == 0 {
                assert(input[0] == sign);
            } else {
                assert(input[0] == d[0]);
            }
        } else {
            assert(input[0] == 'r');
            assert(input.drop_first() =~= d + seq![sign] + m_text);
        }
    }
    assert forall|i: int| 0 <= i < dd.len() implies dd[i] != '+' && dd[i] != '-' by {
        if pre.len() == 0 && d.len() > 0 && d[0] == 'r' {
            assert(dd[i] == d[i + 1]);
        }
    }
    let p = dd.len() as int;
    assert(b[p] == sign);
    assert(b.subrange(p + 1, b.len() as int) =~= m_text);
    if sign == '-' {
        assert forall|j: int| 0 <= j < b.len() implies b[j] != '+' by {
            if j < p {
                assert(b[j] == dd[j]);
            } else if j > p {
                assert(b[j] == m_text[j - p - 1]);
            }
        }
        lemma_first_none(b, '+');
        assert forall|j: int| 0 <= j < p implies b[j] != '-' by {
            assert(b[j] == dd[j]);
        }
        lemma_first_at(b, '-', p);
    } else {
        assert forall|j: int| 0 <= j < p implies b[j] != '+' by {
            assert(b[j] == dd[j]);
        }
        lemma_first_at(b, '+', p);
    }
}

/// Law: in an expression `D-M` or `D+M`, with or without the `r` in front,
/// whose dice part `D` holds no sign and whose number `M` (holding no `+`)
/// reads as `m`, the modifier is `-m` after a `-` and `m` after a `+`. So the
/// total of a roll of `D-M` is the sum of the dice minus `m`, at least 0
/// (and of `D+M` the sum plus `m`, at least 0): for example the modifier of
/// `1d20-1` is -1.
pub proof fn law_modifier_sign(d: Seq<char>, m_text: Seq<char>, m: i32, rolls: Seq<u8>)
    requires
        forall|i: int| 0 <= i < d.len() ==> d[i] != '+' && d[i] != '-',
        forall|i: int| 0 <= i < m_text.len() ==> m_text[i] != '+',
        parse_i32_spec(m_text) == Some(m),
    ensures
        dice_modifier(d + "-"@ + m_text) == -m,
        dice_modifier("r"@ + d + "-"@ + m_text) == -m,
        dice_modifier(d + "+"@ + m_text) == m,
        dice_modifier("r"@ + d + "+"@ + m_text) == m,
        total_of(rolls, dice_modifier(d + "-"@ + m_text)) == (if roll_sum(rolls) - m < 0 {
            0
        } else {
            roll_sum(rolls) - m
        }),
        total_of(rolls, dice_modifier(d + "+"@ + m_text)) == (if roll_sum(rolls) + m < 0 {
            0
        } else {
            roll_sum(rolls) + m
        }),
{
    reveal_strlit("-");
    reveal_strlit("+");
    reveal_strlit("r");
    let e = Seq::<char>::empty();
    let r = seq!['r'];
    assert("-"@ =~= seq!['-']);
    assert("+"@ =~= seq!['+']);
    assert("r"@ =~= r);
    lemma_modifier_of_form(e, d, '-', m_text, m);
    lemma_modifier_of_form(r, d, '-', m_text, m);
    lemma_modifier_of_form(e, d, '+', m_text, m);
    lemma_modifier_of_form(r, d, '+', m_text, m);
    assert(d + "-"@ + m_text =~= e + d + seq!['-'] + m_text);
    assert(d + "+"@ + m_text =~= e + d + seq!['+'] + m_text);
}

/// The dice part of an expression: what comes before the modifier sign.
pub open spec fn dice_text(input: Seq<char>) -> Seq<char> {
    let b = strip_roll_prefix(input);
    match first_index(b, '+') {
        Some(p) => b.subrange(0, p),
        None => match first_index(b, '-') {
            Some(p) => b.subrange(0, p),
            None => b,
        },
    }
}

/// The number of dice and of sides that an expression asks for, or the error
/// message when it is not a valid request.
pub open spec fn dice_request(input: Seq<char>) -> Result<(u8, u8), Seq<char>> {
    let d = dice_text(input);
    match first_index(d, 'd') {
        None => Err("Invalid dice format"@),
        Some(p) => {
            let num = d.subrange(0, p);
            let rest = d.subrange(p + 1, d.len() as int);
            let sides = match first_index(rest, 'd') {
                Some(q) => rest.subrange(0, q),
                None => rest,
            };
            match parse_u8_spec(num) {
                None => Err("Invalid number of dice"@),
                Some(n) => match parse_u8_spec(sides) {
                    None => Err("Invalid number of sides"@),
                    Some(sd) => if n == 0 || sd == 0 {
                        Err("Number of dice and sides must be greater than 0"@)
                    } else if n > 100 {
                        Err("Too many dice (maximum 100)"@)
                    } else {
                        Ok((n, sd))
                    },
                },
            }
        },
    }
}

/// The expression can be evaluated without arithmetic overflow for every
/// outcome of the dice: the modifier fits an `i32`, and the largest possible
/// total plus the modifier does too.
pub open spec fn dice_expression_fits(input: Seq<char>) -> bool {
    &&& dice_modifier(input) <= i32::MAX
    &&& match dice_request(input) {
        Ok((n, sd)) => n * sd + dice_modifier(input) <= i32::MAX,
        Err(_) => true,
    }
}

/// The sum of the rolled values.
pub open spec fn roll_sum(s: Seq<u8>) -> int
    decreases s.len(),
{
    if s.len() == 0 {
        0
    } else {
        roll_sum(s.drop_last()) + s.last()
    }
}

/// The total of a roll: the sum of the dice plus the modifier, at least 0.
pub open spec fn total_of(rolls: Seq<u8>, modifier: int) -> int {
    if roll_sum(rolls) + modifier < 0 {
        0
    } else {
        roll_sum(rolls) + modifier
    }
}

proof fn lemma_roll_sum_bound(s: Seq<u8>, sides: u8)
    requires
        forall|i: int| 0 <= i < s.len() ==> 1 <= #[trigger] s[i] <= sides,
    ensures
        0 <= roll_sum(s) <= s.len() * sides,
    decreases s.len(),
{
    if s.len() > 0 {
        let p = s.drop_last();
        assert forall|i: int| 0 <= i < p.len() implies 1 <= #[trigger] p[i] <= sides by {
            assert(p[i] == s[i]);
        }
        lemma_roll_sum_bound(p, sides);
        assert(s.last() == s[s.len() - 1]);
        assert(p.len() * sides + sides == s.len() * sides) by (nonlinear_arith)
            requires
                p.len() + 1 == s.len(),
        ;
    }
}

/// A die with `sides` sides showing the value read from a random byte.
pub fn roll_from(random: u8, sides: u8) -> (res: u8)
    requires
        sides > 0,
    ensures
        res == random % sides + 1,
        1 <= res <= sides,
{
    (random % sides) + 1
}

/// The total of a roll: the sum of the dice plus the modifier, at least 0.
pub fn dice_total(rolls: &Vec<u8>, modifier: i32) -> (res: u32)
    requires
        rolls@.len() <= 100,
        roll_sum(rolls@) + modifier <= i32::MAX,
    ensures
        res == total_of(rolls@, modifier as int),
{
    let mut sum: u32 = 0;
    let mut i: usize = 0;
    while i < rolls.len()
        invariant
            i <= rolls@.len() <= 100,
            sum == roll_sum(rolls@.subrange(0, i as int)),
            sum <= i * 255,
        decreases rolls@.len() - i,
    {
        let ghost prev = rolls@.subrange(0, i as int);
        assert(rolls@.subrange(0, i + 1).drop_last() =~= prev);
        sum = sum + rolls[i] as u32;
        i = i + 1;
    }
    assert(rolls@.subrange(0, rolls@.len() as int) =~= rolls@);
    let t: i64 = sum as i64 + modifier as i64;
    if t < 0 {
        0
    } else {
        t as u32
    }
}

fn split_modifier(v: &Vec<char>, start: usize) -> (res: (usize, i64))
    requires
        start <= v@.len(),
        strip_roll_prefix(v@) == v@.subrange(start as int, v@.len() as int),
    ensures
        start <= res.0 <= v@.len(),
        dice_text(v@) == v@.subrange(start as int, res.0 as int),
        res.1 == dice_modifier(v@),
        i32::MIN <= res.1 <= 0x8000_0000,
{
    let n = v.len();
    let ghost b = strip_roll_prefix(v@);
    match find_char(v, start, n, '+') {
        Some(p) => {
            let end = start + p;
            assert(b.subrange(p + 1, b.len() as int) =~= v@.subrange(end + 1, n as int));
            assert(b.subrange(0, p as int) =~= v@.subrange(start as int, end as int));
            let modifier: i64 = match parse_signed_range(v, end + 1, n, 0x7fff_ffff) {
                Some(m) => m,
                None => 0,
            };
            (end, modifier)
        },
        None => {
            match find_char(v, start, n, '-') {
                Some(p) => {
                    let end = start + p;
                    assert(b.subrange(p + 1, b.len() as int) =~= v@.subrange(end + 1, n as int));
                    assert(b.subrange(0, p as int) =~= v@.subrange(start as int, end as int));
                    let m: i64 = match parse_signed_range(v, end + 1, n, 0x7fff_ffff) {
                        Some(m) => m,
                        None => 0,
                    };
                    (end, 0 - m)
                },
                None => (n, 0),
            }
        },
    }
}

fn parse_request(v: &Vec<char>, start: usize, end: usize) -> (res: Result<(u8, u8), String>)
    requires
        start <= end <= v@.len(),
        dice_text(v@) == v@.subrange(start as int, end as int),
    ensures
        match dice_request(v@) {
            Err(msg) => res matches Err(e) && e@ == msg,
            Ok((n, sd)) => res == Ok::<(u8, u8), String>((n, sd)),
        },
{
    let ghost d = dice_text(v@);
    let dpos = match find_char(v, start, end, 'd') {
        Some(p) => p,
        None => {
            return Err(String::from_str("Invalid dice format"));
        },
    };
    let num_end = start + dpos;
    let mut sides_end = end;
    assert(d.subrange(0, dpos as int) =~= v@.subrange(start as int, num_end as int));
    let ghost rest = d.subrange(dpos + 1, d.len() as int);
    assert(rest =~= v@.subrange(num_end + 1, end as int));
    match find_char(v, num_end + 1, end, 'd') {
        Some(q) => {
            sides_end = num_end + 1 + q;
            assert(rest.subrange(0, q as int) =~= v@.subrange(num_end + 1, sides_end as int));
        },
        None => {},
    }
    let num: u8 = match parse_unsigned_range(v, start, num_end, 255) {
        Some(x) => x as u8,
        None => {
            return Err(String::from_str("Invalid number of dice"));
        },
    };
    let sides: u8 = match parse_unsigned_range(v, num_end + 1, sides_end, 255) {
        Some(x) => x as u8,
        None => {
            return Err(String::from_str("Invalid number of sides"));
        },
    };
    if num == 0 || sides == 0 {
        return Err(String::from_str("Number of dice and sides must be greater than 0"));
    }
    if num > 100 {
        return Err(String::from_str("Too many dice (maximum 100)"));
    }
    Ok((num, sides))
}

/// Reads a dice expression (see `roll_dice`) without rolling: the number of
/// dice, of sides and the modifier, or the error message.
pub fn parse_dice(input: &str) -> (res: Result<(u8, u8, i32), String>)
    requires
        dice_modifier(input@) <= i32::MAX,
    ensures
        match dice_request(input@) {
            Err(msg) => res matches Err(e) && e@ == msg,
            Ok((n, sd)) => res matches Ok((a, b, m)) && a == n && b == sd && m == dice_modifier(input@),
        },
{
    let v = str_chars(input);
    let n = v.len();
    let start: usize = if n > 0 && v[0] == 'r' { 1 } else { 0 };
    assert(strip_roll_prefix(v@) =~= v@.subrange(start as int, n as int));
    let (end, modifier) = split_modifier(&v, start);
    let (num, sides) = parse_request(&v, start, end)?;
    Ok((num, sides, modifier as i32))
}

/// Whether a dice expression can be evaluated without overflow (see
/// `dice_expression_fits`).
pub fn dice_fits(input: &str) -> (r: bool)
    ensures
        r == dice_expression_fits(input@),
{
    let v = str_chars(input);
    let n = v.len();
    let start: usize = if n > 0 && v[0] == 'r' { 1 } else { 0 };
    assert(strip_roll_prefix(v@) =~= v@.subrange(start as int, n as int));
    let (end, modifier) = split_modifier(&v, start);
    if modifier > 0x7fff_ffff {
        return false;
    }
    match parse_request(&v, start, end) {
        Err(_) => true,
        Ok((num, sides)) => {
            assert(num as int * sides as int <= 255 * 255) by (nonlinear_arith)
                requires
                    num <= 255,
                    sides <= 255,
            ;
            let most: i64 = num as i64 * sides as i64;
            most + modifier <= 0x7fff_ffff
        },
    }
}

/// Rolls dice written as `NdS`, `NdS+M` or `NdS-M`, optionally after an `r`
/// (e.g. `r2d6+3`). Gives the single rolls and the total (the sum plus the
/// modifier, at least 0), or an error message when the expression is not a
/// valid request of 1 to 100 dice with at least one side.
pub fn roll_dice(input: &str) -> (res: Result<(Vec<u8>, u32), String>)
    requires
        dice_expression_fits(input@),
    ensures
        match dice_request(input@) {
            Err(msg) => res matches Err(e) && e@ == msg,
            Ok((n, sd)) => res matches Ok((rolls, total)) && {
                &&& rolls@.len() == n
                &&& forall|i: int| 0 <= i < rolls@.len() ==> 1 <= #[trigger] rolls@[i] <= sd
                &&& total == total_of(rolls@, dice_modifier(input@))
            },
        },
{
    let (num, sides, modifier) = parse_dice(input)?;
    let mut rolls: Vec<u8> = Vec::new();
    let mut k: u8 = 0;
    while k < num
        invariant
            k <= num <= 100,
            sides > 0,
            rolls@.len() == k,
            forall|i: int| 0 <= i < rolls@.len() ==> 1 <= #[trigger] rolls@[i] <= sides,
        decreases num - k,
    {
        let r = roll_from(random_byte(), sides);
        rolls.push(r);
        k = k + 1;
    }
    proof {
        lemma_roll_sum_bound(rolls@, sides);
        assert(rolls@.len() * sides == num * sides);
    }
    let total = dice_total(&rolls, modifier);
    Ok((rolls, total))
}

/// The message for a critical result: only for an expression that contains
/// `d20` and rolled a single die, showing 1 or 20.
pub open spec fn crit_text(input: Seq<char>, rolls: Seq<u8>) -> Option<Seq<char>> {
    if contains_text(input, "d20"@) && rolls.len() == 1 {
        if rolls[0] == 1 {
            Some("🎲💀 CRITICAL FAILURE! 💀🎲"@)
        } else if rolls[0] == 20 {
            Some("🎲⭐ CRITICAL SUCCESS! ⭐🎲"@)
        } else {
            None
        }
    } else {
        None
    }
}

/// The critical-result message for the rolls of an expression, if any.
pub fn critical_message(input: &str, rolls: &Vec<u8>) -> (res: Option<String>)
    ensures
        match crit_text(input@, rolls@) {
            Some(t) => res matches Some(m) && m@ == t,
            None => res is None,
        },
{
    let v = str_chars(input);
    let pat = str_chars("d20");
    if chars_contain(&v, &pat) && rolls.len() == 1 {
        if rolls[0] == 1 {
            Some(String::from_str("🎲💀 CRITICAL FAILURE! 💀🎲"))
        } else if rolls[0] == 20 {
            Some(String::from_str("🎲⭐ CRITICAL SUCCESS! ⭐🎲"))
        } else {
            None
        }
    } else {
        None
    }
}

/// Rolls as `roll_dice` does and adds the critical-result message for a
/// single d20.
pub fn roll_dice_with_crits(input: &str) -> (res: Result<(Vec<u8>, u32, Option<String>), String>)
    requires
        dice_expression_fits(input@),
    ensures
        match dice_request(input@) {
            Err(msg) => res matches Err(e) && e@ == msg,
            Ok((n, sd)) => res matches Ok((rolls, total, crit)) && {
                &&& rolls@.len() == n
                &&& forall|i: int| 0 <= i < rolls@.len() ==> 1 <= #[trigger] rolls@[i] <= sd
                &&& total == total_of(rolls@, dice_modifier(input@))
                &&& match crit_text(input@, rolls@) {
                    Some(t) => crit matches Some(m) && m@ == t,
                    None => crit is None,
                }
            },
        },
{
    let (rolls, total) = roll_dice(input)?;
    let crit_message = critical_message(input, &rolls);
    Ok((rolls, total, crit_message))
}


/// A die value padded to two places: a space before a single digit.
pub open spec fn padded_value(v: u8) -> Seq<char> {
    if v < 10 {
        seq![' '] + decimal(v as nat)
    } else {
        decimal(v as nat)
    }
}

/// The ASCII picture of a die with the given number of sides showing
/// `value`: pictures for d4, d6, d8, d10, d12 and d20, else `dS: V`.
pub open spec fn dice_art(sides: u8, value: u8) -> Seq<Seq<char>> {
    let p = padded_value(value);
    if sides == 4 {
        seq!["    /\\    "@, "   /  \\   "@, "  / "@ + p + " \\  "@, " /____\\  "@]
    } else if sides == 6 {
        seq!["┌─────┐"@, "│     │"@, "│  "@ + p + "  │"@, "│     │"@, "└─────┘"@]
    } else if sides == 8 {
        seq!["  /---\\  "@, " /     \\ "@, "|   "@ + p + "   |"@, " \\     / "@, "  \\---/  "@]
    } else if sides == 10 {
        seq!["   /^\\   "@, "  /   \\  "@, " | "@ + p + " | "@, "  \\___/  "@]
    } else if sides == 12 {
        seq!["  /‾‾‾\\  "@, " /     \\ "@, "|  "@ + p + "  |"@, " \\     / "@, "  \\___/  "@]
    } else if sides == 20 {
        seq!["   /‾‾‾\\   "@, "  /  ◊  \\  "@, " | "@ + p + " | "@, "  \\  ◊  /  "@, "   \\___/   "@]
    } else {
        seq!["d"@ + decimal(sides as nat) + ": "@ + decimal(value as nat)]
    }
}

fn padded_line(left: &str, value: u8, right: &str) -> (res: String)
    ensures
        res@ == left@ + padded_value(value) + right@,
{
    let mut s = String::from_str(left);
    if value < 10 {
        s.append(" ");
    }
    push_decimal(&mut s, value as u64);
    s.append(right);
    proof {
        reveal_strlit(" ");
    }
    assert(s@ =~= left@ + padded_value(value) + right@);
    s
}

/// The ASCII picture of a die showing `value` (see `dice_art`).
pub fn get_dice_ascii_art(sides: u8, value: u8) -> (res: Vec<String>)
    ensures
        res@.map_values(|l: String| l@) == dice_art(sides, value),
{
    let mut v: Vec<String> = Vec::new();
    if sides == 4 {
        v.push(String::from_str("    /\\    "));
        v.push(String::from_str("   /  \\   "));
        v.push(padded_line("  / ", value, " \\  "));
        v.push(String::from_str(" /____\\  "));
    } else if sides == 6 {
        v.push(String::from_str("┌─────┐"));
        v.push(String::from_str("│     │"));
        v.push(padded_line("│  ", value, "  │"));
        v.push(String::from_str("│     │"));
        v.push(String::from_str("└─────┘"));
    } else if sides == 8 {
        v.push(String::from_str("  /---\\  "));
        v.push(String::from_str(" /     \\ "));
        v.push(padded_line("|   ", value, "   |"));
        v.push(String::from_str(" \\     / "));
        v.push(String::from_str("  \\---/  "));
    } else if sides == 10 {
        v.push(String::from_str("   /^\\   "));
        v.push(String::from_str("  /   \\  "));
        v.push(padded_line(" | ", value, " | "));
        v.push(String::from_str("  \\___/  "));
    } else if sides == 12 {
        v.push(String::from_str("  /‾‾‾\\  "));
        v.push(String::from_str(" /     \\ "));
        v.push(padded_line("|  ", value, "  |"));
        v.push(String::from_str(" \\     / "));
        v.push(String::from_str("  \\___/  "));
    } else if sides == 20 {
        v.push(String::from_str("   /‾‾‾\\   "));
        v.push(String::from_str("  /  ◊  \\  "));
        v.push(padded_line(" | ", value, " | "));
        v.push(String::from_str("  \\  ◊  /  "));
        v.push(String::from_str("   \\___/   "));
    } else {
        let mut line = String::from_str("d");
        push_decimal(&mut line, sides as u64);
        line.append(": ");
        push_decimal(&mut line, value as u64);
        v.push(line);
    }
    assert(v@.map_values(|l: String| l@) =~= dice_art(sides, value));
    v
}

/// The colour code for a die value: black for a 1, gold for a natural 20 on
/// a d20, else by the share of the maximum: red up to 33%, yellow up to 66%,
/// green above (a maximum of 0 counts as green).
pub open spec fn dice_color(value: u8, max_value: u8) -> Seq<char> {
    if value == 1 {
        "\x1b[30m"@
    } else if value == max_value && max_value == 20 {
        "\x1b[33m"@
    } else if max_value == 0 {
        "\x1b[32m"@
    } else if 100 * value <= 33 * max_value {
        "\x1b[31m"@
    } else if 100 * value <= 66 * max_value {
        "\x1b[33m"@
    } else {
        "\x1b[32m"@
    }
}

/// The colour code for a die value (see `dice_color`). The shares are
/// compared exactly in integers: `value / max_value <= 0.33` holds exactly
/// when `100 * value <= 33 * max_value` for values of a byte.
pub fn get_dice_color_code(value: u8, max_value: u8) -> (res: &'static str)
    ensures
        res@ == dice_color(value, max_value),
{
    if value == 1 {
        "\x1b[30m"
    } else if value == max_value && max_value == 20 {
        "\x1b[33m"
    } else if max_value == 0 {
        "\x1b[32m"
    } else if 100 * (value as u32) <= 33 * (max_value as u32) {
        "\x1b[31m"
    } else if 100 * (value as u32) <= 66 * (max_value as u32) {
        "\x1b[33m"
    } else {
        "\x1b[32m"
    }
}

/// The code that resets the terminal colour.
pub fn reset_color() -> (res: &'static str)
    ensures
        res@ == "\x1b[0m"@,
{
    "\x1b[0m"
}

/// The digits at the start of `s`.
pub open spec fn leading_digits(s: Seq<char>) -> Seq<char> {
    if exists|k: int| 0 <= k < s.len() && !is_digit(s[k]) && forall|j: int| 0 <= j < k ==> is_digit(#[trigger] s[j]) {
        s.subrange(0, choose|k: int| 0 <= k < s.len() && !is_digit(s[k]) && forall|j: int| 0 <= j < k ==> is_digit(#[trigger] s[j]))
    } else {
        s
    }
}

/// The number of sides a dice command shows pictures for: the digits right
/// after the first `d`, read as a byte; 6 when there is no `d` or they do not
/// read.
pub open spec fn shown_sides(input: Seq<char>) -> u8 {
    match first_index(input, 'd') {
        Some(p) => match parse_u8_spec(leading_digits(input.subrange(p + 1, input.len() as int))) {
            Some(v) => v,
            None => 6,
        },
        None => 6,
    }
}

/// The number of sides to picture for a dice command (see `shown_sides`).
pub fn dice_sides_of(input: &str) -> (res: u8)
    ensures
        res == shown_sides(input@),
{
    let v = str_chars(input);
    let n = v.len();
    match find_char(&v, 0, n, 'd') {
        Some(p) => {
            assert(v@.subrange(0, n as int) =~= v@);
            let lo = p + 1;
            let ghost after = v@.subrange(lo as int, n as int);
            let mut hi = lo;
            while hi < n && '0' <= v[hi] && v[hi] <= '9'
                invariant
                    lo <= hi <= n == v@.len(),
                    after == v@.subrange(lo as int, n as int),
                    forall|j: int| 0 <= j < hi - lo ==> is_digit(#[trigger] after[j]),
                decreases n - hi,
            {
                hi = hi + 1;
            }
            proof {
                if hi < n {
                    let k = hi - lo;
                    assert(!is_digit(after[k as int]));
                    let w = choose|w: int| 0 <= w < after.len() && !is_digit(after[w]) && forall|j: int| 0 <= j < w ==> is_digit(#[trigger] after[j]);
                    assert(w == k) by {
                        if w < k {
                            assert(is_digit(after[w]));
                        } else if w > k {
                            assert(is_digit(after[k as int]));
                        }
                    }
                    assert(leading_digits(after) =~= v@.subrange(lo as int, hi as int));
                } else {
                    assert(leading_digits(after) =~= v@.subrange(lo as int, hi as int));
                }
            }
            match parse_unsigned_range(&v, lo, hi, 255) {
                Some(x) => x as u8,
                None => 6,
            }
        },
        None => {
            assert(v@.subrange(0, n as int) =~= v@);
            6
        },
    }
}


/// The expression `1d20` asks for one twenty-sided die with no modifier, can
/// be rolled without overflow, and counts for critical results.
pub proof fn lemma_d20()
    ensures
        dice_modifier("1d20"@) == 0,
        dice_text("1d20"@) == "1d20"@,
        dice_request("1d20"@) == Ok::<(u8, u8), Seq<char>>((1u8, 20u8)),
        dice_expression_fits("1d20"@),
        contains_text("1d20"@, "d20"@),
{
    reveal_strlit("1d20");
    reveal_strlit("d20");
    let s = "1d20"@;
    assert(s.len() == 4 && s[0] == '1' && s[1] == 'd' && s[2] == '2' && s[3] == '0');
    assert(strip_roll_prefix(s) == s);
    assert(!exists|i: int| is_first_of(s, '+', i));
    assert(!exists|i: int| is_first_of(s, '-', i));
    assert(dice_text(s) == s);
    assert(dice_modifier(s) == 0);
    assert(is_first_of(s, 'd', 1));
    assert(first_index(s, 'd') == Some(1int)) by {
        let w = choose|w: int| is_first_of(s, 'd', w);
        assert(w == 1) by {
            if w < 1 {
                assert(s[w] == '1');
            } else if w > 1 {
                assert(s[1] != 'd');
            }
        }
    }
    let num = s.subrange(0, 1);
    let rest = s.subrange(2, 4);
    assert(rest.len() == 2 && rest[0] == '2' && rest[1] == '0');
    assert(!exists|i: int| is_first_of(rest, 'd', i));
    assert(num.len() == 1 && num[0] == '1');
    assert(num.drop_last() =~= Seq::<char>::empty());
    assert(digits_value(num.drop_last()) == 0);
    assert(digits_value(num) == 1);
    assert(all_digits(num));
    assert(parse_unsigned(num, 255) == Some(1nat));
    assert(rest.drop_last().drop_last() =~= Seq::<char>::empty());
    assert(digits_value(rest.drop_last().drop_last()) == 0);
    assert(digits_value(rest.drop_last()) == 2);
    assert(digits_value(rest) == 20);
    assert(all_digits(rest));
    assert(parse_unsigned(rest, 255) == Some(20nat));
    assert(parse_u8_spec(num) == Some(1u8));
    assert(parse_u8_spec(rest) == Some(20u8));
    assert(s.subrange(1, 4) =~= "d20"@);
    assert(s.subrange(1int, 1int + "d20"@.len()) == "d20"@);
    assert(dice_request(s) == Ok::<(u8, u8), Seq<char>>((1u8, 20u8)));
    assert(1u8 * 20u8 + dice_modifier(s) <= i32::MAX);
}

} // verus!
