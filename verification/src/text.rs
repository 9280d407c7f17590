//! Numbers and times as text, the way logs show them.

use vstd::prelude::*;
use vstd::string::*;

verus! {

/// The character for a digit.
pub open spec fn digit(d: nat) -> char {
    (48 + d) as char
}

/// A number in decimal notation.
pub open spec fn decimal(n: nat) -> Seq<char>
    decreases n,
{
    if n < 10 {
        seq![digit(n)]
    } else {
        decimal(n / 10).push(digit(n % 10))
    }
}

/// A number below 100 in two digits.
pub open spec fn two_digits(n: nat) -> Seq<char> {
    seq![digit(n / 10), digit(n % 10)]
}

/// A number below 1000 in three digits.
pub open spec fn three_digits(n: nat) -> Seq<char> {
    seq![digit(n / 100), digit(n / 10 % 10), digit(n % 10)]
}

/// The low `width` bits of a number in binary notation.
pub open spec fn binary(n: nat, width: nat) -> Seq<char>
    decreases width,
{
    if width == 0 {
        Seq::empty()
    } else {
        binary(n / 2, (width - 1) as nat).push(digit(n % 2))
    }
}

/// A time since the start as hours of the day, minutes, seconds and
/// milliseconds.
pub open spec fn clock(ms: u64) -> Seq<char> {
    let seconds = ms as nat / 1_000;
    two_digits(seconds / 3_600 % 24) + ":"@ + two_digits(seconds / 60 % 60) + ":"@ + two_digits(
        seconds % 60,
    ) + "."@ + three_digits(ms as nat % 1_000)
}

/// When something was last seen.
pub open spec fn last_seen(seen_ms: Option<u64>) -> Seq<char> {
    match seen_ms {
        Some(ms) => clock(ms),
        None => "never"@,
    }
}

/// A sequence number, if there is one.
pub open spec fn optional_seq(seq: Option<u16>) -> Seq<char> {
    match seq {
        Some(seq) => decimal(seq as nat),
        None => "-"@,
    }
}

/// Hundredths as a number with two decimals.
pub open spec fn hundredths(n: nat) -> Seq<char> {
    decimal(n / 100) + "."@ + two_digits(n % 100)
}

/// The size of a number, without its sign.
pub open spec fn magnitude(n: int) -> nat {
    if n < 0 {
        (-n) as nat
    } else {
        n as nat
    }
}

/// A number in decimal notation, with its sign if it is negative.
pub open spec fn signed(n: int) -> Seq<char> {
    (if n < 0 {
        "-"@
    } else {
        ""@
    }) + decimal(magnitude(n))
}

/// A temperature in degrees Celsius.
pub open spec fn celsius(centi_c: i16) -> Seq<char> {
    (if centi_c < 0 {
        "-"@
    } else {
        ""@
    }) + hundredths(magnitude(centi_c as int)) + " C"@
}

/// A relative humidity.
pub open spec fn percent(centi_percent: u16) -> Seq<char> {
    hundredths(centi_percent as nat) + " %"@
}

/// The whole part of a number of hundredths, rounded toward zero.
pub open spec fn whole_part(n: int) -> int {
    if n < 0 {
        -(magnitude(n) / 100)
    } else {
        n / 100
    }
}

/// A temperature and a relative humidity. The sign stands with the whole degrees,
/// so a temperature between -1 and 0 degrees shows without it.
pub open spec fn reading(centi_c: i16, centi_percent: u16) -> Seq<char> {
    "temp="@ + signed(whole_part(centi_c as int)) + "."@ + two_digits(
        magnitude(centi_c as int) % 100,
    ) + "C humidity="@ + hundredths(centi_percent as nat) + "%"@
}

/// The identifier of a node, if there is one.
pub open spec fn optional_id(id: Option<u8>) -> Seq<char> {
    match id {
        Some(id) => "Some("@ + decimal(id as nat) + ")"@,
        None => "None"@,
    }
}

/// A truth value.
pub open spec fn truth(value: bool) -> Seq<char> {
    if value {
        "true"@
    } else {
        "false"@
    }
}

/// A line of text.
pub open spec fn line(text: Seq<char>) -> Seq<char> {
    text + "\n"@
}

/// The text of a digit.
fn digit_text(d: u64) -> (text: &'static str)
    requires
        d < 10,
    ensures
        text@ == seq![digit(d as nat)],
{
    proof {
        reveal_strlit("0");
        reveal_strlit("1");
        reveal_strlit("2");
        reveal_strlit("3");
        reveal_strlit("4");
        reveal_strlit("5");
        reveal_strlit("6");
        reveal_strlit("7");
        reveal_strlit("8");
        reveal_strlit("9");
    }
    let text = match d {
        0 => "0",
        1 => "1",
        2 => "2",
        3 => "3",
        4 => "4",
        5 => "5",
        6 => "6",
        7 => "7",
        8 => "8",
        _ => "9",
    };
    assert(text@ =~= seq![digit(d as nat)]);
    text
}

/// A number in decimal notation.
pub fn decimal_text(n: u64) -> (text: String)
    ensures
        text@ == decimal(n as nat),
    decreases n,
{
    if n < 10 {
        String::from_str(digit_text(n))
    } else {
        let text = decimal_text(n / 10).concat(digit_text(n % 10));
        assert(text@ =~= decimal(n as nat));
        text
    }
}

/// A number below 100 in two digits.
pub fn two_digits_text(n: u64) -> (text: String)
    requires
        n < 100,
    ensures
        text@ == two_digits(n as nat),
{
    let text = String::from_str(digit_text(n / 10)).concat(digit_text(n % 10));
    assert(text@ =~= two_digits(n as nat));
    text
}

/// A number below 1000 in three digits.
pub fn three_digits_text(n: u64) -> (text: String)
    requires
        n < 1_000,
    ensures
        text@ == three_digits(n as nat),
{
    let text = String::from_str(digit_text(n / 100)).concat(digit_text(n / 10 % 10)).concat(
        digit_text(n % 10),
    );
    assert(text@ =~= three_digits(n as nat));
    text
}

/// The low `width` bits of a number in binary notation.
pub fn binary_text(n: u64, width: u8) -> (text: String)
    ensures
        text@ == binary(n as nat, width as nat),
    decreases width,
{
    if width == 0 {
        String::new()
    } else {
        let text = binary_text(n / 2, width - 1).concat(digit_text(n % 2));
        assert(text@ =~= binary(n as nat, width as nat));
        text
    }
}

/// A time since the start as hours of the day, minutes, seconds and
/// milliseconds.
pub fn clock_text(ms: u64) -> (text: String)
    ensures
        text@ == clock(ms),
{
    let seconds: u64 = ms / 1_000;
    two_digits_text(seconds / 3_600 % 24).concat(":").concat(
        two_digits_text(seconds / 60 % 60).as_str(),
    ).concat(":").concat(two_digits_text(seconds % 60).as_str()).concat(".").concat(
        three_digits_text(ms % 1_000).as_str(),
    )
}

/// When something was last seen.
pub fn last_seen_text(seen_ms: Option<u64>) -> (text: String)
    ensures
        text@ == last_seen(seen_ms),
{
    match seen_ms {
        Some(ms) => clock_text(ms),
        None => String::from_str("never"),
    }
}

/// A sequence number, if there is one.
pub fn optional_seq_text(seq: Option<u16>) -> (text: String)
    ensures
        text@ == optional_seq(seq),
{
    match seq {
        Some(seq) => decimal_text(seq as u64),
        None => String::from_str("-"),
    }
}

/// Hundredths as a number with two decimals.
pub fn hundredths_text(n: u64) -> (text: String)
    ensures
        text@ == hundredths(n as nat),
{
    decimal_text(n / 100).concat(".").concat(two_digits_text(n % 100).as_str())
}

/// A number in decimal notation, with its sign if it is negative.
pub fn signed_text(n: i64) -> (text: String)
    ensures
        text@ == signed(n as int),
{
    let sign = if n < 0 {
        "-"
    } else {
        ""
    };
    let size: u64 = if n < 0 {
        (-(n + 1)) as u64 + 1
    } else {
        n as u64
    };
    String::from_str(sign).concat(decimal_text(size).as_str())
}

/// A temperature in degrees Celsius.
pub fn celsius_text(centi_c: i16) -> (text: String)
    ensures
        text@ == celsius(centi_c),
{
    let sign = if centi_c < 0 {
        "-"
    } else {
        ""
    };
    let size: u64 = if centi_c < 0 {
        (-(centi_c as i64)) as u64
    } else {
        centi_c as u64
    };
    String::from_str(sign).concat(hundredths_text(size).as_str()).concat(" C")
}

/// A relative humidity.
pub fn percent_text(centi_percent: u16) -> (text: String)
    ensures
        text@ == percent(centi_percent),
{
    hundredths_text(centi_percent as u64).concat(" %")
}

/// A temperature and a relative humidity.
pub fn reading_text(centi_c: i16, centi_percent: u16) -> (text: String)
    ensures
        text@ == reading(centi_c, centi_percent),
{
    let size: u64 = if centi_c < 0 {
        (-(centi_c as i64)) as u64
    } else {
        centi_c as u64
    };
    let whole: i64 = if centi_c < 0 {
        -((size / 100) as i64)
    } else {
        (size / 100) as i64
    };
    String::from_str("temp=").concat(signed_text(whole).as_str()).concat(".").concat(
        two_digits_text(size % 100).as_str(),
    ).concat("C humidity=").concat(hundredths_text(centi_percent as u64).as_str()).concat("%")
}

/// The identifier of a node, if there is one.
pub fn optional_id_text(id: Option<u8>) -> (text: String)
    ensures
        text@ == optional_id(id),
{
    match id {
        Some(id) => String::from_str("Some(").concat(decimal_text(id as u64).as_str()).concat(")"),
        None => String::from_str("None"),
    }
}

/// A truth value.
pub fn truth_text(value: bool) -> (text: &'static str)
    ensures
        text@ == truth(value),
{
    if value {
        "true"
    } else {
        "false"
    }
}

/// A line of text.
pub fn line_text(text: &str) -> (out: String)
    ensures
        out@ == line(text@),
{
    String::from_str(text).concat("\n")
}

/// The number that decimal digits stand for.
pub open spec fn number(digits: Seq<char>) -> int
    decreases digits.len(),
{
    if digits.len() == 0 {
        0
    } else {
        10 * number(digits.drop_last()) + (digits.last() as int - 48)
    }
}

/// The number that binary digits stand for.
pub open spec fn binary_number(digits: Seq<char>) -> int
    decreases digits.len(),
{
    if digits.len() == 0 {
        0
    } else {
        2 * binary_number(digits.drop_last()) + (digits.last() as int - 48)
    }
}

/// There is nothing in a text but decimal digits.
pub open spec fn is_numeral(text: Seq<char>) -> bool {
    forall|i: int| 0 <= i < text.len() ==> '0' <= #[trigger] text[i] <= '9'
}

/// A number in decimal notation is read back from its digits, and does not begin
/// with a zero unless it is zero.
pub proof fn law_decimal_reads_back(n: nat)
    ensures
        is_numeral(decimal(n)),
        number(decimal(n)) == n,
        decimal(n).len() > 0,
        decimal(n)[0] == '0' ==> n == 0 && decimal(n).len() == 1,
    decreases n,
{
    if n < 10 {
        assert(decimal(n).drop_last() =~= Seq::<char>::empty());
        reveal_with_fuel(number, 2);
    } else {
        law_decimal_reads_back(n / 10);
        assert(decimal(n).drop_last() =~= decimal(n / 10));
    }
}

/// Numbers in two and in three digits are read back from them.
pub proof fn law_fixed_digits_read_back(n: nat)
    ensures
        n < 100 ==> two_digits(n).len() == 2 && is_numeral(two_digits(n)) && number(two_digits(n))
            == n,
        n < 1_000 ==> three_digits(n).len() == 3 && is_numeral(three_digits(n)) && number(
            three_digits(n),
        ) == n,
{
    reveal_with_fuel(number, 4);
    let two = two_digits(n);
    assert(two.drop_last() =~= seq![digit(n / 10)]);
    assert(two.drop_last().drop_last() =~= Seq::<char>::empty());
    let three = three_digits(n);
    assert(three.drop_last() =~= seq![digit(n / 100), digit(n / 10 % 10)]);
    assert(three.drop_last().drop_last() =~= seq![digit(n / 100)]);
    assert(three.drop_last().drop_last().drop_last() =~= Seq::<char>::empty());
    if n < 1_000 {
        assert(10 * (10 * (n / 100) + n / 10 % 10) + n % 10 == n);
    }
}

/// A number in binary notation has the width that was asked for and is read back
/// from its digits, as far as they reach.
pub proof fn law_binary_reads_back(n: nat, width: nat)
    ensures
        binary(n, width).len() == width,
        forall|i: int|
            0 <= i < width ==> #[trigger] binary(n, width)[i] == '0' || binary(n, width)[i] == '1',
        binary_number(binary(n, width)) == n as int % vstd::arithmetic::power2::pow2(width) as int,
    decreases width,
{
    vstd::arithmetic::power2::lemma_pow2_pos(width);
    if width == 0 {
        vstd::arithmetic::power2::lemma2_to64();
    } else {
        let shorter = (width - 1) as nat;
        law_binary_reads_back(n / 2, shorter);
        assert(binary(n, width).drop_last() =~= binary(n / 2, shorter));
        vstd::arithmetic::power2::lemma_pow2_unfold(width);
        vstd::arithmetic::power2::lemma_pow2_pos(shorter);
        let p = vstd::arithmetic::power2::pow2(shorter) as int;
        vstd::arithmetic::div_mod::lemma_breakdown(n as int, 2, p);
    }
}

/// The parts of a time of the day make up the time of the day.
proof fn lemma_time_of_day(ms: nat)
    ensures
        ms % 86_400_000 == ((ms / 1_000 / 3_600 % 24 * 60 + ms / 1_000 / 60 % 60) * 60 + ms / 1_000
            % 60) * 1_000 + ms % 1_000,
{
    let all = ms / 1_000;
    let minutes = all / 60;
    assert(ms % 86_400_000 == (all % 86_400) * 1_000 + ms % 1_000);
    assert(all % 86_400 == (minutes % 1_440) * 60 + all % 60);
    assert(all / 3_600 == minutes / 60);
    assert(minutes % 1_440 == (minutes / 60 % 24) * 60 + minutes % 60);
}

/// Where the parts of a time stand in its text.
proof fn lemma_clock_layout(
    hours: Seq<char>,
    minutes: Seq<char>,
    seconds: Seq<char>,
    millis: Seq<char>,
)
    requires
        hours.len() == 2,
        minutes.len() == 2,
        seconds.len() == 2,
        millis.len() == 3,
    ensures
        ({
            let text = hours + ":"@ + minutes + ":"@ + seconds + "."@ + millis;
            &&& text.len() == 12
            &&& text[2] == ':' && text[5] == ':' && text[8] == '.'
            &&& text.subrange(0, 2) == hours
            &&& text.subrange(3, 5) == minutes
            &&& text.subrange(6, 8) == seconds
            &&& text.subrange(9, 12) == millis
        }),
{
    reveal_strlit(":");
    reveal_strlit(".");
    let text = hours + ":"@ + minutes + ":"@ + seconds + "."@ + millis;
    assert(text.subrange(0, 2) =~= hours);
    assert(text.subrange(3, 5) =~= minutes);
    assert(text.subrange(6, 8) =~= seconds);
    assert(text.subrange(9, 12) =~= millis);
}

/// A time as text has hours, minutes, seconds and milliseconds in fixed places, from
/// which the time of the day is read back.
pub proof fn law_clock_reads_back(ms: u64)
    ensures
        ({
            let text = clock(ms);
            let hours = number(text.subrange(0, 2));
            let minutes = number(text.subrange(3, 5));
            let seconds = number(text.subrange(6, 8));
            let millis = number(text.subrange(9, 12));
            &&& text.len() == 12
            &&& text[2] == ':' && text[5] == ':' && text[8] == '.'
            &&& 0 <= hours < 24 && 0 <= minutes < 60 && 0 <= seconds < 60 && 0 <= millis < 1_000
            &&& ms as int % 86_400_000 == ((hours * 60 + minutes) * 60 + seconds) * 1_000 + millis
        }),
{
    let all = ms as nat / 1_000;
    let hours = all / 3_600 % 24;
    let minutes = all / 60 % 60;
    let seconds = all % 60;
    let millis = ms as nat % 1_000;
    law_fixed_digits_read_back(hours);
    law_fixed_digits_read_back(minutes);
    law_fixed_digits_read_back(seconds);
    law_fixed_digits_read_back(millis);
    lemma_time_of_day(ms as nat);
    lemma_clock_layout(
        two_digits(hours),
        two_digits(minutes),
        two_digits(seconds),
        three_digits(millis),
    );
}

/// Hundredths as text are a number, a point and two digits, from which they are read
/// back.
pub proof fn law_hundredths_read_back(n: nat)
    ensures
        ({
            let text = hundredths(n);
            let point = text.len() - 3;
            &&& point > 0
            &&& text[point] == '.'
            &&& is_numeral(text.subrange(0, point))
            &&& n == 100 * number(text.subrange(0, point)) + number(
                text.subrange(point + 1, point + 3),
            )
        }),
{
    reveal_strlit(".");
    law_decimal_reads_back(n / 100);
    law_fixed_digits_read_back(n % 100);
    let text = hundredths(n);
    let point = text.len() - 3;
    assert(text.subrange(0, point) =~= decimal(n / 100));
    assert(text.subrange(point + 1, point + 3) =~= two_digits(n % 100));
}

/// A signed number as text has a minus sign in front exactly if it is negative, and
/// then its size.
pub proof fn law_signed_reads_back(n: int)
    ensures
        n < 0 ==> signed(n).len() > 1 && signed(n)[0] == '-' && number(signed(n).skip(1)) == -n,
        n >= 0 ==> is_numeral(signed(n)) && number(signed(n)) == n,
{
    reveal_strlit("-");
    reveal_strlit("");
    law_decimal_reads_back(magnitude(n));
    if n < 0 {
        assert(signed(n).skip(1) =~= decimal(magnitude(n)));
    } else {
        assert(signed(n) =~= decimal(magnitude(n)));
    }
}

/// A temperature as text is its sign if it is negative, its hundredths and the unit,
/// and a humidity its hundredths and the unit.
pub proof fn law_units_follow_values(centi_c: i16, centi_percent: u16)
    ensures
        centi_c < 0 ==> celsius(centi_c) == "-"@ + hundredths((-centi_c) as nat) + " C"@,
        centi_c >= 0 ==> celsius(centi_c) == hundredths(centi_c as nat) + " C"@,
        percent(centi_percent) == hundredths(centi_percent as nat) + " %"@,
{
    reveal_strlit("");
    assert(""@ + hundredths(magnitude(centi_c as int)) =~= hundredths(magnitude(centi_c as int)));
}

/// A temperature and a humidity in one: the degrees, cut toward zero, and the
/// hundredths of both values.
pub proof fn law_reading_shows_both_values(centi_c: i16, centi_percent: u16)
    ensures
        centi_c >= 0 ==> reading(centi_c, centi_percent) == "temp="@ + decimal(
            (centi_c / 100) as nat,
        ) + "."@ + two_digits((centi_c % 100) as nat) + "C humidity="@ + decimal(
            (centi_percent / 100) as nat,
        ) + "."@ + two_digits((centi_percent % 100) as nat) + "%"@,
        centi_c <= -100 ==> reading(centi_c, centi_percent) == "temp="@ + "-"@ + decimal(
            ((-centi_c) as int / 100) as nat,
        ) + "."@ + two_digits(((-centi_c) as int % 100) as nat) + "C humidity="@ + decimal(
            (centi_percent / 100) as nat,
        ) + "."@ + two_digits((centi_percent % 100) as nat) + "%"@,
        -100 < centi_c < 0 ==> reading(centi_c, centi_percent) == reading(
            (-centi_c) as i16,
            centi_percent,
        ),
{
    reveal_strlit("");
    let whole = decimal(magnitude(whole_part(centi_c as int)));
    assert(""@ + whole =~= whole);
    assert(reading(centi_c, centi_percent) =~= "temp="@ + signed(whole_part(centi_c as int))
        + "."@ + two_digits(magnitude(centi_c as int) % 100) + "C humidity="@ + decimal(
        centi_percent as nat / 100,
    ) + "."@ + two_digits(centi_percent as nat % 100) + "%"@);
    if centi_c <= -100 {
        assert("temp="@ + ("-"@ + whole) =~= "temp="@ + "-"@ + whole);
    }
}

} // verus!
