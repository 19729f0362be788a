//! Shading of hexadecimal colours.
//!
//! A colour is written as `#rrggbb`. Shading reads it as a number, moves each
//! of the three channels by the same amount, holds each to `0..=255` and writes
//! the result back in lower case. Text that is no hexadecimal number reads as
//! black, so that a malformed colour never stops a drawing.

use vstd::prelude::*;

verus! {

/// The digits in which a colour is written out.
pub open spec fn hex_digits() -> Seq<char> {
    "0123456789abcdef"@
}

/// Whether `c` is a hexadecimal digit, in either case.
pub open spec fn is_hex_digit(c: char) -> bool {
    ||| '0' <= c <= '9'
    ||| 'a' <= c <= 'f'
    ||| 'A' <= c <= 'F'
}

/// The value of a hexadecimal digit.
pub open spec fn digit_value(c: char) -> int {
    if '0' <= c <= '9' {
        c as int - '0' as int
    } else if 'a' <= c <= 'f' {
        c as int - 'a' as int + 10
    } else {
        c as int - 'A' as int + 10
    }
}

/// Whether `text` holds hexadecimal digits only.
pub open spec fn all_hex_digits(text: Seq<char>) -> bool {
    forall|i: int| 0 <= i < text.len() ==> is_hex_digit(#[trigger] text[i])
}

/// The number that a run of hexadecimal digits writes, the first digit
/// counting most.
pub open spec fn hex_number(digits: Seq<char>) -> int
    decreases digits.len(),
{
    if digits.len() == 0 {
        0
    } else {
        16 * hex_number(digits.drop_last()) + digit_value(digits.last())
    }
}

/// `text` without the one `+` that may stand in front of a number. A `+`
/// alone is no sign.
pub open spec fn without_sign(text: Seq<char>) -> Seq<char> {
    if text.len() > 1 && text[0] == '+' {
        text.drop_first()
    } else {
        text
    }
}

/// What `text` says as an unsigned 32-bit hexadecimal number: one or more
/// hexadecimal digits, with one `+` in front of them allowed, whose number fits
/// in 32 bits. Anything else is no number.
pub open spec fn spec_parse_hex(text: Seq<char>) -> Option<u32> {
    let digits = without_sign(text);
    if digits.len() > 0 && all_hex_digits(digits) && hex_number(digits) <= u32::MAX {
        Some(hex_number(digits) as u32)
    } else {
        None
    }
}

/// `text` without the `#` signs at its start.
pub open spec fn strip_hashes(text: Seq<char>) -> Seq<char>
    decreases text.len(),
{
    if text.len() > 0 && text[0] == '#' {
        strip_hashes(text.drop_first())
    } else {
        text
    }
}

/// The number that a colour stands for: what follows its `#` signs, read as
/// hexadecimal, and zero where that is no number.
pub open spec fn color_number(hex: Seq<char>) -> int {
    match spec_parse_hex(strip_hashes(hex)) {
        Some(number) => number as int,
        None => 0,
    }
}

/// The red channel of a colour number: its third byte from the low end.
pub open spec fn red(number: int) -> int {
    (number / 0x10000) % 0x100
}

/// The green channel of a colour number: its second byte from the low end.
pub open spec fn green(number: int) -> int {
    (number / 0x100) % 0x100
}

/// The blue channel of a colour number: its lowest byte.
pub open spec fn blue(number: int) -> int {
    number % 0x100
}

/// A channel moved by `delta` and held to `0..=255`.
pub open spec fn shade(channel: int, delta: int) -> int {
    if channel + delta < 0 {
        0
    } else if channel + delta > 255 {
        255
    } else {
        channel + delta
    }
}

/// A channel written as two digits.
pub open spec fn channel_text(channel: int) -> Seq<char> {
    seq![hex_digits()[channel / 16], hex_digits()[channel % 16]]
}

/// Three channels written as a colour.
pub open spec fn color_text(r: int, g: int, b: int) -> Seq<char> {
    seq!['#'] + channel_text(r) + channel_text(g) + channel_text(b)
}

/// The colour `hex` with every channel moved by `percent`.
pub open spec fn spec_adjust_brightness(hex: Seq<char>, percent: int) -> Seq<char> {
    let number = color_number(hex);
    color_text(
        shade(red(number), percent),
        shade(green(number), percent),
        shade(blue(number), percent),
    )
}

/// The value of `c` as a hexadecimal digit, if it is one.
fn hex_digit(c: char) -> (value: Option<u64>)
    ensures
        value is Some <==> is_hex_digit(c),
        value matches Some(v) ==> v == digit_value(c),
{
    if '0' <= c && c <= '9' {
        Some((c as u64) - ('0' as u64))
    } else if 'a' <= c && c <= 'f' {
        Some((c as u64) - ('a' as u64) + 10)
    } else if 'A' <= c && c <= 'F' {
        Some((c as u64) - ('A' as u64) + 10)
    } else {
        None
    }
}

/// Reads `text` as an unsigned 32-bit hexadecimal number.
pub fn parse_hex(text: &str) -> (number: Option<u32>)
    ensures
        number == spec_parse_hex(text@),
{
    let len = text.unicode_len();
    let start: usize = if len > 1 && text.get_char(0) == '+' {
        1
    } else {
        0
    };
    if start == len {
        return None;
    }
    let ghost digits = without_sign(text@);
    assert(digits =~= text@.subrange(start as int, len as int));
    let limit: u64 = 0x1_0000_0000;
    let mut value: u64 = 0;
    let mut at: usize = start;
    while at < len
        invariant
            start <= at <= len,
            len == text@.len(),
            digits == without_sign(text@),
            digits == text@.subrange(start as int, len as int),
            limit == 0x1_0000_0000,
            forall|i: int| 0 <= i < at - start ==> is_hex_digit(#[trigger] digits[i]),
            value == if hex_number(digits.take(at - start)) < limit {
                hex_number(digits.take(at - start))
            } else {
                limit as int
            },
        decreases len - at,
    {
        let c = text.get_char(at);
        assert(c == digits[at - start]);
        match hex_digit(c) {
            None => {
                assert(!is_hex_digit(digits[at - start]));
                return None;
            },
            Some(v) => {
                proof {
                    let longer = digits.take(at - start + 1);
                    assert(longer.drop_last() =~= digits.take(at - start));
                    assert(longer.last() == c);
                }
                value = 16 * value + v;
                if value > limit {
                    value = limit;
                }
            },
        }
        at = at + 1;
    }
    assert(digits.take(len - start) =~= digits);
    if value < limit {
        Some(value as u32)
    } else {
        None
    }
}

/// How many `#` signs stand at the start of `text`.
fn leading_hashes(text: &str) -> (count: usize)
    ensures
        count <= text@.len(),
        strip_hashes(text@) == text@.subrange(count as int, text@.len() as int),
{
    let len = text.unicode_len();
    let mut count: usize = 0;
    assert(text@.subrange(0, len as int) =~= text@);
    while count < len && text.get_char(count) == '#'
        invariant
            count <= len,
            len == text@.len(),
            strip_hashes(text@) == strip_hashes(text@.subrange(count as int, len as int)),
        decreases len - count,
    {
        assert(text@.subrange(count as int, len as int).drop_first() =~= text@.subrange(
            count + 1,
            len as int,
        ));
        count = count + 1;
    }
    count
}

/// A channel moved by `delta` and held to `0..=255`.
fn shade_channel(channel: u32, delta: i32) -> (shaded: usize)
    requires
        channel <= 255,
    ensures
        shaded == shade(channel as int, delta as int),
{
    let moved: i64 = channel as i64 + delta as i64;
    if moved < 0 {
        0
    } else if moved > 255 {
        255
    } else {
        moved as usize
    }
}

/// Writes a channel at the end of `out`, as two digits.
fn push_channel(out: &mut String, channel: usize)
    requires
        channel <= 255,
    ensures
        final(out)@ == old(out)@ + channel_text(channel as int),
{
    let table = "0123456789abcdef";
    proof {
        reveal_strlit("0123456789abcdef");
    }
    let high = channel / 16;
    let low = channel % 16;
    out.append(table.substring_char(high, high + 1));
    out.append(table.substring_char(low, low + 1));
    assert(out@ =~= old(out)@ + channel_text(channel as int));
}

/// Shades a colour: each of its three channels is moved by `percent` and held
/// to `0..=255`.
///
/// The colour is read as a hexadecimal number after any `#` signs at its
/// start; its three low bytes are red, green and blue, and what stands above
/// them is dropped. A text that is no such number counts as black. Whatever
/// its name says, `percent` is an amount on the scale of a channel and is
/// added as it stands. The result is always `#` and six digits in lower case.
pub fn adjust_brightness(hex: &str, percent: i32) -> (shaded: String)
    ensures
        shaded@ == spec_adjust_brightness(hex@, percent as int),
{
    let skip = leading_hashes(hex);
    let number: u32 = match parse_hex(hex.substring_char(skip, hex.unicode_len())) {
        Some(number) => number,
        None => 0,
    };
    let r = shade_channel((number / 0x10000) % 0x100, percent);
    let g = shade_channel((number / 0x100) % 0x100, percent);
    let b = shade_channel(number % 0x100, percent);
    let mut shaded = String::new();
    proof {
        reveal_strlit("#");
    }
    shaded.append("#");
    push_channel(&mut shaded, r);
    push_channel(&mut shaded, g);
    push_channel(&mut shaded, b);
    assert(shaded@ =~= spec_adjust_brightness(hex@, percent as int));
    shaded
}

/// Each of the sixteen digits that colours are written in is a hexadecimal
/// digit, and its value is its place among them.
pub proof fn lemma_digit_reads_back(value: int)
    requires
        0 <= value < 16,
    ensures
        is_hex_digit(hex_digits()[value]),
        digit_value(hex_digits()[value]) == value,
        !('A' <= hex_digits()[value] <= 'F'),
{
    reveal_strlit("0123456789abcdef");
}

/// One more digit at the end multiplies the number by sixteen and adds the
/// digit.
proof fn lemma_hex_number_push(digits: Seq<char>, c: char)
    ensures
        hex_number(digits.push(c)) == 16 * hex_number(digits) + digit_value(c),
{
    assert(digits.push(c).drop_last() =~= digits);
}

/// The number that six digits write.
proof fn lemma_hex_number_of_six(c: Seq<char>)
    requires
        c.len() == 6,
    ensures
        hex_number(c) == 0x100000 * digit_value(c[0]) + 0x10000 * digit_value(c[1]) + 0x1000
            * digit_value(c[2]) + 0x100 * digit_value(c[3]) + 0x10 * digit_value(c[4])
            + digit_value(c[5]),
{
    let d0 = Seq::<char>::empty();
    let d1 = d0.push(c[0]);
    let d2 = d1.push(c[1]);
    let d3 = d2.push(c[2]);
    let d4 = d3.push(c[3]);
    let d5 = d4.push(c[4]);
    lemma_hex_number_push(d0, c[0]);
    lemma_hex_number_push(d1, c[1]);
    lemma_hex_number_push(d2, c[2]);
    lemma_hex_number_push(d3, c[3]);
    lemma_hex_number_push(d4, c[4]);
    lemma_hex_number_push(d5, c[5]);
    assert(d5.push(c[5]) =~= c);
}

/// A run of hexadecimal digits writes no negative number.
proof fn lemma_hex_number_nonnegative(digits: Seq<char>)
    requires
        all_hex_digits(digits),
    ensures
        hex_number(digits) >= 0,
    decreases digits.len(),
{
    if digits.len() > 0 {
        let front = digits.drop_last();
        assert(all_hex_digits(front)) by {
            assert forall|i: int| 0 <= i < front.len() implies is_hex_digit(#[trigger] front[i]) by {
                assert(front[i] == digits[i]);
            }
        }
        lemma_hex_number_nonnegative(front);
        assert(is_hex_digit(digits[digits.len() - 1]));
    }
}

/// A text of `#` and six hexadecimal digits reads as the number that the six
/// digits write.
proof fn lemma_color_number_of_seven(text: Seq<char>)
    requires
        text.len() == 7,
        text[0] == '#',
        forall|i: int| 1 <= i < 7 ==> is_hex_digit(#[trigger] text[i]),
    ensures
        color_number(text) == hex_number(text.drop_first()),
{
    let digits = text.drop_first();
    assert(is_hex_digit(digits[0])) by {
        assert(digits[0] == text[1]);
    }
    assert(strip_hashes(text) == digits) by {
        reveal_with_fuel(strip_hashes, 2);
    }
    assert(without_sign(digits) == digits);
    assert(all_hex_digits(digits)) by {
        assert forall|i: int| 0 <= i < digits.len() implies is_hex_digit(#[trigger] digits[i]) by {
            assert(digits[i] == text[i + 1]);
        }
    }
    lemma_hex_number_nonnegative(digits);
    lemma_hex_number_of_six(digits);
}

/// The seven characters of a colour that was written out.
proof fn lemma_color_text_characters(r: int, g: int, b: int)
    ensures
        color_text(r, g, b).len() == 7,
        color_text(r, g, b)[0] == '#',
        color_text(r, g, b)[1] == hex_digits()[r / 16],
        color_text(r, g, b)[2] == hex_digits()[r % 16],
        color_text(r, g, b)[3] == hex_digits()[g / 16],
        color_text(r, g, b)[4] == hex_digits()[g % 16],
        color_text(r, g, b)[5] == hex_digits()[b / 16],
        color_text(r, g, b)[6] == hex_digits()[b % 16],
{
}

/// The number that a written colour reads as.
proof fn lemma_color_text_number(r: int, g: int, b: int)
    requires
        0 <= r <= 255,
        0 <= g <= 255,
        0 <= b <= 255,
    ensures
        color_number(color_text(r, g, b)) == r * 0x10000 + g * 0x100 + b,
{
    let text = color_text(r, g, b);
    let digits = text.drop_first();
    lemma_color_text_characters(r, g, b);
    lemma_digit_reads_back(r / 16);
    lemma_digit_reads_back(r % 16);
    lemma_digit_reads_back(g / 16);
    lemma_digit_reads_back(g % 16);
    lemma_digit_reads_back(b / 16);
    lemma_digit_reads_back(b % 16);
    lemma_color_number_of_seven(text);
    lemma_hex_number_of_six(digits);
}

/// Three bytes put together come apart again.
proof fn lemma_channels_of_number(r: int, g: int, b: int)
    requires
        0 <= r <= 255,
        0 <= g <= 255,
        0 <= b <= 255,
    ensures
        red(r * 0x10000 + g * 0x100 + b) == r,
        green(r * 0x10000 + g * 0x100 + b) == g,
        blue(r * 0x10000 + g * 0x100 + b) == b,
{
}

/// A colour that was written out reads back as the channels it was written
/// from.
pub proof fn lemma_color_text_reads_back(r: int, g: int, b: int)
    requires
        0 <= r <= 255,
        0 <= g <= 255,
        0 <= b <= 255,
    ensures
        color_number(color_text(r, g, b)) == r * 0x10000 + g * 0x100 + b,
        red(color_number(color_text(r, g, b))) == r,
        green(color_number(color_text(r, g, b))) == g,
        blue(color_number(color_text(r, g, b))) == b,
{
    lemma_color_text_number(r, g, b);
    lemma_channels_of_number(r, g, b);
}

/// The result of shading is always a colour written in full: `#` and six
/// digits, none of them a capital letter.
pub proof fn lemma_adjust_brightness_form(hex: Seq<char>, percent: int)
    ensures
        spec_adjust_brightness(hex, percent).len() == 7,
        spec_adjust_brightness(hex, percent)[0] == '#',
        forall|i: int|
            1 <= i < 7 ==> {
                let c = #[trigger] spec_adjust_brightness(hex, percent)[i];
                is_hex_digit(c) && !('A' <= c <= 'F')
            },
{
    let number = color_number(hex);
    let r = shade(red(number), percent);
    let g = shade(green(number), percent);
    let b = shade(blue(number), percent);
    lemma_color_text_characters(r, g, b);
    lemma_digit_reads_back(r / 16);
    lemma_digit_reads_back(r % 16);
    lemma_digit_reads_back(g / 16);
    lemma_digit_reads_back(g % 16);
    lemma_digit_reads_back(b / 16);
    lemma_digit_reads_back(b % 16);
}

/// Shading works on each channel by itself: read back, the shaded colour has
/// the red, green and blue of the colour it was made from, each moved by
/// `percent` and held to `0..=255`.
pub proof fn lemma_adjust_brightness_channels(hex: Seq<char>, percent: int)
    ensures
        red(color_number(spec_adjust_brightness(hex, percent))) == shade(
            red(color_number(hex)),
            percent,
        ),
        green(color_number(spec_adjust_brightness(hex, percent))) == shade(
            green(color_number(hex)),
            percent,
        ),
        blue(color_number(spec_adjust_brightness(hex, percent))) == shade(
            blue(color_number(hex)),
            percent,
        ),
{
    let number = color_number(hex);
    lemma_color_text_reads_back(
        shade(red(number), percent),
        shade(green(number), percent),
        shade(blue(number), percent),
    );
}

/// A shaded channel is a channel: it never leaves `0..=255`, and it moves
/// by the whole of `delta` wherever that stays inside.
pub proof fn lemma_shade_is_held(channel: int, delta: int)
    ensures
        0 <= shade(channel, delta) <= 255,
        0 <= channel + delta <= 255 ==> shade(channel, delta) == channel + delta,
{
}

/// A larger amount never gives a darker channel.
pub proof fn lemma_shade_is_monotone(channel: int, darker: int, brighter: int)
    requires
        darker <= brighter,
    ensures
        shade(channel, darker) <= shade(channel, brighter),
{
}

/// Black cannot get darker: shaded by any amount at or below zero it is
/// black, not a colour wrapped round from below.
pub proof fn lemma_black_stays_black(percent: int)
    requires
        percent <= 0,
    ensures
        spec_adjust_brightness("#000000"@, percent) == "#000000"@,
{
    reveal_strlit("#000000");
    reveal_strlit("0123456789abcdef");
    lemma_color_text_characters(0, 0, 0);
    assert(color_text(0, 0, 0) =~= "#000000"@);
    lemma_color_text_number(0, 0, 0);
}

/// White cannot get brighter: shaded by any amount at or above zero it is
/// white.
pub proof fn lemma_white_stays_white(percent: int)
    requires
        percent >= 0,
    ensures
        spec_adjust_brightness("#ffffff"@, percent) == "#ffffff"@,
{
    reveal_strlit("#ffffff");
    reveal_strlit("0123456789abcdef");
    lemma_color_text_characters(255, 255, 255);
    assert(color_text(255, 255, 255) =~= "#ffffff"@);
    lemma_color_text_number(255, 255, 255);
    lemma_channels_of_number(255, 255, 255);
}

/// Shading by nothing keeps the colour: its three channels stay as they
/// are, whatever case the colour was written in.
pub proof fn lemma_adjust_brightness_by_zero(hex: Seq<char>)
    ensures
        red(color_number(spec_adjust_brightness(hex, 0))) == red(color_number(hex)),
        green(color_number(spec_adjust_brightness(hex, 0))) == green(color_number(hex)),
        blue(color_number(spec_adjust_brightness(hex, 0))) == blue(color_number(hex)),
{
    lemma_adjust_brightness_channels(hex, 0);
}

} // verus!
