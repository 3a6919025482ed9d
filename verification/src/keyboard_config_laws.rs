//! What the generated keyboard configuration accepts and what it means.

use vstd::prelude::*;

use crate::keyboard_config::{
    chosen_hook, configured_firmware_version, configured_usb_device_release, device_settings_hook,
    keyboard_sizes, parse_firmware_version, parse_usb_device_release, unlock_positions,
    vial_values, ConfigError, KeyboardSizes, Layout, VialValues,
};

verus! {

/// White space is the tab, the line ends and separators, and the spaces of
/// Unicode, and nothing else.
pub proof fn law_white_space_of_unicode(c: char)
    ensures
        crate::keyboard_config::is_white_space(c) <==> {
            ||| c == '\t' || c == '\n' || c == '\u{b}' || c == '\u{c}' || c == '\r' || c == ' '
            ||| c == '\u{85}' || c == '\u{a0}' || c == '\u{1680}' || c == '\u{2000}'
            ||| c == '\u{2001}' || c == '\u{2002}' || c == '\u{2003}' || c == '\u{2004}'
            ||| c == '\u{2005}' || c == '\u{2006}' || c == '\u{2007}' || c == '\u{2008}'
            ||| c == '\u{2009}' || c == '\u{200a}' || c == '\u{2028}' || c == '\u{2029}'
            ||| c == '\u{202f}' || c == '\u{205f}' || c == '\u{3000}'
        },
{
}

/// A trimmed text neither begins nor ends with white space.
pub proof fn law_trimmed_text_has_bare_ends(text: Seq<char>)
    ensures
        ({
            let body = crate::keyboard_config::trimmed(text);
            body.len() > 0 ==> !crate::keyboard_config::is_white_space(body.first())
                && !crate::keyboard_config::is_white_space(body.last())
        }),
{
    lemma_leading(text);
    lemma_trailing(crate::keyboard_config::without_leading(text));
}

proof fn lemma_leading(text: Seq<char>)
    ensures
        ({
            let body = crate::keyboard_config::without_leading(text);
            body.len() > 0 ==> !crate::keyboard_config::is_white_space(body.first())
        }),
    decreases text.len(),
{
    if text.len() > 0 && crate::keyboard_config::is_white_space(text.first()) {
        lemma_leading(text.drop_first());
    }
}

proof fn lemma_trailing(text: Seq<char>)
    ensures
        ({
            let body = crate::keyboard_config::without_trailing(text);
            &&& body.len() <= text.len()
            &&& body.len() > 0 ==> !crate::keyboard_config::is_white_space(body.last())
                && body.first() == text.first()
        }),
    decreases text.len(),
{
    if text.len() > 0 && crate::keyboard_config::is_white_space(text.last()) {
        lemma_trailing(text.drop_last());
    }
}

// Digits and numbers

/// A digit is one of the ten decimal ones and, in a radix of sixteen, also one of
/// the six letters in either case. It is worth its place.
pub proof fn law_digits_are_worth_their_place(c: char)
    ensures
        ({
            let decimal = crate::keyboard_config::digit(c, 10);
            let hex = crate::keyboard_config::digit(c, 16);
            &&& '0' <= c <= '9' ==> decimal == Some(c as int - '0' as int) && hex == decimal
            &&& 'a' <= c <= 'f' ==> decimal is None && hex == Some(c as int - 'a' as int + 10)
            &&& 'A' <= c <= 'F' ==> decimal is None && hex == Some(c as int - 'A' as int + 10)
            &&& !('0' <= c <= '9') && !('a' <= c <= 'f') && !('A' <= c <= 'F') ==> decimal is None
                && hex is None
        }),
{
}

/// A number grows by one digit to its multiple of the radix and the digit, and
/// anything but a digit spoils it.
pub proof fn law_numbers_are_positional(digits: Seq<char>, c: char, radix: int)
    requires
        radix == 10 || radix == 16,
    ensures
        ({
            let before = crate::keyboard_config::number(digits, radix);
            let after = crate::keyboard_config::number(digits.push(c), radix);
            let value = crate::keyboard_config::digit(c, radix);
            &&& before is Some && value is Some ==> after == Some(before->0 * radix + value->0)
            &&& before is None || value is None ==> after is None
        }),
        crate::keyboard_config::number(Seq::empty(), radix) == Some(0int),
{
    assert(digits.push(c).drop_last() =~= digits);
}

/// An unsigned number may carry a plus sign, has a digit at least, and does not
/// exceed its bound.
pub proof fn law_unsigned_numbers_are_bounded(digits: Seq<char>, radix: int, max: int)
    requires
        digits.len() > 0 ==> digits.first() != '+',
    ensures
        ({
            let plain = crate::keyboard_config::unsigned(digits, radix, max);
            let signed = crate::keyboard_config::unsigned(seq!['+'] + digits, radix, max);
            let value = crate::keyboard_config::number(digits, radix);
            &&& signed == plain
            &&& plain is Some <==> digits.len() > 0 && value is Some && value->0 <= max
            &&& plain is Some ==> plain == value
        }),
{
    assert((seq!['+'] + digits).drop_first() =~= digits);
}

// Releases

/// A release is read after `0x` or `0X` only: any other beginning is refused, and
/// so is a prefix without a number that fits sixteen bits.
pub proof fn law_release_needs_its_prefix(text: Seq<char>)
    ensures
        ({
            let body = crate::keyboard_config::trimmed(text);
            let prefixed = body.len() >= 2 && body[0] == '0' && (body[1] == 'x' || body[1] == 'X');
            let release = crate::keyboard_config::device_release(text);
            &&& release is Some ==> prefixed && release->0 <= 0xffff
            &&& prefixed ==> release == crate::keyboard_config::unsigned(body.skip(2), 16, 65_535)
            &&& body.len() <= 2 ==> release is None
        }),
{
}

/// A release beyond sixteen bits is refused.
pub proof fn law_large_release_is_refused(value: nat)
    requires
        value > 0xffff,
    ensures
        crate::keyboard_config::device_release(
            seq!['0', 'x'] + crate::keyboard_config::written(value, 16),
        ) is None,
{
    let digits = crate::keyboard_config::written(value, 16);
    let text = seq!['0', 'x'] + digits;
    crate::keyboard_config::lemma_written(value, 16);
    assert(crate::keyboard_config::digit(digits[digits.len() - 1], 16) is Some);
    assert(crate::keyboard_config::digit(digits[0], 16) is Some);
    assert(text.last() == digits[digits.len() - 1]);
    crate::keyboard_config::lemma_nothing_to_trim(text);
    assert(text.skip(2) =~= digits);
}

// Versions

/// A written number has bare ends, no sign and no dot, and is read as its value.
proof fn lemma_written_number(value: nat)
    ensures
        ({
            let text = crate::keyboard_config::written(value, 10);
            &&& text.len() > 0
            &&& crate::keyboard_config::number(text, 10) == Some(value as int)
            &&& !crate::keyboard_config::is_white_space(text.first())
            &&& !crate::keyboard_config::is_white_space(text.last())
            &&& text.first() != '+'
            &&& forall|i: int| 0 <= i < text.len() ==> text[i] != '.'
        }),
{
    let text = crate::keyboard_config::written(value, 10);
    crate::keyboard_config::lemma_written(value, 10);
    assert(crate::keyboard_config::digit(text[0], 10) is Some);
    assert(crate::keyboard_config::digit(text[text.len() - 1], 10) is Some);
    assert forall|i: int| 0 <= i < text.len() implies text[i] != '.' by {
        assert(crate::keyboard_config::digit(text[i], 10) is Some);
    }
}

/// A version whose major number exceeds sixteen bits, or whose minor or patch
/// number exceeds eight, is refused.
pub proof fn law_large_version_is_refused(major: nat, minor: nat, patch: nat)
    requires
        major > 0xffff || minor > 0xff || patch > 0xff,
    ensures
        crate::keyboard_config::firmware_version(
            crate::keyboard_config::written(major, 10) + seq!['.'] + (
            crate::keyboard_config::written(minor, 10) + seq!['.']
                + crate::keyboard_config::written(patch, 10)),
        ) is None,
{
    let first = crate::keyboard_config::written(major, 10);
    let second = crate::keyboard_config::written(minor, 10);
    let third = crate::keyboard_config::written(patch, 10);
    let rest = second + seq!['.'] + third;
    let text = first + seq!['.'] + rest;
    lemma_written_number(major);
    lemma_written_number(minor);
    lemma_written_number(patch);
    assert(text.first() == first.first() && text.last() == third.last());
    crate::keyboard_config::lemma_nothing_to_trim(text);
    law_texts_are_cut_at_dots(first, rest);
    law_texts_are_cut_at_dots(second, third);
    law_texts_are_cut_at_dots(third, Seq::empty());
    let parts = crate::keyboard_config::split_dots(text);
    assert(parts =~= seq![first, second, third]);
}

/// A version of one number, or of two, is refused.
pub proof fn law_short_version_is_refused(major: nat, minor: nat)
    ensures
        crate::keyboard_config::firmware_version(
            crate::keyboard_config::written(major, 10),
        ) is None,
        crate::keyboard_config::firmware_version(
            crate::keyboard_config::written(major, 10) + seq!['.']
                + crate::keyboard_config::written(minor, 10),
        ) is None,
{
    let first = crate::keyboard_config::written(major, 10);
    let second = crate::keyboard_config::written(minor, 10);
    let text = first + seq!['.'] + second;
    lemma_written_number(major);
    lemma_written_number(minor);
    assert(text.first() == first.first() && text.last() == second.last());
    crate::keyboard_config::lemma_nothing_to_trim(first);
    crate::keyboard_config::lemma_nothing_to_trim(text);
    law_texts_are_cut_at_dots(first, second);
    law_texts_are_cut_at_dots(second, Seq::empty());
    assert(crate::keyboard_config::split_dots(text).len() == 2);
}

/// A text is cut at its first dot and what follows is cut in the same way; a
/// text without a dot stays whole.
pub proof fn law_texts_are_cut_at_dots(head: Seq<char>, rest: Seq<char>)
    requires
        forall|i: int| 0 <= i < head.len() ==> head[i] != '.',
    ensures
        crate::keyboard_config::split_dots(head) == seq![head],
        crate::keyboard_config::split_dots(head + seq!['.'] + rest) == seq![head]
            + crate::keyboard_config::split_dots(rest),
{
    let text = head + seq!['.'] + rest;
    lemma_dot_after_head(head, rest);
    reveal_with_fuel(crate::keyboard_config::split_dots, 2);
    assert(text.take(head.len() as int) =~= head);
    assert(text.skip(head.len() as int + 1) =~= rest);
}

proof fn lemma_dot_after_head(head: Seq<char>, rest: Seq<char>)
    requires
        forall|i: int| 0 <= i < head.len() ==> head[i] != '.',
    ensures
        crate::keyboard_config::first_dot(head) == head.len(),
        crate::keyboard_config::first_dot(head + seq!['.'] + rest) == head.len(),
    decreases head.len(),
{
    let text = head + seq!['.'] + rest;
    if head.len() > 0 {
        let tail = head.drop_first();
        assert forall|i: int| 0 <= i < tail.len() implies tail[i] != '.' by {
            assert(tail[i] == head[i + 1]);
        }
        lemma_dot_after_head(tail, rest);
        assert(text.drop_first() =~= tail + seq!['.'] + rest);
    }
}

/// A version takes three parts, each a number within its bound, and is what they
/// make up.
pub proof fn law_version_is_made_of_three_parts(text: Seq<char>)
    ensures
        ({
            let parts = crate::keyboard_config::split_dots(crate::keyboard_config::trimmed(text));
            let version = crate::keyboard_config::firmware_version(text);
            let major = crate::keyboard_config::unsigned(parts[0], 10, 65_535);
            let minor = crate::keyboard_config::unsigned(parts[1], 10, 255);
            let patch = crate::keyboard_config::unsigned(parts[2], 10, 255);
            &&& version is Some <==> parts.len() == 3 && major is Some && minor is Some
                && patch is Some
            &&& version is Some ==> version->0 == 65_536 * major->0 + 256 * minor->0 + patch->0
        }),
{
}

// Calls

/// A build variable that is not set leaves the release at 0x0010 and the version
/// at its default; one that is set must be readable.
pub proof fn law_build_variables_are_read()
    ensures
        forall|value: &str, release: Option<u16>| #[trigger]
            call_ensures(parse_usb_device_release, (value,), release) ==> {
                let meant = crate::keyboard_config::device_release(value@);
                &&& release is Some <==> meant is Some
                &&& release is Some ==> release->0 == meant->0
            },
        forall|value: &str, version: Option<u32>| #[trigger]
            call_ensures(parse_firmware_version, (value,), version) ==> {
                let meant = crate::keyboard_config::firmware_version(value@);
                &&& version is Some <==> meant is Some
                &&& version is Some ==> version->0 == meant->0
            },
        forall|value: Option<&str>, release: Result<u16, ConfigError>| #[trigger]
            call_ensures(configured_usb_device_release, (value,), release) ==> {
                &&& value is None ==> release is Ok && release->Ok_0 == 0x0010
                &&& value matches Some(text) ==> {
                    let meant = crate::keyboard_config::device_release(text@);
                    &&& meant is Some ==> release is Ok && release->Ok_0 == meant->0
                    &&& meant is None ==> release is Err && release->Err_0
                        == ConfigError::DeviceRelease
                }
            },
        forall|value: Option<&str>, default: u32, version: Result<u32, ConfigError>| #[trigger]
            call_ensures(configured_firmware_version, (value, default), version) ==> {
                &&& value is None ==> version is Ok && version->Ok_0 == default
                &&& value matches Some(text) ==> {
                    let meant = crate::keyboard_config::firmware_version(text@);
                    &&& meant is Some ==> version is Ok && version->Ok_0 == meant->0
                    &&& meant is None ==> version is Err && version->Err_0
                        == ConfigError::FirmwareVersion
                }
            },
{
}

/// A hook is used exactly where it is a path.
pub proof fn law_hooks_are_paths()
    ensures
        forall|value: Option<&str>, is_path: bool, hook: Option<&str>| #[trigger]
            call_ensures(chosen_hook, (value, is_path), hook) ==> {
                &&& is_path ==> hook == value
                &&& !is_path ==> hook is None
            },
        forall|value: Option<&str>, hook: Option<&str>| #[trigger]
            call_ensures(device_settings_hook, (value,), hook) ==> {
                &&& value is None ==> hook is None
                &&& value matches Some(path) ==> (hook is Some
                    <==> crate::keyboard_config::is_rust_path(path@))
                &&& hook is Some ==> hook == value
            },
{
}

/// The positions of the unlock keys are their rows and columns, in order.
pub proof fn law_unlock_keys_keep_their_places(i: int)
    ensures
        forall|keys: &Vec<[u8; 2]>, positions: Vec<(u8, u8)>| #[trigger]
            call_ensures(unlock_positions, (keys,), positions) ==> {
                &&& positions@.len() == (*keys)@.len()
                &&& 0 <= i < positions@.len() ==> positions@[i].0 == (*keys)@[i]@[0]
                    && positions@[i].1 == (*keys)@[i]@[1]
            },
{
}

/// The sizes of a keyboard are those of its layout, with the encoders of every
/// half counted.
pub proof fn law_sizes_are_those_of_the_layout(counts: Seq<usize>, more: usize)
    ensures
        forall|layout: &Layout, sizes: KeyboardSizes| #[trigger]
            call_ensures(keyboard_sizes, (layout,), sizes) ==> sizes.cols == (*layout).cols
                && sizes.rows == (*layout).rows && sizes.layers == (*layout).layers
                && sizes.encoders == crate::keyboard_config::total((*layout).encoder_counts@),
        crate::keyboard_config::total(Seq::empty()) == 0,
        crate::keyboard_config::total(counts.push(more)) == crate::keyboard_config::total(counts)
            + more,
{
    assert(counts.push(more).drop_last() =~= counts);
}

/// Without Vial nothing is declared, whatever the build variables hold. With it
/// the version must be readable, and the hook and the lock are as configured.
pub proof fn law_vial_values_follow_the_build(enabled: bool, insecure: bool, default: u32)
    ensures
        forall|
            version: Option<&str>,
            hook: Option<&str>,
            values: Result<Option<VialValues>, ConfigError>,
        | #[trigger]
            call_ensures(vial_values, (enabled, insecure, version, default, hook), values) ==> {
                let meant = crate::keyboard_config::firmware_version(version->0@);
                let unreadable = version is Some && meant is None;
                &&& !enabled ==> values is Ok && values->Ok_0 is None
                &&& enabled && unreadable ==> values is Err && values->Err_0
                    == ConfigError::FirmwareVersion
                &&& enabled && !unreadable ==> {
                    let declared = values->Ok_0->0;
                    &&& values is Ok && values->Ok_0 is Some
                    &&& declared.vial_insecure == insecure
                    &&& version is None ==> declared.firmware_version == default
                    &&& version is Some ==> declared.firmware_version == meant->0
                    &&& declared.settings_hook is Some <==> hook is Some
                        && crate::keyboard_config::is_rust_path(hook->0@)
                    &&& declared.settings_hook is Some ==> declared.settings_hook == hook
                }
            },
{
}

} // verus!
