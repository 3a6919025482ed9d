//! Values of the generated keyboard configuration.

use vstd::prelude::*;
use vstd::slice::slice_subrange;

verus! {

/// `bcdDevice` of a build that names none.
pub const DEFAULT_USB_DEVICE_RELEASE: u16 = 0x0010;

/// A build variable that does not hold what it must.
#[derive(Clone, Copy, Debug, PartialEq, Eq, Structural)]
pub enum ConfigError {
    /// Not a hexadecimal u16 such as 0x0109.
    DeviceRelease,
    /// Not major.minor.patch with minor and patch up to 255.
    FirmwareVersion,
}

// Texts

/// Characters with the Unicode property White_Space.
pub open spec fn is_white_space(c: char) -> bool {
    let code = c as u32;
    ||| 0x09 <= code <= 0x0d
    ||| code == 0x20
    ||| code == 0x85
    ||| code == 0xa0
    ||| code == 0x1680
    ||| 0x2000 <= code <= 0x200a
    ||| code == 0x2028
    ||| code == 0x2029
    ||| code == 0x202f
    ||| code == 0x205f
    ||| code == 0x3000
}

fn white_space(c: char) -> (white: bool)
    ensures
        white == is_white_space(c),
{
    let code: u32 = c as u32;
    (code >= 0x09 && code <= 0x0d) || code == 0x20 || code == 0x85 || code == 0xa0 || code == 0x1680
        || (code >= 0x2000 && code <= 0x200a) || code == 0x2028 || code == 0x2029 || code == 0x202f
        || code == 0x205f || code == 0x3000
}

/// A text without its leading white space.
pub open spec fn without_leading(text: Seq<char>) -> Seq<char>
    decreases text.len(),
{
    if text.len() > 0 && is_white_space(text.first()) {
        without_leading(text.drop_first())
    } else {
        text
    }
}

/// A text without its trailing white space.
pub open spec fn without_trailing(text: Seq<char>) -> Seq<char>
    decreases text.len(),
{
    if text.len() > 0 && is_white_space(text.last()) {
        without_trailing(text.drop_last())
    } else {
        text
    }
}

/// A text without the white space at its ends.
pub open spec fn trimmed(text: Seq<char>) -> Seq<char> {
    without_trailing(without_leading(text))
}

fn trim(text: &[char]) -> (result: &[char])
    ensures
        result@ == trimmed(text@),
{
    let mut start: usize = 0;
    let len: usize = text.len();
    assert(text@.subrange(0, len as int) =~= text@);
    while start < len && white_space(text[start])
        invariant
            start <= len,
            len == text@.len(),
            without_leading(text@) == without_leading(text@.subrange(start as int, len as int)),
        decreases len - start,
    {
        assert(text@.subrange(start as int, len as int).drop_first() =~= text@.subrange(
            start as int + 1,
            len as int,
        ));
        start = start + 1;
    }
    let ghost rest = text@.subrange(start as int, len as int);
    assert(without_leading(text@) == rest);
    let mut end: usize = len;
    while end > start && white_space(text[end - 1])
        invariant
            start <= end <= len,
            len == text@.len(),
            without_trailing(rest) == without_trailing(
                text@.subrange(start as int, end as int),
            ),
        decreases end,
    {
        assert(text@.subrange(start as int, end as int).drop_last() =~= text@.subrange(
            start as int,
            end as int - 1,
        ));
        end = end - 1;
    }
    slice_subrange(text, start, end)
}

// Numbers

/// The value of a digit in a radix of up to sixteen.
pub open spec fn digit(c: char, radix: int) -> Option<int> {
    let code = c as u32 as int;
    let value = if 0x30 <= code <= 0x39 {
        code - 0x30
    } else if 0x61 <= code <= 0x66 {
        code - 0x61 + 10
    } else if 0x41 <= code <= 0x46 {
        code - 0x41 + 10
    } else {
        radix
    };
    if value < radix {
        Some(value)
    } else {
        None
    }
}

/// The number that a series of digits stands for. No digit stands for zero.
pub open spec fn number(digits: Seq<char>, radix: int) -> Option<int>
    decreases digits.len(),
{
    if digits.len() == 0 {
        Some(0)
    } else {
        match (number(digits.drop_last(), radix), digit(digits.last(), radix)) {
            (Some(high), Some(low)) => Some(high * radix + low),
            _ => None,
        }
    }
}

/// An unsigned number of up to `max`: at least one digit, after a plus sign or
/// none.
pub open spec fn unsigned(text: Seq<char>, radix: int, max: int) -> Option<int> {
    let digits = if text.len() > 0 && text.first() == '+' {
        text.drop_first()
    } else {
        text
    };
    if digits.len() == 0 {
        None
    } else {
        match number(digits, radix) {
            Some(value) if value <= max => Some(value),
            _ => None,
        }
    }
}

fn digit_of(c: char, radix: u32) -> (value: Option<u32>)
    requires
        radix == 10 || radix == 16,
    ensures
        value is Some <==> digit(c, radix as int) is Some,
        value matches Some(v) ==> digit(c, radix as int) == Some(v as int) && v < radix,
{
    let code: u32 = c as u32;
    let value: u32 = if code >= 0x30 && code <= 0x39 {
        code - 0x30
    } else if code >= 0x61 && code <= 0x66 {
        code - 0x61 + 10
    } else if code >= 0x41 && code <= 0x46 {
        code - 0x41 + 10
    } else {
        radix
    };
    if value < radix {
        Some(value)
    } else {
        None
    }
}

proof fn lemma_number_grows(digits: Seq<char>, radix: int, i: int)
    requires
        radix == 10 || radix == 16,
        0 <= i <= digits.len(),
    ensures
        number(digits.take(i), radix) is None ==> number(digits, radix) is None,
        number(digits, radix) is Some ==> number(digits.take(i), radix) is Some && 0 <= number(
            digits.take(i),
            radix,
        )->0 <= number(digits, radix)->0,
    decreases digits.len(),
{
    if i == digits.len() {
        assert(digits.take(i) =~= digits);
        if digits.len() > 0 {
            lemma_number_grows(digits.drop_last(), radix, i - 1);
            if number(digits, radix) is Some {
                let high = number(digits.drop_last(), radix)->0;
                assert(high * radix >= 0) by (nonlinear_arith)
                    requires
                        high >= 0,
                        radix >= 0,
                ;
            }
        }
    } else {
        lemma_number_grows(digits.drop_last(), radix, i);
        assert(digits.drop_last().take(i) =~= digits.take(i));
        if number(digits, radix) is Some {
            let high = number(digits.drop_last(), radix)->0;
            assert(high * radix >= high) by (nonlinear_arith)
                requires
                    high >= 0,
                    radix >= 1,
            ;
        }
    }
}

fn parse_unsigned(text: &[char], radix: u32, max: u32) -> (value: Option<u32>)
    requires
        radix == 10 || radix == 16,
        max <= 0xffff,
    ensures
        value is Some <==> unsigned(text@, radix as int, max as int) is Some,
        value matches Some(v) ==> unsigned(text@, radix as int, max as int) == Some(v as int),
{
    let len: usize = text.len();
    let start: usize = if len > 0 && text[0] == '+' {
        1
    } else {
        0
    };
    let ghost digits = text@.subrange(start as int, len as int);
    assert(start == 1 ==> digits =~= text@.drop_first());
    assert(start == 0 ==> digits =~= text@);
    if start == len {
        return None;
    }
    let mut value: u32 = 0;
    let mut i: usize = start;
    assert(digits.take(0) =~= Seq::<char>::empty());
    while i < len
        invariant
            start <= i <= len,
            len == text@.len(),
            radix == 10 || radix == 16,
            max <= 0xffff,
            value <= max,
            digits == text@.subrange(start as int, len as int),
            number(digits.take(i - start), radix as int) == Some(value as int),
            start < len,
            start == 1 ==> digits == text@.drop_first() && text@.first() == '+',
            start == 0 ==> digits == text@ && text@.first() != '+',
            start <= 1,
        decreases len - i,
    {
        let c: char = text[i];
        proof {
            assert(digits.take(i - start + 1).drop_last() =~= digits.take(i - start));
            assert(digits.take(i - start + 1).last() == c);
            lemma_number_grows(digits, radix as int, i - start + 1);
            assert(value * radix <= 0xffff * 16) by (nonlinear_arith)
                requires
                    value <= 0xffff,
                    radix <= 16,
            ;
        }
        let low: u32 = match digit_of(c, radix) {
            Some(low) => low,
            None => {
                return None;
            },
        };
        let next: u32 = value * radix + low;
        if next > max {
            return None;
        }
        value = next;
        i = i + 1;
    }
    assert(digits.take(len - start) =~= digits);
    Some(value)
}

// The USB device release

/// The hexadecimal release in a text: white space, `0x` or `0X`, and a u16.
pub open spec fn device_release(text: Seq<char>) -> Option<int> {
    let body = trimmed(text);
    if body.len() >= 2 && body[0] == '0' && (body[1] == 'x' || body[1] == 'X') {
        unsigned(body.skip(2), 16, 0xffff)
    } else {
        None
    }
}

fn chars_of(text: &str) -> (chars: Vec<char>)
    ensures
        chars@ == text@,
{
    let count: usize = text.unicode_len();
    let mut chars: Vec<char> = Vec::new();
    let mut i: usize = 0;
    while i < count
        invariant
            i <= count,
            count == text@.len(),
            chars@ == text@.take(i as int),
        decreases count - i,
    {
        chars.push(text.get_char(i));
        assert(text@.take(i as int + 1) =~= text@.take(i as int).push(text@[i as int]));
        i = i + 1;
    }
    assert(text@.take(count as int) =~= text@);
    chars
}

pub fn parse_usb_device_release(value: &str) -> (release: Option<u16>)
    ensures
        release is Some <==> device_release(value@) is Some,
        release matches Some(r) ==> device_release(value@) == Some(r as int),
{
    let chars = chars_of(value);
    let body = trim(chars.as_slice());
    let len: usize = body.len();
    if len < 2 || body[0] != '0' || (body[1] != 'x' && body[1] != 'X') {
        return None;
    }
    let digits = slice_subrange(body, 2, len);
    assert(digits@ =~= body@.skip(2));
    match parse_unsigned(digits, 16, 0xffff) {
        Some(release) => Some(release as u16),
        None => None,
    }
}

/// `bcdDevice` of the device descriptor, from the build variable that may set
/// it.
pub fn configured_usb_device_release(value: Option<&str>) -> (release: Result<u16, ConfigError>)
    ensures
        value is None ==> release is Ok && release->Ok_0 == DEFAULT_USB_DEVICE_RELEASE,
        value matches Some(text) ==> match device_release(text@) {
            Some(parsed) => release is Ok && release->Ok_0 == parsed,
            None => release is Err && release->Err_0 == ConfigError::DeviceRelease,
        },
{
    match value {
        None => Ok(DEFAULT_USB_DEVICE_RELEASE),
        Some(text) => match parse_usb_device_release(text) {
            Some(release) => Ok(release),
            None => Err(ConfigError::DeviceRelease),
        },
    }
}

// The firmware version

/// Where the first dot is, or the length of a text without any.
pub open spec fn first_dot(text: Seq<char>) -> int
    decreases text.len(),
{
    if text.len() == 0 || text.first() == '.' {
        0
    } else {
        1 + first_dot(text.drop_first())
    }
}

/// A text cut at every dot.
pub open spec fn split_dots(text: Seq<char>) -> Seq<Seq<char>>
    decreases text.len(),
    via split_dots_terminates
{
    let dot = first_dot(text);
    if dot < text.len() {
        seq![text.take(dot)] + split_dots(text.skip(dot + 1))
    } else {
        seq![text]
    }
}

#[via_fn]
proof fn split_dots_terminates(text: Seq<char>) {
    lemma_first_dot(text);
}

proof fn lemma_first_dot(text: Seq<char>)
    ensures
        0 <= first_dot(text) <= text.len(),
    decreases text.len(),
{
    if text.len() > 0 && text.first() != '.' {
        lemma_first_dot(text.drop_first());
    }
}

/// The version in a text: white space and three numbers between dots. The
/// major number is the high half, minor and patch are one byte each.
pub open spec fn firmware_version(text: Seq<char>) -> Option<int> {
    let parts = split_dots(trimmed(text));
    if parts.len() != 3 {
        None
    } else {
        match (
            unsigned(parts[0], 10, 0xffff),
            unsigned(parts[1], 10, 0xff),
            unsigned(parts[2], 10, 0xff),
        ) {
            (Some(major), Some(minor), Some(patch)) => Some(
                major * 0x1_0000 + minor * 0x100 + patch,
            ),
            _ => None,
        }
    }
}

fn find_dot(text: &[char]) -> (dot: usize)
    ensures
        dot == first_dot(text@),
        dot <= text@.len(),
{
    let len: usize = text.len();
    let mut i: usize = 0;
    assert(text@.skip(0) =~= text@);
    while i < len && text[i] != '.'
        invariant
            i <= len,
            len == text@.len(),
            first_dot(text@) == i + first_dot(text@.skip(i as int)),
        decreases len - i,
    {
        assert(text@.skip(i as int).drop_first() =~= text@.skip(i as int + 1));
        i = i + 1;
    }
    i
}

pub fn parse_firmware_version(value: &str) -> (version: Option<u32>)
    ensures
        version is Some <==> firmware_version(value@) is Some,
        version matches Some(v) ==> firmware_version(value@) == Some(v as int),
{
    reveal_with_fuel(split_dots, 4);
    let chars = chars_of(value);
    let body = trim(chars.as_slice());
    let first: usize = find_dot(body);
    if first == body.len() {
        return None;
    }
    let rest = slice_subrange(body, first + 1, body.len());
    assert(rest@ =~= body@.skip(first + 1));
    let second: usize = find_dot(rest);
    if second == rest.len() {
        return None;
    }
    let tail = slice_subrange(rest, second + 1, rest.len());
    assert(tail@ =~= rest@.skip(second + 1));
    let third: usize = find_dot(tail);
    if third < tail.len() {
        return None;
    }
    let major_text = slice_subrange(body, 0, first);
    assert(major_text@ =~= body@.take(first as int));
    let minor_text = slice_subrange(rest, 0, second);
    assert(minor_text@ =~= rest@.take(second as int));
    let ghost parts = split_dots(body@);
    assert(parts =~= seq![major_text@, minor_text@, tail@]);
    let major: u32 = match parse_unsigned(major_text, 10, 0xffff) {
        Some(major) => major,
        None => {
            return None;
        },
    };
    let minor: u32 = match parse_unsigned(minor_text, 10, 0xff) {
        Some(minor) => minor,
        None => {
            return None;
        },
    };
    let patch: u32 = match parse_unsigned(tail, 10, 0xff) {
        Some(patch) => patch,
        None => {
            return None;
        },
    };
    Some(major * 0x1_0000 + minor * 0x100 + patch)
}

/// The firmware version that Vial reports, from the build variable that may set
/// it.
pub fn configured_firmware_version(value: Option<&str>, default: u32) -> (version: Result<
    u32,
    ConfigError,
>)
    ensures
        value is None ==> version is Ok && version->Ok_0 == default,
        value matches Some(text) ==> match firmware_version(text@) {
            Some(parsed) => version is Ok && version->Ok_0 == parsed,
            None => version is Err && version->Err_0 == ConfigError::FirmwareVersion,
        },
{
    match value {
        None => Ok(default),
        Some(text) => match parse_firmware_version(text) {
            Some(version) => Ok(version),
            None => Err(ConfigError::FirmwareVersion),
        },
    }
}

// The device settings hook

/// A text is a path of the Rust language.
pub uninterp spec fn is_rust_path(text: Seq<char>) -> bool;

/// Calls `syn::parse_str` for a `syn::Path`, and says whether it succeeds. What
/// counts as a path is the grammar of that parser.
#[verifier::external_body]
fn parses_as_path(text: &str) -> (parses: bool)
    ensures
        parses == is_rust_path(text@),
{
    syn::parse_str::<syn::Path>(text).is_ok()
}

/// Which hook is used, given whether the named one is a path.
pub fn chosen_hook(value: Option<&str>, is_path: bool) -> (hook: Option<&str>)
    ensures
        hook == (if is_path {
            value
        } else {
            None
        }),
{
    if is_path {
        value
    } else {
        None
    }
}

/// The function that supplies the Vial device settings, from the build variable
/// that may name it. A name that is no path is ignored.
pub fn device_settings_hook(value: Option<&str>) -> (hook: Option<&str>)
    ensures
        hook == (match value {
            Some(path) => if is_rust_path(path@) {
                Some(path)
            } else {
                None
            },
            None => None,
        }),
{
    match value {
        Some(path) => chosen_hook(value, parses_as_path(path)),
        None => None,
    }
}

// The generated constants

/// What the generated Vial configuration declares.
#[derive(Clone, Copy, Debug)]
pub struct VialValues<'a> {
    pub firmware_version: u32,
    pub vial_insecure: bool,
    /// The function that supplies the device settings.
    pub settings_hook: Option<&'a str>,
}

/// The values of the Vial configuration, or nothing where Vial is disabled: the
/// build variables are not looked at then.
pub fn vial_values<'a>(
    vial_enabled: bool,
    vial_insecure: bool,
    version: Option<&str>,
    default_version: u32,
    hook: Option<&'a str>,
) -> (values: Result<Option<VialValues<'a>>, ConfigError>)
    ensures
        !vial_enabled ==> values is Ok && values->Ok_0 is None,
        vial_enabled && version is Some && firmware_version(version->0@) is None ==> values is Err
            && values->Err_0 == ConfigError::FirmwareVersion,
        vial_enabled && (version is None || firmware_version(version->0@) is Some) ==> {
            &&& values is Ok && values->Ok_0 is Some
            &&& values->Ok_0->0.vial_insecure == vial_insecure
            &&& values->Ok_0->0.firmware_version == (match version {
                Some(text) => firmware_version(text@)->0,
                None => default_version as int,
            })
            &&& values->Ok_0->0.settings_hook == (match hook {
                Some(path) => if is_rust_path(path@) {
                    Some(path)
                } else {
                    None
                },
                None => None,
            })
        },
{
    if !vial_enabled {
        return Ok(None);
    }
    match configured_firmware_version(version, default_version) {
        Ok(firmware_version) => Ok(
            Some(
                VialValues {
                    firmware_version,
                    vial_insecure,
                    settings_hook: device_settings_hook(hook),
                },
            ),
        ),
        Err(error) => Err(error),
    }
}

/// The positions of the unlock keys as pairs of row and column.
pub fn unlock_positions(keys: &Vec<[u8; 2]>) -> (positions: Vec<(u8, u8)>)
    ensures
        positions@.len() == keys@.len(),
        forall|i: int|
            0 <= i < keys@.len() ==> positions@[i] == (keys@[i]@[0], keys@[i]@[1]),
{
    let mut positions: Vec<(u8, u8)> = Vec::new();
    let mut i: usize = 0;
    while i < keys.len()
        invariant
            i <= keys@.len(),
            positions@.len() == i,
            forall|k: int| 0 <= k < i ==> positions@[k] == (keys@[k]@[0], keys@[k]@[1]),
        decreases keys@.len() - i,
    {
        let row: u8 = keys[i][0];
        let col: u8 = keys[i][1];
        positions.push((row, col));
        i = i + 1;
    }
    positions
}

/// Size of the keyboard.
#[derive(Debug)]
pub struct Layout {
    pub cols: u8,
    pub rows: u8,
    pub layers: u8,
    /// Encoders of each half.
    pub encoder_counts: Vec<usize>,
}

/// The sizes that the generated code declares.
#[derive(Clone, Copy, Debug, PartialEq, Eq, Structural)]
pub struct KeyboardSizes {
    pub cols: usize,
    pub rows: usize,
    pub layers: usize,
    pub encoders: usize,
}

pub open spec fn total(counts: Seq<usize>) -> int
    decreases counts.len(),
{
    if counts.len() == 0 {
        0
    } else {
        total(counts.drop_last()) + counts.last()
    }
}

proof fn lemma_total_grows(counts: Seq<usize>, i: int)
    requires
        0 <= i <= counts.len(),
    ensures
        0 <= total(counts.take(i)) <= total(counts),
    decreases counts.len(),
{
    if i == counts.len() {
        assert(counts.take(i) =~= counts);
        if counts.len() > 0 {
            lemma_total_grows(counts.drop_last(), i - 1);
        }
    } else {
        lemma_total_grows(counts.drop_last(), i);
        assert(counts.drop_last().take(i) =~= counts.take(i));
    }
}

/// The sizes of a layout, with the encoders of all halves together.
pub fn keyboard_sizes(layout: &Layout) -> (sizes: KeyboardSizes)
    requires
        total(layout.encoder_counts@) <= usize::MAX,
    ensures
        sizes.cols == layout.cols,
        sizes.rows == layout.rows,
        sizes.layers == layout.layers,
        sizes.encoders == total(layout.encoder_counts@),
{
    let mut encoders: usize = 0;
    let mut i: usize = 0;
    assert(layout.encoder_counts@.take(0) =~= Seq::<usize>::empty());
    while i < layout.encoder_counts.len()
        invariant
            i <= layout.encoder_counts@.len(),
            encoders == total(layout.encoder_counts@.take(i as int)),
            total(layout.encoder_counts@) <= usize::MAX,
        decreases layout.encoder_counts@.len() - i,
    {
        proof {
            lemma_total_grows(layout.encoder_counts@, i as int + 1);
            assert(layout.encoder_counts@.take(i as int + 1).drop_last()
                =~= layout.encoder_counts@.take(i as int));
        }
        encoders = encoders + layout.encoder_counts[i];
        i = i + 1;
    }
    assert(layout.encoder_counts@.take(i as int) =~= layout.encoder_counts@);
    KeyboardSizes {
        cols: layout.cols as usize,
        rows: layout.rows as usize,
        layers: layout.layers as usize,
        encoders,
    }
}

proof fn lemma_trailing_space(text: Seq<char>, space: char)
    requires
        is_white_space(space),
    ensures
        trimmed(text + seq![space]) == trimmed(text),
    decreases text.len(),
{
    let longer = text + seq![space];
    if text.len() == 0 {
        assert(longer.drop_first() =~= text);
    } else if is_white_space(text.first()) {
        lemma_trailing_space(text.drop_first(), space);
        assert(longer.drop_first() =~= text.drop_first() + seq![space]);
    } else {
        assert(longer.drop_last() =~= text);
    }
}

/// White space round a value does not change what it stands for.
pub proof fn law_surrounding_space_is_ignored(text: Seq<char>, space: char)
    requires
        is_white_space(space),
    ensures
        device_release(seq![space] + text) == device_release(text),
        device_release(text + seq![space]) == device_release(text),
        firmware_version(seq![space] + text) == firmware_version(text),
        firmware_version(text + seq![space]) == firmware_version(text),
{
    assert((seq![space] + text).drop_first() =~= text);
    lemma_trailing_space(text, space);
}

/// A firmware version keeps its components apart: equal versions come from
/// equal numbers.
pub proof fn law_versions_keep_components_apart(
    major_a: int,
    minor_a: int,
    patch_a: int,
    major_b: int,
    minor_b: int,
    patch_b: int,
)
    requires
        0 <= minor_a <= 0xff,
        0 <= patch_a <= 0xff,
        0 <= minor_b <= 0xff,
        0 <= patch_b <= 0xff,
        major_a * 0x1_0000 + minor_a * 0x100 + patch_a == major_b * 0x1_0000 + minor_b * 0x100
            + patch_b,
    ensures
        major_a == major_b && minor_a == minor_b && patch_a == patch_b,
{
    let high: int = 256 * (major_a - major_b) + (minor_a - minor_b);
    assert(256 * high == patch_b - patch_a);
    assert(high == 0);
    let major: int = major_a - major_b;
    assert(256 * major == minor_b - minor_a);
    assert(major == 0);
}

// Writing and reading

/// The digit of a value below sixteen.
pub open spec fn digit_char(value: int) -> char {
    if value < 10 {
        (0x30 + value) as char
    } else {
        (0x61 + value - 10) as char
    }
}

/// A number in digits, without leading zeros.
pub open spec fn written(value: nat, radix: nat) -> Seq<char>
    decreases value,
{
    if value < radix || radix < 2 {
        seq![digit_char(value as int)]
    } else {
        proof {
            vstd::arithmetic::div_mod::lemma_div_decreases(value as int, radix as int);
        }
        written(value / radix, radix).push(digit_char((value % radix) as int))
    }
}

/// A text that is neither empty nor holds anything but digits.
pub open spec fn all_digits(text: Seq<char>, radix: int) -> bool {
    &&& text.len() > 0
    &&& forall|i: int| 0 <= i < text.len() ==> (#[trigger] digit(text[i], radix)) is Some
}

pub(crate) proof fn lemma_written(value: nat, radix: nat)
    requires
        radix == 10 || radix == 16,
    ensures
        number(written(value, radix), radix as int) == Some(value as int),
        all_digits(written(value, radix), radix as int),
    decreases value,
{
    let text = written(value, radix);
    reveal_with_fuel(number, 2);
    if value < radix {
        assert(text.drop_last() =~= Seq::empty());
    } else {
        let high = value / radix;
        vstd::arithmetic::div_mod::lemma_div_decreases(value as int, radix as int);
        lemma_written(high, radix);
        assert(text.drop_last() =~= written(high, radix));
        assert(high * radix + value % radix == value) by {
            vstd::arithmetic::div_mod::lemma_fundamental_div_mod(value as int, radix as int);
            vstd::arithmetic::mul::lemma_mul_is_commutative(high as int, radix as int);
        }
    }
}

proof fn lemma_written_is_unsigned(value: nat, radix: nat, max: int)
    requires
        radix == 10 || radix == 16,
        value <= max,
    ensures
        unsigned(written(value, radix), radix as int, max) == Some(value as int),
{
    lemma_written(value, radix);
    assert(digit(written(value, radix)[0], radix as int) is Some);
}

pub(crate) proof fn lemma_nothing_to_trim(text: Seq<char>)
    requires
        text.len() > 0,
        !is_white_space(text.first()),
        !is_white_space(text.last()),
    ensures
        trimmed(text) == text,
{
}

proof fn lemma_dot_after_digits(digits: Seq<char>, rest: Seq<char>)
    requires
        forall|i: int| 0 <= i < digits.len() ==> (#[trigger] digit(digits[i], 10)) is Some,
    ensures
        first_dot(digits + seq!['.'] + rest) == digits.len(),
        first_dot(digits) == digits.len(),
    decreases digits.len(),
{
    let text = digits + seq!['.'] + rest;
    if digits.len() > 0 {
        let tail = digits.drop_first();
        assert forall|i: int| 0 <= i < tail.len() implies (#[trigger] digit(
            tail[i],
            10,
        )) is Some by {
            assert(digit(digits[i + 1], 10) is Some);
        }
        assert(digit(digits[0], 10) is Some);
        lemma_dot_after_digits(tail, rest);
        assert(text.drop_first() =~= tail + seq!['.'] + rest);
    }
}

/// Reading gives back what was written: a release in hexadecimal digits after
/// `0x`.
pub proof fn law_written_release_is_read_back(release: u16)
    ensures
        device_release(seq!['0', 'x'] + written(release as nat, 16)) == Some(release as int),
{
    let digits = written(release as nat, 16);
    let text = seq!['0', 'x'] + digits;
    lemma_written(release as nat, 16);
    lemma_written_is_unsigned(release as nat, 16, 0xffff);
    assert(digit(digits[digits.len() - 1], 16) is Some);
    assert(text.last() == digits[digits.len() - 1]);
    lemma_nothing_to_trim(text);
    assert(text.skip(2) =~= digits);
}

/// Reading gives back what was written: a version as three decimal numbers
/// between dots.
pub proof fn law_written_version_is_read_back(major: u16, minor: u8, patch: u8)
    ensures
        firmware_version(
            written(major as nat, 10) + seq!['.'] + (written(minor as nat, 10) + seq!['.']
                + written(patch as nat, 10)),
        ) == Some(major * 0x1_0000 + minor * 0x100 + patch),
{
    let first = written(major as nat, 10);
    let second = written(minor as nat, 10);
    let third = written(patch as nat, 10);
    let rest = second + seq!['.'] + third;
    let text = first + seq!['.'] + rest;
    lemma_written(major as nat, 10);
    lemma_written(minor as nat, 10);
    lemma_written(patch as nat, 10);
    lemma_written_is_unsigned(major as nat, 10, 0xffff);
    lemma_written_is_unsigned(minor as nat, 10, 0xff);
    lemma_written_is_unsigned(patch as nat, 10, 0xff);
    assert(digit(first[0], 10) is Some);
    assert(digit(third[third.len() - 1], 10) is Some);
    assert(text.last() == third[third.len() - 1]);
    lemma_nothing_to_trim(text);
    lemma_dot_after_digits(first, rest);
    lemma_dot_after_digits(second, third);
    lemma_dot_after_digits(third, Seq::empty());
    reveal_with_fuel(split_dots, 4);
    assert(text.take(first.len() as int) =~= first);
    assert(text.skip(first.len() as int + 1) =~= rest);
    assert(rest.take(second.len() as int) =~= second);
    assert(rest.skip(second.len() as int + 1) =~= third);
    assert(split_dots(text) =~= seq![first, second, third]);
}

} // verus!
