//! Privacy permissions: what the platform's answers mean, and where they are
//! granted.
//!
//! On macOS the permissions are those of the system's privacy settings. On Linux
//! they come down to device-file access: writing `/dev/uinput`, and reading and
//! writing the `/dev/hidraw*` node of a Logitech device.

use crate::ipc::PermissionStatus;
use crate::text;
use vstd::prelude::*;

verus! {

/// USB vendor id of Logitech.
pub const LOGITECH_VID: u32 = 0x046d;

/// A privacy permission that can be granted in the system's settings.
#[derive(Clone, Copy, Debug, PartialEq, Eq, Structural)]
pub enum Permission {
    /// Watching and changing input events.
    Accessibility,
    /// Opening input devices.
    InputMonitoring,
    /// Using Bluetooth.
    Bluetooth,
}

/// What device-file access amounts to.
pub open spec fn classified(uinput_ok: bool, hidraw_ok: Option<bool>) -> PermissionStatus {
    if !uinput_ok || hidraw_ok == Some(false) {
        PermissionStatus::Denied
    } else if hidraw_ok == Some(true) {
        PermissionStatus::Granted
    } else {
        PermissionStatus::Unknown
    }
}

/// What device-file access amounts to.
///
/// - `uinput_ok`: whether `/dev/uinput` can be written.
/// - `hidraw_ok`: whether a Logitech node can be opened; none where no such node is
///   present.
#[must_use]
pub fn classify(uinput_ok: bool, hidraw_ok: Option<bool>) -> (status: PermissionStatus)
    ensures
        status == classified(uinput_ok, hidraw_ok),
{
    match (uinput_ok, hidraw_ok) {
        (true, Some(true)) => PermissionStatus::Granted,
        (false, _) => PermissionStatus::Denied,
        (true, Some(false)) => PermissionStatus::Denied,
        (true, None) => PermissionStatus::Unknown,
    }
}

/// What the system's Bluetooth authorization code means: `3` is always allowed, `1`
/// restricted, `2` denied, and anything else — or no answer — undecided.
#[must_use]
pub fn bluetooth(authorization: Option<i64>) -> (status: PermissionStatus)
    ensures
        status == match authorization {
            Some(code) => if code == 3 {
                PermissionStatus::Granted
            } else if code == 1 || code == 2 {
                PermissionStatus::Denied
            } else {
                PermissionStatus::Unknown
            },
            None => PermissionStatus::Unknown,
        },
{
    match authorization {
        Some(3) => PermissionStatus::Granted,
        Some(1) => PermissionStatus::Denied,
        Some(2) => PermissionStatus::Denied,
        _ => PermissionStatus::Unknown,
    }
}

/// The anchor of a permission's pane.
pub open spec fn pane_anchor(permission: Permission) -> Seq<char> {
    match permission {
        Permission::Accessibility => "Privacy_Accessibility"@,
        Permission::InputMonitoring => "Privacy_ListenEvent"@,
        Permission::Bluetooth => "Privacy_Bluetooth"@,
    }
}

/// The address of the system-settings pane in which a permission is granted.
#[must_use]
pub fn open_pane(permission: Permission) -> (url: String)
    ensures
        url@ == "x-apple.systempreferences:com.apple.preference.security?"@ + pane_anchor(
            permission,
        ),
{
    let mut url = String::new();
    url.append("x-apple.systempreferences:com.apple.preference.security?");
    url.append(
        match permission {
            Permission::Accessibility => "Privacy_Accessibility",
            Permission::InputMonitoring => "Privacy_ListenEvent",
            Permission::Bluetooth => "Privacy_Bluetooth",
        },
    );
    assert(url@ =~= "x-apple.systempreferences:com.apple.preference.security?"@ + pane_anchor(
        permission,
    ));
    url
}

/// What came of opening a device node.
#[derive(Clone, Copy, Debug, PartialEq, Eq, Structural)]
pub enum ProbeOutcome {
    /// It could be opened.
    Opened,
    /// The permission is missing.
    Denied,
    /// It is gone, or failed for another passing reason.
    Unavailable,
}

/// Whether one of several nodes could be opened; none where no node gave an answer.
#[must_use]
pub fn hidraw_access(outcomes: &Vec<ProbeOutcome>) -> (access: Option<bool>)
    ensures
        access == if outcomes@.contains(ProbeOutcome::Opened) {
            Some(true)
        } else if outcomes@.contains(ProbeOutcome::Denied) {
            Some(false)
        } else {
            None
        },
{
    let mut denied = false;
    let mut i: usize = 0;
    while i < outcomes.len()
        invariant
            i <= outcomes@.len(),
            forall|j: int| 0 <= j < i ==> outcomes@[j] != ProbeOutcome::Opened,
            denied ==> outcomes@.contains(ProbeOutcome::Denied),
            !denied ==> forall|j: int| 0 <= j < i ==> outcomes@[j] != ProbeOutcome::Denied,
        decreases outcomes@.len() - i,
    {
        match outcomes[i] {
            ProbeOutcome::Opened => {
                assert(outcomes@[i as int] == ProbeOutcome::Opened);
                return Some(true);
            },
            ProbeOutcome::Denied => {
                assert(outcomes@[i as int] == ProbeOutcome::Denied);
                denied = true;
            },
            ProbeOutcome::Unavailable => {},
        }
        i += 1;
    }
    if denied {
        Some(false)
    } else {
        None
    }
}

/// Whether a name in `/dev` is that of a raw input node.
#[must_use]
pub fn is_hidraw_name(name: &str) -> (found: bool)
    ensures
        found == text::begins(name@, "hidraw"@),
{
    text::starts_with(name, "hidraw")
}

/// Where a character next stands, or the end.
pub open spec fn next_at(text: Seq<char>, c: char, from: int) -> int
    decreases text.len() - from,
{
    if from >= text.len() {
        text.len() as int
    } else if text[from] == c {
        from
    } else {
        next_at(text, c, from + 1)
    }
}

/// A character counts as white space.
pub open spec fn is_space(c: char) -> bool {
    let code = c as u32;
    ||| 0x09 <= code <= 0x0d
    ||| code == 0x20
    ||| code == 0x85
    ||| code == 0xa0
    ||| code == 0x1680
    ||| 0x2000 <= code <= 0x200a
    ||| code == 0x2028
    ||| code == 0x2029
    ||| code == 0x202f
    ||| code == 0x205f
    ||| code == 0x3000
}

/// A text without the white space before it.
pub open spec fn trimmed_front(text: Seq<char>) -> Seq<char>
    decreases text.len(),
{
    if text.len() > 0 && is_space(text[0]) {
        trimmed_front(text.skip(1))
    } else {
        text
    }
}

/// A text without the white space after it.
pub open spec fn trimmed_back(text: Seq<char>) -> Seq<char>
    decreases text.len(),
{
    if text.len() > 0 && is_space(text.last()) {
        trimmed_back(text.drop_last())
    } else {
        text
    }
}

/// The value of a row of hexadecimal digits.
pub open spec fn value_of(digits: Seq<char>) -> Option<nat>
    decreases digits.len(),
{
    if digits.len() == 0 {
        Some(0)
    } else {
        match (value_of(digits.drop_last()), text::digit_of(digits.last())) {
            (Some(value), Some(digit)) => Some(value * 16 + digit),
            _ => None,
        }
    }
}

/// A hexadecimal number that fits 32 bits: an optional plus sign and at least one
/// digit.
pub open spec fn hex_number(text: Seq<char>) -> Option<nat> {
    let digits = if text.len() > 0 && text[0] == '+' {
        text.skip(1)
    } else {
        text
    };
    if digits.len() == 0 {
        None
    } else {
        match value_of(digits) {
            Some(value) => if value <= u32::MAX {
                Some(value)
            } else {
                None
            },
            None => None,
        }
    }
}

/// A line names Logitech as the vendor: `HID_ID=<bus>:<vendor>:<product>`, each in
/// hexadecimal.
pub open spec fn is_logitech_line(line: Seq<char>) -> bool {
    let colon = next_at(line, ':', 0);
    &&& text::begins(line, "HID_ID="@)
    &&& colon < line.len()
    &&& hex_number(
        trimmed_back(
            trimmed_front(line.subrange(colon + 1, next_at(line, ':', colon + 1))),
        ),
    ) == Some(LOGITECH_VID as nat)
}

/// Some line from a position on names Logitech as the vendor.
pub open spec fn names_logitech(contents: Seq<char>, from: int) -> bool
    decreases contents.len() - from,
{
    if from >= contents.len() {
        false
    } else {
        let end = next_at(contents, '\n', from);
        ||| is_logitech_line(contents.subrange(from, end))
        ||| from <= end < contents.len() && names_logitech(contents, end + 1)
    }
}

/// The next position of a character lies between where the search starts and the
/// end.
proof fn lemma_next_at_range(text: Seq<char>, c: char, from: int)
    requires
        0 <= from <= text.len(),
    ensures
        from <= next_at(text, c, from) <= text.len(),
    decreases text.len() - from,
{
    if from < text.len() && text[from] != c {
        lemma_next_at_range(text, c, from + 1);
    }
}

/// The characters of a text.
fn chars_of(text: &str) -> (chars: Vec<char>)
    ensures
        chars@ == text@,
{
    let n = text.unicode_len();
    let mut chars: Vec<char> = Vec::new();
    let mut i: usize = 0;
    while i < n
        invariant
            n == text@.len(),
            i <= n,
            chars@ == text@.take(i as int),
        decreases n - i,
    {
        chars.push(text.get_char(i));
        i += 1;
        assert(text@.take(i as int) =~= text@.take(i - 1).push(text@[i - 1]));
    }
    assert(text@.take(n as int) =~= text@);
    chars
}

/// The characters between two positions.
fn part_of(chars: &Vec<char>, from: usize, to: usize) -> (part: Vec<char>)
    requires
        from <= to <= chars@.len(),
    ensures
        part@ == chars@.subrange(from as int, to as int),
{
    let mut part: Vec<char> = Vec::new();
    let mut i: usize = from;
    while i < to
        invariant
            from <= i <= to <= chars@.len(),
            part@ == chars@.subrange(from as int, i as int),
        decreases to - i,
    {
        part.push(chars[i]);
        i += 1;
        assert(chars@.subrange(from as int, i as int) =~= chars@.subrange(
            from as int,
            i - 1,
        ).push(chars@[i - 1]));
    }
    part
}

/// Where a character next stands, or the end.
fn find_next(chars: &Vec<char>, c: char, from: usize) -> (at: usize)
    requires
        from <= chars@.len(),
    ensures
        at == next_at(chars@, c, from as int),
        from <= at <= chars@.len(),
{
    let mut i: usize = from;
    while i < chars.len() && chars[i] != c
        invariant
            from <= i <= chars@.len(),
            next_at(chars@, c, i as int) == next_at(chars@, c, from as int),
        decreases chars@.len() - i,
    {
        i += 1;
    }
    i
}

/// Whether a character counts as white space.
fn is_white(c: char) -> (white: bool)
    ensures
        white == is_space(c),
{
    let code = c as u32;
    (0x09 <= code && code <= 0x0d) || code == 0x20 || code == 0x85 || code == 0xa0 || code == 0x1680
        || (0x2000 <= code && code <= 0x200a) || code == 0x2028 || code == 0x2029 || code == 0x202f
        || code == 0x205f || code == 0x3000
}

/// A row of characters without the white space around it.
fn trim(chars: &Vec<char>) -> (part: Vec<char>)
    ensures
        part@ == trimmed_back(trimmed_front(chars@)),
{
    let n = chars.len();
    let mut start: usize = 0;
    assert(chars@.skip(0) =~= chars@);
    while start < n && is_white(chars[start])
        invariant
            n == chars@.len(),
            start <= n,
            trimmed_front(chars@.skip(start as int)) == trimmed_front(chars@),
        decreases n - start,
    {
        assert(chars@.skip(start as int).skip(1) =~= chars@.skip(start + 1));
        assert(chars@.skip(start as int)[0] == chars@[start as int]);
        start += 1;
    }
    let ghost front = chars@.skip(start as int);
    proof {
        if start < n {
            assert(front[0] == chars@[start as int]);
        }
        assert(trimmed_front(front) == front);
        assert(chars@.subrange(start as int, n as int) =~= front);
    }
    let mut end: usize = n;
    while end > start && is_white(chars[end - 1])
        invariant
            n == chars@.len(),
            start <= end <= n,
            trimmed_back(chars@.subrange(start as int, end as int)) == trimmed_back(front),
        decreases end - start,
    {
        let ghost part = chars@.subrange(start as int, end as int);
        assert(part.drop_last() =~= chars@.subrange(start as int, end - 1));
        assert(part.last() == chars@[end - 1]);
        end -= 1;
    }
    proof {
        let part = chars@.subrange(start as int, end as int);
        if end > start {
            assert(part.last() == chars@[end - 1]);
        }
    }
    part_of(chars, start, end)
}

/// A longer row of digits has no smaller value, and none where the shorter one has
/// none.
proof fn lemma_value_grows(digits: Seq<char>, n: int)
    requires
        0 <= n <= digits.len(),
    ensures
        value_of(digits) is Some ==> value_of(digits.take(n)) is Some && value_of(
            digits.take(n),
        )->0 <= value_of(digits)->0,
    decreases digits.len() - n,
{
    if n < digits.len() {
        lemma_value_grows(digits, n + 1);
        let longer = digits.take(n + 1);
        assert(longer.drop_last() =~= digits.take(n));
        assert(longer.len() > 0);
        if value_of(longer) is Some {
            assert(value_of(longer) == Some(
                (value_of(longer.drop_last())->0 * 16 + text::digit_of(longer.last())->0) as nat,
            ));
        }
    } else {
        assert(digits.take(n) =~= digits);
    }
}

/// The value of a hexadecimal number that fits 32 bits.
fn read_hex(chars: &Vec<char>) -> (value: Option<u32>)
    ensures
        match value {
            Some(value) => hex_number(chars@) == Some(value as nat),
            None => hex_number(chars@) is None,
        },
{
    let n = chars.len();
    let start: usize = if n > 0 && chars[0] == '+' {
        1
    } else {
        0
    };
    let ghost digits = chars@.skip(start as int);
    assert(start == 0 ==> digits =~= chars@);
    if start == n {
        return None;
    }
    let mut value: u64 = 0;
    let mut i: usize = start;
    while i < n
        invariant
            n == chars@.len(),
            start <= i <= n,
            start <= 1,
            digits == chars@.skip(start as int),
            digits.len() > 0,
            hex_number(chars@) == match value_of(digits) {
                Some(value) => if value <= u32::MAX {
                    Some(value)
                } else {
                    None
                },
                None => None,
            },
            value_of(digits.take(i - start)) == Some(value as nat),
            value <= u32::MAX,
        decreases n - i,
    {
        let c = chars[i];
        proof {
            assert(digits.take(i - start + 1).drop_last() =~= digits.take(i - start));
            assert(digits.take(i - start + 1).last() == c);
            lemma_value_grows(digits, i - start + 1);
        }
        match text::read_digit(c) {
            Some(digit) => {
                value = value * 16 + digit as u64;
                if value > 0xffff_ffff {
                    return None;
                }
            },
            None => {
                return None;
            },
        }
        i += 1;
    }
    assert(digits.take(n - start) =~= digits);
    Some(value as u32)
}

/// Whether a line names Logitech as the vendor.
fn line_names_logitech(line: &Vec<char>) -> (found: bool)
    ensures
        found == is_logitech_line(line@),
{
    proof {
        reveal_strlit("HID_ID=");
    }
    if line.len() < 7 {
        return false;
    }
    let named = line[0] == 'H' && line[1] == 'I' && line[2] == 'D' && line[3] == '_' && line[4]
        == 'I' && line[5] == 'D' && line[6] == '=';
    proof {
        if named {
            assert(line@.take(7) =~= "HID_ID="@);
        } else {
            assert("HID_ID="@[0] == 'H');
            assert("HID_ID="@[1] == 'I');
            assert("HID_ID="@[2] == 'D');
            assert("HID_ID="@[3] == '_');
            assert("HID_ID="@[4] == 'I');
            assert("HID_ID="@[5] == 'D');
            assert("HID_ID="@[6] == '=');
            assert(line@.take(7)[0] == line@[0]);
            assert(line@.take(7)[1] == line@[1]);
            assert(line@.take(7)[2] == line@[2]);
            assert(line@.take(7)[3] == line@[3]);
            assert(line@.take(7)[4] == line@[4]);
            assert(line@.take(7)[5] == line@[5]);
            assert(line@.take(7)[6] == line@[6]);
        }
    }
    if !named {
        return false;
    }
    let colon = find_next(line, ':', 0);
    if colon >= line.len() {
        return false;
    }
    let end = find_next(line, ':', colon + 1);
    let vendor = trim(&part_of(line, colon + 1, end));
    match read_hex(&vendor) {
        Some(id) => id == LOGITECH_VID,
        None => false,
    }
}

/// Whether the description of a raw input node says that it belongs to Logitech:
/// one of its lines reads `HID_ID=<bus>:<vendor>:<product>` with Logitech's vendor
/// id, however many digits it is written with.
#[must_use]
pub fn is_logitech_hidraw(uevent: &str) -> (found: bool)
    ensures
        found == names_logitech(uevent@, 0),
{
    let contents = chars_of(uevent);
    let mut from: usize = 0;
    while from < contents.len()
        invariant
            contents@ == uevent@,
            from <= contents@.len(),
            names_logitech(uevent@, 0) == names_logitech(uevent@, from as int),
        decreases contents@.len() + 1 - from,
    {
        let end = find_next(&contents, '\n', from);
        let line = part_of(&contents, from, end);
        if line_names_logitech(&line) {
            return true;
        }
        if end == contents.len() {
            return false;
        }
        from = end + 1;
    }
    false
}

/// Access is only reported as granted when both kinds of node can be opened, and a
/// missing one never counts as granted.
pub proof fn law_access_needs_both(uinput_ok: bool, hidraw_ok: Option<bool>)
    ensures
        classified(uinput_ok, hidraw_ok) == PermissionStatus::Granted <==> uinput_ok && hidraw_ok
            == Some(true),
        !uinput_ok ==> classified(uinput_ok, hidraw_ok) == PermissionStatus::Denied,
{
}

/// What the probes mean: access is denied where either was, granted where both were, and
/// not known where no device was there to try.
pub proof fn law_probes_are_read(uinput_ok: bool, hidraw_ok: Option<bool>)
    ensures
        classified(uinput_ok, hidraw_ok) is Granted <==> uinput_ok && hidraw_ok == Some(true),
        classified(uinput_ok, hidraw_ok) is Denied <==> !uinput_ok || hidraw_ok == Some(false),
        classified(uinput_ok, hidraw_ok) is Unknown <==> uinput_ok && hidraw_ok is None,
{
    if hidraw_ok is Some {
        assert(hidraw_ok == Some(true) || hidraw_ok == Some(false));
    }
}

/// Which pane is opened for a permission.
pub proof fn law_panes_are_named(permission: Permission)
    ensures
        permission is Accessibility ==> pane_anchor(permission) == "Privacy_Accessibility"@,
        permission is InputMonitoring ==> pane_anchor(permission) == "Privacy_ListenEvent"@,
        permission is Bluetooth ==> pane_anchor(permission) == "Privacy_Bluetooth"@,
{
}

/// The next place of a character is the first from where the search starts, and the end
/// where there is none.
pub proof fn law_next_place_is_the_first(text: Seq<char>, c: char, from: int)
    requires
        0 <= from <= text.len(),
    ensures
        from <= next_at(text, c, from) <= text.len(),
        next_at(text, c, from) < text.len() ==> text[next_at(text, c, from)] == c,
        forall|i: int| from <= i < next_at(text, c, from) ==> text[i] != c,
    decreases text.len() - from,
{
    if from < text.len() && text[from] != c {
        law_next_place_is_the_first(text, c, from + 1);
    }
}

/// The first place of a character is where it is found.
proof fn lemma_found_at(text: Seq<char>, c: char, from: int, at: int)
    requires
        0 <= from <= at <= text.len(),
        at < text.len() ==> text[at] == c,
        forall|i: int| from <= i < at ==> text[i] != c,
    ensures
        next_at(text, c, from) == at,
{
    law_next_place_is_the_first(text, c, from);
}

/// Trimming takes spaces off both ends and nothing else: what remains neither begins nor
/// ends with a space, and what went was spaces.
pub proof fn law_trimming_takes_spaces(text: Seq<char>)
    ensures
        trimmed_front(text).len() <= text.len(),
        trimmed_front(text) == text.skip(text.len() - trimmed_front(text).len()),
        forall|i: int|
            0 <= i < text.len() - trimmed_front(text).len() ==> is_space(#[trigger] text[i]),
        trimmed_front(text).len() > 0 ==> !is_space(trimmed_front(text)[0]),
        trimmed_back(text).len() <= text.len(),
        trimmed_back(text) == text.take(trimmed_back(text).len() as int),
        forall|i: int| trimmed_back(text).len() <= i < text.len() ==> is_space(#[trigger] text[i]),
        trimmed_back(text).len() > 0 ==> !is_space(trimmed_back(text).last()),
    decreases text.len(),
{
    if text.len() > 0 && is_space(text[0]) {
        let rest = text.skip(1);
        law_trimming_takes_spaces(rest);
        assert(trimmed_front(text) =~= text.skip(text.len() - trimmed_front(text).len()));
        assert forall|i: int| 0 <= i < text.len() - trimmed_front(text).len() implies is_space(
            #[trigger] text[i],
        ) by {
            if i > 0 {
                assert(text[i] == rest[i - 1]);
            }
        }
    } else {
        assert(text.skip(0) =~= text);
    }
    if text.len() > 0 && is_space(text.last()) {
        let rest = text.drop_last();
        law_trimming_takes_spaces(rest);
        assert(trimmed_back(text) =~= text.take(trimmed_back(text).len() as int));
        assert forall|i: int| trimmed_back(text).len() <= i < text.len() implies is_space(
            #[trigger] text[i],
        ) by {
            if i < rest.len() {
                assert(text[i] == rest[i]);
            }
        }
    } else {
        assert(text.take(text.len() as int) =~= text);
    }
}

/// A hexadecimal number is read from digits alone, with or without one plus sign in
/// front, as long as it fits; the last digit counts ones.
pub proof fn law_hexadecimal_is_read(digits: Seq<char>)
    ensures
        value_of(digits) is Some <==> forall|i: int|
            0 <= i < digits.len() ==> text::digit_of(#[trigger] digits[i]) is Some,
        value_of(digits) is Some ==> value_of(digits) == Some(text::read_as(digits, 16)),
        digits.len() == 0 ==> hex_number(digits) is None,
        digits.len() > 0 && digits[0] != '+' ==> hex_number(digits) == if value_of(digits) is Some
            && text::read_as(digits, 16) <= u32::MAX {
            Some(text::read_as(digits, 16))
        } else {
            None
        },
        digits.len() > 0 && digits[0] != '+' ==> hex_number(seq!['+'] + digits) == hex_number(
            digits,
        ),
    decreases digits.len(),
{
    if digits.len() > 0 {
        let front = digits.drop_last();
        law_hexadecimal_is_read(front);
        if forall|i: int| 0 <= i < digits.len() ==> text::digit_of(#[trigger] digits[i]) is Some {
            assert forall|i: int| 0 <= i < front.len() implies text::digit_of(
                #[trigger] front[i],
            ) is Some by {
                assert(front[i] == digits[i]);
            }
            assert(text::digit_of(digits[digits.len() - 1]) is Some);
        }
        if value_of(digits) is Some {
            assert forall|i: int| 0 <= i < digits.len() implies text::digit_of(
                #[trigger] digits[i],
            ) is Some by {
                if i < front.len() {
                    assert(front[i] == digits[i]);
                }
            }
        }
        assert((seq!['+'] + digits).skip(1) =~= digits);
    }
}

/// Which line names the vendor: one that begins `HID_ID=` and has, between its first two
/// colons, the number 046D.
pub proof fn law_vendor_stands_between_the_colons(
    bus: Seq<char>,
    vendor: Seq<char>,
    rest: Seq<char>,
)
    requires
        forall|i: int| 0 <= i < bus.len() ==> bus[i] != ':',
        forall|i: int| 0 <= i < vendor.len() ==> vendor[i] != ':',
    ensures
        is_logitech_line("HID_ID="@ + bus + seq![':'] + vendor + seq![':'] + rest) <==> hex_number(
            trimmed_back(trimmed_front(vendor)),
        ) == Some(0x046dnat),
        is_logitech_line("HID_ID="@ + bus + seq![':'] + vendor) <==> hex_number(
            trimmed_back(trimmed_front(vendor)),
        ) == Some(0x046dnat),
        !is_logitech_line("HID_ID="@ + bus),
{
    reveal_strlit("HID_ID=");
    let front = "HID_ID="@ + bus;
    let short = front + seq![':'] + vendor;
    let long = short + seq![':'] + rest;
    assert forall|i: int| 0 <= i < front.len() implies front[i] != ':' by {
        if i >= 7 {
            assert(front[i] == bus[i - 7]);
        }
    }
    let colon = front.len() as int;
    assert forall|i: int| 0 <= i < colon implies short[i] != ':' && long[i] != ':' by {
        assert(short[i] == front[i] && long[i] == front[i]);
    }
    let end = colon + 1 + vendor.len();
    assert forall|i: int| colon + 1 <= i < end implies short[i] != ':' && long[i] != ':' by {
        assert(short[i] == vendor[i - colon - 1] && long[i] == vendor[i - colon - 1]);
    }
    lemma_found_at(front, ':', 0, colon);
    lemma_found_at(short, ':', 0, colon);
    lemma_found_at(long, ':', 0, colon);
    lemma_found_at(short, ':', colon + 1, end);
    lemma_found_at(long, ':', colon + 1, end);
    assert(short.subrange(colon + 1, end) =~= vendor);
    assert(long.subrange(colon + 1, end) =~= vendor);
    assert(short.take(7) =~= "HID_ID="@);
    assert(long.take(7) =~= "HID_ID="@);
}

/// The vendor is found where one of the lines names it.
pub proof fn law_any_line_names_the_vendor(contents: Seq<char>, from: int, start: int, end: int)
    requires
        0 <= from <= start <= end <= contents.len(),
        start < contents.len(),
        start == from || contents[start - 1] == '\n',
        end == contents.len() || contents[end] == '\n',
        forall|i: int| start <= i < end ==> contents[i] != '\n',
        is_logitech_line(contents.subrange(start, end)),
    ensures
        names_logitech(contents, from),
    decreases contents.len() - from,
{
    let next = next_at(contents, '\n', from);
    law_next_place_is_the_first(contents, '\n', from);
    if start == from {
        lemma_found_at(contents, '\n', from, end);
    } else {
        assert(next <= start - 1) by {
            if next > start - 1 {
                assert(contents[start - 1] != '\n');
            }
        }
        law_any_line_names_the_vendor(contents, next + 1, start, end);
    }
}

/// Without a line that names it the vendor is not found.
pub proof fn law_found_vendor_is_named(contents: Seq<char>, from: int)
    requires
        0 <= from,
        names_logitech(contents, from),
    ensures
        exists|start: int, end: int|
            from <= start <= end <= contents.len() && is_logitech_line(
                #[trigger] contents.subrange(start, end),
            ) && (end == contents.len() || contents[end] == '\n') && (start == from
                || contents[start - 1] == '\n'),
    decreases contents.len() - from,
{
    let end = next_at(contents, '\n', from);
    law_next_place_is_the_first(contents, '\n', from);
    if is_logitech_line(contents.subrange(from, end)) {
        assert(from <= from <= end <= contents.len());
    } else {
        law_found_vendor_is_named(contents, end + 1);
        let (s, e) = choose|s: int, e: int|
            end + 1 <= s <= e <= contents.len() && is_logitech_line(
                #[trigger] contents.subrange(s, e),
            ) && (e == contents.len() || contents[e] == '\n') && (s == end + 1 || contents[s - 1]
                == '\n');
        assert(contents[s - 1] == '\n');
    }
}

/// Which characters are spaces: the controls from tab to carriage return, the blank, and
/// the further spaces and separators that the standard names so.
pub proof fn law_spaces(c: char)
    ensures
        is_space('\t'),
        is_space('\n'),
        is_space('\r'),
        is_space(' '),
        '!' <= c <= '~' ==> !is_space(c),
        c as u32 > 0x3000 ==> !is_space(c),
        is_space(c) <==> (0x09 <= c as u32 <= 0x0d || c as u32 == 0x20 || c as u32 == 0x85
            || c as u32 == 0xa0 || c as u32 == 0x1680 || 0x2000 <= c as u32 <= 0x200a || c as u32
            == 0x2028 || c as u32 == 0x2029 || c as u32 == 0x202f || c as u32 == 0x205f || c as u32
            == 0x3000),
{
}

} // verus!
