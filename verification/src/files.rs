//! File listing types and Unix permission helpers.

use vstd::prelude::*;
use crate::text::{push_char, chars_of};
use crate::time::DateTimeUtc;

verus! {

/// The ASCII digit for `d` (`0 <= d < 8`).
pub open spec fn octal_char(d: int) -> char {
    (d + 48) as char
}

/// Octal representation of `n`, without leading zeros.
pub open spec fn octal_digits(n: nat) -> Seq<char>
    decreases n,
{
    if n < 8 {
        seq![octal_char(n as int)]
    } else {
        octal_digits(n / 8).push(octal_char((n % 8) as int))
    }
}

fn octal_digit_char(d: u32) -> (c: char)
    requires
        d < 8,
    ensures
        c == octal_char(d as int),
{
    if d == 0 {
        '0'
    } else if d == 1 {
        '1'
    } else if d == 2 {
        '2'
    } else if d == 3 {
        '3'
    } else if d == 4 {
        '4'
    } else if d == 5 {
        '5'
    } else if d == 6 {
        '6'
    } else {
        '7'
    }
}

/// Octal form of the permission bits of a Unix mode (`0o755` → `"755"`).
pub fn mode_to_octal_string(mode: u32) -> (r: String)
    ensures
        r@ == octal_digits((mode % 4096) as nat),
{
    let n: u32 = mode & 0o7777;
    assert(mode & 0o7777 == mode % 4096) by (bit_vector);
    let mut rev: Vec<char> = Vec::new();
    let mut m: u32 = n;
    loop
        invariant_except_break
            0 < rev@.len() ==> octal_digits(n as nat) == octal_digits(m as nat) + rev@.reverse(),
            rev@.len() == 0 ==> m == n,
        ensures
            0 < rev@.len(),
            octal_digits(n as nat) == rev@.reverse(),
        decreases m,
    {
        let c = octal_digit_char(m % 8);
        let ghost old_rev = rev@;
        rev.push(c);
        assert(rev@.reverse() =~= seq![c] + old_rev.reverse());
        if m < 8 {
            assert(octal_digits(m as nat) =~= seq![c]);
            assert(octal_digits(n as nat) =~= rev@.reverse());
            break;
        }
        assert(octal_digits(m as nat) == octal_digits((m / 8) as nat).push(c));
        m = m / 8;
        assert(octal_digits(n as nat) =~= octal_digits(m as nat) + rev@.reverse());
    }
    let mut s = String::new();
    let mut k: usize = rev.len();
    while k > 0
        invariant
            k <= rev@.len(),
            s@ == rev@.reverse().take(rev@.len() - k),
        decreases k,
    {
        k = k - 1;
        push_char(&mut s, rev[k]);
        assert(rev@.reverse().take(rev@.len() - k) =~= rev@.reverse().take(rev@.len() - k - 1).push(
            rev@[k as int],
        ));
    }
    assert(rev@.reverse().take(rev@.len() as int) =~= rev@.reverse());
    s
}

/// `c` when `mode` has `bit` set, `-` otherwise.
pub open spec fn perm_char(mode: u32, bit: u32, c: char) -> char {
    if mode & bit != 0 {
        c
    } else {
        '-'
    }
}

/// The `rwxrwxrwx` form of the permission bits of a mode.
pub open spec fn rwx_string(mode: u32) -> Seq<char> {
    seq![
        perm_char(mode, 0o400, 'r'),
        perm_char(mode, 0o200, 'w'),
        perm_char(mode, 0o100, 'x'),
        perm_char(mode, 0o040, 'r'),
        perm_char(mode, 0o020, 'w'),
        perm_char(mode, 0o010, 'x'),
        perm_char(mode, 0o004, 'r'),
        perm_char(mode, 0o002, 'w'),
        perm_char(mode, 0o001, 'x'),
    ]
}

fn push_perm(s: &mut String, mode: u32, bit: u32, c: char)
    ensures
        final(s)@ == old(s)@.push(perm_char(mode, bit, c)),
{
    if mode & bit != 0 {
        push_char(s, c);
    } else {
        push_char(s, '-');
    }
}

/// Human-readable permission string of a mode (`0o755` → `"rwxr-xr-x"`).
pub fn mode_to_rwx_string(mode: u32) -> (r: String)
    ensures
        r@ == rwx_string(mode),
{
    let mut s = String::new();
    push_perm(&mut s, mode, 0o400, 'r');
    push_perm(&mut s, mode, 0o200, 'w');
    push_perm(&mut s, mode, 0o100, 'x');
    push_perm(&mut s, mode, 0o040, 'r');
    push_perm(&mut s, mode, 0o020, 'w');
    push_perm(&mut s, mode, 0o010, 'x');
    push_perm(&mut s, mode, 0o004, 'r');
    push_perm(&mut s, mode, 0o002, 'w');
    push_perm(&mut s, mode, 0o001, 'x');
    assert(s@ =~= rwx_string(mode));
    s
}

/// `c` is an octal digit.
pub open spec fn is_octal(c: char) -> bool {
    '0' <= c && c <= '7'
}

/// Value of a sequence of octal digits.
pub open spec fn octal_value(s: Seq<char>) -> int
    decreases s.len(),
{
    if s.len() == 0 {
        0
    } else {
        octal_value(s.drop_last()) * 8 + ((s.last() as int) - 48)
    }
}

/// `s` without one leading `+`.
pub open spec fn strip_plus(s: Seq<char>) -> Seq<char> {
    if s.len() > 0 && s[0] == '+' {
        s.drop_first()
    } else {
        s
    }
}

/// Every character of `t` is an octal digit.
pub open spec fn all_octal(t: Seq<char>) -> bool {
    forall|k: int| 0 <= k < t.len() ==> is_octal(#[trigger] t[k])
}

/// `s` read the way `u32::from_str_radix(s, 8)` reads it: an optional `+`,
/// then one or more octal digits, with a value that fits in a `u32`.
pub open spec fn parse_octal(s: Seq<char>) -> Option<int> {
    let t = strip_plus(s);
    if t.len() > 0 && all_octal(t) && octal_value(t) <= u32::MAX {
        Some(octal_value(t))
    } else {
        None
    }
}

/// The octal digits of `n` are a non-empty run of octal digits, not
/// starting with `+`, whose value is `n`.
proof fn lemma_octal_digits_read_back(n: nat)
    ensures
        octal_digits(n).len() > 0,
        octal_digits(n)[0] != '+',
        all_octal(octal_digits(n)),
        octal_value(octal_digits(n)) == n,
    decreases n,
{
    if n < 8 {
        let c = octal_char(n as int);
        assert(c as int == n + 48);
        assert(octal_digits(n) == seq![c]);
        assert(seq![c].drop_last() =~= Seq::<char>::empty());
        assert(octal_value(Seq::<char>::empty()) == 0);
        assert(octal_value(seq![c]) == octal_value(Seq::<char>::empty()) * 8 + ((c as int) - 48));
    } else {
        lemma_octal_digits_read_back(n / 8);
        let prev = octal_digits(n / 8);
        let c = octal_char((n % 8) as int);
        assert(c as int == n % 8 + 48);
        assert(octal_digits(n) == prev.push(c));
        assert(prev.push(c).drop_last() =~= prev);
        assert(prev.push(c)[0] == prev[0]);
        assert forall|k: int| 0 <= k < prev.push(c).len() implies is_octal(#[trigger] prev.push(c)[k]) by {
            if k < prev.len() {
                assert(prev.push(c)[k] == prev[k]);
            }
        }
        assert(octal_value(prev.push(c)) == octal_value(prev) * 8 + ((c as int) - 48));
        assert((n / 8) * 8 + n % 8 == n);
    }
}

/// Law: the octal form of a mode's permission bits parses back to those
/// bits (`mode_to_octal_string` then `parse_octal_mode`).
pub proof fn law_mode_octal_round_trip(mode: u32)
    ensures
        parse_octal(octal_digits((mode % 4096) as nat)) == Some((mode % 4096) as int),
        (mode % 4096) as int <= 4095,
{
    lemma_octal_digits_read_back((mode % 4096) as nat);
}

/// Parse an octal mode string (`"755"`); `None` when it is not an octal
/// number or exceeds `0o7777`.
pub fn parse_octal_mode(s: &str) -> (r: Option<u32>)
    ensures
        match parse_octal(s@) {
            Some(n) => if n <= 4095 {
                r matches Some(m) && m as int == n
            } else {
                r is None
            },
            None => r is None,
        },
{
    let v = chars_of(s);
    let n = v.len();
    let start: usize = if n > 0 && v[0] == '+' {
        1
    } else {
        0
    };
    let ghost t = strip_plus(s@);
    assert(t =~= v@.skip(start as int));
    if start == n {
        return None;
    }
    let mut i: usize = start;
    let mut value: Option<u32> = Some(0);
    assert(t.take(0) =~= Seq::<char>::empty());
    while i < n
        invariant
            start <= i <= n == v.len(),
            t == v@.skip(start as int),
            t == strip_plus(s@),
            forall|k: int| 0 <= k < i - start ==> is_octal(#[trigger] t[k]),
            match value {
                Some(x) => x as int == octal_value(t.take(i - start)),
                None => octal_value(t.take(i - start)) > u32::MAX,
            },
            octal_value(t.take(i - start)) >= 0,
        decreases n - i,
    {
        let c = v[i];
        let ghost j: int = i - start;
        assert(t[j] == c);
        if !('0' <= c && c <= '7') {
            assert(!is_octal(t[j]));
            return None;
        }
        assert(t.take(j + 1).drop_last() =~= t.take(j));
        let d: u32 = (c as u32) - 48;
        value = match value {
            Some(x) => match x.checked_mul(8) {
                Some(y) => y.checked_add(d),
                None => None,
            },
            None => None,
        };
        i = i + 1;
    }
    assert(t.take(n - start) =~= t);
    match value {
        Some(m) => if m <= 0o7777 {
            Some(m)
        } else {
            None
        },
        None => None,
    }
}

/// Kind of a directory entry.
#[derive(Clone, Copy, Debug, PartialEq, Eq, Structural)]
pub enum FileEntryKind {
    File,
    Directory,
}

/// A directory entry.
#[derive(Clone, Debug)]
pub struct FileEntry {
    pub name: String,
    pub path: String,
    pub kind: FileEntryKind,
    pub size: u64,
    pub modified: Option<DateTimeUtc>,
    /// Octal permission string (e.g. `"755"`).
    pub mode: Option<String>,
}

/// A directory listing.
#[derive(Clone, Debug)]
pub struct FileListResponse {
    pub path: String,
    pub entries: Vec<FileEntry>,
}

/// The content of a file.
#[derive(Clone, Debug)]
pub struct FileContentResponse {
    pub path: String,
    pub content: String,
    pub size: u64,
}

/// Request to write a file.
#[derive(Clone, Debug)]
pub struct WriteFileRequest {
    pub path: String,
    pub content: String,
}

/// Request to create a directory.
#[derive(Clone, Debug)]
pub struct CreateDirRequest {
    pub path: String,
}

/// Request to delete a path.
#[derive(Clone, Debug)]
pub struct DeleteRequest {
    pub path: String,
}

/// Request to change a path's mode.
#[derive(Clone, Debug)]
pub struct ChmodRequest {
    pub path: String,
    /// Octal mode string, e.g. `"755"`.
    pub mode: String,
}

/// Permission details of a path.
#[derive(Clone, Debug)]
pub struct FilePermissionsResponse {
    pub path: String,
    pub mode: String,
    pub mode_display: String,
    pub is_directory: bool,
    pub uid: u32,
    pub gid: u32,
    pub owner: Option<String>,
    pub group: Option<String>,
}

} // verus!
