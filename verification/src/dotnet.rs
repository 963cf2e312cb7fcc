//! .NET runtime detection: parsing `dotnet --list-runtimes` output and the
//! environment a .NET server needs.

use vstd::prelude::*;
use crate::text::{span, chars_of, string_from_range, index_of, find_char, decimal_digits, is_digit, lemma_index_of_after};
use crate::numeric::{lemma_decimal_digits_read_back, lemma_digit_run_whole};
use crate::words::{trimmed, trim_bounds, words, word_spans, parse_u32, parse_u32_span};
use crate::types::system::DotnetRuntime;

verus! {

/// The part of `s` before the first `sep` (all of `s` when there is none),
/// i.e. the first item of `s.split(sep)`.
pub open spec fn first_piece(s: Seq<char>, sep: char) -> Seq<char> {
    match index_of(s, sep) {
        Some(i) => s.take(i),
        None => s,
    }
}

/// Major version of a .NET version string: the number before the first
/// `.` (and before any `-`), or 0 when there is none.
pub open spec fn dotnet_major(version: Seq<char>) -> int {
    match parse_u32(first_piece(first_piece(version, '.'), '-')) {
        Some(n) => n,
        None => 0,
    }
}

/// Major version of a .NET version string (`"9.0.0-preview.1"` → 9).
pub fn parse_major_version(version: &str) -> (r: u32)
    ensures
        r as int == dotnet_major(version@),
{
    let v = chars_of(version);
    let n = v.len();
    assert(span(v@, 0, n) =~= version@);
    let end = match find_char(&v, 0, n, '.') {
        Some(d) => d,
        None => n,
    };
    assert(span(v@, 0, end) =~= first_piece(version@, '.'));
    let end2 = match find_char(&v, 0, end, '-') {
        Some(d) => d,
        None => end,
    };
    assert(span(v@, 0, end2) =~= first_piece(first_piece(version@, '.'), '-'));
    match parse_u32_span(&v, 0, end2) {
        Some(x) => x,
        None => 0,
    }
}

/// Decimal digits hold no `.` and no `-`.
proof fn lemma_digits_plain(n: nat)
    ensures
        !decimal_digits(n).contains('.'),
        !decimal_digits(n).contains('-'),
        decimal_digits(n).len() > 0 && decimal_digits(n)[0] != '+',
{
    lemma_decimal_digits_read_back(n);
    let d = decimal_digits(n);
    assert(is_digit(d[0]));
    if d.contains('.') {
        let k = choose|k: int| 0 <= k < d.len() && d[k] == '.';
        assert(is_digit(d[k]));
    }
    if d.contains('-') {
        let k = choose|k: int| 0 <= k < d.len() && d[k] == '-';
        assert(is_digit(d[k]));
    }
}

/// The major version of a version that starts with a number followed by
/// `.` or `-` is that whole number: `"10.0.0"` has major version 10,
/// `"8-preview.1"` has 8, whatever follows.
pub proof fn law_dotnet_major_is_leading_number(n: u32, rest: Seq<char>)
    ensures
        dotnet_major(decimal_digits(n as nat) + seq!['.'] + rest) == n,
        dotnet_major(decimal_digits(n as nat) + seq!['-'] + rest) == n,
{
    let d = decimal_digits(n as nat);
    lemma_digits_plain(n as nat);
    lemma_decimal_digits_read_back(n as nat);
    lemma_digit_run_whole(d);
    lemma_index_of_after(d, '.', rest);
    lemma_index_of_after(d, '-', rest);
    assert((d + seq!['.'] + rest).take(d.len() as int) =~= d);
    assert((d + seq!['-'] + rest).take(d.len() as int) =~= d);
    assert(first_piece(d, '-') == d);
    let v = d + seq!['-'] + rest;
    crate::text::lemma_index_of_contains(v, '.');
    if let Some(j) = index_of(v, '.') {
        // The first `.` lies beyond the `-` that ends the number.
        if j <= d.len() {
            assert(v[j] == if j < d.len() { d[j] } else { '-' });
            if j < d.len() {
                assert(d.contains('.'));
            }
        }
        let tail = v.take(j).skip(d.len() as int + 1);
        assert(v.take(j) =~= d + seq!['-'] + tail);
        lemma_index_of_after(d, '-', tail);
        assert(v.take(j).take(d.len() as int) =~= d);
    }
}

/// The words of `ws` joined by single spaces.
pub open spec fn join_words(ws: Seq<Seq<char>>) -> Seq<char>
    decreases ws.len(),
{
    if ws.len() == 0 {
        Seq::empty()
    } else if ws.len() == 1 {
        ws[0]
    } else {
        join_words(ws.drop_last()) + " "@ + ws.last()
    }
}

/// `p` without its surrounding brackets when it is `[...]`.
pub open spec fn unbracketed(p: Seq<char>) -> Seq<char> {
    if p.len() >= 2 && p[0] == '[' && p.last() == ']' {
        p.subrange(1, p.len() - 1)
    } else {
        p
    }
}

/// A line of `dotnet --list-runtimes` describes a runtime when, trimmed, it
/// has at least three words: name, version, and the (bracketed) path.
pub open spec fn runtime_line_words(line: Seq<char>) -> Option<Seq<Seq<char>>> {
    let t = trimmed(line);
    if t.len() == 0 || words(t).len() < 3 {
        None
    } else {
        Some(words(t))
    }
}

/// `rt` is the runtime that a line with the words `ws` describes, found in
/// the installation at `root`.
pub open spec fn describes_runtime(
    rt: DotnetRuntime,
    ws: Seq<Seq<char>>,
    root: Seq<char>,
    is_default: bool,
) -> bool {
    &&& rt.runtime_name@ == ws[0]
    &&& rt.version@ == ws[1]
    &&& rt.major_version as int == dotnet_major(ws[1])
    &&& rt.runtime_path@ == unbracketed(join_words(ws.skip(2)))
    &&& rt.installation_root@ == root
    &&& rt.is_default == is_default
}

/// Parse one line of `dotnet --list-runtimes`
/// (`Microsoft.NETCore.App 6.0.36 [/usr/share/dotnet/shared/...]`).
pub fn parse_runtime_line(line: &str, installation_root: &str, is_default: bool) -> (r: Option<
    DotnetRuntime,
>)
    ensures
        match runtime_line_words(line@) {
            Some(ws) => r matches Some(rt) && describes_runtime(
                rt,
                ws,
                installation_root@,
                is_default,
            ),
            None => r is None,
        },
{
    let v = chars_of(line);
    let (a, b) = trim_bounds(&v);
    if a == b {
        return None;
    }
    let tv = {
        let t = string_from_range(&v, a, b);
        chars_of(t.as_str())
    };
    let ghost t = trimmed(line@);
    assert(tv@ == t);
    assert(tv@.skip(0) =~= t);
    let spans = word_spans(&tv, 0);
    if spans.len() < 3 {
        return None;
    }
    let ghost ws = words(t);
    let (n0, n1) = spans[0];
    let (v0, v1) = spans[1];
    assert(spans@[0] == (n0, n1));
    assert(spans@[1] == (v0, v1));
    let runtime_name = string_from_range(&tv, n0, n1);
    let version = string_from_range(&tv, v0, v1);
    let mut joined = String::new();
    let mut k: usize = 2;
    let (p0, p1) = spans[2];
    assert(spans@[2] == (p0, p1));
    joined = string_from_range(&tv, p0, p1);
    k = 3;
    assert(ws.skip(2).take(1) =~= seq![ws[2]]);
    while k < spans.len()
        invariant
            3 <= k <= spans@.len(),
            ws == words(tv@.skip(0)),
            spans@.len() == ws.len(),
            forall|j: int|
                0 <= j < spans@.len() ==> {
                    &&& 0 <= (#[trigger] spans@[j]).0 <= spans@[j].1 <= tv.len()
                    &&& span(tv@, spans@[j].0, spans@[j].1) == ws[j]
                },
            joined@ == join_words(ws.skip(2).take(k - 2)),
        decreases spans@.len() - k,
    {
        let (q0, q1) = spans[k];
        assert(spans@[k as int] == (q0, q1));
        let piece = string_from_range(&tv, q0, q1);
        joined.append(" ");
        joined.append(piece.as_str());
        assert(ws.skip(2).take(k + 1 - 2).drop_last() =~= ws.skip(2).take(k - 2));
        assert(ws.skip(2).take(k + 1 - 2).last() == ws[k as int]);
        k = k + 1;
    }
    assert(ws.skip(2).take(k - 2) =~= ws.skip(2));
    let jv = chars_of(joined.as_str());
    let jn = jv.len();
    let runtime_path = if jn >= 2 && jv[0] == '[' && jv[jn - 1] == ']' {
        assert(span(jv@, 1, (jn - 1) as usize) =~= jv@.subrange(1, jn - 1));
        string_from_range(&jv, 1, jn - 1)
    } else {
        joined
    };
    let major_version = parse_major_version(version.as_str());
    Some(DotnetRuntime {
        runtime_name,
        version,
        major_version,
        runtime_path,
        installation_root: String::from_str(installation_root),
        is_default,
    })
}

/// Installation roots in the Nix store need extra library paths.
pub open spec fn is_nix_store_root(root: Seq<char>) -> bool {
    root.len() >= 10 && root.take(10) == "/nix/store"@
}

/// `true` when `root` lies in the Nix store (starts with `/nix/store`), so
/// that library paths must be looked up for it.
pub fn needs_nix_library_paths(root: &str) -> (r: bool)
    ensures
        r == is_nix_store_root(root@),
{
    let prefix = "/nix/store";
    proof {
        reveal_strlit("/nix/store");
    }
    let n = root.unicode_len();
    if n < 10 {
        return false;
    }
    let mut i: usize = 0;
    while i < 10
        invariant
            n == root@.len(),
            n >= 10,
            i <= 10,
            prefix@ == "/nix/store"@,
            prefix@.len() == 10,
            forall|k: int| 0 <= k < i ==> root@[k] == prefix@[k],
        decreases 10 - i,
    {
        if root.get_char(i) != prefix.get_char(i) {
            assert(root@.take(10)[i as int] != "/nix/store"@[i as int]);
            return false;
        }
        i = i + 1;
    }
    assert(root@.take(10) =~= "/nix/store"@);
    true
}

/// The `LD_LIBRARY_PATH` entries of a Nix-store installation: its root, the
/// library directories found in the store, then the system profile's lib.
pub open spec fn nix_library_path(root: Seq<char>, found: Seq<String>) -> Seq<Seq<char>> {
    seq![root] + found.map_values(|s: String| s@) + seq![
        "/run/current-system/sw/lib"@,
    ]
}

/// Entries joined with `:`.
pub open spec fn colon_joined(ps: Seq<Seq<char>>) -> Seq<char>
    decreases ps.len(),
{
    if ps.len() == 0 {
        Seq::empty()
    } else if ps.len() == 1 {
        ps[0]
    } else {
        colon_joined(ps.drop_last()) + ":"@ + ps.last()
    }
}

/// Environment variables for a .NET runtime: `DOTNET_ROOT`, the bundle
/// extraction directory (under the server directory when there is one),
/// and for a Nix-store root `LD_LIBRARY_PATH` built from the library
/// directories found there (`found_lib_dirs`, looked up by the caller).
pub fn generate_dotnet_env_vars(
    dotnet_root: &str,
    server_dir: Option<&str>,
    found_lib_dirs: &Vec<String>,
) -> (r: Vec<(String, String)>)
    ensures
        r@.len() == if is_nix_store_root(dotnet_root@) {
            3nat
        } else {
            2nat
        },
        r@[0].0@ == "DOTNET_ROOT"@,
        r@[0].1@ == dotnet_root@,
        r@[1].0@ == "DOTNET_BUNDLE_EXTRACT_BASE_DIR"@,
        r@[1].1@ == match server_dir {
            Some(d) => d@ + "/.dotnet_bundle_cache"@,
            None => "./.dotnet_bundle_cache"@,
        },
        is_nix_store_root(dotnet_root@) ==> r@[2].0@ == "LD_LIBRARY_PATH"@ && r@[2].1@
            == colon_joined(nix_library_path(dotnet_root@, found_lib_dirs@)),
{
    let mut env: Vec<(String, String)> = Vec::new();
    env.push((String::from_str("DOTNET_ROOT"), String::from_str(dotnet_root)));
    let extract_dir = match server_dir {
        Some(dir) => {
            let mut d = String::from_str(dir);
            d.append("/.dotnet_bundle_cache");
            d
        },
        None => String::from_str("./.dotnet_bundle_cache"),
    };
    env.push((String::from_str("DOTNET_BUNDLE_EXTRACT_BASE_DIR"), extract_dir));
    if needs_nix_library_paths(dotnet_root) {
        let ghost all = nix_library_path(dotnet_root@, found_lib_dirs@);
        let mut joined = String::from_str(dotnet_root);
        let mut i: usize = 0;
        assert(all.take(1) =~= seq![dotnet_root@]);
        while i < found_lib_dirs.len()
            invariant
                i <= found_lib_dirs@.len(),
                all == nix_library_path(dotnet_root@, found_lib_dirs@),
                joined@ == colon_joined(all.take(i + 1)),
            decreases found_lib_dirs@.len() - i,
        {
            joined.append(":");
            joined.append(found_lib_dirs[i].as_str());
            assert(all.take(i + 2).drop_last() =~= all.take(i + 1));
            assert(all.take(i + 2).last() == found_lib_dirs@[i as int]@);
            i = i + 1;
        }
        joined.append(":");
        joined.append("/run/current-system/sw/lib");
        assert(all.take(i + 2) =~= all);
        assert(all.take(i + 2).drop_last() =~= all.take(i + 1));
        env.push((String::from_str("LD_LIBRARY_PATH"), joined));
    }
    env
}

} // verus!
