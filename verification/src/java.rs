//! Java runtime detection: parsing `java -version` output.

use vstd::prelude::*;
use crate::text::{
    lemma_split_on_plain, lemma_split_on_join, lemma_split_on_nonempty,
    str_eq, is_digit, span, split_on, split_ranges, chars_of, string_from_range, index_of, find_char,
    trim_char, trim_char_bounds, char_is_digit,
};
use crate::words::{
    trimmed, trim_bounds, words, word_spans, parse_u32, parse_u32_span, is_space,
    lemma_trimmed_keeps_prefix, lemma_trimmed_word_space,
};
use crate::exec::{file_name, file_name_or_empty, decode_lossy, utf8_lossy};
use crate::types::system::JavaRuntime;

verus! {

/// The text between the first two double quotes of `line`.
pub open spec fn quoted_text(line: Seq<char>) -> Option<Seq<char>> {
    match index_of(line, '"') {
        Some(a) => match index_of(line.skip(a + 1), '"') {
            Some(b) => Some(line.subrange(a + 1, a + 1 + b)),
            None => None,
        },
        None => None,
    }
}

/// A word, stripped of surrounding quotes, that looks like a version: it
/// contains a dot and starts with a digit.
pub open spec fn version_word(w: Seq<char>) -> bool {
    let t = trim_char(w, '"');
    t.contains('.') && t.len() > 0 && is_digit(t[0])
}

/// The first word that looks like a version, stripped of quotes.
pub open spec fn first_version_word(ws: Seq<Seq<char>>) -> Option<Seq<char>>
    decreases ws.len(),
{
    if ws.len() == 0 {
        None
    } else if version_word(ws[0]) {
        Some(trim_char(ws[0], '"'))
    } else {
        first_version_word(ws.drop_first())
    }
}

/// The version in the first line of `java -version`: the quoted text, or
/// failing that the first word that looks like a version.
pub open spec fn java_version_of(line: Seq<char>) -> Option<Seq<char>> {
    match quoted_text(line) {
        Some(v) => Some(v),
        None => first_version_word(words(line)),
    }
}

fn contains_char_span(v: &Vec<char>, from: usize, to: usize, c: char) -> (r: bool)
    requires
        from <= to <= v.len(),
    ensures
        r == span(v@, from, to).contains(c),
{
    let r = find_char(v, from, to, c);
    proof {
        crate::text::lemma_index_of_contains(span(v@, from, to), c);
    }
    r.is_some()
}

/// Extract the version string from the first line of `java -version`
/// (e.g. `openjdk version "21.0.2" 2024-01-16` gives `21.0.2`).
pub fn parse_version_string(line: &str) -> (r: Option<String>)
    ensures
        match java_version_of(line@) {
            Some(v) => r matches Some(t) && t@ == v,
            None => r is None,
        },
{
    let v = chars_of(line);
    let n = v.len();
    assert(span(v@, 0, n) =~= line@);
    match find_char(&v, 0, n, '"') {
        Some(a) => {
            proof {
                assert(index_of(line@, '"') == Some(a as int));
                assert(span(v@, (a + 1) as usize, n) =~= line@.skip(a + 1));
            }
            match find_char(&v, a + 1, n, '"') {
                Some(b) => {
                    proof {
                        assert(index_of(line@.skip(a + 1), '"') == Some(b - (a + 1)));
                        assert(span(v@, (a + 1) as usize, b) =~= line@.subrange(a + 1, b as int));
                        assert(quoted_text(line@) == Some(line@.subrange(a + 1, b as int)));
                    }
                    return Some(string_from_range(&v, a + 1, b));
                },
                None => {
                    assert(index_of(line@.skip(a + 1), '"') is None);
                    assert(quoted_text(line@) is None);
                },
            }
        },
        None => {
            assert(quoted_text(line@) is None);
        },
    }
    let spans = word_spans(&v, 0);
    let ghost ws = words(line@);
    assert(v@.skip(0) =~= line@);
    let mut k: usize = 0;
    assert(ws.skip(0) =~= ws);
    while k < spans.len()
        invariant
            v@ == line@,
            ws == words(v@.skip(0)),
            spans@.len() == ws.len(),
            forall|j: int|
                0 <= j < spans@.len() ==> {
                    &&& 0 <= (#[trigger] spans@[j]).0 <= spans@[j].1 <= v.len()
                    &&& span(v@, spans@[j].0, spans@[j].1) == ws[j]
                },
            k <= spans@.len(),
            first_version_word(ws) == first_version_word(ws.skip(k as int)),
            java_version_of(line@) == first_version_word(ws),
        decreases spans@.len() - k,
    {
        let (from, to) = spans[k];
        assert(spans@[k as int] == (from, to));
        assert(ws.skip(k as int)[0] == ws[k as int]);
        assert(ws.skip(k as int).drop_first() =~= ws.skip(k + 1));
        let (a, b) = trim_char_bounds(&v, from, to, '"');
        if a < b && char_is_digit(v[a]) && contains_char_span(&v, a, b, '.') {
            proof {
                assert(span(v@, a, b)[0] == v@[a as int]);
                assert(span(v@, from, to) == ws[k as int]);
                assert(version_word(ws[k as int]));
                assert(first_version_word(ws.skip(k as int)) == Some(trim_char(ws[k as int], '"')));
            }
            return Some(string_from_range(&v, a, b));
        }
        proof {
            assert(span(v@, from, to) == ws[k as int]);
            assert(!version_word(ws[k as int]));
        }
        k = k + 1;
    }
    assert(ws.skip(k as int).len() == 0);
    None
}

/// The major version of a Java version string: its first dot-separated
/// number, except that the old `1.x` scheme gives `x`; an unreadable number
/// counts as 0 (and an unreadable `x` keeps 1).
pub open spec fn java_major(version: Seq<char>) -> int {
    let parts = split_on(version, '.');
    let first = match parse_u32(parts[0]) {
        Some(n) => n,
        None => 0,
    };
    if first == 1 {
        if parts.len() > 1 {
            match parse_u32(parts[1]) {
                Some(n) => n,
                None => 1,
            }
        } else {
            1
        }
    } else {
        first
    }
}

/// Major version of a Java version string (`"21.0.2"` → 21,
/// `"1.8.0_392"` → 8).
pub fn parse_major_version(version: &str) -> (r: u32)
    ensures
        r as int == java_major(version@),
{
    let v = chars_of(version);
    let parts = split_ranges(&v, '.');
    proof {
        crate::text::lemma_split_on_nonempty(v@, '.');
    }
    let (f0, t0) = parts[0];
    assert(parts@[0] == (f0, t0));
    let first = match parse_u32_span(&v, f0, t0) {
        Some(n) => n,
        None => 0,
    };
    if first == 1 {
        if parts.len() > 1 {
            let (f1, t1) = parts[1];
            assert(parts@[1] == (f1, t1));
            match parse_u32_span(&v, f1, t1) {
                Some(n) => n,
                None => 1,
            }
        } else {
            1
        }
    } else {
        first
    }
}

/// Name shown for a runtime whose name line is empty.
pub open spec fn unknown_runtime() -> Seq<char> {
    "Unknown Java Runtime"@
}

/// The runtime name in the second line of `java -version`: the trimmed text
/// before the first `(`, when that is not empty; otherwise the trimmed line,
/// or a fixed name for an empty line.
pub open spec fn runtime_name_of(line: Seq<char>) -> Seq<char> {
    let t = trimmed(line);
    let whole = if t.len() == 0 {
        unknown_runtime()
    } else {
        t
    };
    match index_of(t, '(') {
        Some(p) => if trimmed(t.take(p)).len() > 0 {
            trimmed(t.take(p))
        } else {
            whole
        },
        None => whole,
    }
}

/// The runtime name of a line `<name> (<details>`: the name before the
/// parenthesis, e.g. `OpenJDK Runtime Environment` from `OpenJDK Runtime
/// Environment (build 21.0.2+13-58)`.
pub proof fn law_runtime_name_before_parenthesis(name: Seq<char>, details: Seq<char>)
    requires
        name.len() > 0,
        !is_space(name[0]),
        !is_space(name.last()),
        !name.contains('('),
    ensures
        runtime_name_of(name + " ("@ + details) == name,
{
    reveal_strlit(" (");
    let head = name.push(' ');
    let line = name + " ("@ + details;
    let n = name.len() as int + 2;
    assert(line[0] == name[0]);
    assert(line[n - 1] == '(');
    lemma_trimmed_keeps_prefix(line, n);
    let t = trimmed(line);
    assert(line.take(n) =~= head.push('('));
    assert(!head.contains('(')) by {
        if head.contains('(') {
            let k = choose|k: int| 0 <= k < head.len() && head[k] == '(';
            if k < name.len() {
                assert(name[k] == head[k]);
            }
        }
    }
    let tail = t.skip(n);
    assert(t.take(n) == head.push('('));
    assert(head.push('(') =~= head + seq!['(']);
    assert(t =~= t.take(n) + tail);
    assert(t =~= head + seq!['('] + tail);
    crate::text::lemma_index_of_after(head, '(', tail);
    assert(t.take(name.len() as int + 1) =~= head);
    lemma_trimmed_word_space(name, ' ');
}

/// Extract the runtime name from the second line of `java -version`.
pub fn parse_runtime_name(line: &str) -> (r: String)
    ensures
        r@ == runtime_name_of(line@),
{
    let v = chars_of(line);
    let (a, b) = trim_bounds(&v);
    let tv = {
        let s = string_from_range(&v, a, b);
        chars_of(s.as_str())
    };
    let n = tv.len();
    assert(span(tv@, 0, n) =~= tv@);
    if let Some(p) = find_char(&tv, 0, n, '(') {
        let prefix = string_from_range(&tv, 0, p);
        assert(span(tv@, 0, p) =~= tv@.take(p as int));
        let pv = chars_of(prefix.as_str());
        let (c, d) = trim_bounds(&pv);
        if c < d {
            return string_from_range(&pv, c, d);
        }
    }
    if n == 0 {
        String::from_str("Unknown Java Runtime")
    } else {
        string_from_range(&tv, 0, n)
    }
}

/// Environment variables for a Java runtime: `JAVA_HOME` set to its home.
pub fn generate_java_env_vars(java_home: &str) -> (r: Vec<(String, String)>)
    ensures
        r@.len() == 1,
        r@[0].0@ == "JAVA_HOME"@,
        r@[0].1@ == java_home@,
{
    let mut env: Vec<(String, String)> = Vec::new();
    env.push((String::from_str("JAVA_HOME"), String::from_str(java_home)));
    env
}

// ─── One runtime ───

/// The parent of the path `p`, as `std::path::Path::parent` gives it.
pub uninterp spec fn path_parent(p: Seq<char>) -> Option<Seq<char>>;

/// `std::path::Path::parent`, as text.  Claimed: the result is the one
/// [`path_parent`] names; a path built from text converts back losslessly.
#[verifier::external_body]
pub(crate) fn parent_of(p: &str) -> (r: Option<String>)
    ensures
        match r {
            Some(q) => path_parent(p@) == Some(q@),
            None => path_parent(p@) is None,
        },
{
    match std::path::Path::new(p).parent() {
        Some(q) => Some(q.to_string_lossy().into_owned()),
        None => None,
    }
}

/// The `JAVA_HOME` of a `java` binary: the directory above its `bin`
/// directory; the binary's own path when it does not sit in a `bin`
/// directory.
pub open spec fn java_home_of(java_path: Seq<char>) -> Seq<char> {
    match path_parent(java_path) {
        Some(bin) => if file_name_or_empty(bin) == "bin"@ {
            match path_parent(bin) {
                Some(home) => home,
                None => java_path,
            }
        } else {
            java_path
        },
        None => java_path,
    }
}

/// Derive `JAVA_HOME` from the path of a `java` binary (see
/// [`java_home_of`]).
pub fn java_home_for(java_path: &str) -> (r: String)
    ensures
        r@ == java_home_of(java_path@),
{
    match parent_of(java_path) {
        Some(bin) => {
            let name = file_name(bin.as_str());
            if str_eq(name.as_str(), "bin") {
                match parent_of(bin.as_str()) {
                    Some(home) => home,
                    None => String::from_str(java_path),
                }
            } else {
                String::from_str(java_path)
            }
        },
        None => String::from_str(java_path),
    }
}

/// The runtime described by the output of `<java_path> -version`: the
/// version from its first line (none without one), the name from its
/// second line, and the home derived from the path.  The default flag is
/// left for the caller.
pub open spec fn runtime_from_output(text: Seq<char>, java_path: Seq<char>) -> Option<
    (Seq<char>, int, Seq<char>, Seq<char>),
> {
    let lines = split_on(text, '\n');
    match java_version_of(lines[0]) {
        Some(v) => Some(
            (
                v,
                java_major(v),
                if lines.len() > 1 {
                    runtime_name_of(lines[1])
                } else {
                    unknown_runtime()
                },
                java_home_of(java_path),
            ),
        ),
        None => None,
    }
}

/// The runtime read from `java -version` output whose first line is
/// `first` and whose second line is `second` (whatever follows): its
/// version is the one the first line names, and its name is the one the
/// second line names, the line right after the version line.  Output of a
/// single line names no runtime.
pub proof fn law_runtime_name_from_second_line(
    first: Seq<char>,
    second: Seq<char>,
    rest: Seq<char>,
    java_path: Seq<char>,
)
    requires
        !first.contains('\n'),
        !second.contains('\n'),
    ensures
        runtime_from_output(first + seq!['\n'] + second + seq!['\n'] + rest, java_path) == match java_version_of(first) {
            Some(v) => Some((v, java_major(v), runtime_name_of(second), java_home_of(java_path))),
            None => None,
        },
        runtime_from_output(first + seq!['\n'] + second, java_path) == match java_version_of(first) {
            Some(v) => Some((v, java_major(v), runtime_name_of(second), java_home_of(java_path))),
            None => None,
        },
        runtime_from_output(first, java_path) == match java_version_of(first) {
            Some(v) => Some((v, java_major(v), unknown_runtime(), java_home_of(java_path))),
            None => None,
        },
{
    lemma_split_on_plain(first, '\n');
    lemma_split_on_plain(second, '\n');
    lemma_split_on_join(first, second, '\n');
    lemma_split_on_join(first + seq!['\n'] + second, rest, '\n');
    lemma_split_on_nonempty(rest, '\n');
    let lines = split_on(first + seq!['\n'] + second + seq!['\n'] + rest, '\n');
    assert(lines == seq![first, second] + split_on(rest, '\n'));
    assert(lines[0] == first && lines[1] == second);
}

/// Read a runtime from the output of `<java_path> -version` (see
/// [`runtime_from_output`]); `is_default` is `false`.
pub fn java_runtime_from_output(text: &str, java_path: &str) -> (r: Option<JavaRuntime>)
    ensures
        match runtime_from_output(text@, java_path@) {
            Some((v, major, name, home)) => r matches Some(rt) && rt.version@ == v
                && rt.major_version == major && rt.runtime_name@ == name && rt.java_home@ == home
                && rt.path@ == java_path@ && !rt.is_default,
            None => r is None,
        },
{
    let v = chars_of(text);
    let lines = split_ranges(&v, '\n');
    let ghost all = split_on(text@, '\n');
    proof {
        crate::text::lemma_split_on_nonempty(text@, '\n');
    }
    let (a0, b0) = lines[0];
    let first = string_from_range(&v, a0, b0);
    let version = match parse_version_string(first.as_str()) {
        Some(x) => x,
        None => {
            return None;
        },
    };
    let major = parse_major_version(version.as_str());
    let runtime_name = if lines.len() > 1 {
        let (a1, b1) = lines[1];
        let second = string_from_range(&v, a1, b1);
        parse_runtime_name(second.as_str())
    } else {
        String::from_str("Unknown Java Runtime")
    };
    Some(
        JavaRuntime {
            path: String::from_str(java_path),
            java_home: java_home_for(java_path),
            version,
            major_version: major,
            runtime_name,
            is_default: false,
        },
    )
}

/// The text a `java -version` probe printed: its standard error when that
/// is not empty (where `java -version` writes), else its standard output.
pub open spec fn probe_text(stderr: Seq<u8>, stdout: Seq<u8>) -> Seq<char> {
    if stderr.len() > 0 {
        utf8_lossy(stderr)
    } else {
        utf8_lossy(stdout)
    }
}

/// The runtime read from what `<java_path> -version` printed (see
/// [`probe_text`] and [`java_runtime_from_output`]).
pub fn java_runtime_from_probe(stderr: &[u8], stdout: &[u8], java_path: &str) -> (r: Option<
    JavaRuntime,
>)
    ensures
        match runtime_from_output(probe_text(stderr@, stdout@), java_path@) {
            Some((v, major, name, home)) => r matches Some(rt) && rt.version@ == v
                && rt.major_version == major && rt.runtime_name@ == name && rt.java_home@ == home
                && rt.path@ == java_path@ && !rt.is_default,
            None => r is None,
        },
{
    let text = if stderr.len() > 0 {
        decode_lossy(stderr)
    } else {
        decode_lossy(stdout)
    };
    java_runtime_from_output(text.as_str(), java_path)
}

} // verus!
