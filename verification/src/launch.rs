//! What a server is launched with: its binary, working directory and
//! environment, from its configuration, the start pipeline's settings and
//! the template variables.

use vstd::prelude::*;
use crate::text::{substitute_all, has_substring, contains_text};
use crate::update_check::{lookup, find_key, lemma_lookup_push, substitute_variables};
use crate::types::ws::LogLine;
use crate::exec::{file_name, file_name_or_empty};
use crate::java::{parent_of, path_parent};

verus! {

// ─── Paths ───

/// `dir` joined with `rel` as `Path::join` does it: an absolute `rel`
/// replaces `dir`, and a separator is added unless `dir` is empty or ends
/// in one.
pub open spec fn join_path(dir: Seq<char>, rel: Seq<char>) -> Seq<char> {
    if rel.len() > 0 && rel[0] == '/' {
        rel
    } else if dir.len() == 0 {
        rel
    } else if dir.last() == '/' {
        dir + rel
    } else {
        dir + seq!['/'] + rel
    }
}

/// Join two paths (see [`join_path`]).
pub fn path_join(dir: &str, rel: &str) -> (r: String)
    ensures
        r@ == join_path(dir@, rel@),
{
    let dn = dir.unicode_len();
    let rn = rel.unicode_len();
    if rn > 0 && rel.get_char(0) == '/' {
        return String::from_str(rel);
    }
    if dn == 0 {
        return String::from_str(rel);
    }
    let mut s = String::from_str(dir);
    if dir.get_char(dn - 1) != '/' {
        s.append("/");
        proof {
            reveal_strlit("/");
        }
    }
    s.append(rel);
    assert(dir@.last() == dir@[dn - 1]);
    proof {
        if dir@.last() != '/' {
            assert(s@ =~= dir@ + seq!['/'] + rel@);
        }
    }
    s
}

/// The path is absolute.
pub open spec fn is_absolute(p: Seq<char>) -> bool {
    p.len() > 0 && p[0] == '/'
}

/// The binary to run, for the configured binary `raw` (variables already
/// substituted): an absolute path as it is; else the file of that name in
/// the server directory when it exists there; else, for a bare command
/// name, where it was found on this host; else the server-directory path,
/// so that spawning reports it missing.
pub open spec fn binary_choice(
    raw: Seq<char>,
    server_dir: Seq<char>,
    local_exists: bool,
    on_system: Option<Seq<char>>,
) -> Seq<char> {
    if is_absolute(raw) {
        raw
    } else {
        let local = join_path(server_dir, raw);
        if local_exists {
            local
        } else if !raw.contains('/') {
            match on_system {
                Some(p) => p,
                None => local,
            }
        } else {
            local
        }
    }
}

/// Whether `s` contains the character `c`.
fn contains_char(s: &str, c: char) -> (r: bool)
    ensures
        r == s@.contains(c),
{
    let n = s.unicode_len();
    let mut i: usize = 0;
    while i < n
        invariant
            n == s@.len(),
            i <= n,
            forall|k: int| 0 <= k < i ==> s@[k] != c,
        decreases n - i,
    {
        if s.get_char(i) == c {
            return true;
        }
        i = i + 1;
    }
    false
}

/// Choose the binary to run (see [`binary_choice`]).  The caller reports
/// whether the server-directory path exists and, for a bare command name,
/// where the command was found.
pub fn resolve_binary_path(
    raw: &str,
    server_dir: &str,
    local_exists: bool,
    on_system: Option<String>,
) -> (r: String)
    ensures
        r@ == binary_choice(raw@, server_dir@, local_exists, match on_system {
            Some(p) => Some(p@),
            None => None,
        }),
{
    let rn = raw.unicode_len();
    if rn > 0 && raw.get_char(0) == '/' {
        return String::from_str(raw);
    }
    let local = path_join(server_dir, raw);
    if local_exists {
        local
    } else if !contains_char(raw, '/') {
        match on_system {
            Some(p) => p,
            None => local,
        }
    } else {
        local
    }
}

/// The working directory: the start pipeline's, else the configured one,
/// with variables substituted and taken relative to the server directory;
/// the server directory itself when neither is set.
pub open spec fn work_dir_choice(
    pipeline_dir: Option<Seq<char>>,
    config_dir: Option<Seq<char>>,
    server_dir: Seq<char>,
    vars: Seq<(String, String)>,
) -> Seq<char> {
    match (if pipeline_dir is Some {
        pipeline_dir
    } else {
        config_dir
    }) {
        Some(wd) => join_path(server_dir, substitute_all(wd, vars, "${"@, "}"@)),
        None => server_dir,
    }
}

/// Choose the working directory (see [`work_dir_choice`]).
pub fn resolve_work_dir(
    pipeline_dir: Option<&str>,
    config_dir: Option<&str>,
    server_dir: &str,
    vars: &Vec<(String, String)>,
) -> (r: String)
    ensures
        r@ == work_dir_choice(
            match pipeline_dir {
                Some(d) => Some(d@),
                None => None,
            },
            match config_dir {
                Some(d) => Some(d@),
                None => None,
            },
            server_dir@,
            vars@,
        ),
{
    let chosen = match pipeline_dir {
        Some(d) => Some(d),
        None => config_dir,
    };
    match chosen {
        Some(wd) => {
            let sub = substitute_variables(wd, vars);
            path_join(server_dir, sub.as_str())
        },
        None => String::from_str(server_dir),
    }
}

// ─── Environment ───

/// No two entries of `m` have the same key.
pub open spec fn unique_keys(m: Seq<(String, String)>) -> bool {
    forall|i: int, j: int| 0 <= i < j < m.len() ==> m[i].0@ != m[j].0@
}

/// The launch environment's value for `k`: a value set by the start
/// pipeline wins; otherwise the configured value, with variables
/// substituted.
pub open spec fn launch_env_value(
    config_env: Seq<(String, String)>,
    vars: Seq<(String, String)>,
    overlay: Seq<(String, String)>,
    k: Seq<char>,
) -> Option<Seq<char>> {
    match lookup(overlay, k) {
        Some(v) => Some(v),
        None => match lookup(config_env, k) {
            Some(v) => Some(substitute_all(v, vars, "${"@, "}"@)),
            None => None,
        },
    }
}

proof fn lemma_lookup_absent(m: Seq<(String, String)>, k: Seq<char>)
    requires
        forall|i: int| 0 <= i < m.len() ==> (#[trigger] m[i]).0@ != k,
    ensures
        lookup(m, k) is None,
    decreases m.len(),
{
    if m.len() > 0 {
        assert forall|i: int| 0 <= i < m.drop_first().len() implies (#[trigger] m.drop_first()[
            i]).0@ != k by {
            assert(m.drop_first()[i] == m[i + 1]);
        }
        lemma_lookup_absent(m.drop_first(), k);
    }
}

proof fn lemma_lookup_some_at(m: Seq<(String, String)>, i: int, k: Seq<char>)
    requires
        0 <= i < m.len(),
        m[i].0@ == k,
    ensures
        lookup(m, k) is Some,
    decreases m.len(),
{
    if i > 0 && m[0].0@ != k {
        assert(m.drop_first()[i - 1] == m[i]);
        lemma_lookup_some_at(m.drop_first(), i - 1, k);
    }
}

proof fn lemma_lookup_update(m: Seq<(String, String)>, i: int, x: (String, String), k: Seq<char>)
    requires
        unique_keys(m),
        0 <= i < m.len(),
        m[i].0@ == x.0@,
    ensures
        lookup(m.update(i, x), k) == (if k == x.0@ {
            Some(x.1@)
        } else {
            lookup(m, k)
        }),
        unique_keys(m.update(i, x)),
    decreases m.len(),
{
    let u = m.update(i, x);
    assert forall|a: int, b: int| 0 <= a < b < u.len() implies u[a].0@ != u[b].0@ by {
        assert(u[a].0@ == m[a].0@);
        assert(u[b].0@ == m[b].0@);
    }
    if i == 0 {
        assert(u[0] == x);
        if k != x.0@ {
            assert(u.drop_first() =~= m.drop_first());
        }
    } else {
        assert(u[0] == m[0]);
        assert(u.drop_first() =~= m.drop_first().update(i - 1, x));
        assert(unique_keys(m.drop_first())) by {
            assert forall|a: int, b: int| 0 <= a < b < m.drop_first().len() implies m.drop_first()[
                a].0@ != m.drop_first()[b].0@ by {
                assert(m.drop_first()[a] == m[a + 1]);
                assert(m.drop_first()[b] == m[b + 1]);
            }
        }
        assert(m.drop_first()[i - 1] == m[i]);
        lemma_lookup_update(m.drop_first(), i - 1, x, k);
        if k == x.0@ {
            assert(m[0].0@ != m[i].0@);
        }
    }
}

/// Set `k` to `v` in the key-unique map `m`.
fn upsert(m: &mut Vec<(String, String)>, k: String, v: String)
    requires
        unique_keys(old(m)@),
    ensures
        unique_keys(final(m)@),
        forall|q: Seq<char>| #[trigger]
            lookup(final(m)@, q) == (if q == k@ {
                Some(v@)
            } else {
                lookup(old(m)@, q)
            }),
{
    match find_key(m, k.as_str()) {
        Some(i) => {
            let ghost before = m@;
            let ghost x = (k, v);
            m.set(i, (k, v));
            proof {
                assert forall|q: Seq<char>| #[trigger]
                    lookup(m@, q) == (if q == x.0@ {
                        Some(x.1@)
                    } else {
                        lookup(before, q)
                    }) by {
                    lemma_lookup_update(before, i as int, x, q);
                }
                lemma_lookup_update(before, i as int, x, x.0@);
            }
        },
        None => {
            let ghost before = m@;
            let ghost x = (k, v);
            m.push((k, v));
            proof {
                assert forall|q: Seq<char>| #[trigger]
                    lookup(m@, q) == (if q == x.0@ {
                        Some(x.1@)
                    } else {
                        lookup(before, q)
                    }) by {
                    lemma_lookup_push(before, x, q);
                }
                assert forall|a: int, b: int| 0 <= a < b < m@.len() implies m@[a].0@ != m@[b].0@ by {
                    if b == before.len() {
                        if m@[a].0@ == x.0@ {
                            assert(before[a] == m@[a]);
                            lemma_lookup_some_at(before, a, x.0@);
                        }
                    }
                }
            }
        },
    }
}

/// The environment a server is launched with: the configured variables
/// with template variables substituted in their values, then the start
/// pipeline's variables on top.  Keys are unique in all three maps.
pub fn resolve_env(
    config_env: &Vec<(String, String)>,
    vars: &Vec<(String, String)>,
    overlay: &Vec<(String, String)>,
) -> (r: Vec<(String, String)>)
    requires
        unique_keys(config_env@),
        unique_keys(overlay@),
    ensures
        unique_keys(r@),
        forall|k: Seq<char>| #[trigger]
            lookup(r@, k) == launch_env_value(config_env@, vars@, overlay@, k),
{
    let mut r: Vec<(String, String)> = Vec::new();
    let mut i: usize = 0;
    while i < config_env.len()
        invariant
            i <= config_env@.len(),
            unique_keys(config_env@),
            r@.len() == i,
            forall|j: int| 0 <= j < i ==> (#[trigger] r@[j]).0@ == config_env@[j].0@,
            forall|k: Seq<char>| #[trigger]
                lookup(r@, k) == match lookup(config_env@.take(i as int), k) {
                    Some(v) => Some(substitute_all(v, vars@, "${"@, "}"@)),
                    None => None,
                },
        decreases config_env@.len() - i,
    {
        let k = config_env[i].0.clone();
        let v = substitute_variables(config_env[i].1.as_str(), vars);
        let ghost before = r@;
        let ghost x = (k, v);
        r.push((k, v));
        proof {
            assert(config_env@.take(i + 1) =~= config_env@.take(i as int).push(config_env@[i as int]));
            assert forall|q: Seq<char>| #[trigger]
                lookup(r@, q) == match lookup(config_env@.take(i + 1), q) {
                    Some(v) => Some(substitute_all(v, vars@, "${"@, "}"@)),
                    None => None,
                } by {
                lemma_lookup_push(before, x, q);
                lemma_lookup_push(config_env@.take(i as int), config_env@[i as int], q);
            }
        }
        i = i + 1;
    }
    assert(config_env@.take(i as int) =~= config_env@);
    assert(unique_keys(r@)) by {
        assert forall|a: int, b: int| 0 <= a < b < r@.len() implies r@[a].0@ != r@[b].0@ by {
            assert(r@[a].0@ == config_env@[a].0@);
            assert(r@[b].0@ == config_env@[b].0@);
        }
    }
    let mut j: usize = 0;
    assert(overlay@.take(0) =~= Seq::<(String, String)>::empty());
    while j < overlay.len()
        invariant
            j <= overlay@.len(),
            unique_keys(overlay@),
            unique_keys(r@),
            forall|k: Seq<char>| #[trigger]
                lookup(r@, k) == match lookup(overlay@.take(j as int), k) {
                    Some(v) => Some(v),
                    None => match lookup(config_env@, k) {
                        Some(v) => Some(substitute_all(v, vars@, "${"@, "}"@)),
                        None => None,
                    },
                },
        decreases overlay@.len() - j,
    {
        let k = overlay[j].0.clone();
        let v = overlay[j].1.clone();
        let ghost before = r@;
        upsert(&mut r, k, v);
        proof {
            let e = overlay@[j as int];
            assert(overlay@.take(j + 1) =~= overlay@.take(j as int).push(e));
            assert forall|q: Seq<char>| #[trigger]
                lookup(r@, q) == match lookup(overlay@.take(j + 1), q) {
                    Some(v) => Some(v),
                    None => match lookup(config_env@, q) {
                        Some(v) => Some(substitute_all(v, vars@, "${"@, "}"@)),
                        None => None,
                    },
                } by {
                lemma_lookup_push(overlay@.take(j as int), e, q);
                if q == e.0@ {
                    assert forall|t: int| 0 <= t < overlay@.take(j as int).len() implies (
                    #[trigger] overlay@.take(j as int)[t]).0@ != q by {
                        assert(overlay@.take(j as int)[t] == overlay@[t]);
                    }
                    lemma_lookup_absent(overlay@.take(j as int), q);
                }
            }
        }
        j = j + 1;
    }
    assert(overlay@.take(j as int) =~= overlay@);
    r
}

/// `$JAVA_HOME/bin`, when the environment sets `JAVA_HOME`.
pub fn java_bin_dir(env: &Vec<(String, String)>) -> (r: Option<String>)
    ensures
        match lookup(env@, "JAVA_HOME"@) {
            Some(h) => r matches Some(d) && d@ == join_path(h, "bin"@),
            None => r is None,
        },
{
    match find_key(env, "JAVA_HOME") {
        Some(i) => Some(path_join(env[i].1.as_str(), "bin")),
        None => None,
    }
}

/// The `PATH` a launch gets from `JAVA_HOME`: `$JAVA_HOME/bin` in front of
/// the inherited `PATH`, when `JAVA_HOME` is set, that directory exists and
/// the environment does not set `PATH` itself.
pub open spec fn java_path_value(
    env: Seq<(String, String)>,
    bin_dir_exists: bool,
    inherited_path: Seq<char>,
) -> Option<Seq<char>> {
    match lookup(env, "JAVA_HOME"@) {
        Some(h) => if bin_dir_exists && lookup(env, "PATH"@) is None {
            Some(join_path(h, "bin"@) + seq![':'] + inherited_path)
        } else {
            None
        },
        None => None,
    }
}

/// Put `$JAVA_HOME/bin` in front of `PATH` (see [`java_path_value`]); the
/// caller reports whether that directory exists and the inherited `PATH`.
pub fn with_java_path(env: &mut Vec<(String, String)>, bin_dir_exists: bool, inherited_path: &str)
    ensures
        match java_path_value(old(env)@, bin_dir_exists, inherited_path@) {
            Some(p) => final(env)@.len() == old(env)@.len() + 1 && final(env)@.drop_last()
                == old(env)@ && final(env)@.last().0@ == "PATH"@ && final(env)@.last().1@ == p,
            None => final(env)@ == old(env)@,
        },
{
    proof {
        reveal_strlit(":");
    }
    if !bin_dir_exists {
        return;
    }
    match java_bin_dir(env) {
        Some(dir) => {
            if find_key(env, "PATH").is_none() {
                let mut value = dir;
                value.append(":");
                value.append(inherited_path);
                let ghost before = env@;
                let e = (String::from_str("PATH"), value);
                env.push(e);
                assert(env@.drop_last() =~= before);
            }
        },
        None => {},
    }
}

// ─── Watching the console ───

/// `s` as `str::to_lowercase` maps it.
pub uninterp spec fn lowercase(s: Seq<char>) -> Seq<char>;

/// `str::to_lowercase`: the Unicode lowercase mapping of each character.
/// Claimed: the result is that function's, named [`lowercase`]; nothing
/// more is stated of it.
#[verifier::external_body]
fn to_lowercase(s: &str) -> (r: String)
    ensures
        r@ == lowercase(s@),
{
    s.to_lowercase()
}

/// The console line contains the pattern, ignoring case.
pub open spec fn line_has_pattern(line: Seq<char>, pattern: Seq<char>) -> bool {
    has_substring(lowercase(line), lowercase(pattern))
}

/// Whether `line` contains `pattern`, ignoring case.
pub fn output_matches(line: &str, pattern: &str) -> (r: bool)
    ensures
        r == line_has_pattern(line@, pattern@),
{
    let l = to_lowercase(line);
    let p = to_lowercase(pattern);
    contains_text(l.as_str(), p.as_str())
}

/// Whether some line already in the console buffer contains `pattern`,
/// ignoring case.
pub fn buffer_has_pattern(lines: &Vec<LogLine>, pattern: &str) -> (r: bool)
    ensures
        r == exists|i: int| 0 <= i < lines@.len() && line_has_pattern(
            (#[trigger] lines@[i]).line@,
            pattern@,
        ),
{
    let mut i: usize = 0;
    while i < lines.len()
        invariant
            i <= lines@.len(),
            forall|j: int| 0 <= j < i ==> !line_has_pattern((#[trigger] lines@[j]).line@, pattern@),
        decreases lines@.len() - i,
    {
        if output_matches(lines[i].line.as_str(), pattern) {
            return true;
        }
        i = i + 1;
    }
    false
}

/// What the wait for a console line received.
#[derive(Debug)]
pub enum OutputEvent {
    /// A console line.
    Line(String),
    /// Another kind of message (a status change, progress, ...).
    Other,
    /// Some messages were missed because the listener fell behind.
    Lagged,
    /// The channel closed.
    Closed,
    /// The time ran out.
    TimedOut,
}

/// What the wait does after an event.
#[derive(Clone, Copy, Debug, PartialEq, Eq, Structural)]
pub enum OutputWait {
    /// The pattern appeared: the wait succeeds.
    Found,
    /// Keep listening.
    Listen,
    /// The channel closed or the time ran out: the wait fails.
    GiveUp,
}

/// The decision of the wait on one event.
pub open spec fn output_wait(event: OutputEvent, pattern: Seq<char>) -> OutputWait {
    match event {
        OutputEvent::Line(l) => if line_has_pattern(l@, pattern) {
            OutputWait::Found
        } else {
            OutputWait::Listen
        },
        OutputEvent::Other => OutputWait::Listen,
        OutputEvent::Lagged => OutputWait::Listen,
        OutputEvent::Closed => OutputWait::GiveUp,
        OutputEvent::TimedOut => OutputWait::GiveUp,
    }
}

/// Decide what the wait for `pattern` does on `event` (see
/// [`output_wait`]): a matching line ends it successfully, a closed channel
/// or the deadline ends it in failure, anything else is ignored.
pub fn on_output_event(event: &OutputEvent, pattern: &str) -> (r: OutputWait)
    ensures
        r == output_wait(*event, pattern@),
{
    match event {
        OutputEvent::Line(l) => if output_matches(l.as_str(), pattern) {
            OutputWait::Found
        } else {
            OutputWait::Listen
        },
        OutputEvent::Other => OutputWait::Listen,
        OutputEvent::Lagged => OutputWait::Listen,
        OutputEvent::Closed => OutputWait::GiveUp,
        OutputEvent::TimedOut => OutputWait::GiveUp,
    }
}

/// Whether the wait for `pattern` succeeds on `events`, received in order:
/// a matching line comes before the channel closes or the time runs out.
pub open spec fn found_in_events(events: Seq<OutputEvent>, pattern: Seq<char>) -> bool
    decreases events.len(),
{
    if events.len() == 0 {
        false
    } else {
        match output_wait(events[0], pattern) {
            OutputWait::Found => true,
            OutputWait::GiveUp => false,
            OutputWait::Listen => found_in_events(events.drop_first(), pattern),
        }
    }
}

/// The whole wait for `pattern`: true when a line already in the console
/// buffer contains it (ignoring case), else when the events received
/// afterwards bring a matching line before the channel closes or the time
/// runs out.  Events after the end of the wait are not looked at.
pub fn wait_for_output(buffer: &Vec<LogLine>, events: &Vec<OutputEvent>, pattern: &str) -> (r: bool)
    ensures
        r == ((exists|i: int|
            0 <= i < buffer@.len() && line_has_pattern((#[trigger] buffer@[i]).line@, pattern@))
            || found_in_events(events@, pattern@)),
{
    if buffer_has_pattern(buffer, pattern) {
        return true;
    }
    let mut i: usize = 0;
    assert(events@.skip(0) =~= events@);
    while i < events.len()
        invariant
            i <= events@.len(),
            found_in_events(events@, pattern@) == found_in_events(events@.skip(i as int), pattern@),
            !exists|k: int|
                0 <= k < buffer@.len() && line_has_pattern((#[trigger] buffer@[k]).line@, pattern@),
        decreases events@.len() - i,
    {
        let ghost rest = events@.skip(i as int);
        assert(rest.len() > 0);
        assert(rest[0] == events@[i as int]);
        assert(rest.drop_first() =~= events@.skip(i + 1));
        let w = on_output_event(&events[i], pattern);
        assert(w == output_wait(rest[0], pattern@));
        match w {
            OutputWait::Found => {
                return true;
            },
            OutputWait::GiveUp => {
                return false;
            },
            OutputWait::Listen => {},
        }
        i = i + 1;
    }
    assert(events@.skip(i as int).len() == 0);
    false
}

// ─── Spawn failure report ───

/// Whether two paths are equal as `std::path::Path` compares them
/// (component by component).
pub uninterp spec fn paths_equal(a: Seq<char>, b: Seq<char>) -> bool;

/// `Path == Path` on two paths given as text.  Claimed: the result is the
/// one [`paths_equal`] names.
#[verifier::external_body]
fn same_path(a: &str, b: &str) -> (r: bool)
    ensures
        r == paths_equal(a@, b@),
{
    std::path::Path::new(a) == std::path::Path::new(b)
}

/// `{:?}` of a list of strings (brackets, quoted and escaped items,
/// `", "` between them).
pub uninterp spec fn debug_strings(items: Seq<Seq<char>>) -> Seq<char>;

/// `format!("{:?}", items)`.  Claimed: the result is the one
/// [`debug_strings`] names for the items' text.
#[verifier::external_body]
fn debug_list(items: &Vec<String>) -> (r: String)
    ensures
        r@ == debug_strings(items@.map_values(|s: String| s@)),
{
    format!("{:?}", items)
}

/// A missing binary looks like a bare command name that was not found:
/// it sits directly in the server directory and its file name is not empty
/// and has no `.`.
pub open spec fn looks_like_bare_command(binary: Seq<char>, server_dir: Seq<char>) -> bool {
    let name = file_name_or_empty(binary);
    &&& path_parent(binary) matches Some(p) && paths_equal(p, server_dir)
    &&& name.len() > 0
    &&& !name.contains('.')
}

/// The hint added to a spawn failure report, if any.
pub open spec fn spawn_hint(
    command: Seq<char>,
    binary: Seq<char>,
    server_dir: Seq<char>,
    binary_exists: bool,
    command_exists: bool,
) -> Option<Seq<char>> {
    if !binary_exists {
        if looks_like_bare_command(binary, server_dir) {
            Some(
                "  Hint   : '"@ + file_name_or_empty(binary)
                    + "' was not found on this system \u{2014} is it installed and on the PATH?"@,
            )
        } else {
            Some(
                "  Hint   : the file '"@ + binary
                    + "' does not exist \u{2014} did you run the install pipeline first?"@,
            )
        }
    } else if !command_exists {
        Some("  Hint   : resolved command '"@ + command + "' does not exist"@)
    } else {
        None
    }
}

/// The console lines reported when the process could not be spawned: the
/// error, the command with its arguments, the binary, the working
/// directory, then the hint (see [`spawn_hint`]) when there is one.  The
/// caller reports whether the configured binary and the resolved command
/// exist.
pub fn spawn_failure_lines(
    error: &str,
    command: &str,
    args: &Vec<String>,
    binary: &str,
    work_dir: &str,
    server_dir: &str,
    binary_exists: bool,
    command_exists: bool,
) -> (r: Vec<String>)
    ensures
        r@.len() == (if spawn_hint(command@, binary@, server_dir@, binary_exists, command_exists)
            is Some {
            5int
        } else {
            4int
        }),
        r@[0]@ == "Failed to spawn process: "@ + error@,
        r@[1]@ == "  Command: "@ + command@ + " "@ + debug_strings(
            args@.map_values(|s: String| s@),
        ),
        r@[2]@ == "  Binary : "@ + binary@,
        r@[3]@ == "  WorkDir: "@ + work_dir@,
        spawn_hint(command@, binary@, server_dir@, binary_exists, command_exists) matches Some(h)
            ==> r@[4]@ == h,
{
    let mut lines: Vec<String> = Vec::new();
    let mut first = String::from_str("Failed to spawn process: ");
    first.append(error);
    lines.push(first);
    let mut second = String::from_str("  Command: ");
    second.append(command);
    second.append(" ");
    let listed = debug_list(args);
    second.append(listed.as_str());
    lines.push(second);
    let mut third = String::from_str("  Binary : ");
    third.append(binary);
    lines.push(third);
    let mut fourth = String::from_str("  WorkDir: ");
    fourth.append(work_dir);
    lines.push(fourth);
    proof {
        reveal_strlit("Failed to spawn process: ");
        reveal_strlit("  Command: ");
        reveal_strlit(" ");
        reveal_strlit("  Binary : ");
        reveal_strlit("  WorkDir: ");
    }
    if !binary_exists {
        let name = file_name(binary);
        let bare = match parent_of(binary) {
            Some(p) => same_path(p.as_str(), server_dir),
            None => false,
        } && name.unicode_len() > 0 && !contains_char(name.as_str(), '.');
        let mut hint = String::new();
        if bare {
            hint.append("  Hint   : '");
            hint.append(name.as_str());
            hint.append("' was not found on this system \u{2014} is it installed and on the PATH?");
        } else {
            hint.append("  Hint   : the file '");
            hint.append(binary);
            hint.append("' does not exist \u{2014} did you run the install pipeline first?");
        }
        lines.push(hint);
    } else if !command_exists {
        let mut hint = String::from_str("  Hint   : resolved command '");
        hint.append(command);
        hint.append("' does not exist");
        lines.push(hint);
    }
    lines
}

} // verus!
