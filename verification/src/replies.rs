//! What to make of an outside source's answer: a JSON document fetched over
//! HTTP for dynamic options or an update check, and the output of an
//! update-check command.  The caller performs the request or runs the
//! command and hands the outcome over.

use vstd::prelude::*;
use crate::text::{chars_of, opt_view, push_decimal, decimal_digits, span, string_from_range, occurs_at, split_on, split_ranges};
use crate::words::{trimmed, trim_bounds};
use crate::exec::{utf8_lossy, decode_lossy};
use crate::numeric::u32_to_usize;
use crate::json::{JsonValue, path_lookup, json_navigate, json_document, parse_json};
use crate::numeric::limited_len;
use crate::options::{extract_options, sort_and_limit, substitute_template_vars, element_option, element_error, not_array_message};
use crate::update_check::{extract_version, extracted_version, substitute_variables};
use crate::text::substitute_all;
use crate::types::pipeline::{FetchedOption, OptionsSortOrder};
use crate::types::server::VersionPick;

verus! {

/// Largest response body accepted, in bytes (2 MB).
pub const RESPONSE_MAX_BYTES: usize = 2097152;

/// How fetching a JSON document ended.
#[derive(Debug)]
pub enum FetchReply {
    /// The request could not be sent or timed out; the error as printed.
    SendFailed(String),
    /// The server answered with an unsuccessful status; the status as printed.
    BadStatus(String),
    /// The body could not be read; the error as printed.
    ReadFailed(String),
    /// The body's bytes.
    Body(Vec<u8>),
}

/// `path`, or `absent` when there is none.
pub open spec fn path_or(path: Option<Seq<char>>, absent: Seq<char>) -> Seq<char> {
    match path {
        Some(p) => p,
        None => absent,
    }
}

/// The value at `path` in the fetched document, or the message of what went
/// wrong, in the order the checks are made: the request, the status, the
/// body, its size, its parse as JSON, the path.
pub open spec fn fetched_value(url: Seq<char>, reply: FetchReply, path: Option<Seq<char>>) -> Result<
    JsonValue,
    Seq<char>,
> {
    match reply {
        FetchReply::SendFailed(e) => Err("HTTP request to "@ + url + " failed: "@ + e@),
        FetchReply::BadStatus(st) => Err("HTTP "@ + st@ + " from "@ + url),
        FetchReply::ReadFailed(e) => Err("Failed to read response body from "@ + url + ": "@ + e@),
        FetchReply::Body(bytes) => if bytes@.len() > RESPONSE_MAX_BYTES {
            Err(
                "Response from "@ + url + " exceeds 2 MB limit ("@ + decimal_digits(bytes@.len())
                    + " bytes)"@,
            )
        } else {
            match json_document(bytes@) {
                Err(e) => Err("Response from "@ + url + " is not valid JSON: "@ + e),
                Ok(root) => match path_lookup(root, path) {
                    Some(v) => Ok(v),
                    None => Err(
                        "Path '"@ + path_or(path, Seq::empty())
                            + "' did not resolve in the JSON response from "@ + url,
                    ),
                },
            }
        },
    }
}

fn join2(a: &str, b: &str) -> (r: String)
    ensures
        r@ == a@ + b@,
{
    let mut s = String::from_str(a);
    s.append(b);
    s
}

fn join4(a: &str, b: &str, c: &str, d: &str) -> (r: String)
    ensures
        r@ == a@ + b@ + c@ + d@,
{
    let mut s = String::from_str(a);
    s.append(b);
    s.append(c);
    s.append(d);
    s
}

/// What the body of `reply` was parsed into, when it is a body within the
/// size limit: the parse is the one [`json_document`] names.
pub open spec fn parsed_as(reply: FetchReply, parsed: Result<JsonValue, String>) -> bool {
    match reply {
        FetchReply::Body(bytes) => bytes@.len() <= RESPONSE_MAX_BYTES ==> match json_document(
            bytes@,
        ) {
            Ok(d) => parsed == Ok::<JsonValue, String>(d),
            Err(m) => parsed matches Err(e) && e@ == m,
        },
        _ => true,
    }
}

/// Parse the body of `reply` as JSON when it is a body within the size
/// limit (see [`parsed_as`]); otherwise nothing is parsed.
fn parse_reply(reply: &FetchReply) -> (r: Result<JsonValue, String>)
    ensures
        parsed_as(*reply, r),
{
    match reply {
        FetchReply::Body(bytes) => if bytes.len() <= RESPONSE_MAX_BYTES {
            parse_json(bytes.as_slice())
        } else {
            Err(String::new())
        },
        _ => Err(String::new()),
    }
}

/// The value at `path` in the fetched document (see [`fetched_value`]),
/// given what its body was parsed into.
fn fetched_document<'a>(
    url: &str,
    reply: &FetchReply,
    parsed: &'a Result<JsonValue, String>,
    path: Option<&str>,
) -> (r: Result<&'a JsonValue, String>)
    requires
        parsed_as(*reply, *parsed),
    ensures
        match fetched_value(url@, *reply, opt_view(path)) {
            Ok(v) => r matches Ok(x) && *x == v,
            Err(m) => r matches Err(e) && e@ == m,
        },
{
    match reply {
        FetchReply::SendFailed(e) => Err(join4("HTTP request to ", url, " failed: ", e.as_str())),
        FetchReply::BadStatus(st) => Err(join4("HTTP ", st.as_str(), " from ", url)),
        FetchReply::ReadFailed(e) => Err(
            join4("Failed to read response body from ", url, ": ", e.as_str()),
        ),
        FetchReply::Body(bytes) => {
            let len = bytes.len();
            if len > RESPONSE_MAX_BYTES {
                let mut m = join4("Response from ", url, " exceeds 2 MB limit (", "");
                push_decimal(&mut m, len);
                m.append(" bytes)");
                proof {
                    reveal_strlit("");
                }
                assert(m@ =~= "Response from "@ + url@ + " exceeds 2 MB limit ("@ + decimal_digits(
                    len as nat,
                ) + " bytes)"@);
                return Err(m);
            }
            match parsed {
                Err(e) => Err(join4("Response from ", url, " is not valid JSON: ", e.as_str())),
                Ok(root) => match json_navigate(root, path) {
                    Some(v) => Ok(v),
                    None => {
                        let p = match path {
                            Some(p) => p,
                            None => "",
                        };
                        proof {
                            reveal_strlit("");
                        }
                        Err(
                            join4(
                                "Path '",
                                p,
                                "' did not resolve in the JSON response from ",
                                url,
                            ),
                        )
                    },
                },
            }
        },
    }
}

/// The latest version an API answered, or why there is none.
pub open spec fn api_version_outcome(
    url: Seq<char>,
    reply: FetchReply,
    path: Option<Seq<char>>,
    pick: VersionPick,
    value_key: Option<Seq<char>>,
) -> Result<Seq<char>, Seq<char>> {
    match fetched_value(url, reply, path) {
        Err(m) => Err(m),
        Ok(v) => match extracted_version(v, pick, value_key) {
            Some(t) => Ok(t),
            None => Err(
                "Could not extract a version string from the resolved value at path '"@ + path_or(
                    path,
                    "(root)"@,
                ) + "' in response from "@ + url,
            ),
        },
    }
}

/// The latest version from an update-check API's answer (see
/// [`api_version_outcome`]); `url` is the URL as requested.
pub fn api_version_from_reply(
    url: &str,
    reply: &FetchReply,
    path: Option<&str>,
    pick: VersionPick,
    value_key: Option<&str>,
) -> (r: Result<String, String>)
    ensures
        match api_version_outcome(url@, *reply, opt_view(path), pick, opt_view(value_key)) {
            Ok(t) => r matches Ok(x) && x@ == t,
            Err(m) => r matches Err(e) && e@ == m,
        },
{
    let parsed = parse_reply(reply);
    let v = match fetched_document(url, reply, &parsed, path) {
        Ok(v) => v,
        Err(e) => {
            return Err(e);
        },
    };
    match extract_version(v, pick, value_key) {
        Some(t) => Ok(t),
        None => {
            let p = match path {
                Some(p) => p,
                None => "(root)",
            };
            Err(
                join4(
                    "Could not extract a version string from the resolved value at path '",
                    p,
                    "' in response from ",
                    url,
                ),
            )
        },
    }
}

/// The options a fetched document lists, or why there are none; `url` is
/// the URL as requested.  The options are extracted, then sorted and
/// limited as [`sort_and_limit`] does.
pub fn options_from_reply(
    url: &str,
    reply: &FetchReply,
    path: Option<&str>,
    value_key: Option<&str>,
    label_key: Option<&str>,
    sort: Option<OptionsSortOrder>,
    limit: Option<u32>,
) -> (r: Result<Vec<FetchedOption>, String>)
    ensures
        match fetched_value(url@, *reply, opt_view(path)) {
            Err(m) => r matches Err(e) && e@ == m,
            Ok(JsonValue::Array(a)) => if forall|i: int|
                0 <= i < a@.len() ==> element_option(
                    #[trigger] a@[i],
                    opt_view(value_key),
                    opt_view(label_key),
                ) is Some {
                r matches Ok(opts) && opts@.len() == limited_len(a@.len(), limit) && (sort is None
                    ==> forall|k: int|
                    0 <= k < opts@.len() ==> element_option(
                        #[trigger] a@[k],
                        opt_view(value_key),
                        opt_view(label_key),
                    ) == Some((opts@[k].value@, opts@[k].label@)))
            } else {
                r matches Err(msg) && exists|i: int|
                    0 <= i < a@.len() && element_option(
                        #[trigger] a@[i],
                        opt_view(value_key),
                        opt_view(label_key),
                    ) is None && msg@ == element_error(a@[i], i as nat, opt_view(value_key))
            },
            Ok(_) => r matches Err(msg) && msg@ == not_array_message(),
        },
{
    let parsed = parse_reply(reply);
    let v = match fetched_document(url, reply, &parsed, path) {
        Ok(v) => v,
        Err(e) => {
            return Err(e);
        },
    };
    match extract_options(v, value_key, label_key) {
        Ok(opts) => Ok(sort_and_limit(opts, sort, limit)),
        Err(e) => Err(e),
    }
}

// ─── URL scheme ───

/// The part of `s` before the first occurrence of `pat`; all of `s` when
/// `pat` does not occur.
pub open spec fn before_first(s: Seq<char>, pat: Seq<char>) -> Seq<char>
    decreases s.len(),
{
    if s.len() < pat.len() || pat.len() == 0 {
        if pat.len() == 0 {
            Seq::empty()
        } else {
            s
        }
    } else if s.take(pat.len() as int) == pat {
        Seq::empty()
    } else {
        seq![s[0]] + before_first(s.drop_first(), pat)
    }
}

/// `s` starts with `p`.
pub open spec fn starts_with(s: Seq<char>, p: Seq<char>) -> bool {
    s.len() >= p.len() && s.take(p.len() as int) == p
}

fn has_prefix(s: &Vec<char>, p: &str) -> (r: bool)
    ensures
        r == starts_with(s@, p@),
{
    let pv = chars_of(p);
    if pv.len() > s.len() {
        return false;
    }
    let mut i: usize = 0;
    while i < pv.len()
        invariant
            pv@ == p@,
            pv.len() <= s.len(),
            i <= pv.len(),
            forall|k: int| 0 <= k < i ==> s@[k] == pv@[k],
        decreases pv.len() - i,
    {
        if s[i] != pv[i] {
            assert(s@.take(pv@.len() as int)[i as int] != pv@[i as int]);
            return false;
        }
        i = i + 1;
    }
    assert(s@.take(pv@.len() as int) =~= pv@);
    true
}

/// Length of the part of `v` before the first occurrence of `pat`.
fn prefix_end(v: &Vec<char>, pat: &str) -> (r: usize)
    requires
        pat@.len() > 0,
    ensures
        r <= v@.len(),
        span(v@, 0, r) == before_first(v@, pat@),
{
    let pv = chars_of(pat);
    let n = v.len();
    let m = pv.len();
    let mut i: usize = 0;
    assert(v@.skip(0) =~= v@);
    assert(span(v@, 0, 0) =~= Seq::<char>::empty());
    while i < n
        invariant
            pv@ == pat@,
            m == pv@.len() > 0,
            n == v@.len(),
            i <= n,
            before_first(v@, pat@) == span(v@, 0, i) + before_first(v@.skip(i as int), pat@),
        decreases n - i,
    {
        let ghost rest = v@.skip(i as int);
        if n - i < m {
            assert(before_first(rest, pat@) == rest);
            assert(span(v@, 0, i) + rest =~= span(v@, 0, n));
            return n;
        }
        if occurs_at(v, i, &pv) {
            assert(rest.take(m as int) == pv@);
            assert(span(v@, 0, i) + Seq::<char>::empty() =~= span(v@, 0, i));
            return i;
        }
        assert(rest.take(m as int) != pat@);
        assert(rest[0] == v@[i as int]);
        assert(rest.drop_first() =~= v@.skip(i + 1));
        assert(span(v@, 0, i) + seq![v@[i as int]] =~= span(v@, 0, (i + 1) as usize));
        assert(span(v@, 0, i) + (seq![rest[0]] + before_first(rest.drop_first(), pat@)) =~= span(
            v@,
            0,
            (i + 1) as usize,
        ) + before_first(v@.skip(i + 1), pat@));
        i = i + 1;
    }
    assert(v@.skip(n as int) =~= Seq::<char>::empty());
    assert(span(v@, 0, n) + Seq::<char>::empty() =~= span(v@, 0, n));
    n
}

/// A URL for dynamic options, with `{{key}}` placeholders filled in from
/// `vars`; only `http` and `https` URLs are allowed.
pub open spec fn options_url(url: Seq<char>, vars: Seq<(String, String)>) -> Result<Seq<char>, Seq<char>> {
    let u = substitute_all(url, vars, "{{"@, "}}"@);
    if starts_with(u, "https://"@) || starts_with(u, "http://"@) {
        Ok(u)
    } else {
        Err("URL scheme must be http or https, got: "@ + before_first(u, "://"@))
    }
}

/// Fill in and check the URL that dynamic options are fetched from (see
/// [`options_url`]).
pub fn prepare_options_url(url: &str, vars: &Vec<(String, String)>) -> (r: Result<String, String>)
    ensures
        match options_url(url@, vars@) {
            Ok(u) => r matches Ok(x) && x@ == u,
            Err(m) => r matches Err(e) && e@ == m,
        },
{
    let u = substitute_template_vars(url, vars);
    let v = chars_of(u.as_str());
    if has_prefix(&v, "https://") || has_prefix(&v, "http://") {
        return Ok(u);
    }
    proof {
        reveal_strlit("://");
    }
    let end = prefix_end(&v, "://");
    let mut m = String::from_str("URL scheme must be http or https, got: ");
    let scheme = string_from_range(&v, 0, end);
    m.append(scheme.as_str());
    Err(m)
}

// ─── Update-check commands ───

/// How running an update-check command ended.
#[derive(Debug)]
pub enum CommandReply {
    /// It did not finish within its timeout.
    TimedOut,
    /// It could not be started; the error as printed.
    SpawnFailed(String),
    /// It finished: whether it succeeded, its exit status as printed, and
    /// what it wrote.
    Finished { success: bool, status: String, stdout: Vec<u8>, stderr: Vec<u8> },
}

/// The first of `lines` that is not blank, trimmed.
pub open spec fn first_nonblank(lines: Seq<Seq<char>>) -> Option<Seq<char>>
    decreases lines.len(),
{
    if lines.len() == 0 {
        None
    } else if trimmed(lines[0]).len() > 0 {
        Some(trimmed(lines[0]))
    } else {
        first_nonblank(lines.drop_first())
    }
}

/// The latest version a command printed (its first non-blank output line,
/// trimmed), or why there is none; `command` is the command as run.
pub open spec fn command_outcome(command: Seq<char>, timeout_secs: u32, reply: CommandReply) -> Result<
    Seq<char>,
    Seq<char>,
> {
    match reply {
        CommandReply::TimedOut => Err(
            "Update check command timed out after "@ + decimal_digits(timeout_secs as nat) + "s: "@
                + command,
        ),
        CommandReply::SpawnFailed(e) => Err("Failed to execute update check command: "@ + e@),
        CommandReply::Finished { success, status, stdout, stderr } => if !success {
            Err(
                "Update check command exited with "@ + status@ + ": "@ + trimmed(
                    utf8_lossy(stderr@),
                ),
            )
        } else {
            match first_nonblank(split_on(utf8_lossy(stdout@), '\n')) {
                Some(l) => Ok(l),
                None => Err("Update check command produced no output"@),
            }
        },
    }
}

/// The command an update check runs: `command` with `${param}`
/// placeholders filled in from `vars`.
pub fn update_command(command: &str, vars: &Vec<(String, String)>) -> (r: String)
    ensures
        r@ == substitute_all(command@, vars@, "${"@, "}"@),
{
    substitute_variables(command, vars)
}

/// The latest version from an update-check command's run (see
/// [`command_outcome`]).
pub fn command_version_from_reply(command: &str, timeout_secs: u32, reply: &CommandReply) -> (r:
    Result<String, String>)
    ensures
        match command_outcome(command@, timeout_secs, *reply) {
            Ok(t) => r matches Ok(x) && x@ == t,
            Err(m) => r matches Err(e) && e@ == m,
        },
{
    match reply {
        CommandReply::TimedOut => {
            let mut m = String::from_str("Update check command timed out after ");
            push_decimal(&mut m, u32_to_usize(timeout_secs));
            m.append("s: ");
            m.append(command);
            Err(m)
        },
        CommandReply::SpawnFailed(e) => Err(
            join2("Failed to execute update check command: ", e.as_str()),
        ),
        CommandReply::Finished { success, status, stdout, stderr } => {
            if !*success {
                let text = decode_lossy(stderr.as_slice());
                let v = chars_of(text.as_str());
                let (a, b) = trim_bounds(&v);
                let t = string_from_range(&v, a, b);
                return Err(join4("Update check command exited with ", status.as_str(), ": ", t.as_str()));
            }
            let text = decode_lossy(stdout.as_slice());
            let v = chars_of(text.as_str());
            let lines = split_ranges(&v, '\n');
            let ghost all = split_on(v@, '\n');
            let mut k: usize = 0;
            assert(all.skip(0) =~= all);
            while k < lines.len()
                invariant
                    v@ == text@,
                    text@ == utf8_lossy(stdout@),
                    *success,
                    *reply matches CommandReply::Finished { success: ok, stdout: out, .. } && ok
                        && out@ == stdout@,
                    all == split_on(v@, '\n'),
                    lines@.len() == all.len(),
                    forall|j: int|
                        0 <= j < lines@.len() ==> {
                            &&& (#[trigger] lines@[j]).0 <= lines@[j].1 <= v@.len()
                            &&& span(v@, lines@[j].0, lines@[j].1) == all[j]
                        },
                    k <= lines@.len(),
                    first_nonblank(all) == first_nonblank(all.skip(k as int)),
                decreases lines@.len() - k,
            {
                let (from, to) = lines[k];
                let piece = string_from_range(&v, from, to);
                let pv = chars_of(piece.as_str());
                let (a, b) = trim_bounds(&pv);
                assert(all.skip(k as int)[0] == all[k as int]);
                assert(all.skip(k as int).drop_first() =~= all.skip(k + 1));
                assert(pv@ == all[k as int]);
                if a < b {
                    assert(trimmed(all[k as int]).len() > 0);
                    return Ok(string_from_range(&pv, a, b));
                }
                k = k + 1;
            }
            assert(all.skip(k as int) =~= Seq::<Seq<char>>::empty());
            Err(String::from_str("Update check command produced no output"))
        },
    }
}

} // verus!
