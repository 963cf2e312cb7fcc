//! How a server's binary is executed.
//!
//! Pointing a server at a shell script runs into what `execve` cannot do by
//! itself: Windows line endings in the shebang, no shebang at all, or an
//! interpreter at a path that does not exist on this host.  This module
//! decides, from the file's first bytes and what the caller found on disk,
//! which command and arguments actually run it, the way a POSIX shell does.

use vstd::prelude::*;
use crate::text::{chars_of, span, string_from_range, decimal_digits, push_decimal_u64};
use crate::words::{words, word_spans};

verus! {

/// The texts of a list of strings.
pub open spec fn strs(v: Seq<String>) -> Seq<Seq<char>> {
    v.map_values(|s: String| s@)
}

/// The text of an optional string.
pub open spec fn opt_text(o: Option<String>) -> Option<Seq<char>> {
    match o {
        Some(s) => Some(s@),
        None => None,
    }
}

/// A copy of `v`.
pub fn copy_strings(v: &Vec<String>) -> (r: Vec<String>)
    ensures
        r@ == v@,
{
    let mut r: Vec<String> = Vec::new();
    let mut i: usize = 0;
    while i < v.len()
        invariant
            i <= v.len(),
            r@ == v@.take(i as int),
        decreases v.len() - i,
    {
        r.push(v[i].clone());
        assert(v@.take(i + 1) =~= v@.take(i as int).push(v@[i as int]));
        i = i + 1;
    }
    assert(v@.take(v.len() as int) =~= v@);
    r
}

/// The command and arguments a server process is spawned with.
#[derive(Debug)]
pub struct ResolvedExec {
    pub command: String,
    pub args: Vec<String>,
}

/// The command and arguments of `e` as text.
pub open spec fn exec_view(e: ResolvedExec) -> (Seq<char>, Seq<Seq<char>>) {
    (e.command@, strs(e.args@))
}

impl ResolvedExec {
    /// Run `binary` itself with `args`.
    pub fn passthrough(binary: &str, args: &Vec<String>) -> (r: ResolvedExec)
        ensures
            exec_view(r) == (binary@, strs(args@)),
    {
        ResolvedExec { command: String::from_str(binary), args: copy_strings(args) }
    }
}

/// `sh`'s path: the one found on this host, else `/bin/sh`.
pub open spec fn shell_path(sh: Option<Seq<char>>) -> Seq<char> {
    match sh {
        Some(p) => p,
        None => "/bin/sh"@,
    }
}

/// Run the script `binary` through `sh`; `sh` is where the shell was found
/// on this host, if it was.
pub fn run_via_sh(binary: &str, args: &Vec<String>, sh: Option<String>) -> (r: ResolvedExec)
    ensures
        exec_view(r) == (shell_path(opt_text(sh)), seq![binary@] + strs(args@)),
{
    let command = match sh {
        Some(s) => s,
        None => String::from_str("/bin/sh"),
    };
    let mut new_args: Vec<String> = Vec::new();
    new_args.push(String::from_str(binary));
    let mut rest = copy_strings(args);
    new_args.append(&mut rest);
    let r = ResolvedExec { command, args: new_args };
    assert(strs(r.args@) =~= seq![binary@] + strs(args@));
    r
}

/// Run the script `binary` by invoking `interpreter` on it explicitly:
/// `interpreter [extra...] binary [args...]`.
fn invoke_explicitly(interpreter: String, extra: &Vec<String>, binary: &str, args: &Vec<String>) -> (r: ResolvedExec)
    ensures
        exec_view(r) == (interpreter@, strs(extra@) + seq![binary@] + strs(args@)),
{
    let mut new_args = copy_strings(extra);
    new_args.push(String::from_str(binary));
    let mut rest = copy_strings(args);
    new_args.append(&mut rest);
    let r = ResolvedExec { command: interpreter, args: new_args };
    assert(strs(r.args@) =~= strs(extra@) + seq![binary@] + strs(args@));
    r
}

// ─── File names ───

/// Number of characters after the last `/` of `p`.
pub open spec fn tail_len(p: Seq<char>) -> nat
    decreases p.len(),
{
    if p.len() > 0 && p.last() != '/' {
        1 + tail_len(p.drop_last())
    } else {
        0
    }
}

pub proof fn lemma_tail_len_le(p: Seq<char>)
    ensures
        tail_len(p) <= p.len(),
    decreases p.len(),
{
    if p.len() > 0 && p.last() != '/' {
        lemma_tail_len_le(p.drop_last());
    }
}

/// The last component of the path `p`, as `Path::file_name` gives it:
/// trailing separators and `.` components are passed over, and there is
/// none for an empty path, the root, or a path that ends in `..`.
pub open spec fn file_name_of(p: Seq<char>) -> Option<Seq<char>>
    decreases p.len(),
{
    if p.len() == 0 {
        None
    } else if p.last() == '/' {
        file_name_of(p.drop_last())
    } else {
        let n = tail_len(p);
        proof {
            lemma_tail_len_le(p);
        }
        let c = p.skip(p.len() - n);
        if c == "."@ {
            file_name_of(p.take(p.len() - n))
        } else if c == ".."@ {
            None
        } else {
            Some(c)
        }
    }
}

/// `file_name_of`, empty when there is none.
pub open spec fn file_name_or_empty(p: Seq<char>) -> Seq<char> {
    match file_name_of(p) {
        Some(n) => n,
        None => Seq::empty(),
    }
}

/// The span `(from, to)` of the file name of `v[..end]`.
fn file_name_span(v: &Vec<char>, end: usize) -> (r: Option<(usize, usize)>)
    requires
        end <= v.len(),
    ensures
        match file_name_of(v@.take(end as int)) {
            Some(n) => r matches Some(p) && p.0 <= p.1 <= end && span(v@, p.0, p.1) == n,
            None => r is None,
        },
    decreases end,
{
    proof {
        reveal_strlit(".");
        reveal_strlit("..");
    }
    let ghost p = v@.take(end as int);
    if end == 0 {
        return None;
    }
    assert(p.last() == v@[end - 1]);
    if v[end - 1] == '/' {
        assert(p.drop_last() =~= v@.take(end - 1));
        return file_name_span(v, end - 1);
    }
    let mut start: usize = end;
    while start > 0 && v[start - 1] != '/'
        invariant
            start <= end <= v.len(),
            p == v@.take(end as int),
            p.len() > 0,
            p.last() != '/',
            tail_len(p) == (end - start) + tail_len(v@.take(start as int)),
        decreases start,
    {
        assert(v@.take(start as int).drop_last() =~= v@.take(start - 1));
        start = start - 1;
    }
    proof {
        if start > 0 {
            assert(v@.take(start as int).last() == v@[start - 1]);
        }
        assert(tail_len(v@.take(start as int)) == 0);
        lemma_tail_len_le(p);
        assert(p.skip(p.len() - tail_len(p)) =~= span(v@, start, end));
        assert(p.take(p.len() - tail_len(p)) =~= v@.take(start as int));
    }
    let len = end - start;
    if len == 1 && v[start] == '.' {
        assert(span(v@, start, end) =~= "."@);
        return file_name_span(v, start);
    }
    if len == 2 && v[start] == '.' && v[start + 1] == '.' {
        assert(span(v@, start, end) =~= ".."@);
        return None;
    }
    assert(span(v@, start, end) != "."@) by {
        if len == 1 {
            assert(span(v@, start, end)[0] == v@[start as int]);
        }
    }
    assert(span(v@, start, end) != ".."@) by {
        if len == 2 {
            assert(span(v@, start, end)[0] == v@[start as int]);
            assert(span(v@, start, end)[1] == v@[start + 1]);
        }
    }
    Some((start, end))
}

/// The file name of the path `p`, empty when it has none.
pub fn file_name(p: &str) -> (r: String)
    ensures
        r@ == file_name_or_empty(p@),
{
    let v = chars_of(p);
    assert(v@.take(v.len() as int) =~= p@);
    match file_name_span(&v, v.len()) {
        Some((a, b)) => string_from_range(&v, a, b),
        None => String::new(),
    }
}

// ─── Shebang ───

/// The bytes of `content` before its first line feed.
pub open spec fn first_line(content: Seq<u8>) -> Seq<u8>
    decreases content.len(),
{
    if content.len() == 0 {
        content
    } else if content[0] == 10 {
        Seq::empty()
    } else {
        seq![content[0]] + first_line(content.drop_first())
    }
}

/// The text that `String::from_utf8_lossy` decodes from `bytes`.
pub uninterp spec fn utf8_lossy(bytes: Seq<u8>) -> Seq<char>;

/// `bytes` decoded as UTF-8 by `String::from_utf8_lossy`, which puts
/// U+FFFD in place of each invalid sequence.  Claimed: the result is that
/// function's, named [`utf8_lossy`]; nothing more is stated of it.
#[verifier::external_body]
pub(crate) fn decode_lossy(bytes: &[u8]) -> (r: String)
    ensures
        r@ == utf8_lossy(bytes@),
{
    String::from_utf8_lossy(bytes).into_owned()
}

/// The whitespace-separated words after `#!` on `line`; `None` when the
/// line does not start with `#!`.
pub open spec fn shebang_of(line: Seq<char>) -> Option<Seq<Seq<char>>> {
    if line.len() >= 2 && line[0] == '#' && line[1] == '!' {
        Some(words(line.skip(2)))
    } else {
        None
    }
}

/// What the first line of a script says about its interpreter.
#[derive(Debug)]
pub enum Shebang {
    /// The first line does not start with `#!`.
    Missing,
    /// `#!` with nothing after it.
    Empty,
    /// The interpreter's path and the arguments given to it.
    Interpreter { path: String, extra_args: Vec<String> },
}

/// The words of a shebang line, `None` when there is none.
pub open spec fn shebang_view(s: Shebang) -> Option<Seq<Seq<char>>> {
    match s {
        Shebang::Missing => None,
        Shebang::Empty => Some(Seq::empty()),
        Shebang::Interpreter { path, extra_args } => Some(seq![path@] + strs(extra_args@)),
    }
}

/// The first line of `content`, as bytes.
fn first_line_bytes(content: &[u8]) -> (r: Vec<u8>)
    ensures
        r@ == first_line(content@),
{
    let mut r: Vec<u8> = Vec::new();
    let mut i: usize = 0;
    assert(content@.skip(0) =~= content@);
    assert(r@ + first_line(content@) =~= first_line(content@));
    while i < content.len() && content[i] != 10
        invariant
            i <= content@.len(),
            forall|k: int| 0 <= k < i ==> content@[k] != 10,
            r@ == content@.take(i as int),
            first_line(content@) == r@ + first_line(content@.skip(i as int)),
        decreases content@.len() - i,
    {
        let ghost rest = content@.skip(i as int);
        assert(rest[0] == content@[i as int]);
        assert(rest.drop_first() =~= content@.skip(i + 1));
        let ghost old_r = r@;
        r.push(content[i]);
        assert(content@.take(i + 1) =~= content@.take(i as int).push(content@[i as int]));
        assert(old_r + (seq![rest[0]] + first_line(rest.drop_first())) =~= r@ + first_line(
            rest.drop_first(),
        ));
        i = i + 1;
    }
    if i < content.len() {
        assert(content@.skip(i as int)[0] == content@[i as int]);
    } else {
        assert(content@.skip(i as int) =~= Seq::<u8>::empty());
    }
    r
}

/// Read the shebang of a script from its first bytes.
pub fn parse_shebang(content: &[u8]) -> (r: Shebang)
    ensures
        shebang_view(r) == shebang_of(utf8_lossy(first_line(content@))),
        r is Empty ==> shebang_of(utf8_lossy(first_line(content@))) == Some(Seq::<Seq<char>>::empty()),
{
    let line_bytes = first_line_bytes(content);
    let line = decode_lossy(line_bytes.as_slice());
    let v = chars_of(line.as_str());
    if !(v.len() >= 2 && v[0] == '#' && v[1] == '!') {
        return Shebang::Missing;
    }
    let spans = word_spans(&v, 2);
    let ghost ws = words(v@.skip(2));
    if spans.len() == 0 {
        assert(ws =~= Seq::<Seq<char>>::empty());
        return Shebang::Empty;
    }
    let (a, b) = spans[0];
    let path = string_from_range(&v, a, b);
    let mut extra_args: Vec<String> = Vec::new();
    let mut k: usize = 1;
    while k < spans.len()
        invariant
            1 <= k <= spans@.len(),
            spans@.len() == ws.len(),
            forall|j: int|
                0 <= j < spans@.len() ==> {
                    &&& (#[trigger] spans@[j]).0 <= spans@[j].1 <= v@.len()
                    &&& span(v@, spans@[j].0, spans@[j].1) == ws[j]
                },
            strs(extra_args@) == ws.subrange(1, k as int),
        decreases spans@.len() - k,
    {
        let (c, d) = spans[k];
        let w = string_from_range(&v, c, d);
        let ghost before = extra_args@;
        extra_args.push(w);
        assert(strs(extra_args@) =~= strs(before).push(w@));
        assert(ws.subrange(1, k + 1) =~= ws.subrange(1, k as int).push(ws[k as int]));
        k = k + 1;
    }
    let r = Shebang::Interpreter { path, extra_args };
    assert(seq![ws[0]] + ws.subrange(1, ws.len() as int) =~= ws);
    r
}

// ─── Choosing how to run a script ───

/// How a script is run, and the console note that explains it, given its
/// shebang and what was found on this host: whether the file is
/// executable, whether the shebang's interpreter exists at its path, where
/// an interpreter of the same name was found otherwise, and where `sh` is.
pub open spec fn script_plan(
    shebang: Option<Seq<Seq<char>>>,
    binary: Seq<char>,
    args: Seq<Seq<char>>,
    is_executable: bool,
    interpreter_exists: bool,
    located: Option<Seq<char>>,
    sh: Option<Seq<char>>,
) -> ((Seq<char>, Seq<Seq<char>>), Option<Seq<char>>) {
    let via_sh = (shell_path(sh), seq![binary] + args);
    match shebang {
        None => (
            via_sh,
            Some("Script '"@ + file_name_or_empty(binary) + "' has no #! shebang — running via sh"@),
        ),
        Some(ws) => if ws.len() == 0 {
            (via_sh, Some("Script has an empty #! shebang — running via sh"@))
        } else {
            let interp = ws[0];
            let extra = ws.skip(1);
            if interpreter_exists {
                if is_executable {
                    ((binary, args), None)
                } else {
                    ((interp, extra + seq![binary] + args), None)
                }
            } else {
                match located {
                    Some(found) if file_name_or_empty(interp).len() > 0 => (
                        (found, extra + seq![binary] + args),
                        Some(
                            "Shebang interpreter '"@ + interp + "' not found — using '"@ + found
                                + "' instead"@,
                        ),
                    ),
                    _ => (
                        via_sh,
                        Some(
                            "Shebang interpreter '"@ + interp
                                + "' not found and could not be located — falling back to sh"@,
                        ),
                    ),
                }
            }
        },
    }
}

/// A script with a shebang `#!<interpreter> <extra words>` is run one of
/// three ways, and every way passes the user's arguments unchanged at the
/// end: directly (an executable script whose interpreter exists); through
/// the interpreter invoked explicitly (the stated one when it exists, else
/// the one located by its name), with the shebang's extra words, then the
/// script, then the user's arguments; or through `sh` with the script and
/// the user's arguments.
pub proof fn law_script_arguments(
    interpreter: Seq<char>,
    extra: Seq<Seq<char>>,
    binary: Seq<char>,
    args: Seq<Seq<char>>,
    is_executable: bool,
    interpreter_exists: bool,
    located: Option<Seq<char>>,
    sh: Option<Seq<char>>,
)
    ensures
        ({
            let ((command, argv), _) = script_plan(
                Some(seq![interpreter] + extra),
                binary,
                args,
                is_executable,
                interpreter_exists,
                located,
                sh,
            );
            &&& interpreter_exists && is_executable ==> command == binary && argv == args
            &&& interpreter_exists && !is_executable ==> command == interpreter && argv == extra
                + seq![binary] + args
            &&& !interpreter_exists && located is Some && file_name_or_empty(interpreter).len() > 0
                ==> command == located->0 && argv == extra + seq![binary] + args
            &&& !interpreter_exists && (located is None || file_name_or_empty(interpreter).len()
                == 0) ==> command == shell_path(sh) && argv == seq![binary] + args
        }),
{
    let ws = seq![interpreter] + extra;
    assert(ws[0] == interpreter);
    assert(ws.skip(1) =~= extra);
}

fn concat3(a: &str, b: &str, c: &str) -> (r: String)
    ensures
        r@ == a@ + b@ + c@,
{
    let mut s = String::from_str(a);
    s.append(b);
    s.append(c);
    s
}

/// Decide how to run the script `binary` (see [`script_plan`]).  The
/// caller checks whether the shebang's interpreter exists at its path and,
/// when it does not, looks for one named like it; `sh` is where `sh` was
/// found.  Returns the command to spawn and the console note to show.
pub fn resolve_script(
    shebang: &Shebang,
    binary: &str,
    args: &Vec<String>,
    is_executable: bool,
    interpreter_exists: bool,
    located: Option<String>,
    sh: Option<String>,
) -> (r: (ResolvedExec, Option<String>))
    ensures
        (exec_view(r.0), opt_text(r.1)) == script_plan(
            shebang_view(*shebang),
            binary@,
            strs(args@),
            is_executable,
            interpreter_exists,
            opt_text(located),
            opt_text(sh),
        ),
{
    match shebang {
        Shebang::Missing => {
            let name = file_name(binary);
            let note = concat3(
                "Script '",
                name.as_str(),
                "' has no #! shebang — running via sh",
            );
            (run_via_sh(binary, args, sh), Some(note))
        },
        Shebang::Empty => {
            (
                run_via_sh(binary, args, sh),
                Some(String::from_str("Script has an empty #! shebang — running via sh")),
            )
        },
        Shebang::Interpreter { path, extra_args } => {
            proof {
                assert((seq![path@] + strs(extra_args@))[0] == path@);
                assert((seq![path@] + strs(extra_args@)).skip(1) =~= strs(extra_args@));
            }
            if interpreter_exists {
                if is_executable {
                    (ResolvedExec::passthrough(binary, args), None)
                } else {
                    (invoke_explicitly(path.clone(), extra_args, binary, args), None)
                }
            } else {
                let name = file_name(path.as_str());
                match located {
                    Some(found) => {
                        if name.unicode_len() > 0 {
                            let mut note = concat3(
                                "Shebang interpreter '",
                                path.as_str(),
                                "' not found — using '",
                            );
                            note.append(found.as_str());
                            note.append("' instead");
                            (invoke_explicitly(found, extra_args, binary, args), Some(note))
                        } else {
                            let note = concat3(
                                "Shebang interpreter '",
                                path.as_str(),
                                "' not found and could not be located — falling back to sh",
                            );
                            (run_via_sh(binary, args, sh), Some(note))
                        }
                    },
                    None => {
                        let note = concat3(
                            "Shebang interpreter '",
                            path.as_str(),
                            "' not found and could not be located — falling back to sh",
                        );
                        (run_via_sh(binary, args, sh), Some(note))
                    },
                }
            }
        },
    }
}

// ─── Script repair ───

/// Files larger than this many bytes are not repaired in place.
pub const MAX_SCRIPT_SIZE: u64 = 1048576;

/// The header starts with the ELF magic `\x7fELF`.
pub open spec fn is_elf(header: Seq<u8>) -> bool {
    header.len() >= 4 && header[0] == 0x7f && header[1] == 0x45 && header[2] == 0x4c && header[3]
        == 0x46
}

/// Whether `header` is that of an ELF executable.
pub fn is_elf_header(header: &[u8]) -> (r: bool)
    ensures
        r == is_elf(header@),
{
    header.len() >= 4 && header[0] == 0x7f && header[1] == 0x45 && header[2] == 0x4c && header[3]
        == 0x46
}

/// Whether a binary runs as it is, without looking further: it is missing
/// (so that starting it fails with its own error), its header could not be
/// read (`None`), or it is an ELF executable.  Anything else is a script.
pub fn runs_unchanged(present: bool, header: Option<&[u8]>) -> (r: bool)
    ensures
        r == (!present || header is None || is_elf(header.unwrap()@)),
{
    if !present {
        return true;
    }
    match header {
        None => true,
        Some(h) => is_elf_header(h),
    }
}

/// Whether `bytes` contains a carriage return.
pub fn has_carriage_return(bytes: &[u8]) -> (r: bool)
    ensures
        r == bytes@.contains(13u8),
{
    let mut i: usize = 0;
    while i < bytes.len()
        invariant
            i <= bytes@.len(),
            forall|k: int| 0 <= k < i ==> bytes@[k] != 13u8,
        decreases bytes@.len() - i,
    {
        if bytes[i] == 13 {
            assert(bytes@[i as int] == 13u8);
            return true;
        }
        i = i + 1;
    }
    false
}

/// `bytes` without its carriage returns.
pub open spec fn without_cr(bytes: Seq<u8>) -> Seq<u8>
    decreases bytes.len(),
{
    if bytes.len() == 0 {
        bytes
    } else if bytes.last() == 13 {
        without_cr(bytes.drop_last())
    } else {
        without_cr(bytes.drop_last()).push(bytes.last())
    }
}

/// Remove every carriage return (CRLF → LF).
pub fn strip_carriage_returns(content: &[u8]) -> (r: Vec<u8>)
    ensures
        r@ == without_cr(content@),
{
    let mut r: Vec<u8> = Vec::new();
    let mut i: usize = 0;
    while i < content.len()
        invariant
            i <= content@.len(),
            r@ == without_cr(content@.take(i as int)),
        decreases content@.len() - i,
    {
        assert(content@.take(i + 1).drop_last() =~= content@.take(i as int));
        if content[i] != 13 {
            r.push(content[i]);
        }
        i = i + 1;
    }
    assert(content@.take(content@.len() as int) =~= content@);
    r
}

/// What to do about carriage returns in a script.
#[derive(Clone, Copy, Debug, PartialEq, Eq, Structural)]
pub enum CrlfAction {
    /// No carriage return in the header: use the header as it is.
    Keep,
    /// Carriage returns, but the file is too large to rewrite: warn, and
    /// parse the header as it is.
    TooLarge,
    /// Rewrite the file without carriage returns and parse that.
    Strip,
}

/// Decide how to treat carriage returns, from the script's header and size.
pub fn crlf_action(header: &[u8], file_size: u64) -> (r: CrlfAction)
    ensures
        r == (if !header@.contains(13u8) {
            CrlfAction::Keep
        } else if file_size > MAX_SCRIPT_SIZE {
            CrlfAction::TooLarge
        } else {
            CrlfAction::Strip
        }),
{
    if !has_carriage_return(header) {
        CrlfAction::Keep
    } else if file_size > MAX_SCRIPT_SIZE {
        CrlfAction::TooLarge
    } else {
        CrlfAction::Strip
    }
}

// ─── Console notes ───

/// Note for a script without the execute bit.
pub open spec fn not_executable_text(binary: Seq<char>) -> Seq<char> {
    "Script '"@ + file_name_or_empty(binary) + "' is not executable \u{2014} running via interpreter"@
}

/// The console note for a script without the execute bit (see
/// [`not_executable_text`]).
pub fn not_executable_note(binary: &str) -> (r: String)
    ensures
        r@ == not_executable_text(binary@),
{
    let mut s = String::from_str("Script '");
    let name = file_name(binary);
    s.append(name.as_str());
    s.append("' is not executable \u{2014} running via interpreter");
    s
}

/// Warning for a script with Windows line endings that is too large to fix.
pub open spec fn crlf_too_large_text(path: Seq<char>, size: u64) -> Seq<char> {
    "Warning: '"@ + path + "' has Windows line endings but is too large ("@ + decimal_digits(
        size as nat,
    ) + " bytes) for automatic CRLF fix. Please convert it manually."@
}

/// The console warning for a script with Windows line endings that is too
/// large to fix (see [`crlf_too_large_text`]).
pub fn crlf_too_large_note(path: &str, size: u64) -> (r: String)
    ensures
        r@ == crlf_too_large_text(path@, size),
{
    let mut s = String::from_str("Warning: '");
    s.append(path);
    s.append("' has Windows line endings but is too large (");
    push_decimal_u64(&mut s, size);
    s.append(" bytes) for automatic CRLF fix. Please convert it manually.");
    s
}

/// Note after the line endings of a script were fixed.
pub open spec fn crlf_fixed_text(path: Seq<char>) -> Seq<char> {
    "Fixed Windows line endings (CRLF \u{2192} LF) in '"@ + path + "'"@
}

/// The console note after the line endings of a script were fixed (see
/// [`crlf_fixed_text`]).
pub fn crlf_fixed_note(path: &str) -> (r: String)
    ensures
        r@ == crlf_fixed_text(path@),
{
    let mut s = String::from_str("Fixed Windows line endings (CRLF \u{2192} LF) in '");
    s.append(path);
    s.append("'");
    s
}

} // verus!
