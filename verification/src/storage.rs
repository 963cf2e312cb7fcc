//! How the data model is stored: search patterns, ordering, paging, and the
//! text forms of stored values.

use vstd::prelude::*;
use crate::text::{chars_of, str_eq};
use crate::time::DateTimeUtc;
use crate::types::auth::{PermissionLevel, Role};
use crate::text::push_char;

verus! {

// ─── LIKE patterns ───

/// `s` with the `LIKE` wildcards and the escape character escaped by a
/// backslash (`\` → `\\`, `%` → `\%`, `_` → `\_`), for `LIKE ? ESCAPE '\'`.
pub open spec fn like_escaped(s: Seq<char>) -> Seq<char>
    decreases s.len(),
{
    if s.len() == 0 {
        s
    } else {
        let c = s.last();
        let rest = like_escaped(s.drop_last());
        if c == '\\' || c == '%' || c == '_' {
            rest.push('\\').push(c)
        } else {
            rest.push(c)
        }
    }
}

/// The text a `LIKE` pattern matches literally, reading `\\` as its escape
/// character: `None` when the pattern holds an unescaped wildcard (`%` or
/// `_`) or ends in a lone escape.
pub open spec fn like_literal(p: Seq<char>) -> Option<Seq<char>>
    decreases p.len(),
{
    if p.len() == 0 {
        Some(Seq::empty())
    } else if p[0] == '\\' {
        if p.len() >= 2 {
            match like_literal(p.skip(2)) {
                Some(r) => Some(seq![p[1]] + r),
                None => None,
            }
        } else {
            None
        }
    } else if p[0] == '%' || p[0] == '_' {
        None
    } else {
        match like_literal(p.drop_first()) {
            Some(r) => Some(seq![p[0]] + r),
            None => None,
        }
    }
}

/// A pattern that reads as literal text can be followed by another: the
/// whole reads as the two texts in turn.
proof fn lemma_like_literal_concat(x: Seq<char>, y: Seq<char>)
    requires
        like_literal(x) is Some,
    ensures
        like_literal(x + y) == match like_literal(y) {
            Some(ly) => Some(like_literal(x)->0 + ly),
            None => None::<Seq<char>>,
        },
    decreases x.len(),
{
    if x.len() == 0 {
        assert(x + y =~= y);
        if let Some(ly) = like_literal(y) {
            assert(Seq::<char>::empty() + ly =~= ly);
        }
    } else if x[0] == '\\' {
        assert((x + y).skip(2) =~= x.skip(2) + y);
        lemma_like_literal_concat(x.skip(2), y);
        if let Some(ly) = like_literal(y) {
            let lx = like_literal(x.skip(2))->0;
            assert(seq![x[1]] + (lx + ly) =~= (seq![x[1]] + lx) + ly);
        }
    } else {
        assert((x + y).drop_first() =~= x.drop_first() + y);
        lemma_like_literal_concat(x.drop_first(), y);
        if let Some(ly) = like_literal(y) {
            let lx = like_literal(x.drop_first())->0;
            assert(seq![x[0]] + (lx + ly) =~= (seq![x[0]] + lx) + ly);
        }
    }
}

/// Law: search text is matched literally — the escaped text, read the way
/// `LIKE ... ESCAPE '\\'` reads it, holds no wildcard and stands for exactly
/// the search text itself.
pub proof fn law_escaped_search_is_literal(s: Seq<char>)
    ensures
        like_literal(like_escaped(s)) == Some(s),
    decreases s.len(),
{
    if s.len() > 0 {
        let c = s.last();
        let prev = s.drop_last();
        law_escaped_search_is_literal(prev);
        let chunk = if c == '\\' || c == '%' || c == '_' {
            seq!['\\', c]
        } else {
            seq![c]
        };
        assert(like_escaped(s) =~= like_escaped(prev) + chunk);
        if c == '\\' || c == '%' || c == '_' {
            assert(chunk.skip(2) =~= Seq::<char>::empty());
            assert(like_literal(chunk.skip(2)) == Some(Seq::<char>::empty()));
            assert(chunk[0] == '\\' && chunk[1] == c && chunk.len() == 2);
            assert(like_literal(chunk) == Some(seq![c] + Seq::<char>::empty()));
        } else {
            assert(chunk.drop_first() =~= Seq::<char>::empty());
            assert(like_literal(chunk.drop_first()) == Some(Seq::<char>::empty()));
            assert(chunk[0] == c && chunk.len() == 1);
            assert(like_literal(chunk) == Some(seq![c] + Seq::<char>::empty()));
        }
        lemma_like_literal_concat(like_escaped(prev), chunk);
        assert(prev + (seq![c] + Seq::<char>::empty()) =~= s);
    }
}

/// Escape the `LIKE` wildcards of `input` (see [`like_escaped`]).
pub fn escape_like(input: &str) -> (r: String)
    ensures
        r@ == like_escaped(input@),
{
    let v = chars_of(input);
    let mut r = String::new();
    let mut i: usize = 0;
    while i < v.len()
        invariant
            i <= v@.len(),
            v@ == input@,
            r@ == like_escaped(v@.take(i as int)),
        decreases v@.len() - i,
    {
        let c = v[i];
        assert(v@.take(i + 1).drop_last() =~= v@.take(i as int));
        if c == '\\' || c == '%' || c == '_' {
            push_char(&mut r, '\\');
        }
        push_char(&mut r, c);
        i = i + 1;
    }
    assert(v@.take(v@.len() as int) =~= v@);
    r
}

/// The `LIKE` pattern matching names that contain `search` literally.
pub fn make_search_pattern(search: Option<&str>) -> (r: Option<String>)
    ensures
        match search {
            Some(s) => r matches Some(p) && p@ == seq!['%'] + like_escaped(s@) + seq!['%'],
            None => r is None,
        },
{
    match search {
        Some(s) => {
            let mut p = String::new();
            push_char(&mut p, '%');
            let e = escape_like(s);
            p.append(e.as_str());
            push_char(&mut p, '%');
            Some(p)
        },
        None => None,
    }
}

/// The `ORDER BY` clause of the server list for `sort` and `order`.
pub open spec fn order_clause(sort: Seq<char>, order: Seq<char>) -> Seq<char> {
    if sort == "created_at"@ {
        if order == "desc"@ {
            "s.created_at DESC"@
        } else {
            "s.created_at ASC"@
        }
    } else {
        if order == "desc"@ {
            "json_extract(s.config, '$.name') DESC"@
        } else {
            "json_extract(s.config, '$.name') ASC"@
        }
    }
}

/// The `ORDER BY` clause of the server list: by creation time when asked,
/// by name otherwise; descending when asked, ascending otherwise.
pub fn server_order_clause(sort: &str, order: &str) -> (r: &'static str)
    ensures
        r@ == order_clause(sort@, order@),
{
    if str_eq(sort, "created_at") {
        if str_eq(order, "desc") {
            "s.created_at DESC"
        } else {
            "s.created_at ASC"
        }
    } else {
        if str_eq(order, "desc") {
            "json_extract(s.config, '$.name') DESC"
        } else {
            "json_extract(s.config, '$.name') ASC"
        }
    }
}

/// `per_page` kept within 1..=100.
pub open spec fn clamped_per_page(per_page: u32) -> int {
    if per_page < 1 {
        1
    } else if per_page > 100 {
        100
    } else {
        per_page as int
    }
}

/// `page`, at least 1.
pub open spec fn page_at_least_one(page: u32) -> int {
    if page < 1 {
        1
    } else {
        page as int
    }
}

/// The page size and row offset of a page of the server list: the size is
/// kept within 1..=100 and page numbers start at 1.
pub fn page_window(page: u32, per_page: u32) -> (r: (u32, u32))
    requires
        (page_at_least_one(page) - 1) * clamped_per_page(per_page) <= u32::MAX,
    ensures
        r.0 == clamped_per_page(per_page),
        r.1 == (page_at_least_one(page) - 1) * clamped_per_page(per_page),
{
    let per = if per_page < 1 {
        1
    } else if per_page > 100 {
        100
    } else {
        per_page
    };
    let p = if page < 1 {
        1
    } else {
        page
    };
    (per, (p - 1) * per)
}

/// Law: consecutive pages are adjacent windows of the same size — the
/// rows of page `page + 1` start right after those of page `page`, so no
/// row is skipped or listed twice.
pub proof fn law_pages_are_adjacent(page: u32, per_page: u32)
    requires
        1 <= page < u32::MAX,
    ensures
        (page_at_least_one((page + 1) as u32) - 1) * clamped_per_page(per_page) == (page_at_least_one(
            page,
        ) - 1) * clamped_per_page(per_page) + clamped_per_page(per_page),
{
    let c = clamped_per_page(per_page);
    let p = page as int;
    assert(p * c == (p - 1) * c + c) by (nonlinear_arith);
}

/// A boolean as SQLite stores it.
pub fn bool_to_int(b: bool) -> (r: i64)
    ensures
        r == (if b {
            1i64
        } else {
            0i64
        }),
{
    if b {
        1
    } else {
        0
    }
}

// ─── Stored text forms ───

fn invalid(prefix: &str, s: &str) -> (r: String)
    ensures
        r@ == prefix@ + s@,
{
    let mut m = String::from_str(prefix);
    m.append(s);
    m
}

/// Read a stored role: `admin` or `user`.
pub fn parse_role(s: &str) -> (r: Result<Role, String>)
    ensures
        s@ == "admin"@ ==> r == Ok::<Role, String>(Role::Admin),
        s@ == "user"@ ==> r == Ok::<Role, String>(Role::User),
        s@ != "admin"@ && s@ != "user"@ ==> (r matches Err(e) && e@ == "Invalid role: "@ + s@),
{
    proof {
        reveal_strlit("admin");
        reveal_strlit("user");
        assert("user"@.len() == 4 && "admin"@.len() == 5);
    }
    if str_eq(s, "admin") {
        Ok(Role::Admin)
    } else if str_eq(s, "user") {
        Ok(Role::User)
    } else {
        Err(invalid("Invalid role: ", s))
    }
}

/// The stored name of a permission level.
pub open spec fn level_name(l: PermissionLevel) -> Seq<char> {
    match l {
        PermissionLevel::Viewer => "viewer"@,
        PermissionLevel::Operator => "operator"@,
        PermissionLevel::Manager => "manager"@,
        PermissionLevel::Admin => "admin"@,
        PermissionLevel::Owner => "owner"@,
    }
}

/// The level whose stored name is `s`.
pub open spec fn level_named(s: Seq<char>) -> Option<PermissionLevel> {
    if s == "viewer"@ {
        Some(PermissionLevel::Viewer)
    } else if s == "operator"@ {
        Some(PermissionLevel::Operator)
    } else if s == "manager"@ {
        Some(PermissionLevel::Manager)
    } else if s == "admin"@ {
        Some(PermissionLevel::Admin)
    } else if s == "owner"@ {
        Some(PermissionLevel::Owner)
    } else {
        None
    }
}

/// Read a stored permission level.
pub fn parse_permission_level(s: &str) -> (r: Result<PermissionLevel, String>)
    ensures
        match level_named(s@) {
            Some(l) => r == Ok::<PermissionLevel, String>(l),
            None => r matches Err(e) && e@ == "Invalid permission level: "@ + s@,
        },
{
    if str_eq(s, "viewer") {
        Ok(PermissionLevel::Viewer)
    } else if str_eq(s, "operator") {
        Ok(PermissionLevel::Operator)
    } else if str_eq(s, "manager") {
        Ok(PermissionLevel::Manager)
    } else if str_eq(s, "admin") {
        Ok(PermissionLevel::Admin)
    } else if str_eq(s, "owner") {
        Ok(PermissionLevel::Owner)
    } else {
        Err(invalid("Invalid permission level: ", s))
    }
}

/// The stored name of a permission level.
pub fn format_permission_level(level: PermissionLevel) -> (r: String)
    ensures
        r@ == level_name(level),
{
    match level {
        PermissionLevel::Viewer => String::from_str("viewer"),
        PermissionLevel::Operator => String::from_str("operator"),
        PermissionLevel::Manager => String::from_str("manager"),
        PermissionLevel::Admin => String::from_str("admin"),
        PermissionLevel::Owner => String::from_str("owner"),
    }
}

/// Law: reading back the stored name of a level gives the level.
pub proof fn law_permission_level_round_trip(l: PermissionLevel)
    ensures
        level_named(level_name(l)) == Some(l),
{
    reveal_strlit("viewer");
    reveal_strlit("operator");
    reveal_strlit("manager");
    reveal_strlit("admin");
    reveal_strlit("owner");
    assert("viewer"@.len() == 6 && "operator"@.len() == 8 && "manager"@.len() == 7);
    assert("admin"@.len() == 5 && "owner"@.len() == 5);
    assert("owner"@ != "admin"@) by {
        assert("owner"@[0] != "admin"@[0]);
    }
}

// ─── Identifiers and timestamps ───

/// What `uuid::Uuid::parse_str` makes of `s`: the identifier it reads, or
/// the message of its error.
pub uninterp spec fn uuid_parsed(s: Seq<char>) -> Result<uuid::Uuid, Seq<char>>;

/// `uuid::Uuid::parse_str`, its error printed.  Claimed: the identifier or
/// the message is the one [`uuid_parsed`] names for `s`.
#[verifier::external_body]
fn uuid_parse(s: &str) -> (r: Result<uuid::Uuid, String>)
    ensures
        match r {
            Ok(u) => uuid_parsed(s@) == Ok::<uuid::Uuid, Seq<char>>(u),
            Err(e) => uuid_parsed(s@) == Err::<uuid::Uuid, Seq<char>>(e@),
        },
{
    match uuid::Uuid::parse_str(s) {
        Ok(u) => Ok(u),
        Err(e) => Err(e.to_string()),
    }
}

/// Read a stored identifier: the one `parse_str` reads, or its error after
/// `Invalid UUID: `.
pub fn parse_uuid(s: &str) -> (r: Result<uuid::Uuid, String>)
    ensures
        match uuid_parsed(s@) {
            Ok(u) => r == Ok::<uuid::Uuid, String>(u),
            Err(m) => r matches Err(e) && e@ == "Invalid UUID: "@ + m,
        },
{
    match uuid_parse(s) {
        Ok(u) => Ok(u),
        Err(e) => Err(invalid("Invalid UUID: ", e.as_str())),
    }
}

/// What `chrono::DateTime::parse_from_rfc3339` reads from `s`, as seconds
/// and nanoseconds since the epoch in UTC, or its error printed.
pub uninterp spec fn rfc3339_instant(s: Seq<char>) -> Result<(i64, u32), Seq<char>>;

/// `chrono::DateTime::parse_from_rfc3339` converted to UTC.  Claimed: the
/// outcome is the one [`rfc3339_instant`] names.
#[verifier::external_body]
fn rfc3339_parse(s: &str) -> (r: Result<DateTimeUtc, String>)
    ensures
        match rfc3339_instant(s@) {
            Ok((secs, nanos)) => r == Ok::<DateTimeUtc, String>(DateTimeUtc { secs, nanos }),
            Err(m) => r matches Err(e) && e@ == m,
        },
{
    match chrono::DateTime::parse_from_rfc3339(s) {
        Ok(dt) => {
            let utc = dt.with_timezone(&chrono::Utc);
            Ok(DateTimeUtc { secs: utc.timestamp(), nanos: utc.timestamp_subsec_nanos() })
        },
        Err(e) => Err(e.to_string()),
    }
}

/// Read a stored RFC 3339 timestamp.
pub fn parse_timestamp(s: &str) -> (r: Result<DateTimeUtc, String>)
    ensures
        match rfc3339_instant(s@) {
            Ok((secs, nanos)) => r == Ok::<DateTimeUtc, String>(DateTimeUtc { secs, nanos }),
            Err(m) => r matches Err(e) && e@ == "Invalid timestamp: "@ + m,
        },
{
    match rfc3339_parse(s) {
        Ok(t) => Ok(t),
        Err(e) => Err(invalid("Invalid timestamp: ", e.as_str())),
    }
}

/// Read an optional stored timestamp.
pub fn parse_optional_timestamp(s: &Option<String>) -> (r: Result<Option<DateTimeUtc>, String>)
    ensures
        match s {
            Some(t) => match rfc3339_instant(t@) {
                Ok((secs, nanos)) => r == Ok::<Option<DateTimeUtc>, String>(
                    Some(DateTimeUtc { secs, nanos }),
                ),
                Err(m) => r matches Err(e) && e@ == "Invalid timestamp: "@ + m,
            },
            None => r == Ok::<Option<DateTimeUtc>, String>(None),
        },
{
    match s {
        Some(t) => match parse_timestamp(t.as_str()) {
            Ok(v) => Ok(Some(v)),
            Err(e) => Err(e),
        },
        None => Ok(None),
    }
}

// ─── Password migration ───

/// `s` parses as a PHC-format password hash (`argon2::PasswordHash::new`).
pub uninterp spec fn phc_hash_parses(s: Seq<char>) -> bool;

/// `argon2::password_hash::PasswordHash::new(s).is_ok()`.  Claimed: the
/// answer is the one [`phc_hash_parses`] names, and an empty string is
/// never a hash (the parser rejects it first thing).
#[verifier::external_body]
fn phc_parses(s: &str) -> (r: bool)
    ensures
        r == phc_hash_parses(s@),
        s@.len() == 0 ==> !r,
{
    argon2::password_hash::PasswordHash::new(s).is_ok()
}

/// Whether `value` is a structurally valid argon2 (PHC) hash.
pub fn is_valid_argon2_hash(value: &str) -> (r: bool)
    ensures
        r == phc_hash_parses(value@),
{
    phc_parses(value)
}

/// A stored SFTP password is still plaintext and must be hashed: it is set,
/// non-empty, and not a valid hash.
pub open spec fn needs_hashing(password: Option<String>) -> bool {
    password matches Some(p) && p@.len() > 0 && !phc_hash_parses(p@)
}

/// Whether a server's SFTP password must be migrated to a hash.
pub fn sftp_password_needs_migration(password: &Option<String>) -> (r: bool)
    ensures
        r == needs_hashing(*password),
{
    match password {
        Some(p) => p.unicode_len() > 0 && !is_valid_argon2_hash(p.as_str()),
        None => false,
    }
}

/// Law: migration is idempotent — a password that is a valid hash, or is
/// empty or unset, is never hashed again.
pub proof fn law_hashed_password_stays(password: Option<String>)
    requires
        password matches Some(p) ==> phc_hash_parses(p@) || p@.len() == 0,
    ensures
        !needs_hashing(password),
{
}

} // verus!
