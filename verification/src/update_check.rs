//! Update-check logic: version extraction, variable maps, and the result of
//! a check.

use vstd::prelude::*;
use crate::json::{JsonValue, object_get};
use crate::text::{str_eq, substitute_all, substitute_placeholders, opt_view, chars_of, span, decimal_digits, push_decimal};
use crate::words::{parse_u32, parse_u32_span};
use crate::numeric::{u32_to_usize, lemma_decimal_digits_read_back, lemma_digit_run_whole};
use crate::time::DateTimeUtc;
use crate::types::pipeline::ConfigParameter;
use crate::types::server::{UpdateCheckProvider, UpdateCheckResult, VersionPick};

verus! {

/// The text of a JSON string or number.
pub open spec fn version_text(v: JsonValue) -> Option<Seq<char>> {
    match v {
        JsonValue::String(s) => Some(s@),
        JsonValue::Number(n) => Some(n@),
        _ => None,
    }
}

/// The version that a JSON value gives: a string or a number directly; for
/// a non-empty array, the first or last element, read at `value_key` when
/// one is given.
pub open spec fn extracted_version(
    v: JsonValue,
    pick: VersionPick,
    value_key: Option<Seq<char>>,
) -> Option<Seq<char>> {
    match v {
        JsonValue::String(s) => Some(s@),
        JsonValue::Number(n) => Some(n@),
        JsonValue::Array(a) => if a@.len() == 0 {
            None
        } else {
            let e = match pick {
                VersionPick::First => a@[0],
                VersionPick::Last => a@.last(),
            };
            match value_key {
                Some(k) => match e {
                    JsonValue::Object(m) => match object_get(m@, k) {
                        Some(x) => version_text(x),
                        None => None,
                    },
                    _ => None,
                },
                None => version_text(e),
            }
        },
        _ => None,
    }
}

fn text_of(v: &JsonValue) -> (r: Option<String>)
    ensures
        match r {
            Some(t) => version_text(*v) == Some(t@),
            None => version_text(*v) is None,
        },
{
    match v {
        JsonValue::String(s) => Some(s.clone()),
        JsonValue::Number(n) => Some(n.clone()),
        _ => None,
    }
}

/// The version string in a JSON value (see [`extracted_version`]).
pub fn extract_version(value: &JsonValue, pick: VersionPick, value_key: Option<&str>) -> (r:
    Option<String>)
    ensures
        match r {
            Some(t) => extracted_version(*value, pick, opt_view(value_key)) == Some(t@),
            None => extracted_version(*value, pick, opt_view(value_key)) is None,
        },
{
    match value {
        JsonValue::String(s) => Some(s.clone()),
        JsonValue::Number(n) => Some(n.clone()),
        JsonValue::Array(arr) => {
            if arr.len() == 0 {
                return None;
            }
            let element = match pick {
                VersionPick::First => &arr[0],
                VersionPick::Last => &arr[arr.len() - 1],
            };
            match value_key {
                Some(key) => match element.get(key) {
                    Some(x) => text_of(x),
                    None => None,
                },
                None => text_of(element),
            }
        },
        _ => None,
    }
}

/// Substitute `${param}` placeholders in `input` with the values of `vars`,
/// one variable after the other in the order given.
pub fn substitute_variables(input: &str, vars: &Vec<(String, String)>) -> (r: String)
    ensures
        r@ == substitute_all(input@, vars@, "${"@, "}"@),
{
    proof {
        reveal_strlit("${");
    }
    substitute_placeholders(input, vars, "${", "}")
}

// ─── Variable maps ───

/// The value of the first entry of `m` with key `k`.
pub open spec fn lookup(m: Seq<(String, String)>, k: Seq<char>) -> Option<Seq<char>>
    decreases m.len(),
{
    if m.len() == 0 {
        None
    } else if m[0].0@ == k {
        Some(m[0].1@)
    } else {
        lookup(m.drop_first(), k)
    }
}

/// The entries of `base`, followed by `(name, default)` for each parameter
/// with a default whose name is not yet a key, in parameter order.
pub open spec fn with_defaults(base: Seq<(String, String)>, params: Seq<ConfigParameter>) -> Seq<
    (String, String),
>
    decreases params.len(),
{
    if params.len() == 0 {
        base
    } else {
        let acc = with_defaults(base, params.drop_last());
        let p = params.last();
        match p.default {
            Some(d) => if lookup(acc, p.name@) is None {
                acc.push((p.name, d))
            } else {
                acc
            },
            None => acc,
        }
    }
}

/// Index of the first entry of `m` with key `k`.
pub fn find_key(m: &Vec<(String, String)>, k: &str) -> (r: Option<usize>)
    ensures
        match r {
            Some(i) => i < m@.len() && m@[i as int].0@ == k@ && lookup(m@, k@) == Some(
                m@[i as int].1@,
            ),
            None => lookup(m@, k@) is None,
        },
{
    let mut i: usize = 0;
    assert(m@.skip(0) =~= m@);
    while i < m.len()
        invariant
            i <= m@.len(),
            lookup(m@, k@) == lookup(m@.skip(i as int), k@),
        decreases m@.len() - i,
    {
        assert(m@.skip(i as int)[0] == m@[i as int]);
        assert(m@.skip(i as int).drop_first() =~= m@.skip(i + 1));
        if str_eq(m[i].0.as_str(), k) {
            return Some(i);
        }
        i = i + 1;
    }
    None
}

/// The variable map of an update check: the explicit parameter values, then
/// the defaults of parameters that have no explicit value.
pub fn build_check_variables(
    parameter_values: &Vec<(String, String)>,
    parameters: &Vec<ConfigParameter>,
) -> (r: Vec<(String, String)>)
    ensures
        r@ == with_defaults(parameter_values@, parameters@),
{
    let mut vars: Vec<(String, String)> = Vec::new();
    let mut i: usize = 0;
    while i < parameter_values.len()
        invariant
            i <= parameter_values@.len(),
            vars@ == parameter_values@.take(i as int),
        decreases parameter_values@.len() - i,
    {
        let (k, v) = (parameter_values[i].0.clone(), parameter_values[i].1.clone());
        vars.push((k, v));
        assert(vars@ =~= parameter_values@.take(i + 1));
        i = i + 1;
    }
    assert(parameter_values@.take(i as int) =~= parameter_values@);
    let mut j: usize = 0;
    assert(parameters@.take(0) =~= Seq::<ConfigParameter>::empty());
    while j < parameters.len()
        invariant
            j <= parameters@.len(),
            vars@ == with_defaults(parameter_values@, parameters@.take(j as int)),
        decreases parameters@.len() - j,
    {
        let p = &parameters[j];
        assert(parameters@.take(j + 1).drop_last() =~= parameters@.take(j as int));
        match &p.default {
            Some(d) => {
                if find_key(&vars, p.name.as_str()).is_none() {
                    vars.push((p.name.clone(), d.clone()));
                }
            },
            None => {},
        }
        j = j + 1;
    }
    assert(parameters@.take(j as int) =~= parameters@);
    vars
}

/// Index of the first parameter marked as the version.
pub open spec fn first_version_param(params: Seq<ConfigParameter>) -> Option<int>
    decreases params.len(),
{
    if params.len() == 0 {
        None
    } else if params.last().is_version && first_version_param(params.drop_last()) is None {
        Some(params.len() - 1)
    } else {
        first_version_param(params.drop_last())
    }
}

/// The name of the first parameter marked as the version.
pub fn find_version_param_name(parameters: &Vec<ConfigParameter>) -> (r: Option<String>)
    ensures
        match first_version_param(parameters@) {
            Some(i) => r matches Some(n) && n@ == parameters@[i].name@,
            None => r is None,
        },
{
    let mut j: usize = 0;
    assert(parameters@.take(0) =~= Seq::<ConfigParameter>::empty());
    while j < parameters.len()
        invariant
            j <= parameters@.len(),
            first_version_param(parameters@.take(j as int)) is None,
        decreases parameters@.len() - j,
    {
        assert(parameters@.take(j + 1).drop_last() =~= parameters@.take(j as int));
        if parameters[j].is_version {
            proof {
                lemma_first_version_param_prefix(parameters@, j + 1);
            }
            return Some(parameters[j].name.clone());
        }
        j = j + 1;
    }
    assert(parameters@.take(j as int) =~= parameters@);
    None
}

/// The first version parameter of a sequence is found in a prefix that
/// reaches it.
proof fn lemma_first_version_param_prefix(params: Seq<ConfigParameter>, n: int)
    requires
        0 < n <= params.len(),
        first_version_param(params.take(n)) == Some(n - 1),
    ensures
        first_version_param(params) == Some(n - 1),
    decreases params.len() - n,
{
    if n < params.len() {
        assert(params.drop_last().take(n) =~= params.take(n));
        lemma_first_version_param_prefix(params.drop_last(), n);
    } else {
        assert(params.take(n) =~= params);
    }
}

/// The installed version: the recorded one if any, otherwise the value of
/// the version parameter.
pub fn get_installed_version(
    installed_version: &Option<String>,
    parameter_values: &Vec<(String, String)>,
    parameters: &Vec<ConfigParameter>,
) -> (r: Option<String>)
    ensures
        match *installed_version {
            Some(v) => r matches Some(t) && t@ == v@,
            None => match first_version_param(parameters@) {
                Some(i) => match lookup(parameter_values@, parameters@[i].name@) {
                    Some(val) => r matches Some(t) && t@ == val,
                    None => r is None,
                },
                None => r is None,
            },
        },
{
    if let Some(v) = installed_version {
        return Some(v.clone());
    }
    let name = match find_version_param_name(parameters) {
        Some(n) => n,
        None => {
            return None;
        },
    };
    match find_key(parameter_values, name.as_str()) {
        Some(i) => Some(parameter_values[i].1.clone()),
        None => None,
    }
}

/// The default of the first parameter named `k` that has a default.
pub open spec fn first_default(params: Seq<ConfigParameter>, k: Seq<char>) -> Option<Seq<char>>
    decreases params.len(),
{
    if params.len() == 0 {
        None
    } else {
        match first_default(params.drop_last(), k) {
            Some(d) => Some(d),
            None => if params.last().name@ == k {
                match params.last().default {
                    Some(d) => Some(d@),
                    None => None,
                }
            } else {
                None
            },
        }
    }
}

pub proof fn lemma_lookup_push(m: Seq<(String, String)>, x: (String, String), k: Seq<char>)
    ensures
        lookup(m.push(x), k) == (match lookup(m, k) {
            Some(v) => Some(v),
            None => if x.0@ == k {
                Some(x.1@)
            } else {
                None
            },
        }),
    decreases m.len(),
{
    if m.len() == 0 {
        assert(m.push(x)[0] == x);
        assert(m.push(x).drop_first() =~= Seq::<(String, String)>::empty());
        assert(lookup(Seq::<(String, String)>::empty(), k) is None);
    } else {
        assert(m.push(x)[0] == m[0]);
        assert(m.push(x).drop_first() =~= m.drop_first().push(x));
        lemma_lookup_push(m.drop_first(), x, k);
    }
}

/// Explicit parameter values win over defaults, and a parameter without an
/// explicit value gets the default of the first parameter of that name that
/// has one.
pub proof fn law_check_variables_defaults(
    parameter_values: Seq<(String, String)>,
    params: Seq<ConfigParameter>,
    k: Seq<char>,
)
    ensures
        lookup(parameter_values, k) is Some ==> lookup(with_defaults(parameter_values, params), k)
            == lookup(parameter_values, k),
        lookup(parameter_values, k) is None ==> lookup(with_defaults(parameter_values, params), k)
            == first_default(params, k),
    decreases params.len(),
{
    if params.len() > 0 {
        law_check_variables_defaults(parameter_values, params.drop_last(), k);
        let acc = with_defaults(parameter_values, params.drop_last());
        let p = params.last();
        match p.default {
            Some(d) => {
                if lookup(acc, p.name@) is None {
                    lemma_lookup_push(acc, (p.name, d), k);
                }
            },
            None => {},
        }
    }
}

// ─── The result of a check ───

/// Message when the template default version cannot be determined.
pub open spec fn no_template_default_message() -> Seq<char> {
    "Could not determine template default version (template not found or no version parameter)"@
}

/// The latest version from a template lookup: its value, its error, or an
/// error when it found nothing.
pub fn template_default_outcome(lookup: Result<Option<String>, String>) -> (r: Result<String, String>)
    ensures
        match lookup {
            Ok(Some(v)) => r == Ok::<String, String>(v),
            Ok(None) => r matches Err(e) && e@ == no_template_default_message(),
            Err(e) => r == Err::<String, String>(e),
        },
{
    match lookup {
        Ok(Some(v)) => Ok(v),
        Ok(None) => Err(String::from_str(
            "Could not determine template default version (template not found or no version parameter)",
        )),
        Err(e) => Err(e),
    }
}

/// An optional text that is empty becomes `None`.
pub open spec fn non_empty(o: Option<String>) -> Option<String> {
    match o {
        Some(s) => if s@.len() == 0 {
            None
        } else {
            Some(s)
        },
        None => None,
    }
}

/// Builds the result of a check from the provider's outcome.  On success an
/// update is available exactly when an installed version is known and
/// differs from the latest; a failed check reports its error and no
/// versions beyond the installed one.  Empty display names are dropped.
pub fn check_result(
    server_id: uuid::Uuid,
    installed_version: Option<String>,
    latest: Result<String, String>,
    latest_display: Option<String>,
    installed_display: Option<String>,
    checked_at: DateTimeUtc,
) -> (r: UpdateCheckResult)
    ensures
        r.server_id == server_id,
        r.installed_version == installed_version,
        r.checked_at == checked_at,
        match latest {
            Ok(l) => {
                &&& r.update_available == (installed_version matches Some(i) && i@ != l@)
                &&& r.latest_version == Some(l)
                &&& r.latest_version_display == non_empty(latest_display)
                &&& r.installed_version_display == installed_display
                &&& r.error is None
            },
            Err(e) => {
                &&& !r.update_available
                &&& r.latest_version is None
                &&& r.latest_version_display is None
                &&& r.installed_version_display is None
                &&& r.error == Some(e)
            },
        },
{
    let latest_display = match latest_display {
        Some(d) => if d.unicode_len() == 0 {
            None
        } else {
            Some(d)
        },
        None => None,
    };
    match latest {
        Ok(l) => {
            let update_available = match &installed_version {
                Some(i) => !str_eq(i.as_str(), l.as_str()),
                None => false,
            };
            UpdateCheckResult {
                server_id,
                update_available,
                installed_version,
                latest_version: Some(l),
                installed_version_display: installed_display,
                latest_version_display: latest_display,
                checked_at,
                error: None,
            }
        },
        Err(e) => UpdateCheckResult {
            server_id,
            update_available: false,
            installed_version,
            latest_version: None,
            installed_version_display: None,
            latest_version_display: None,
            checked_at,
            error: Some(e),
        },
    }
}

// ─── CurseForge provider ───

/// Message when no CurseForge API key is configured.
pub open spec fn curseforge_key_missing() -> Seq<char> {
    "CurseForge API key is not configured. Ask an admin to set it up in Admin Panel \u{2192} CurseForge."@
}

/// The CurseForge API key to query with: the configured one, or an error
/// when there is none.
pub fn curseforge_api_key(api_key: Option<&str>) -> (r: Result<String, String>)
    ensures
        match api_key {
            Some(k) => r matches Ok(s) && s@ == k@,
            None => r matches Err(e) && e@ == curseforge_key_missing(),
        },
{
    match api_key {
        Some(k) => Ok(String::from_str(k)),
        None => Err(String::from_str(
            "CurseForge API key is not configured. Ask an admin to set it up in Admin Panel \u{2192} CurseForge.",
        )),
    }
}

/// The latest version a CurseForge project offers, from the fetched list of
/// its files (id and display name, newest first): the newest file's id as
/// text and its display name.  A failed fetch and an empty list are errors.
pub fn curseforge_latest(project_id: u32, fetched: Result<Vec<(u32, String)>, String>) -> (r:
    Result<(String, String), String>)
    ensures
        match fetched {
            Err(e) => r matches Err(m) && m@ == "Failed to fetch CurseForge files for project "@
                + decimal_digits(project_id as nat) + ": "@ + e@,
            Ok(files) => if files@.len() == 0 {
                r matches Err(m) && m@ == "No available files found for CurseForge project "@
                    + decimal_digits(project_id as nat)
            } else {
                r matches Ok((id, name)) && id@ == decimal_digits(files@[0].0 as nat) && name
                    == files@[0].1
            },
        },
{
    match fetched {
        Err(e) => {
            let mut m = String::from_str("Failed to fetch CurseForge files for project ");
            push_decimal(&mut m, u32_to_usize(project_id));
            m.append(": ");
            m.append(e.as_str());
            Err(m)
        },
        Ok(mut files) => {
            if files.len() == 0 {
                let mut m = String::from_str("No available files found for CurseForge project ");
                push_decimal(&mut m, u32_to_usize(project_id));
                Err(m)
            } else {
                let (id, name) = files.remove(0);
                let mut text = String::new();
                push_decimal(&mut text, u32_to_usize(id));
                Ok((text, name))
            }
        },
    }
}

/// The lookup of the installed file's display name: for a CurseForge
/// check, when the installed version names a file id and an API key is
/// configured, the key, the project and the file to ask about; else none.
pub fn installed_display_request(
    provider: &UpdateCheckProvider,
    installed: &Option<String>,
    api_key: Option<&str>,
) -> (r: Option<(String, u32, u32)>)
    ensures
        match (*provider, api_key) {
            (UpdateCheckProvider::CurseForge { project_id }, Some(k)) => match *installed {
                Some(v) => match parse_u32(v@) {
                    Some(n) => r matches Some((key, p, f)) && key@ == k@ && p == project_id && f
                        as int == n,
                    None => r is None,
                },
                None => r is None,
            },
            _ => r is None,
        },
{
    match provider {
        UpdateCheckProvider::CurseForge { project_id } => match api_key {
            Some(k) => match installed_file_id(installed) {
                Some(file_id) => Some((String::from_str(k), *project_id, file_id)),
                None => None,
            },
            None => None,
        },
        _ => None,
    }
}

/// The display name of the installed file, from the name the CurseForge
/// API gave for it: kept when it was fetched and is not empty.
pub fn installed_display_name(fetched: Result<String, String>) -> (r: Option<String>)
    ensures
        r == (match fetched {
            Ok(n) => if n@.len() > 0 {
                Some(n)
            } else {
                None::<String>
            },
            Err(_) => None,
        }),
{
    match fetched {
        Ok(n) => if n.as_str().unicode_len() > 0 {
            Some(n)
        } else {
            None
        },
        Err(_) => None,
    }
}

/// The CurseForge file id an installed version names, when it reads as a
/// `u32`.
pub fn installed_file_id(installed: &Option<String>) -> (r: Option<u32>)
    ensures
        match *installed {
            Some(v) => match parse_u32(v@) {
                Some(n) => r matches Some(x) && x as int == n,
                None => r is None,
            },
            None => r is None,
        },
{
    match installed {
        Some(v) => {
            let c = chars_of(v.as_str());
            assert(span(c@, 0, c.len()) =~= v@);
            parse_u32_span(&c, 0, c.len())
        },
        None => None,
    }
}

/// Law: the version a CurseForge check reports as the latest (the newest
/// file's id in decimal) reads back, once installed, as that file's id.
pub proof fn law_curseforge_version_names_file(file_id: u32)
    ensures
        parse_u32(decimal_digits(file_id as nat)) == Some(file_id as int),
{
    let d = decimal_digits(file_id as nat);
    lemma_decimal_digits_read_back(file_id as nat);
    lemma_digit_run_whole(d);
    assert(!(d[0] == '+'));
}

} // verus!
