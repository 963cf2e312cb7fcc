//! Dynamic-options logic: ordering and limiting fetched options.

use std::cmp::Ordering;
use vstd::prelude::*;
use crate::text::{substitute_all, substitute_placeholders, is_digit, char_is_digit, decimal_digits, push_decimal, opt_view};
use crate::json::{JsonValue, object_get, label_text, label_to_string, scalar_text, scalar_to_string};
use crate::numeric::{u32_to_usize, uint, limited_len};
use crate::types::pipeline::{FetchedOption, OptionsSortOrder};
use crate::version::{
    version_order, version_cmp, flip, not_greater, law_version_antisymmetric,
    law_version_reflexive, law_version_transitive,
};

verus! {

/// A value looks like a version when it starts with an ASCII digit.
pub open spec fn looks_like_version(s: Seq<char>) -> bool {
    s.len() > 0 && is_digit(s[0])
}

/// Order of option values: version-like values first, then each group in
/// the requested direction of the version order.
pub open spec fn option_order(a: Seq<char>, b: Seq<char>, dir: OptionsSortOrder) -> Ordering {
    if looks_like_version(a) && !looks_like_version(b) {
        Ordering::Less
    } else if !looks_like_version(a) && looks_like_version(b) {
        Ordering::Greater
    } else {
        match dir {
            OptionsSortOrder::Asc => version_order(a, b),
            OptionsSortOrder::Desc => version_order(b, a),
        }
    }
}

/// The option order is a total preorder: swapping flips it, every value is
/// equivalent to itself, and "not greater" and "less" chain.
pub proof fn law_option_order_total_preorder(
    a: Seq<char>,
    b: Seq<char>,
    c: Seq<char>,
    dir: OptionsSortOrder,
)
    ensures
        option_order(a, b, dir) == flip(option_order(b, a, dir)),
        option_order(a, a, dir) == Ordering::Equal,
        not_greater(option_order(a, b, dir)) && not_greater(option_order(b, c, dir))
            ==> not_greater(option_order(a, c, dir)),
        option_order(a, b, dir) == Ordering::Less && not_greater(option_order(b, c, dir))
            ==> option_order(a, c, dir) == Ordering::Less,
        not_greater(option_order(a, b, dir)) && option_order(b, c, dir) == Ordering::Less
            ==> option_order(a, c, dir) == Ordering::Less,
{
    law_version_antisymmetric(a, b);
    law_version_reflexive(a);
    law_version_transitive(a, b, c);
    law_version_transitive(c, b, a);
}

/// `perm` lists the indices of `input` in a stable sorted order: it is a
/// permutation, the values it lists are ordered, and equivalent values keep
/// their relative order in the input.
pub open spec fn stable_sort_perm(
    input: Seq<FetchedOption>,
    perm: Seq<int>,
    dir: OptionsSortOrder,
) -> bool {
    &&& perm.len() == input.len()
    &&& forall|k: int| 0 <= k < perm.len() ==> 0 <= #[trigger] perm[k] < input.len()
    &&& forall|k: int, l: int| 0 <= k < l < perm.len() ==> #[trigger] perm[k] != #[trigger] perm[l]
    &&& forall|k: int, l: int|
        0 <= k < l < perm.len() ==> not_greater(
            option_order(input[#[trigger] perm[k]].value@, input[#[trigger] perm[l]].value@, dir),
        )
    &&& forall|k: int, l: int|
        0 <= k < l < perm.len() && option_order(
            input[#[trigger] perm[k]].value@,
            input[#[trigger] perm[l]].value@,
            dir,
        ) == Ordering::Equal ==> perm[k] < perm[l]
}

/// `true` when `s` starts with an ASCII digit.
pub fn is_version_like(s: &str) -> (r: bool)
    ensures
        r == looks_like_version(s@),
{
    if s.unicode_len() == 0 {
        false
    } else {
        char_is_digit(s.get_char(0))
    }
}

/// Compares two options by their values in the option order.
pub fn compare_options(a: &FetchedOption, b: &FetchedOption, dir: OptionsSortOrder) -> (r:
    Ordering)
    ensures
        r == option_order(a.value@, b.value@, dir),
{
    let a_ver = is_version_like(a.value.as_str());
    let b_ver = is_version_like(b.value.as_str());
    if a_ver && !b_ver {
        Ordering::Less
    } else if !a_ver && b_ver {
        Ordering::Greater
    } else {
        match dir {
            OptionsSortOrder::Asc => version_cmp(a.value.as_str(), b.value.as_str()),
            OptionsSortOrder::Desc => version_cmp(b.value.as_str(), a.value.as_str()),
        }
    }
}

/// Stable sort of `options` in the option order.
fn stable_sort(options: Vec<FetchedOption>, dir: OptionsSortOrder) -> (r: Vec<FetchedOption>)
    ensures
        exists|perm: Seq<int>|
            #![trigger stable_sort_perm(options@, perm, dir)]
            stable_sort_perm(options@, perm, dir) && r@.len() == perm.len() && forall|k: int|
                0 <= k < perm.len() ==> r@[k] == options@[#[trigger] perm[k]],
{
    let ghost input = options@;
    let mut src = options;
    let mut out: Vec<FetchedOption> = Vec::new();
    let ghost mut perm: Seq<int> = Seq::empty();
    let ghost mut i: int = 0;
    while src.len() > 0
        invariant
            0 <= i <= input.len(),
            src@ == input.skip(i),
            perm.len() == i,
            out@.len() == i,
            forall|k: int| 0 <= k < i ==> 0 <= #[trigger] perm[k] < i,
            forall|k: int, l: int| 0 <= k < l < i ==> #[trigger] perm[k] != #[trigger] perm[l],
            forall|k: int| 0 <= k < i ==> out@[k] == input[#[trigger] perm[k]],
            forall|k: int, l: int|
                0 <= k < l < i ==> not_greater(
                    option_order(#[trigger] out@[k].value@, #[trigger] out@[l].value@, dir),
                ),
            forall|k: int, l: int|
                0 <= k < l < i && option_order(
                    #[trigger] out@[k].value@,
                    #[trigger] out@[l].value@,
                    dir,
                ) == Ordering::Equal ==> perm[k] < perm[l],
        decreases src@.len(),
    {
        assert(input.skip(i)[0] == input[i]);
        assert(input.skip(i).remove(0) =~= input.skip(i + 1));
        let x = src.remove(0);
        let mut p: usize = 0;
        while p < out.len() && !matches!(compare_options(&out[p], &x, dir), Ordering::Greater)
            invariant
                p <= out@.len(),
                forall|q: int|
                    0 <= q < p ==> not_greater(option_order(#[trigger] out@[q].value@, x.value@, dir)),
            decreases out@.len() - p,
        {
            p = p + 1;
        }
        let ghost old_out = out@;
        let ghost old_perm = perm;
        proof {
            if p < old_out.len() {
                assert(option_order(old_out[uint(p)].value@, x.value@, dir) == Ordering::Greater);
                law_option_order_total_preorder(old_out[uint(p)].value@, x.value@, x.value@, dir);
                assert(option_order(x.value@, old_out[uint(p)].value@, dir) == Ordering::Less);
                assert forall|q: int| p <= q < old_out.len() implies option_order(
                    x.value@,
                    #[trigger] old_out[q].value@,
                    dir,
                ) == Ordering::Less by {
                    if q > p {
                        law_option_order_total_preorder(
                            x.value@,
                            old_out[uint(p)].value@,
                            old_out[q].value@,
                            dir,
                        );
                    }
                }
            }
        }
        out.insert(p, x);
        proof {
            perm = old_perm.insert(uint(p), i);
            let new_out = out@;
            assert forall|k: int| 0 <= k < i + 1 implies new_out[k] == input[#[trigger] perm[k]] by {
                if k < p {
                    assert(new_out[k] == old_out[k]);
                } else if k > p {
                    assert(new_out[k] == old_out[k - 1]);
                }
            }
            assert forall|k: int| 0 <= k < i + 1 implies 0 <= #[trigger] perm[k] < i + 1 by {
                if k < p {
                    assert(perm[k] == old_perm[k]);
                } else if k > p {
                    assert(perm[k] == old_perm[k - 1]);
                }
            }
            assert forall|k: int, l: int| 0 <= k < l < i + 1 implies #[trigger] perm[k]
                != #[trigger] perm[l] by {
                if k < p && l < p {
                    assert(perm[k] == old_perm[k] && perm[l] == old_perm[l]);
                } else if k < p && l == p {
                    assert(perm[k] == old_perm[k]);
                } else if k < p && l > p {
                    assert(perm[k] == old_perm[k] && perm[l] == old_perm[l - 1]);
                } else if k == p {
                    assert(perm[l] == old_perm[l - 1]);
                } else {
                    assert(perm[k] == old_perm[k - 1] && perm[l] == old_perm[l - 1]);
                }
            }
            assert forall|k: int, l: int| 0 <= k < l < i + 1 implies not_greater(
                option_order(#[trigger] new_out[k].value@, #[trigger] new_out[l].value@, dir),
            ) && (option_order(new_out[k].value@, new_out[l].value@, dir) == Ordering::Equal
                ==> perm[k] < perm[l]) by {
                if k < p && l < p {
                    assert(new_out[k] == old_out[k] && new_out[l] == old_out[l]);
                    assert(perm[k] == old_perm[k] && perm[l] == old_perm[l]);
                } else if k < p && l == p {
                    assert(new_out[k] == old_out[k]);
                    assert(perm[k] == old_perm[k]);
                } else if k < p && l > p {
                    assert(new_out[k] == old_out[k] && new_out[l] == old_out[l - 1]);
                    assert(perm[k] == old_perm[k] && perm[l] == old_perm[l - 1]);
                } else if k == p {
                    assert(new_out[l] == old_out[l - 1]);
                } else {
                    assert(new_out[k] == old_out[k - 1] && new_out[l] == old_out[l - 1]);
                    assert(perm[k] == old_perm[k - 1] && perm[l] == old_perm[l - 1]);
                }
            }
            i = i + 1;
        }
    }
    proof {
        assert(input.skip(i).len() == 0);
        assert(stable_sort_perm(input, perm, dir));
    }
    out
}

/// Applies optional sorting (in the option order, stably) and then an
/// optional limit.
pub fn sort_and_limit(
    options: Vec<FetchedOption>,
    sort: Option<OptionsSortOrder>,
    limit: Option<u32>,
) -> (r: Vec<FetchedOption>)
    ensures
        r@.len() == limited_len(options@.len(), limit),
        sort is None ==> forall|k: int| 0 <= k < r@.len() ==> r@[k] == options@[k],
        sort matches Some(dir) ==> exists|perm: Seq<int>|
            #![trigger stable_sort_perm(options@, perm, dir)]
            stable_sort_perm(options@, perm, dir) && forall|k: int|
                0 <= k < r@.len() ==> r@[k] == options@[#[trigger] perm[k]],
{
    let ghost input = options@;
    let mut out = match sort {
        Some(dir) => stable_sort(options, dir),
        None => options,
    };
    let ghost sorted = out@;
    if let Some(max) = limit {
        out.truncate(u32_to_usize(max));
    }
    assert forall|k: int| 0 <= k < out@.len() implies out@[k] == sorted[k] by {}
    out
}


// ─── Option extraction ───

/// The option (value, label) that an array element yields, if it yields
/// one: with `value_key`, the element must be an object whose member
/// `value_key` is a string or number (the label is the string, number or
/// boolean at `label_key`, else the value); without it, the element itself
/// must be a string or number.
pub open spec fn element_option(
    e: JsonValue,
    value_key: Option<Seq<char>>,
    label_key: Option<Seq<char>>,
) -> Option<(Seq<char>, Seq<char>)> {
    match value_key {
        Some(vk) => match e {
            JsonValue::Object(m) => match object_get(m@, vk) {
                Some(v) => match scalar_text(v) {
                    Some(val) => Some(
                        (
                            val,
                            match label_key {
                                Some(lk) => match object_get(m@, lk) {
                                    Some(lv) => match label_text(lv) {
                                        Some(t) => t,
                                        None => val,
                                    },
                                    None => val,
                                },
                                None => val,
                            },
                        ),
                    ),
                    None => None,
                },
                None => None,
            },
            _ => None,
        },
        None => match scalar_text(e) {
            Some(t) => Some((t, t)),
            None => None,
        },
    }
}

/// Message for a value that is not an array.
pub open spec fn not_array_message() -> Seq<char> {
    "Expected a JSON array at the resolved path, got a non-array value"@
}

/// Message for the element at index `i` that yields no option.
pub open spec fn element_error(e: JsonValue, i: nat, value_key: Option<Seq<char>>) -> Seq<char> {
    match value_key {
        Some(vk) => match e {
            JsonValue::Object(m) => match object_get(m@, vk) {
                Some(v) => "Value at key '"@ + vk + "' in element "@ + decimal_digits(i)
                    + " is not a string or number"@,
                None => "Array element at index "@ + decimal_digits(i) + " does not have key '"@
                    + vk + "'"@,
            },
            _ => "Array element at index "@ + decimal_digits(i) + " is not an object (value_key '"@
                + vk + "' was specified)"@,
        },
        None => "Array element at index "@ + decimal_digits(i)
            + " is not a string or number (set value_key if the array contains objects)"@,
    }
}

fn element_error_message(e: &JsonValue, i: usize, value_key: Option<&str>) -> (s: String)
    ensures
        s@ == element_error(*e, i as nat, opt_view(value_key)),
{
    let mut s = String::new();
    match value_key {
        Some(vk) => match e {
            JsonValue::Object(_) => {
                if e.get(vk).is_some() {
                    s.append("Value at key '");
                    s.append(vk);
                    s.append("' in element ");
                    push_decimal(&mut s, i);
                    s.append(" is not a string or number");
                } else {
                    s.append("Array element at index ");
                    push_decimal(&mut s, i);
                    s.append(" does not have key '");
                    s.append(vk);
                    s.append("'");
                }
            },
            _ => {
                s.append("Array element at index ");
                push_decimal(&mut s, i);
                s.append(" is not an object (value_key '");
                s.append(vk);
                s.append("' was specified)");
            },
        },
        None => {
            s.append("Array element at index ");
            push_decimal(&mut s, i);
            s.append(" is not a string or number (set value_key if the array contains objects)");
        },
    }
    s
}

fn option_of_element(e: &JsonValue, value_key: Option<&str>, label_key: Option<&str>) -> (r:
    Option<FetchedOption>)
    ensures
        match r {
            Some(o) => element_option(*e, opt_view(value_key), opt_view(label_key)) == Some(
                (o.value@, o.label@),
            ),
            None => element_option(*e, opt_view(value_key), opt_view(label_key)) is None,
        },
{
    match value_key {
        Some(vk) => match e {
            JsonValue::Object(_) => {
                let v = match e.get(vk) {
                    Some(v) => v,
                    None => {
                        return None;
                    },
                };
                let val = match scalar_to_string(v) {
                    Some(t) => t,
                    None => {
                        return None;
                    },
                };
                let lbl = match label_key {
                    Some(lk) => match e.get(lk) {
                        Some(lv) => match label_to_string(lv) {
                            Some(t) => t,
                            None => val.clone(),
                        },
                        None => val.clone(),
                    },
                    None => val.clone(),
                };
                Some(FetchedOption { value: val, label: lbl })
            },
            _ => None,
        },
        None => match scalar_to_string(e) {
            Some(t) => {
                let t2 = t.clone();
                Some(FetchedOption { value: t, label: t2 })
            },
            None => None,
        },
    }
}

/// Extract the options listed by a JSON array: each element yields an
/// option as [`element_option`] says.  A value that is not an array, or the
/// first element that yields no option, gives an error message.
pub fn extract_options(value: &JsonValue, value_key: Option<&str>, label_key: Option<&str>) -> (r:
    Result<Vec<FetchedOption>, String>)
    ensures
        match *value {
            JsonValue::Array(a) => match r {
                Ok(opts) => opts@.len() == a@.len() && forall|i: int|
                    0 <= i < a@.len() ==> element_option(
                        #[trigger] a@[i],
                        opt_view(value_key),
                        opt_view(label_key),
                    ) == Some((opts@[i].value@, opts@[i].label@)),
                Err(msg) => exists|i: int|
                    0 <= i < a@.len() && element_option(
                        #[trigger] a@[i],
                        opt_view(value_key),
                        opt_view(label_key),
                    ) is None && (forall|j: int|
                        0 <= j < i ==> element_option(
                            #[trigger] a@[j],
                            opt_view(value_key),
                            opt_view(label_key),
                        ) is Some) && msg@ == element_error(a@[i], i as nat, opt_view(value_key)),
            },
            _ => r matches Err(msg) && msg@ == not_array_message(),
        },
{
    let arr = match value {
        JsonValue::Array(a) => a,
        _ => {
            return Err(String::from_str(
                "Expected a JSON array at the resolved path, got a non-array value",
            ));
        },
    };
    let mut options: Vec<FetchedOption> = Vec::new();
    let mut i: usize = 0;
    while i < arr.len()
        invariant
            *value matches JsonValue::Array(a) && a@ == arr@,
            i <= arr@.len(),
            options@.len() == i,
            forall|k: int|
                0 <= k < i ==> element_option(
                    #[trigger] arr@[k],
                    opt_view(value_key),
                    opt_view(label_key),
                ) == Some((options@[k].value@, options@[k].label@)),
        decreases arr@.len() - i,
    {
        match option_of_element(&arr[i], value_key, label_key) {
            Some(o) => {
                options.push(o);
            },
            None => {
                let msg = element_error_message(&arr[i], i, value_key);
                proof {
                    assert(element_option(arr@[i as int], opt_view(value_key), opt_view(label_key))
                        is None);
                    assert(msg@ == element_error(arr@[i as int], i as nat, opt_view(value_key)));
                    assert(forall|j: int|
                        0 <= j < i ==> element_option(
                            #[trigger] arr@[j],
                            opt_view(value_key),
                            opt_view(label_key),
                        ) is Some);
                }
                return Err(msg);
            },
        }
        i = i + 1;
    }
    Ok(options)
}


// ─── Variable substitution ───

/// Replace `{{key}}` placeholders in `input` with the values of `vars`,
/// one variable after the other in the order given.
pub fn substitute_template_vars(input: &str, vars: &Vec<(String, String)>) -> (r: String)
    ensures
        r@ == substitute_all(input@, vars@, "{{"@, "}}"@),
{
    proof {
        reveal_strlit("{{");
    }
    substitute_placeholders(input, vars, "{{", "}}")
}

} // verus!
