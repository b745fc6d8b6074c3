//! Path safety for archive entries.
//!
//! The declared path of an archive entry is untrusted input: before any
//! filesystem write it is checked and broken into plain components. A path is
//! accepted only when it is relative (no leading separator, no drive or
//! scheme colon anywhere), contains no parent-directory (`..`) component, and
//! still names something once empty and `.` components are dropped. Both `/`
//! and `\` count as separators, since archives written on either platform
//! occur in the wild.

use vstd::prelude::*;
use vstd::string::StrSliceExecFns;

verus! {

/// Separators recognised in entry paths.
pub open spec fn is_sep(c: char) -> bool {
    c == '/' || c == '\\'
}

/// `[i, j)` is a maximal separator-free run of `s`: nonempty, and bounded by
/// separators or by the ends of the string.
pub open spec fn component_at(s: Seq<char>, i: int, j: int) -> bool {
    &&& 0 <= i < j <= s.len()
    &&& (i == 0 || is_sep(s[i - 1]))
    &&& (j == s.len() || is_sep(s[j]))
    &&& forall|k: int| i <= k < j ==> !is_sep(#[trigger] s[k])
}

/// The run `[i, j)` spells the parent-directory component `..`.
pub open spec fn is_dotdot(s: Seq<char>, i: int, j: int) -> bool {
    j == i + 2 && s[i] == '.' && s[i + 1] == '.'
}

/// The run `[i, j)` spells the current-directory component `.`.
pub open spec fn is_dot(s: Seq<char>, i: int, j: int) -> bool {
    j == i + 1 && s[i] == '.'
}

/// Some component of `s` is `..`, so the path escapes upward.
pub open spec fn has_traversal(s: Seq<char>) -> bool {
    exists|i: int, j: int| component_at(s, i, j) && is_dotdot(s, i, j)
}

/// `s` is absolute: it starts with a separator, or carries a drive or scheme
/// colon anywhere.
pub open spec fn is_absolute(s: Seq<char>) -> bool {
    ||| (s.len() > 0 && is_sep(s[0]))
    ||| (exists|k: int| 0 <= k < s.len() && s[k] == ':')
}

/// The run `[i, j)` is a real component: neither `.` nor `..`.
pub open spec fn real_component_at(s: Seq<char>, i: int, j: int) -> bool {
    component_at(s, i, j) && !is_dot(s, i, j) && !is_dotdot(s, i, j)
}

/// `s` still names something once empty and `.` components are dropped.
pub open spec fn has_real_component(s: Seq<char>) -> bool {
    exists|i: int, j: int| real_component_at(s, i, j)
}

/// An entry path may be written under the target directory exactly when it
/// is relative, escapes nowhere, and names at least one real component.
pub open spec fn path_safe(s: Seq<char>) -> bool {
    !is_absolute(s) && !has_traversal(s) && has_real_component(s)
}

/// Length of the leading separator-free run of `s`.
pub open spec fn run_len(s: Seq<char>) -> nat
    decreases s.len(),
{
    if s.len() == 0 || is_sep(s[0]) {
        0
    } else {
        1 + run_len(s.skip(1))
    }
}

/// The components of `s` in order, with empty, `.` and `..` components
/// dropped; the value a safe path is resolved to.
pub open spec fn clean_components(s: Seq<char>) -> Seq<Seq<char>>
    decreases s.len(),
    via clean_components_decreases
{
    if s.len() == 0 {
        Seq::empty()
    } else if is_sep(s[0]) {
        clean_components(s.skip(1))
    } else {
        let n = run_len(s) as int;
        let c = s.take(n);
        let rest = clean_components(s.skip(n));
        if c == seq!['.'] || c == seq!['.', '.'] {
            rest
        } else {
            seq![c] + rest
        }
    }
}

#[via_fn]
proof fn clean_components_decreases(s: Seq<char>) {
    lemma_run_len_bound(s);
}

proof fn lemma_run_len_bound(s: Seq<char>)
    ensures
        run_len(s) <= s.len(),
        run_len(s) < s.len() ==> is_sep(s[run_len(s) as int]),
        forall|k: int| 0 <= k < run_len(s) ==> !is_sep(#[trigger] s[k]),
    decreases s.len(),
{
    if s.len() == 0 || is_sep(s[0]) {
    } else {
        lemma_run_len_bound(s.skip(1));
        assert forall|k: int| 0 <= k < run_len(s) implies !is_sep(#[trigger] s[k]) by {
            if k > 0 {
                assert(!is_sep(s.skip(1)[k - 1]));
            }
        }
    }
}

/// A run of exactly `j` separator-free characters at the front of `s` is the
/// leading run.
proof fn lemma_run_len_exact(s: Seq<char>, j: int)
    requires
        0 <= j <= s.len(),
        forall|k: int| 0 <= k < j ==> !is_sep(#[trigger] s[k]),
        j == s.len() || is_sep(s[j]),
    ensures
        run_len(s) == j,
    decreases j,
{
    if j == 0 {
    } else {
        assert(forall|k: int| 0 <= k < j - 1 ==> !is_sep(#[trigger] s.skip(1)[k]));
        assert(j - 1 == s.skip(1).len() || is_sep(s.skip(1)[j - 1]));
        lemma_run_len_exact(s.skip(1), j - 1);
    }
}

/// Exec mirror of `is_sep`.
fn sep_char(c: char) -> (b: bool)
    ensures
        b == is_sep(c),
{
    c == '/' || c == '\\'
}

/// Checks the declared path of an archive entry and resolves it to its real
/// components. Returns `Some` with the components exactly when the path is
/// safe, `None` on an absolute path, a `..` component, or a path with no
/// real component.
pub fn sanitize_entry_path(name: &str) -> (r: Option<Vec<String>>)
    ensures
        r is Some <==> path_safe(name@),
        r matches Some(v) ==> v@.map_values(|c: String| c@) == clean_components(name@),
{
    let ghost s = name@;
    let n = name.unicode_len();
    if n == 0 {
        assert(!has_real_component(s));
        return None;
    }
    if sep_char(name.get_char(0)) {
        assert(is_absolute(s));
        return None;
    }
    let mut k: usize = 0;
    while k < n
        invariant
            k <= n,
            n == s.len(),
            s == name@,
            forall|t: int| 0 <= t < k ==> s[t] != ':',
        decreases n - k,
    {
        if name.get_char(k) == ':' {
            assert(is_absolute(s));
            return None;
        }
        k += 1;
    }
    assert(!is_absolute(s));

    let mut out: Vec<String> = Vec::new();
    proof {
        assert(out@.map_values(|c: String| c@) =~= Seq::<Seq<char>>::empty());
        assert(s.skip(0) =~= s);
        assert(Seq::<Seq<char>>::empty() + clean_components(s) =~= clean_components(s));
    }
    let mut i: usize = 0;
    while i < n
        invariant
            i <= n,
            n == s.len(),
            s == name@,
            !is_absolute(s),
            i == 0 || i == n || is_sep(s[i as int]) || is_sep(s[i - 1]),
            forall|a: int, b: int|
                component_at(s, a, b) && b <= i ==> !is_dotdot(s, a, b),
            out@.len() > 0 ==> has_real_component(s),
            forall|a: int, b: int|
                real_component_at(s, a, b) && b <= i ==> out@.len() > 0,
            clean_components(s) == out@.map_values(|c: String| c@) + clean_components(
                s.skip(i as int),
            ),
        decreases n - i,
    {
        let c = name.get_char(i);
        if sep_char(c) {
            proof {
                assert(s.skip(i as int).skip(1) =~= s.skip(i + 1));
                // No component can end just past a separator, so moving over
                // one adds no component.
                assert forall|a: int, b: int|
                    component_at(s, a, b) && b <= i + 1 implies b <= i by {
                    if b == i + 1 {
                        assert(a <= i < b);
                        assert(!is_sep(s[i as int]));
                        assert(false);
                    }
                }
            }
            i += 1;
        } else {
            // `i` starts a maximal run; scan to its end.
            assert(i == 0 || is_sep(s[i - 1]));
            let mut j: usize = i + 1;
            while j < n && !sep_char(name.get_char(j))
                invariant
                    i < j <= n,
                    n == s.len(),
                    s == name@,
                    forall|t: int| i <= t < j ==> !is_sep(#[trigger] s[t]),
                decreases n - j,
            {
                j += 1;
            }
            assert(j == n || is_sep(s[j as int]));
            assert(component_at(s, i as int, j as int));
            proof {
                // Any component ending in (i, j] is exactly [i, j).
                assert forall|a: int, b: int|
                    component_at(s, a, b) && i < b <= j implies a == i && b == j by {
                    assert(!(b < j)) by {
                        if b < j {
                            assert(!is_sep(s[b]));
                        }
                    }
                    assert(a == i) by {
                        if a < i {
                            assert(!is_sep(s[i - 1]));
                        }
                        if a > i {
                            assert(!is_sep(s[a - 1]));
                        }
                    }
                }
                // Relate the spec split of the remaining suffix to this run.
                let t = s.skip(i as int);
                assert(forall|k2: int| 0 <= k2 < j - i ==> !is_sep(#[trigger] t[k2]));
                lemma_run_len_exact(t, j - i);
                assert(t.take(j - i) =~= s.subrange(i as int, j as int));
                assert(t.skip(j - i) =~= s.skip(j as int));
            }
            let ghost comp = s.subrange(i as int, j as int);
            if j - i == 1 && c == '.' {
                proof {
                    assert(comp =~= seq!['.']);
                }
                i = j;
            } else if j - i == 2 && c == '.' && name.get_char(i + 1) == '.' {
                assert(is_dotdot(s, i as int, j as int));
                assert(has_traversal(s));
                return None;
            } else {
                proof {
                    assert(comp != seq!['.'] && comp != seq!['.', '.']) by {
                        if comp == seq!['.'] {
                            assert(comp.len() == 1 && comp[0] == '.');
                        }
                        if comp == seq!['.', '.'] {
                            assert(comp.len() == 2 && comp[0] == '.' && comp[1] == '.');
                        }
                    }
                    assert(real_component_at(s, i as int, j as int));
                }
                let piece = name.substring_char(i, j);
                let owned = piece.to_owned();
                let ghost old_out = out@;
                out.push(owned);
                proof {
                    assert(out@.map_values(|c2: String| c2@) =~= old_out.map_values(
                        |c2: String| c2@,
                    ) + seq![comp]);
                }
                i = j;
            }
        }
    }
    proof {
        assert(s.skip(n as int) =~= Seq::<char>::empty());
        assert(clean_components(s) == out@.map_values(|c: String| c@));
        assert(!has_traversal(s)) by {
            if has_traversal(s) {
                let (a, b) = choose|a: int, b: int|
                    component_at(s, a, b) && is_dotdot(s, a, b);
                assert(b <= n);
            }
        }
    }
    if out.is_empty() {
        proof {
            assert(!has_real_component(s)) by {
                if has_real_component(s) {
                    let (a, b) = choose|a: int, b: int| real_component_at(s, a, b);
                    assert(b <= n);
                }
            }
        }
        None
    } else {
        assert(path_safe(s));
        Some(out)
    }
}

} // verus!
