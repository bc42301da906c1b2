//! Resolution of a file name below a directory, and the test that the
//! result stays inside it.

use crate::environment::Platform;
use crate::text::chars_of;
use vstd::prelude::*;
use vstd::string::*;

verus! {

/// `c` separates the components of a path on `platform`: the slash
/// everywhere, and on Windows the backslash too.
pub open spec fn is_separator(c: char, platform: Platform) -> bool {
    c == '/' || (platform == Platform::Windows && c == '\\')
}

/// `component` cannot be a file name on `platform`: on Windows a colon
/// names a drive or a stream. Elsewhere a colon is a character like any
/// other.
pub open spec fn is_reserved(component: Seq<char>, platform: Platform) -> bool {
    platform == Platform::Windows && component.contains(':')
}

/// The number of characters before the first separator of `s`; the length
/// of `s` where it has none.
pub open spec fn first_separator(s: Seq<char>, platform: Platform) -> nat
    decreases s.len(),
{
    if s.len() == 0 || is_separator(s[0], platform) {
        0
    } else {
        1 + first_separator(s.drop_first(), platform)
    }
}

/// The components of `s`: what stands between its separators, in order.
/// Components may be empty.
pub open spec fn components(s: Seq<char>, platform: Platform) -> Seq<Seq<char>>
    decreases s.len(),
{
    let cut = first_separator(s, platform);
    if cut >= s.len() {
        seq![s]
    } else {
        seq![s.take(cut as int)] + components(s.skip(cut as int + 1), platform)
    }
}

/// One step below a directory. `path` leads from the directory to where
/// the walk stands. An empty component and `.` stay in place, `..` goes
/// one up and fails at the directory itself, and any other component goes
/// one down. A component that is reserved on the platform fails.
pub open spec fn descend(path: Seq<Seq<char>>, component: Seq<char>, platform: Platform) -> Option<Seq<Seq<char>>> {
    if component.len() == 0 || component == seq!['.'] {
        Some(path)
    } else if component == seq!['.', '.'] {
        if path.len() == 0 {
            None
        } else {
            Some(path.drop_last())
        }
    } else if is_reserved(component, platform) {
        None
    } else {
        Some(path.push(component))
    }
}

/// The steps of `components`, one after the other, starting at `path`.
pub open spec fn walk(path: Seq<Seq<char>>, components: Seq<Seq<char>>, platform: Platform) -> Option<Seq<Seq<char>>>
    decreases components.len(),
{
    if components.len() == 0 {
        Some(path)
    } else {
        match descend(path, components[0], platform) {
            None => None,
            Some(next) => walk(next, components.drop_first(), platform),
        }
    }
}

/// Where `name` leads from a directory, as the components of the way
/// down; `None` where it leaves the directory at any step, or starts at
/// the root.
pub open spec fn resolved(name: Seq<char>, platform: Platform) -> Option<Seq<Seq<char>>> {
    if name.len() > 0 && is_separator(name[0], platform) {
        None
    } else {
        walk(seq![], components(name, platform), platform)
    }
}

/// `name` leads to something below the directory: it never leaves it and
/// does not end at the directory itself.
pub open spec fn stays_inside(name: Seq<char>, platform: Platform) -> bool {
    resolved(name, platform) matches Some(path) && path.len() > 0
}

/// A component that can be joined below a directory on `platform` without
/// leaving it: a plain file name.
pub open spec fn is_plain(component: Seq<char>, platform: Platform) -> bool {
    &&& component.len() > 0
    &&& component != seq!['.']
    &&& component != seq!['.', '.']
    &&& !is_reserved(component, platform)
    &&& forall|i: int| 0 <= i < component.len() ==> !is_separator(#[trigger] component[i], platform)
}

proof fn lemma_first_separator(s: Seq<char>, n: nat, platform: Platform)
    requires
        n <= s.len(),
        forall|k: int| 0 <= k < n ==> !is_separator(#[trigger] s[k], platform),
        n == s.len() || is_separator(s[n as int], platform),
    ensures
        first_separator(s, platform) == n,
    decreases n,
{
    if n > 0 {
        let rest = s.drop_first();
        assert forall|k: int| 0 <= k < n - 1 implies !is_separator(#[trigger] rest[k], platform) by {
            assert(rest[k] == s[k + 1]);
        }
        lemma_first_separator(rest, (n - 1) as nat, platform);
    }
}

/// A walk over `c` and then `rest` is the step of `c` and then the walk
/// over `rest`.
proof fn lemma_walk_step(path: Seq<Seq<char>>, c: Seq<char>, rest: Seq<Seq<char>>, platform: Platform)
    ensures
        walk(path, seq![c] + rest, platform) == match descend(path, c, platform) {
            None => None,
            Some(next) => walk(next, rest, platform),
        },
{
    let all = seq![c] + rest;
    assert(all[0] == c);
    assert(all.drop_first() =~= rest);
}

/// No component of `s` holds a separator.
proof fn lemma_components_hold_no_separator(s: Seq<char>, platform: Platform)
    ensures
        forall|i: int, k: int|
            0 <= i < components(s, platform).len() && 0 <= k < components(s, platform)[i].len() ==> !is_separator(
                #[trigger] components(s, platform)[i][k],
                platform,
            ),
    decreases s.len(),
{
    let cut = first_separator(s, platform);
    lemma_first_separator_bounds(s, platform);
    if cut < s.len() {
        let rest = s.skip(cut as int + 1);
        lemma_components_hold_no_separator(rest, platform);
        let head = s.take(cut as int);
        assert forall|i: int, k: int|
            0 <= i < components(s, platform).len() && 0 <= k < components(s, platform)[i].len() implies !is_separator(
            #[trigger] components(s, platform)[i][k],
            platform,
        ) by {
            if i == 0 {
                assert(components(s, platform)[0] == head);
            } else {
                assert(components(s, platform)[i] == components(rest, platform)[i - 1]);
            }
        }
    }
}

/// Nothing before the first separator is a separator, and it lies within
/// the text.
proof fn lemma_first_separator_bounds(s: Seq<char>, platform: Platform)
    ensures
        first_separator(s, platform) <= s.len(),
        forall|k: int| 0 <= k < first_separator(s, platform) ==> !is_separator(#[trigger] s[k], platform),
    decreases s.len(),
{
    if s.len() != 0 && !is_separator(s[0], platform) {
        let rest = s.drop_first();
        lemma_first_separator_bounds(rest, platform);
        assert forall|k: int| 0 <= k < first_separator(s, platform) implies !is_separator(
            #[trigger] s[k],
            platform,
        ) by {
            if k > 0 {
                assert(s[k] == rest[k - 1]);
            }
        }
    }
}

/// A walk that starts on plain components over components without
/// separators ends on plain components.
proof fn lemma_walk_keeps_plain(path: Seq<Seq<char>>, steps: Seq<Seq<char>>, platform: Platform)
    requires
        forall|i: int| 0 <= i < path.len() ==> is_plain(#[trigger] path[i], platform),
        forall|i: int, k: int|
            0 <= i < steps.len() && 0 <= k < steps[i].len() ==> !is_separator(
                #[trigger] steps[i][k],
                platform,
            ),
    ensures
        walk(path, steps, platform) matches Some(end) ==> forall|i: int|
            0 <= i < end.len() ==> is_plain(#[trigger] end[i], platform),
    decreases steps.len(),
{
    if steps.len() > 0 {
        match descend(path, steps[0], platform) {
            None => {},
            Some(next) => {
                let c = steps[0];
                assert forall|i: int| 0 <= i < next.len() implies is_plain(#[trigger] next[i], platform) by {
                    if i < path.len() {
                        assert(next[i] == path[i]);
                    } else {
                        assert(next[i] == c);
                        assert forall|k: int| 0 <= k < c.len() implies !is_separator(
                            #[trigger] c[k],
                            platform,
                        ) by {
                            assert(c[k] == steps[0][k]);
                        }
                    }
                }
                let rest = steps.drop_first();
                assert forall|i: int, k: int|
                    0 <= i < rest.len() && 0 <= k < rest[i].len() implies !is_separator(
                    #[trigger] rest[i][k],
                    platform,
                ) by {
                    assert(rest[i] == steps[i + 1]);
                    assert(rest[i][k] == steps[i + 1][k]);
                }
                lemma_walk_keeps_plain(next, rest, platform);
            },
        }
    }
}

/// Every component of the place that a name resolves to is plain: it is
/// not empty, neither `.` nor `..`, holds no separator and is not
/// reserved on the platform. Joined one by one below a directory, such
/// components cannot lead out of it.
pub proof fn lemma_resolved_is_plain(name: Seq<char>, platform: Platform)
    ensures
        resolved(name, platform) matches Some(path) ==> forall|i: int|
            0 <= i < path.len() ==> is_plain(#[trigger] path[i], platform),
{
    lemma_components_hold_no_separator(name, platform);
    lemma_walk_keeps_plain(seq![], components(name, platform), platform);
}

/// A plain file name stays inside the directory and resolves to itself:
/// every file that lies in the directory can be named.
pub proof fn lemma_plain_name_stays_inside(name: Seq<char>, platform: Platform)
    requires
        is_plain(name, platform),
    ensures
        resolved(name, platform) == Some(seq![name]),
        stays_inside(name, platform),
{
    let nothing = Seq::<Seq<char>>::empty();
    assert(!is_separator(name[0], platform));
    lemma_first_separator(name, name.len(), platform);
    assert(components(name, platform) == seq![name]);
    lemma_walk_step(nothing, name, nothing, platform);
    assert(seq![name] + nothing =~= seq![name]);
    assert(descend(nothing, name, platform) == Some(nothing.push(name)));
    assert(nothing.push(name) =~= seq![name]);
    assert(walk(seq![name], nothing, platform) == Some(seq![name]));
}

/// A name whose first component is `..` resolves to nothing.
pub proof fn lemma_parent_first_is_refused(name: Seq<char>, platform: Platform)
    requires
        name.len() >= 2,
        name[0] == '.',
        name[1] == '.',
        name.len() == 2 || is_separator(name[2], platform),
    ensures
        resolved(name, platform) is None,
        !stays_inside(name, platform),
{
    lemma_first_separator(name, 2, platform);
    let first = if name.len() == 2 {
        name
    } else {
        name.take(2)
    };
    assert(first =~= seq!['.', '.']);
    assert(components(name, platform)[0] == first);
}

fn is_separator_char(c: char, platform: Platform) -> (b: bool)
    ensures
        b == is_separator(c, platform),
{
    c == '/' || (matches!(platform, Platform::Windows) && c == '\\')
}

/// Takes the step of the component `chars[start..end]` from `path`.
/// Returns whether the step stays below the directory.
fn descend_into(
    path: &mut Vec<String>,
    name: &str,
    chars: &Vec<char>,
    start: usize,
    end: usize,
    platform: Platform,
) -> (ok: bool)
    requires
        start <= end <= chars.len(),
        chars@ == name@,
    ensures
        match descend(old(path).deep_view(), chars@.subrange(start as int, end as int), platform) {
            Some(next) => ok && final(path).deep_view() == next,
            None => !ok,
        },
{
    let ghost component = chars@.subrange(start as int, end as int);
    let ghost before = path.deep_view();
    let len = end - start;
    if len == 0 {
        return true;
    }
    if len == 1 && chars[start] == '.' {
        assert(component =~= seq!['.']);
        return true;
    }
    if len == 2 && chars[start] == '.' && chars[start + 1] == '.' {
        assert(component =~= seq!['.', '.']);
        if path.len() == 0 {
            return false;
        }
        path.pop();
        assert(path.deep_view() =~= before.drop_last());
        return true;
    }
    assert(component != seq!['.']) by {
        if component == seq!['.'] {
            assert(component.len() == 1);
            assert(component[0] == '.');
        }
    }
    assert(component != seq!['.', '.']) by {
        if component == seq!['.', '.'] {
            assert(component.len() == 2);
            assert(component[0] == '.');
            assert(component[1] == '.');
        }
    }
    if matches!(platform, Platform::Windows) {
        let mut i: usize = start;
        while i < end
            invariant
                platform == Platform::Windows,
                start <= i <= end <= chars.len(),
                component == chars@.subrange(start as int, end as int),
                forall|k: int| 0 <= k < i - start ==> component[k] != ':',
            decreases end - i,
        {
            if chars[i] == ':' {
                assert(component[i - start] == ':');
                assert(is_reserved(component, platform));
                return false;
            }
            i += 1;
        }
        assert(!component.contains(':'));
    }
    let piece = String::from_str(name.substring_char(start, end));
    path.push(piece);
    assert(path.deep_view() =~= before.push(component));
    true
}

/// Resolves `name` below a directory. Returns the components of the way
/// down where the name stays inside the directory, and `None` where it
/// leaves it, starts at the root, or ends at the directory itself.
pub fn resolve_inside(name: &str, platform: Platform) -> (r: Option<Vec<String>>)
    ensures
        r is Some <==> stays_inside(name@, platform),
        r matches Some(path) ==> Some(path.deep_view()) == resolved(name@, platform),
{
    let chars = chars_of(name);
    let n = chars.len();
    if n > 0 && is_separator_char(chars[0], platform) {
        return None;
    }
    let mut path: Vec<String> = Vec::new();
    let mut start: usize = 0;
    let mut j: usize = 0;
    assert(path.deep_view() =~= Seq::<Seq<char>>::empty());
    assert(chars@.skip(0) =~= chars@);
    while j < n
        invariant
            start <= j <= n,
            n == chars.len(),
            chars@ == name@,
            forall|k: int| start <= k < j ==> !is_separator(#[trigger] chars@[k], platform),
            resolved(name@, platform) == walk(path.deep_view(), components(chars@.skip(start as int), platform), platform),
        decreases n - j,
    {
        if is_separator_char(chars[j], platform) {
            let ghost tail = chars@.skip(start as int);
            let ghost before = path.deep_view();
            proof {
                lemma_first_separator(tail, (j - start) as nat, platform);
                assert(tail.take(j - start) =~= chars@.subrange(start as int, j as int));
                assert(tail.skip(j - start + 1) =~= chars@.skip(j + 1));
                lemma_walk_step(
                    before,
                    chars@.subrange(start as int, j as int),
                    components(chars@.skip(j + 1), platform),
                    platform,
                );
            }
            let ok = descend_into(&mut path, name, &chars, start, j, platform);
            if !ok {
                return None;
            }
            start = j + 1;
        }
        j += 1;
    }
    let ghost tail = chars@.skip(start as int);
    let ghost before = path.deep_view();
    proof {
        lemma_first_separator(tail, (n - start) as nat, platform);
        assert(tail =~= chars@.subrange(start as int, n as int));
        assert(components(tail, platform) == seq![tail]);
        lemma_walk_step(before, tail, Seq::<Seq<char>>::empty(), platform);
        assert(seq![tail] + Seq::<Seq<char>>::empty() =~= seq![tail]);
    }
    let ok = descend_into(&mut path, name, &chars, start, n, platform);
    if !ok {
        return None;
    }
    if path.len() == 0 {
        None
    } else {
        Some(path)
    }
}

} // verus!
