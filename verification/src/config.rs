//! Resolution of an explicitly configured server path.
//!
//! The host reads the candidate project config files and the per-workspace
//! user settings and hands the raw looked-up values here, in priority order.
//! A value counts only if it is non-empty after trimming whitespace; the
//! first such project value wins, then the user setting. A relative path is
//! joined with the workspace root, an absolute one is kept as it is.

use vstd::prelude::*;
use vstd::string::*;

verus! {

/// Whitespace for the purposes of trimming a configured value.
pub open spec fn is_space_char(c: char) -> bool {
    c == ' ' || c == '\t' || c == '\n' || c == '\r' || c == '\u{c}'
}

/// `s` with its leading whitespace removed.
pub open spec fn trim_front_of(s: Seq<char>) -> Seq<char>
    decreases s.len(),
{
    if s.len() > 0 && is_space_char(s[0]) {
        trim_front_of(s.drop_first())
    } else {
        s
    }
}

/// `s` with its trailing whitespace removed.
pub open spec fn trim_back_of(s: Seq<char>) -> Seq<char>
    decreases s.len(),
{
    if s.len() > 0 && is_space_char(s.last()) {
        trim_back_of(s.drop_last())
    } else {
        s
    }
}

/// `s` with leading and trailing whitespace removed.
pub open spec fn trimmed_of(s: Seq<char>) -> Seq<char> {
    trim_back_of(trim_front_of(s))
}

proof fn lemma_trim_front_prefix(s: Seq<char>, k: int)
    requires
        0 <= k <= s.len(),
        forall|i: int| 0 <= i < k ==> is_space_char(#[trigger] s[i]),
        k == s.len() || !is_space_char(s[k]),
    ensures
        trim_front_of(s) == s.subrange(k, s.len() as int),
    decreases k,
{
    if k == 0 {
        assert(s.subrange(0, s.len() as int) =~= s);
    } else {
        let t = s.drop_first();
        assert(is_space_char(s[0]));
        assert forall|i: int| 0 <= i < k - 1 implies is_space_char(#[trigger] t[i]) by {
            assert(t[i] == s[i + 1]);
        }
        if k - 1 < t.len() {
            assert(t[k - 1] == s[k]);
        }
        lemma_trim_front_prefix(t, k - 1);
        assert(t.subrange(k - 1, t.len() as int) =~= s.subrange(k, s.len() as int));
    }
}

proof fn lemma_trim_back_suffix(s: Seq<char>, k: int)
    requires
        0 <= k <= s.len(),
        forall|i: int| k <= i < s.len() ==> is_space_char(#[trigger] s[i]),
        k == 0 || !is_space_char(s[k - 1]),
    ensures
        trim_back_of(s) == s.subrange(0, k),
    decreases s.len(),
{
    if k == s.len() {
        if s.len() > 0 {
            assert(!is_space_char(s.last()));
        }
        assert(s.subrange(0, k) =~= s);
    } else {
        assert(is_space_char(s.last()));
        let t = s.drop_last();
        assert forall|i: int| k <= i < t.len() implies is_space_char(#[trigger] t[i]) by {
            assert(t[i] == s[i]);
        }
        if k > 0 {
            assert(t[k - 1] == s[k - 1]);
        }
        lemma_trim_back_suffix(t, k);
        assert(t.subrange(0, k) =~= s.subrange(0, k));
    }
}

/// Whether `c` counts as whitespace when trimming a configured value.
pub fn is_space(c: char) -> (r: bool)
    ensures
        r == is_space_char(c),
{
    c == ' ' || c == '\t' || c == '\n' || c == '\r' || c == '\u{c}'
}

/// Returns `s` with leading and trailing whitespace removed.
pub fn trim_str(s: &str) -> (r: String)
    ensures
        r@ == trimmed_of(s@),
{
    let len: usize = s.unicode_len();
    let mut start: usize = 0;
    while start < len && is_space(s.get_char(start))
        invariant
            len == s@.len(),
            0 <= start <= len,
            forall|i: int| 0 <= i < start ==> is_space_char(#[trigger] s@[i]),
        decreases len - start,
    {
        start = start + 1;
    }
    let mut end: usize = len;
    while end > start && is_space(s.get_char(end - 1))
        invariant
            len == s@.len(),
            0 <= start <= end <= len,
            forall|i: int| 0 <= i < start ==> is_space_char(#[trigger] s@[i]),
            start == len || !is_space_char(s@[start as int]),
            forall|i: int| end <= i < len ==> is_space_char(#[trigger] s@[i]),
        decreases end,
    {
        end = end - 1;
    }
    let sub = s.substring_char(start, end);
    proof {
        lemma_trim_front_prefix(s@, start as int);
        let t = trim_front_of(s@);
        assert forall|j: int| end - start <= j < t.len() implies is_space_char(
            #[trigger] t[j],
        ) by {
            assert(t[j] == s@[start + j]);
        }
        if end > start {
            assert(t[end - start - 1] == s@[end - 1]);
        }
        lemma_trim_back_suffix(t, end - start);
        assert(t.subrange(0, end - start) =~= s@.subrange(start as int, end as int));
    }
    sub.to_owned()
}

/// Whether a configured path is filesystem-absolute: the host's roots are
/// slash-based.
pub open spec fn is_absolute_path(p: Seq<char>) -> bool {
    p.len() > 0 && p[0] == '/'
}

/// `rel` joined under `root`, inserting a separator unless `root` already
/// ends with one.
pub open spec fn joined_path(root: Seq<char>, rel: Seq<char>) -> Seq<char> {
    if root.len() > 0 && root.last() == '/' {
        root + rel
    } else {
        root + seq!['/'] + rel
    }
}

/// An absolute path unchanged; a relative one joined with the workspace root.
pub open spec fn normalized_path(p: Seq<char>, root: Seq<char>) -> Seq<char> {
    if is_absolute_path(p) {
        p
    } else {
        joined_path(root, p)
    }
}

/// Resolves a configured value against the workspace root: absolute paths
/// are returned unchanged, relative ones are joined under the root.
pub fn normalize_path(value: &str, root: &str) -> (r: String)
    ensures
        r@ == normalized_path(value@, root@),
{
    let vlen: usize = value.unicode_len();
    if vlen > 0 && value.get_char(0) == '/' {
        value.to_owned()
    } else {
        let rlen: usize = root.unicode_len();
        let mut out = root.to_owned();
        if !(rlen > 0 && root.get_char(rlen - 1) == '/') {
            out.append("/");
            proof {
                reveal_strlit("/");
                assert("/"@ =~= seq!['/']);
            }
        }
        out.append(value);
        out
    }
}

/// Which configuration source produced a path.
#[derive(Clone, Copy, PartialEq, Eq, Structural, Debug)]
pub enum PathOrigin {
    FromProjectConfig,
    FromUserSettings,
}

/// A configured server path, already trimmed and normalized, with its origin.
#[derive(PartialEq, Eq, Debug)]
pub struct ConfiguredPath {
    pub path: String,
    pub origin: PathOrigin,
}

/// The first candidate value that is non-empty after trimming, trimmed.
/// `None` stands for a candidate that could not be read, parsed, or that
/// lacked the key: it is skipped, never fatal.
pub open spec fn first_present(vals: Seq<Option<Seq<char>>>) -> Option<Seq<char>>
    decreases vals.len(),
{
    if vals.len() == 0 {
        None
    } else {
        match vals[0] {
            Some(s) => if trimmed_of(s).len() > 0 {
                Some(trimmed_of(s))
            } else {
                first_present(vals.drop_first())
            },
            None => first_present(vals.drop_first()),
        }
    }
}

/// The configured path and origin that resolution yields: the first usable
/// project value, else the user setting, else nothing; each normalized
/// against the workspace root.
pub open spec fn resolved_spec(
    project_vals: Seq<Option<Seq<char>>>,
    user_val: Option<Seq<char>>,
    root: Seq<char>,
) -> Option<(Seq<char>, PathOrigin)> {
    match first_present(project_vals) {
        Some(p) => Some((normalized_path(p, root), PathOrigin::FromProjectConfig)),
        None => match user_val {
            Some(u) => if trimmed_of(u).len() > 0 {
                Some((normalized_path(trimmed_of(u), root), PathOrigin::FromUserSettings))
            } else {
                None
            },
            None => None,
        },
    }
}

/// Resolves an explicitly configured server path.
///
/// `project_values` holds, in candidate order, the raw `lsp.path` value each
/// project config file yielded (`None` where the file was missing,
/// unreadable, unparseable or lacked the key); `user_value` is the host's
/// per-workspace binary-path override. The first project value that is
/// non-empty after trimming wins; otherwise the user setting under the same
/// rule; otherwise there is no configured path.
pub fn resolve_configured(
    project_values: &Vec<Option<String>>,
    user_value: &Option<String>,
    worktree_root: &str,
) -> (r: Option<ConfiguredPath>)
    ensures
        match resolved_spec(project_values.deep_view(), user_value.deep_view(), worktree_root@) {
            Some(pr) => r matches Some(cp) && cp.path@ == pr.0 && cp.origin == pr.1,
            None => r is None,
        },
{
    let ghost all = project_values.deep_view();
    let n: usize = project_values.len();
    proof {
        assert(all.subrange(0, n as int) =~= all);
    }
    let mut i: usize = 0;
    while i < n
        invariant
            0 <= i <= n,
            n == project_values.len(),
            all == project_values.deep_view(),
            all.len() == n,
            first_present(all) == first_present(all.subrange(i as int, n as int)),
        decreases n - i,
    {
        let ghost suffix = all.subrange(i as int, n as int);
        proof {
            assert(all[i as int] == project_values[i as int].deep_view());
            assert(suffix[0] == all[i as int]);
            assert(suffix.drop_first() =~= all.subrange(i as int + 1, n as int));
        }
        match &project_values[i] {
            Some(v) => {
                let t = trim_str(v.as_str());
                if t.as_str().unicode_len() > 0 {
                    let path = normalize_path(t.as_str(), worktree_root);
                    return Some(
                        ConfiguredPath { path, origin: PathOrigin::FromProjectConfig },
                    );
                }
            },
            None => {},
        }
        i = i + 1;
    }
    proof {
        assert(all.subrange(n as int, n as int) =~= Seq::<Option<Seq<char>>>::empty());
    }
    match user_value {
        Some(u) => {
            let t = trim_str(u.as_str());
            if t.as_str().unicode_len() > 0 {
                let path = normalize_path(t.as_str(), worktree_root);
                Some(ConfiguredPath { path, origin: PathOrigin::FromUserSettings })
            } else {
                None
            }
        },
        None => None,
    }
}

} // verus!
