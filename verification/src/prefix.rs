//! Deterministic derivation of the archive prefix.
//!
//! A caller-supplied prefix is only normalized to end in a separator.
//! Otherwise the base name is the caller-supplied name or the final
//! path segment of the remote URL (trailing separators removed, a
//! trailing `.git` stripped), and the prefix is the base name, a dash,
//! the tag with every separator replaced by a dash, and a trailing
//! separator. The result is a function of the inputs alone, so the
//! archive is reproducible from them.

use vstd::prelude::*;
use vstd::string::*;

verus! {

/// `p` itself when it already ends in `/`, else `p` with `/` appended.
pub open spec fn spec_with_trailing_slash(p: Seq<char>) -> Seq<char> {
    if p.len() > 0 && p.last() == '/' {
        p
    } else {
        p.push('/')
    }
}

/// `s` with every trailing `/` removed.
pub open spec fn spec_trim_trailing_slashes(s: Seq<char>) -> Seq<char>
    decreases s.len(),
{
    if s.len() > 0 && s.last() == '/' {
        spec_trim_trailing_slashes(s.drop_last())
    } else {
        s
    }
}

/// The suffix of `s` after the last `/`; all of `s` when it holds none.
pub open spec fn spec_after_last_slash(s: Seq<char>) -> Seq<char>
    decreases s.len(),
{
    if s.len() == 0 {
        s
    } else if s.last() == '/' {
        Seq::<char>::empty()
    } else {
        spec_after_last_slash(s.drop_last()).push(s.last())
    }
}

/// The four characters of the `.git` suffix.
pub open spec fn git_suffix() -> Seq<char> {
    seq!['.', 'g', 'i', 't']
}

/// `s` without a trailing `.git`, when it has one.
pub open spec fn spec_strip_git_suffix(s: Seq<char>) -> Seq<char> {
    if s.len() >= 4 && s.subrange(s.len() - 4, s.len() as int) == git_suffix() {
        s.subrange(0, s.len() - 4)
    } else {
        s
    }
}

/// The tag with every `/` replaced by `-`.
pub open spec fn spec_tag_slug(t: Seq<char>) -> Seq<char> {
    Seq::new(t.len(), |i: int| if t[i] == '/' { '-' } else { t[i] })
}

/// The base name for a derived prefix: the caller's name when given,
/// else the final path segment of the remote URL with trailing
/// separators removed and a trailing `.git` stripped.
pub open spec fn spec_base_name(name: Option<Seq<char>>, repo: Seq<char>) -> Seq<char> {
    match name {
        Some(n) => n,
        None => spec_strip_git_suffix(spec_after_last_slash(spec_trim_trailing_slashes(repo))),
    }
}

/// The archive prefix the reproduced archive must be generated with.
pub open spec fn spec_derive_prefix(
    prefix: Option<Seq<char>>,
    name: Option<Seq<char>>,
    repo: Seq<char>,
    tag: Seq<char>,
) -> Seq<char> {
    match prefix {
        Some(p) => spec_with_trailing_slash(p),
        None => spec_base_name(name, repo) + seq!['-'] + spec_tag_slug(tag) + seq!['/'],
    }
}

/// The views of an optional string.
pub open spec fn view_opt(o: Option<String>) -> Option<Seq<char>> {
    match o {
        Some(s) => Some(s@),
        None => None,
    }
}

/// Appends a `/` unless the prefix already ends in one.
pub fn normalize_prefix(p: String) -> (r: String)
    ensures
        r@ == spec_with_trailing_slash(p@),
{
    let n = p.as_str().unicode_len();
    if n > 0 && p.as_str().get_char(n - 1) == '/' {
        p
    } else {
        proof {
            reveal_strlit("/");
            assert("/"@ =~= seq!['/']);
        }
        let r = p.concat("/");
        proof {
            assert(r@ =~= p@.push('/'));
        }
        r
    }
}

/// Removes every trailing `/`.
fn trim_end_slashes(s: &str) -> (r: &str)
    ensures
        r@ == spec_trim_trailing_slashes(s@),
{
    let n = s.unicode_len();
    proof {
        assert(s@.subrange(0, n as int) =~= s@);
    }
    let mut end = n;
    while end > 0 && s.get_char(end - 1) == '/'
        invariant
            end <= n,
            n == s@.len(),
            spec_trim_trailing_slashes(s@) == spec_trim_trailing_slashes(
                s@.subrange(0, end as int),
            ),
        decreases end,
    {
        proof {
            let cur = s@.subrange(0, end as int);
            assert(cur.last() == s@[end - 1]);
            assert(cur.drop_last() =~= s@.subrange(0, end - 1));
        }
        end = end - 1;
    }
    proof {
        let cur = s@.subrange(0, end as int);
        if end > 0 {
            assert(cur.last() == s@[end - 1]);
        }
        assert(spec_trim_trailing_slashes(cur) == cur);
    }
    s.substring_char(0, end)
}

/// The suffix after the last `/`, or all of `s` without one.
fn after_last_slash(s: &str) -> (r: &str)
    ensures
        r@ == spec_after_last_slash(s@),
{
    let n = s.unicode_len();
    proof {
        assert(s@.subrange(0, n as int) =~= s@);
        assert(s@.subrange(n as int, n as int) =~= Seq::<char>::empty());
        assert(spec_after_last_slash(s@) + s@.subrange(n as int, n as int)
            =~= spec_after_last_slash(s@));
    }
    let mut i = n;
    while i > 0 && s.get_char(i - 1) != '/'
        invariant
            i <= n,
            n == s@.len(),
            spec_after_last_slash(s@) == spec_after_last_slash(s@.subrange(0, i as int))
                + s@.subrange(i as int, n as int),
        decreases i,
    {
        proof {
            let cur = s@.subrange(0, i as int);
            assert(cur.last() == s@[i - 1]);
            assert(cur.drop_last() =~= s@.subrange(0, i - 1));
            assert(spec_after_last_slash(cur) == spec_after_last_slash(
                s@.subrange(0, i - 1),
            ).push(s@[i - 1]));
            assert(spec_after_last_slash(s@.subrange(0, i - 1)).push(s@[i - 1])
                + s@.subrange(i as int, n as int) =~= spec_after_last_slash(
                s@.subrange(0, i - 1),
            ) + s@.subrange(i - 1, n as int));
        }
        i = i - 1;
    }
    proof {
        let cur = s@.subrange(0, i as int);
        if i == 0 {
            assert(cur.len() == 0);
            assert(Seq::<char>::empty() + s@.subrange(0, n as int) =~= s@.subrange(
                0,
                n as int,
            ));
        } else {
            assert(cur.last() == s@[i - 1]);
            assert(cur.last() == '/');
            assert(Seq::<char>::empty() + s@.subrange(i as int, n as int) =~= s@.subrange(
                i as int,
                n as int,
            ));
        }
    }
    s.substring_char(i, n)
}

/// Strips one trailing `.git`, when present.
fn strip_git_suffix(s: &str) -> (r: &str)
    ensures
        r@ == spec_strip_git_suffix(s@),
{
    let n = s.unicode_len();
    if n >= 4 && s.get_char(n - 4) == '.' && s.get_char(n - 3) == 'g' && s.get_char(n - 2) == 'i'
        && s.get_char(n - 1) == 't' {
        proof {
            assert(s@.subrange(n - 4, n as int) =~= git_suffix());
        }
        s.substring_char(0, n - 4)
    } else {
        proof {
            if s@.len() >= 4 && s@.subrange(s@.len() - 4, s@.len() as int) == git_suffix() {
                let tail = s@.subrange(s@.len() - 4, s@.len() as int);
                assert(s@[n - 4] == tail[0]);
                assert(s@[n - 3] == tail[1]);
                assert(s@[n - 2] == tail[2]);
                assert(s@[n - 1] == tail[3]);
                assert(false);
            }
        }
        s
    }
}

/// Replaces every `/` in the tag by `-`.
pub fn tag_slug(tag: &str) -> (r: String)
    ensures
        r@ == spec_tag_slug(tag@),
{
    let n = tag.unicode_len();
    let mut r = String::new();
    let mut seg_start: usize = 0;
    let mut i: usize = 0;
    while i < n
        invariant
            seg_start <= i <= n,
            n == tag@.len(),
            r@ == spec_tag_slug(tag@.subrange(0, seg_start as int)),
            forall|j: int| seg_start <= j < i ==> tag@[j] != '/',
        decreases n - i,
    {
        if tag.get_char(i) == '/' {
            let seg = tag.substring_char(seg_start, i);
            r.append(seg);
            proof {
                reveal_strlit("-");
                assert("-"@ =~= seq!['-']);
            }
            r.append("-");
            proof {
                assert(r@ =~= spec_tag_slug(tag@.subrange(0, i + 1)));
            }
            seg_start = i + 1;
        }
        i += 1;
    }
    let seg = tag.substring_char(seg_start, n);
    r.append(seg);
    proof {
        assert(r@ =~= spec_tag_slug(tag@));
    }
    r
}

/// Derives the archive prefix from the caller's prefix or name, the
/// remote URL and the tag, exactly as `spec_derive_prefix` states.
pub fn derive_prefix(prefix: &Option<String>, name: &Option<String>, repo: &str, tag: &str) -> (r:
    String)
    ensures
        r@ == spec_derive_prefix(view_opt(*prefix), view_opt(*name), repo@, tag@),
{
    match prefix {
        Some(p) => normalize_prefix(p.clone()),
        None => {
            let base: String = match name {
                Some(nm) => nm.clone(),
                None => {
                    let trimmed = trim_end_slashes(repo);
                    let seg = after_last_slash(trimmed);
                    let stripped = strip_git_suffix(seg);
                    String::from_str(stripped)
                },
            };
            let slug = tag_slug(tag);
            proof {
                reveal_strlit("-");
                reveal_strlit("/");
                assert("-"@ =~= seq!['-']);
                assert("/"@ =~= seq!['/']);
            }
            let r = base.concat("-").concat(slug.as_str()).concat("/");
            r
        },
    }
}

} // verus!
