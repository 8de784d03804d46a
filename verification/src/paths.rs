//! Derivation of sibling output paths by swapping the file extension.
//!
//! Each conversion stage writes its output next to its input: the output
//! path is the input path with the extension of its final component replaced.

use vstd::prelude::*;

verus! {

/// A path separator character.
pub open spec fn spec_is_sep(c: char) -> bool {
    c == '/' || c == '\\'
}

/// Index of the dot that starts the extension of the final path component,
/// or -1 when that component has none. A dot that begins the component names
/// a hidden file rather than an extension.
pub open spec fn spec_ext_dot(s: Seq<char>) -> int
    decreases s.len(),
{
    let n = s.len() as int;
    if n == 0 {
        -1
    } else if spec_is_sep(s[n - 1]) {
        -1
    } else if s[n - 1] == '.' {
        if n >= 2 && !spec_is_sep(s[n - 2]) {
            n - 1
        } else {
            -1
        }
    } else {
        spec_ext_dot(s.take(n - 1))
    }
}

/// Number of leading characters that form the directory part: everything up
/// to and including the last separator, or nothing when there is none.
pub open spec fn spec_dir_len(s: Seq<char>) -> int
    decreases s.len(),
{
    let n = s.len() as int;
    if n == 0 {
        0
    } else if spec_is_sep(s[n - 1]) {
        n
    } else {
        spec_dir_len(s.take(n - 1))
    }
}

/// The part kept when the extension is swapped: everything before the final
/// component's extension dot, or the whole path when there is none.
pub open spec fn spec_stem(s: Seq<char>) -> Seq<char> {
    if spec_ext_dot(s) >= 0 {
        s.take(spec_ext_dot(s))
    } else {
        s
    }
}

/// The path with its extension replaced by `ext`.
pub open spec fn spec_with_ext(s: Seq<char>, ext: Seq<char>) -> Seq<char> {
    spec_stem(s) + seq!['.'] + ext
}

/// Replace the extension of the final component of `path` with `ext`.
pub fn replace_extension(path: &str, ext: &str) -> (r: String)
    ensures
        r@ == spec_with_ext(path@, ext@),
{
    let n = path.unicode_len();
    proof {
        assert(path@.take(n as int) =~= path@);
    }
    let mut i: usize = n;
    let mut dot: Option<usize> = None;
    let mut done: bool = false;
    while !done && i > 0
        invariant
            i <= n,
            n == path@.len(),
            !done ==> dot is None,
            !done ==> spec_ext_dot(path@) == spec_ext_dot(path@.take(i as int)),
            done ==> (match dot {
                Some(d) => 0 <= d < n && spec_ext_dot(path@) == d,
                None => spec_ext_dot(path@) == -1,
            }),
        decreases (if done { 0int } else { i as int + 1 }),
    {
        let c = path.get_char(i - 1);
        proof {
            assert(path@.take(i as int)[i - 1] == path@[i - 1]);
        }
        if c == '/' || c == '\\' {
            done = true;
        } else if c == '.' {
            if i >= 2 {
                let p = path.get_char(i - 2);
                proof {
                    assert(path@.take(i as int)[i - 2] == path@[i - 2]);
                }
                if p == '/' || p == '\\' {
                    done = true;
                } else {
                    dot = Some(i - 1);
                    done = true;
                }
            } else {
                done = true;
            }
        } else {
            proof {
                assert(path@.take(i as int).take(i - 1) =~= path@.take(i - 1));
            }
            i = i - 1;
        }
    }
    let stem: &str = match dot {
        Some(d) => path.substring_char(0, d),
        None => path,
    };
    proof {
        assert(stem@ =~= spec_stem(path@));
    }
    let mut r = String::from_str(stem);
    r.append(".");
    r.append(ext);
    proof {
        reveal_strlit(".");
        assert(("."@) =~= seq!['.']);
    }
    r
}

/// The directory part is no longer than the path.
pub proof fn lemma_dir_len_bounds(s: Seq<char>)
    ensures
        0 <= spec_dir_len(s) <= s.len(),
    decreases s.len(),
{
    let n = s.len() as int;
    if n > 0 && !spec_is_sep(s[n - 1]) {
        lemma_dir_len_bounds(s.take(n - 1));
    }
}

/// Characters at or after the directory part are not separators.
pub proof fn lemma_no_sep_after_dir(s: Seq<char>, j: int)
    requires
        spec_dir_len(s) <= j < s.len(),
    ensures
        !spec_is_sep(s[j]),
    decreases s.len(),
{
    let n = s.len() as int;
    if !spec_is_sep(s[n - 1]) {
        if j < n - 1 {
            lemma_dir_len_bounds(s.take(n - 1));
            lemma_no_sep_after_dir(s.take(n - 1), j);
        }
    }
}

/// The extension dot, when present, lies inside the final component: at or
/// after the directory part, before the end, and the character there is a
/// dot.
pub proof fn lemma_ext_dot_in_component(s: Seq<char>)
    ensures
        spec_ext_dot(s) == -1 || (spec_dir_len(s) <= spec_ext_dot(s) < s.len() && s[
            spec_ext_dot(s)
        ] == '.'),
    decreases s.len(),
{
    let n = s.len() as int;
    if n == 0 {
    } else if spec_is_sep(s[n - 1]) {
    } else if s[n - 1] == '.' {
        lemma_dir_len_bounds(s.take(n - 1));
    } else {
        lemma_ext_dot_in_component(s.take(n - 1));
        lemma_dir_len_bounds(s.take(n - 1));
    }
}

/// Law: swapping the extension keeps the destination alongside the source.
/// The directory part of the source is unchanged, everything after it holds
/// no separator, and the result ends in a dot followed by the new extension.
pub proof fn lemma_with_ext_alongside(s: Seq<char>, ext: Seq<char>)
    requires
        forall|k: int| 0 <= k < ext.len() ==> !spec_is_sep(#[trigger] ext[k]),
    ensures
        spec_with_ext(s, ext).take(spec_dir_len(s)) == s.take(spec_dir_len(s)),
        forall|j: int|
            spec_dir_len(s) <= j < spec_with_ext(s, ext).len() ==> !spec_is_sep(
                #[trigger] spec_with_ext(s, ext)[j],
            ),
        spec_with_ext(s, ext).subrange(
            spec_stem(s).len() as int,
            spec_with_ext(s, ext).len() as int,
        ) == seq!['.'] + ext,
{
    let r = spec_with_ext(s, ext);
    let stem = spec_stem(s);
    let dl = spec_dir_len(s);
    lemma_dir_len_bounds(s);
    lemma_ext_dot_in_component(s);
    assert(dl <= stem.len());
    assert(forall|j: int| 0 <= j < stem.len() ==> stem[j] == s[j]);
    assert(r.take(dl) =~= s.take(dl));
    assert forall|j: int| dl <= j < r.len() implies !spec_is_sep(r[j]) by {
        if j < stem.len() {
            lemma_no_sep_after_dir(s, j);
        } else if j == stem.len() {
            assert(r[j] == '.');
        } else {
            assert(r[j] == ext[j - stem.len() - 1]);
        }
    }
    assert(r.subrange(stem.len() as int, r.len() as int) =~= seq!['.'] + ext);
}

} // verus!
