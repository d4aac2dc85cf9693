use vstd::prelude::*;

verus! {

/// Name of the default sound that stands in for a file that cannot be opened.
pub const FALLBACK_FILE: &'static str = "A.mp3";

/// The characters of the default sound's file name.
pub open spec fn fallback_name() -> Seq<char> {
    seq!['A', '.', 'm', 'p', '3']
}

/// Length of `s` without its trailing `/`s.
pub open spec fn trimmed_len(s: Seq<char>) -> nat
    decreases s.len(),
{
    if s.len() > 0 && s.last() == '/' {
        trimmed_len(s.drop_last())
    } else {
        s.len()
    }
}

/// Length of the directory part of `s`: everything up to and including its
/// last `/`, or nothing when `s` holds no `/`.
pub open spec fn dir_prefix_len(s: Seq<char>) -> nat
    decreases s.len(),
{
    if s.len() == 0 {
        0
    } else if s.last() == '/' {
        s.len()
    } else {
        dir_prefix_len(s.drop_last())
    }
}

/// A last segment that names no file: none at all, or the parent directory.
pub open spec fn names_no_file(seg: Seq<char>) -> bool {
    seg.len() == 0 || seg == seq!['.', '.']
}

/// The sibling of `s` named like the default sound. Trailing `/`s are not a
/// segment: the last segment is the one before them, and it is replaced
/// together with them. When that segment names no file (`s` is empty, the
/// root, or ends in `..`), the default sound's name is joined to `s` instead.
/// Other segments, `.` among them, are kept as written.
pub open spec fn fallback_of(s: Seq<char>) -> Seq<char> {
    let t = s.subrange(0, trimmed_len(s) as int);
    let d = dir_prefix_len(t);
    if names_no_file(t.subrange(d as int, t.len() as int)) {
        if s.len() == 0 || s.last() == '/' {
            s + fallback_name()
        } else {
            s + seq!['/'] + fallback_name()
        }
    } else {
        t.subrange(0, d as int) + fallback_name()
    }
}

/// The path tried when `path` cannot be opened: the file name replaced by
/// the default sound's, in the same directory.
pub fn fallback_path(path: &str) -> (r: String)
    ensures
        r@ == fallback_of(path@),
{
    let n = path.unicode_len();
    let mut k: usize = n;
    assert(path@.subrange(0, n as int) =~= path@);
    while k > 0 && path.get_char(k - 1) == '/'
        invariant
            k <= n,
            n == path@.len(),
            trimmed_len(path@) == trimmed_len(path@.subrange(0, k as int)),
        decreases k,
    {
        proof {
            let t = path@.subrange(0, k as int);
            assert(t.drop_last() =~= path@.subrange(0, k - 1));
        }
        k = k - 1;
    }
    assert(trimmed_len(path@) == k);
    let ghost t = path@.subrange(0, k as int);
    let mut i: usize = k;
    assert(t.subrange(0, k as int) =~= t);
    while i > 0 && path.get_char(i - 1) != '/'
        invariant
            i <= k <= n,
            n == path@.len(),
            t == path@.subrange(0, k as int),
            dir_prefix_len(t) == dir_prefix_len(t.subrange(0, i as int)),
        decreases i,
    {
        proof {
            let u = t.subrange(0, i as int);
            assert(u.drop_last() =~= t.subrange(0, i - 1));
        }
        i = i - 1;
    }
    proof {
        let u = t.subrange(0, i as int);
        if i > 0 {
            assert(u.last() == '/');
        }
        assert(dir_prefix_len(t) == i);
        reveal_strlit("A.mp3");
        reveal_strlit("/");
        assert(FALLBACK_FILE@ =~= fallback_name());
    }
    let seg_is_parent = k - i == 2 && path.get_char(i) == '.' && path.get_char(i + 1) == '.';
    proof {
        let seg = t.subrange(i as int, t.len() as int);
        if seg_is_parent {
            assert(seg =~= seq!['.', '.']);
        } else if k - i == 2 {
            assert(seg[0] == path@[i as int] && seg[1] == path@[i + 1]);
        }
    }
    if k == i || seg_is_parent {
        let whole = String::from_str(path);
        if n == 0 || path.get_char(n - 1) == '/' {
            whole.concat(FALLBACK_FILE)
        } else {
            whole.concat("/").concat(FALLBACK_FILE)
        }
    } else {
        let dir = path.substring_char(0, i);
        proof {
            assert(dir@ =~= t.subrange(0, i as int));
        }
        String::from_str(dir).concat(FALLBACK_FILE)
    }
}

} // verus!
