//! Display names derived from executable paths.

use vstd::prelude::*;
use vstd::string::*;

verus! {

/// The separator between the components of an executable path.
pub const PATH_SEPARATOR: char = '\\';

/// The character that introduces a file extension.
pub const EXTENSION_MARK: char = '.';

/// Position of the last occurrence of `c` in `s`, or `-1` when `c` does not occur.
pub open spec fn last_index_of(s: Seq<char>, c: char) -> int
    decreases s.len(),
{
    if s.len() == 0 {
        -1
    } else if s.last() == c {
        s.len() - 1
    } else {
        last_index_of(s.drop_last(), c)
    }
}

/// What follows the last path separator of `path`; all of `path` when it has none.
pub open spec fn final_segment(path: Seq<char>) -> Seq<char> {
    path.skip(last_index_of(path, PATH_SEPARATOR) + 1)
}

/// `segment` without its last extension mark and everything after it;
/// `segment` unchanged when it holds no extension mark.
pub open spec fn strip_extension(segment: Seq<char>) -> Seq<char> {
    let dot = last_index_of(segment, EXTENSION_MARK);
    if dot < 0 {
        segment
    } else {
        segment.take(dot)
    }
}

/// The display name of the executable at `path`: its final path segment
/// with the extension removed.
pub open spec fn derived_name(path: Seq<char>) -> Seq<char> {
    strip_extension(final_segment(path))
}

/// `last_index_of` finds the greatest position that holds `c`, and answers
/// `-1` exactly when `c` does not occur.
pub proof fn lemma_last_index_of(s: Seq<char>, c: char)
    ensures
        -1 <= last_index_of(s, c) < s.len(),
        last_index_of(s, c) >= 0 ==> s[last_index_of(s, c)] == c,
        forall|j: int| last_index_of(s, c) < j < s.len() ==> s[j] != c,
        last_index_of(s, c) == -1 <==> !s.contains(c),
    decreases s.len(),
{
    if s.len() > 0 && s.last() != c {
        let front = s.drop_last();
        lemma_last_index_of(front, c);
        assert forall|j: int| last_index_of(front, c) < j < s.len() implies s[j] != c by {
            if j < front.len() {
                assert(front[j] == s[j]);
            }
        }
        if s.contains(c) {
            let k = choose|k: int| 0 <= k < s.len() && s[k] == c;
            assert(front[k] == c);
        }
    }
}

/// A name is what follows the last path separator, up to the last extension
/// mark after it. So a path whose final segment holds no extension mark is
/// named by that segment unchanged, a name never holds a separator, and a
/// final segment that does hold an extension mark is the name, that mark and
/// an extension.
pub proof fn lemma_derived_name(path: Seq<char>)
    ensures
        !final_segment(path).contains(EXTENSION_MARK) ==> derived_name(path) == final_segment(path),
        !path.contains(PATH_SEPARATOR) ==> final_segment(path) == path,
        !derived_name(path).contains(PATH_SEPARATOR),
        derived_name(path).len() <= final_segment(path).len() <= path.len(),
        final_segment(path).contains(EXTENSION_MARK) ==> {
            let dot = last_index_of(final_segment(path), EXTENSION_MARK);
            &&& 0 <= dot < final_segment(path).len()
            &&& final_segment(path) == derived_name(path).push(EXTENSION_MARK) + final_segment(
                path,
            ).skip(dot + 1)
            &&& !final_segment(path).skip(dot + 1).contains(EXTENSION_MARK)
        },
{
    let segment = final_segment(path);
    let name = derived_name(path);
    let cut = last_index_of(path, PATH_SEPARATOR);
    let dot = last_index_of(segment, EXTENSION_MARK);
    lemma_last_index_of(path, PATH_SEPARATOR);
    lemma_last_index_of(segment, EXTENSION_MARK);
    assert(!segment.contains(PATH_SEPARATOR)) by {
        if segment.contains(PATH_SEPARATOR) {
            let k = choose|k: int| 0 <= k < segment.len() && segment[k] == PATH_SEPARATOR;
            assert(path[cut + 1 + k] == PATH_SEPARATOR);
        }
    }
    assert(!name.contains(PATH_SEPARATOR)) by {
        if name.contains(PATH_SEPARATOR) {
            let k = choose|k: int| 0 <= k < name.len() && name[k] == PATH_SEPARATOR;
            assert(segment[k] == PATH_SEPARATOR);
        }
    }
    if segment.contains(EXTENSION_MARK) {
        let rest = segment.skip(dot + 1);
        if rest.contains(EXTENSION_MARK) {
            let k = choose|k: int| 0 <= k < rest.len() && rest[k] == EXTENSION_MARK;
            assert(segment[dot + 1 + k] == EXTENSION_MARK);
        }
    }
}

/// Finds the last occurrence of `c` among the characters of `s`.
pub fn rfind_char(s: &str, c: char) -> (found: Option<usize>)
    ensures
        match found {
            Some(i) => i as int == last_index_of(s@, c),
            None => last_index_of(s@, c) == -1,
        },
{
    let n = s.unicode_len();
    let mut found: Option<usize> = None;
    let mut i: usize = 0;
    while i < n
        invariant
            i <= n,
            n == s@.len(),
            match found {
                Some(k) => k as int == last_index_of(s@.take(i as int), c),
                None => last_index_of(s@.take(i as int), c) == -1,
            },
        decreases n - i,
    {
        proof {
            let next = s@.take(i + 1);
            assert(next.drop_last() =~= s@.take(i as int));
        }
        if s.get_char(i) == c {
            found = Some(i);
        }
        i += 1;
    }
    proof {
        assert(s@.take(n as int) =~= s@);
    }
    found
}

/// Derives the display name of the executable at `path`.
pub fn derive_name(path: &str) -> (name: String)
    ensures
        name@ == derived_name(path@),
{
    let n = path.unicode_len();
    let segment = match rfind_char(path, PATH_SEPARATOR) {
        Some(i) => {
            proof {
                lemma_last_index_of(path@, PATH_SEPARATOR);
            }
            path.substring_char(i + 1, n)
        },
        None => {
            proof {
                assert(path@.skip(0) =~= path@);
            }
            path
        },
    };
    let stem = match rfind_char(segment, EXTENSION_MARK) {
        Some(dot) => {
            proof {
                lemma_last_index_of(segment@, EXTENSION_MARK);
            }
            segment.substring_char(0, dot)
        },
        None => segment,
    };
    String::from_str(stem)
}

} // verus!
