//! The change-watcher's ignore filter: a change notification carries a set of
//! paths, and a path is discarded when it contains any of the configured
//! ignore fragments (by default the build-output and version-control
//! directories). A notification counts only if at least one of its paths
//! survives the filter.

use vstd::prelude::*;

verus! {

/// `frag` occurs in `path` starting at position `i`.
pub open spec fn fragment_at(path: Seq<char>, frag: Seq<char>, i: int) -> bool {
    0 <= i && i + frag.len() <= path.len() && path.subrange(i, i + frag.len()) == frag
}

/// `frag` occurs somewhere in `path`.
pub open spec fn path_contains(path: Seq<char>, frag: Seq<char>) -> bool {
    exists|i: int| fragment_at(path, frag, i)
}

/// `path` is filtered out: it contains at least one ignore fragment.
pub open spec fn path_ignored(path: Seq<char>, ignores: Seq<Seq<char>>) -> bool {
    exists|k: int| 0 <= k < ignores.len() && path_contains(path, ignores[k])
}

/// A change notification is accepted when at least one of its paths is not
/// ignored; one whose every path is ignored is discarded.
pub open spec fn change_accepted(paths: Seq<Seq<char>>, ignores: Seq<Seq<char>>) -> bool {
    exists|j: int| 0 <= j < paths.len() && !path_ignored(paths[j], ignores)
}

/// Whether `frag` occurs in `path` as a contiguous run of characters.
pub fn str_contains_fragment(path: &str, frag: &str) -> (r: bool)
    ensures
        r == path_contains(path@, frag@),
{
    let path_len: usize = path.unicode_len();
    let frag_len: usize = frag.unicode_len();
    if frag_len > path_len {
        proof {
            assert forall|i: int| !fragment_at(path@, frag@, i) by {}
        }
        return false;
    }
    let mut i: usize = 0;
    while i <= path_len - frag_len
        invariant
            frag_len <= path_len,
            path_len == path@.len(),
            frag_len == frag@.len(),
            i <= path_len - frag_len + 1,
            forall|k: int| 0 <= k < i ==> !fragment_at(path@, frag@, k),
        decreases path_len - frag_len - i + 1,
    {
        let mut j: usize = 0;
        let mut matched = true;
        proof {
            assert(path@.subrange(i as int, i as int) =~= frag@.subrange(0, 0));
        }
        while j < frag_len
            invariant
                frag_len <= path_len,
                path_len == path@.len(),
                frag_len == frag@.len(),
                i + frag_len <= path_len,
                j <= frag_len,
                matched <==> path@.subrange(i as int, i + j) == frag@.subrange(0, j as int),
            decreases frag_len - j,
        {
            let pc = path.get_char(i + j);
            let fc = frag.get_char(j);
            proof {
                let pfx = path@.subrange(i as int, i + j);
                let pfx1 = path@.subrange(i as int, i + j + 1);
                let ffx = frag@.subrange(0, j as int);
                let ffx1 = frag@.subrange(0, j + 1);
                assert(pfx1.drop_last() =~= pfx);
                assert(ffx1.drop_last() =~= ffx);
                assert(pfx1.last() == path@[i + j]);
                assert(ffx1.last() == frag@[j as int]);
                if matched && pc == fc {
                    assert(pfx1 =~= ffx1);
                }
                if pfx1 == ffx1 {
                    assert(pfx == ffx) by {
                        assert(pfx =~= pfx1.drop_last());
                        assert(ffx =~= ffx1.drop_last());
                    }
                    assert(path@[i + j] == frag@[j as int]);
                }
            }
            matched = matched && pc == fc;
            j += 1;
        }
        if matched {
            proof {
                assert(path@.subrange(i as int, i + frag_len) == frag@.subrange(
                    0,
                    frag_len as int,
                ));
                assert(frag@.subrange(0, frag_len as int) =~= frag@);
                assert(fragment_at(path@, frag@, i as int));
            }
            return true;
        }
        proof {
            assert(frag@.subrange(0, frag_len as int) =~= frag@);
            assert(!fragment_at(path@, frag@, i as int));
        }
        i += 1;
    }
    proof {
        assert forall|k: int| !fragment_at(path@, frag@, k) by {
            if 0 <= k <= path_len - frag_len {
                assert(!fragment_at(path@, frag@, k));
            }
        }
    }
    false
}

/// Whether `path` contains any of the ignore fragments.
pub fn is_path_ignored(path: &String, ignores: &Vec<String>) -> (r: bool)
    ensures
        r == path_ignored(path@, ignores.deep_view()),
{
    let mut k: usize = 0;
    while k < ignores.len()
        invariant
            k <= ignores.len(),
            forall|m: int| 0 <= m < k ==> !path_contains(path@, ignores.deep_view()[m]),
        decreases ignores.len() - k,
    {
        if str_contains_fragment(path.as_str(), ignores[k].as_str()) {
            proof {
                assert(ignores.deep_view()[k as int] == ignores[k as int]@);
            }
            return true;
        }
        proof {
            assert(ignores.deep_view()[k as int] == ignores[k as int]@);
        }
        k += 1;
    }
    false
}

/// Whether a change notification with the given paths survives the ignore
/// filter: true exactly when at least one path contains no ignore fragment.
pub fn notification_accepted(paths: &Vec<String>, ignores: &Vec<String>) -> (r: bool)
    ensures
        r == change_accepted(paths.deep_view(), ignores.deep_view()),
{
    let mut j: usize = 0;
    while j < paths.len()
        invariant
            j <= paths.len(),
            forall|m: int| 0 <= m < j ==> path_ignored(paths.deep_view()[m], ignores.deep_view()),
        decreases paths.len() - j,
    {
        if !is_path_ignored(&paths[j], ignores) {
            proof {
                assert(paths.deep_view()[j as int] == paths[j as int]@);
            }
            return true;
        }
        proof {
            assert(paths.deep_view()[j as int] == paths[j as int]@);
        }
        j += 1;
    }
    false
}

} // verus!
