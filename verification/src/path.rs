//! Resolution of relative asset references against a base path.
//!
//! A reference is either absolute (it starts with `/` and is passed
//! through unchanged), a label-only reference (it starts with `#` and is
//! attached to the base document's path), or relative: it is joined to
//! the directory of the base path, honouring leading `./` and `../`
//! segments. Resolution anchors a path once; re-resolving an already
//! anchored path against a different base is not meaningful and callers
//! run the pass exactly once per document.

use vstd::prelude::*;

use crate::text::{push_char, string_of_range};

verus! {

/// `s` up to its first `#`, the whole of `s` when it has none.
pub open spec fn before_hash(s: Seq<char>) -> Seq<char> {
    match s.index_of_first('#') {
        Option::None => s,
        Option::Some(i) => s.take(i),
    }
}

/// The directory part of a path: everything before the last `/`, empty
/// when there is none.
pub open spec fn dir_of(p: Seq<char>) -> Seq<char> {
    match p.index_of_last('/') {
        Option::None => Seq::empty(),
        Option::Some(i) => p.take(i),
    }
}

/// Joins a directory and a relative path, honouring leading `./` and
/// `../` segments.
pub open spec fn join_path(dir: Seq<char>, rel: Seq<char>) -> Seq<char>
    decreases rel.len(),
{
    if rel.len() >= 2 && rel.take(2) == "./"@ {
        join_path(dir, rel.skip(2))
    } else if rel.len() >= 3 && rel.take(3) == "../"@ {
        join_path(dir_of(dir), rel.skip(3))
    } else if dir.len() == 0 {
        rel
    } else {
        dir + "/"@ + rel
    }
}

/// Resolves a textual reference against a base path: label-only
/// references keep the base path, absolute references pass through
/// unchanged, and relative references are joined to the base directory.
pub open spec fn resolve_ref(base: Seq<char>, rel: Seq<char>) -> Seq<char> {
    if rel.len() >= 1 && rel[0] == '#' {
        before_hash(base) + rel
    } else if rel.len() >= 1 && rel[0] == '/' {
        rel
    } else {
        join_path(dir_of(before_hash(base)), rel)
    }
}

/// Resolution anchors relative references under the base directory and
/// passes absolute references through unchanged.
pub proof fn lemma_resolution_anchors(base: Seq<char>, rel: Seq<char>)
    ensures
        rel.len() >= 1 && rel[0] == '/' ==> resolve_ref(base, rel) == rel,
        (rel.len() >= 1 && rel[0] != '/' && rel[0] != '#' && rel[0] != '.' && dir_of(
            before_hash(base),
        ).len() > 0) ==> resolve_ref(base, rel) == dir_of(before_hash(base)) + "/"@ + rel,
{
    reveal_strlit("./");
    reveal_strlit("../");
    if rel.len() >= 1 && rel[0] != '/' && rel[0] != '#' && rel[0] != '.' {
        if rel.len() >= 2 {
            assert(rel.take(2)[0] == rel[0]);
            assert(rel.take(2) != "./"@);
        }
        if rel.len() >= 3 {
            assert(rel.take(3)[0] == rel[0]);
            assert(rel.take(3) != "../"@);
        }
    }
}

/// The position of the first `#` in the range, if any.
fn find_hash(v: &Vec<char>, lo: usize, hi: usize) -> (r: Option<usize>)
    requires
        lo <= hi <= v.len(),
    ensures
        match r {
            Option::Some(i) => {
                &&& lo <= i < hi
                &&& v@.subrange(lo as int, hi as int).index_of_first('#') == Option::Some(
                    i - lo,
                )
            },
            Option::None => v@.subrange(lo as int, hi as int).index_of_first('#')
                == Option::None::<int>,
        },
{
    let ghost s = v@.subrange(lo as int, hi as int);
    let mut i: usize = lo;
    while i < hi
        invariant
            lo <= i <= hi <= v.len(),
            s == v@.subrange(lo as int, hi as int),
            forall|j: int| lo <= j < i ==> v@[j] != '#',
        decreases hi - i,
    {
        if v[i] == '#' {
            proof {
                s.index_of_first_ensures('#');
                assert(s[i - lo] == v@[i as int]);
                assert(s.contains('#')) by {
                    assert(s[i - lo] == '#');
                }
                let k = s.index_of_first('#')->0;
                assert(s[k] == '#');
                assert forall|j: int| 0 <= j < i - lo implies s[j] != '#' by {
                    assert(s[j] == v@[lo + j]);
                }
                assert(k == i - lo);
            }
            return Option::Some(i);
        }
        i = i + 1;
    }
    proof {
        s.index_of_first_ensures('#');
        if s.contains('#') {
            let k = s.index_of_first('#')->0;
            assert(s[k] == v@[lo + k]);
        }
    }
    Option::None
}

/// The position of the last `/` strictly before `hi`, if any.
fn last_slash(v: &Vec<char>, hi: usize) -> (r: Option<usize>)
    requires
        hi <= v.len(),
    ensures
        match r {
            Option::Some(i) => {
                &&& i < hi
                &&& v@.subrange(0, hi as int).index_of_last('/') == Option::Some(i as int)
            },
            Option::None => v@.subrange(0, hi as int).index_of_last('/') == Option::None::<int>,
        },
{
    let ghost s = v@.subrange(0, hi as int);
    let mut i: usize = hi;
    while i > 0
        invariant
            i <= hi <= v.len(),
            s == v@.subrange(0, hi as int),
            forall|j: int| i <= j < hi ==> v@[j] != '/',
        decreases i,
    {
        i = i - 1;
        if v[i] == '/' {
            proof {
                s.index_of_last_ensures('/');
                assert(s[i as int] == v@[i as int]);
                assert(s.contains('/')) by {
                    assert(s[i as int] == '/');
                }
                let k = s.index_of_last('/')->0;
                assert(s[k] == '/');
                assert forall|j: int| i < j < hi implies s[j] != '/' by {
                    assert(s[j] == v@[j]);
                }
                assert(k == i);
            }
            return Option::Some(i);
        }
    }
    proof {
        s.index_of_last_ensures('/');
        if s.contains('/') {
            let k = s.index_of_last('/')->0;
            assert(s[k] == v@[k]);
        }
    }
    Option::None
}

/// Joins the directory prefix of `vb` and the suffix of `vr`, honouring
/// leading `./` and `../` segments.
fn join_path_range(vb: &Vec<char>, dhi: usize, vr: &Vec<char>, rlo: usize) -> (r: String)
    requires
        dhi <= vb.len(),
        rlo <= vr.len(),
    ensures
        r@ == join_path(vb@.subrange(0, dhi as int), vr@.subrange(rlo as int, vr@.len() as int)),
    decreases vr.len() - rlo,
{
    let ghost dir = vb@.subrange(0, dhi as int);
    let ghost rel = vr@.subrange(rlo as int, vr@.len() as int);
    let n = vr.len();
    proof {
        reveal_strlit("./");
        reveal_strlit("../");
        if n - rlo >= 2 {
            assert(rel.take(2) =~= seq![vr@[rlo as int], vr@[rlo + 1]]);
        }
        if n - rlo >= 3 {
            assert(rel.take(3) =~= seq![vr@[rlo as int], vr@[rlo + 1], vr@[rlo + 2]]);
        }
    }
    if n - rlo >= 2 && vr[rlo] == '.' && vr[rlo + 1] == '/' {
        proof {
            assert(rel.take(2) =~= "./"@);
            assert(rel.skip(2) =~= vr@.subrange(rlo + 2, vr@.len() as int));
        }
        join_path_range(vb, dhi, vr, rlo + 2)
    } else if n - rlo >= 3 && vr[rlo] == '.' && vr[rlo + 1] == '.' && vr[rlo + 2] == '/' {
        proof {
            assert(rel.take(2) != "./"@);
            assert(rel.take(3) =~= "../"@);
            assert(rel.skip(3) =~= vr@.subrange(rlo + 3, vr@.len() as int));
        }
        let parent = match last_slash(vb, dhi) {
            Option::Some(i) => i,
            Option::None => 0,
        };
        proof {
            match dir.index_of_last('/') {
                Option::Some(i) => {
                    assert(dir.take(i) =~= vb@.subrange(0, i as int));
                },
                Option::None => {
                    assert(dir_of(dir) =~= vb@.subrange(0, 0));
                },
            }
        }
        join_path_range(vb, parent, vr, rlo + 3)
    } else {
        proof {
            if n - rlo >= 2 {
                assert(rel.take(2) != "./"@);
            }
            if n - rlo >= 3 {
                assert(rel.take(3) != "../"@);
            }
        }
        if dhi == 0 {
            let r = string_of_range(vr, rlo, n);
            proof {
                assert(dir.len() == 0);
            }
            r
        } else {
            let mut r = string_of_range(vb, 0, dhi);
            push_char(&mut r, '/');
            let tail = string_of_range(vr, rlo, n);
            r.append(tail.as_str());
            proof {
                reveal_strlit("/");
                assert(r@ =~= dir + "/"@ + rel);
            }
            r
        }
    }
}

/// Resolves a textual reference against a base path.
pub fn relative_asset_path(base: &str, rel: &str) -> (r: String)
    ensures
        r@ == resolve_ref(base@, rel@),
{
    let vb = crate::text::chars_of(base);
    let vr = crate::text::chars_of(rel);
    proof {
        assert(vb@.subrange(0, vb@.len() as int) =~= base@);
        assert(vr@.subrange(0, vr@.len() as int) =~= rel@);
    }
    if vr.len() >= 1 && vr[0] == '#' {
        let bh = match find_hash(&vb, 0, vb.len()) {
            Option::Some(i) => i,
            Option::None => vb.len(),
        };
        proof {
            match base@.index_of_first('#') {
                Option::Some(i) => {
                    assert(before_hash(base@) =~= vb@.subrange(0, i));
                },
                Option::None => {
                    assert(before_hash(base@) =~= vb@.subrange(0, vb@.len() as int));
                },
            }
        }
        let mut r = string_of_range(&vb, 0, bh);
        let tail = string_of_range(&vr, 0, vr.len());
        r.append(tail.as_str());
        proof {
            assert(r@ =~= before_hash(base@) + rel@);
        }
        r
    } else if vr.len() >= 1 && vr[0] == '/' {
        string_of_range(&vr, 0, vr.len())
    } else {
        let bh = match find_hash(&vb, 0, vb.len()) {
            Option::Some(i) => i,
            Option::None => vb.len(),
        };
        proof {
            match base@.index_of_first('#') {
                Option::Some(i) => {
                    assert(before_hash(base@) =~= vb@.subrange(0, i));
                },
                Option::None => {
                    assert(before_hash(base@) =~= vb@.subrange(0, vb@.len() as int));
                },
            }
        }
        let dhi = match last_slash(&vb, bh) {
            Option::Some(i) => i,
            Option::None => 0,
        };
        proof {
            let bp = before_hash(base@);
            match bp.index_of_last('/') {
                Option::Some(i) => {
                    assert(bp.take(i) =~= vb@.subrange(0, i as int));
                },
                Option::None => {
                    assert(dir_of(bp) =~= vb@.subrange(0, 0));
                },
            }
        }
        join_path_range(&vb, dhi, &vr, 0)
    }
}

} // verus!
