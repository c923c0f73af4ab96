//! Routing of archive entries: each entry path either lands under the
//! resource tree (path-preserving, after a `resource` component), is a
//! recognized dynamic-library file (flattened to the library root), or is
//! discarded.

use vstd::prelude::*;
use vstd::string::*;

use crate::platform::Os;
use crate::strutil::{
    seq_contains, seq_starts_with, split_on, split_slash, str_contains, str_eq, str_starts_with,
};

verus! {

/// A path piece that names an actual directory or file: neither empty nor
/// `.` nor `..`.
pub open spec fn is_normal(c: Seq<char>) -> bool {
    c.len() > 0 && c != "."@ && c != ".."@
}

/// A path piece that survives rendering a relative path: empty pieces and
/// `.` vanish, everything else (including `..`) is kept.
pub open spec fn is_kept(c: Seq<char>) -> bool {
    c.len() > 0 && c != "."@
}

/// The pieces of a relative path as they are rendered.
pub open spec fn kept_components(cs: Seq<Seq<char>>) -> Seq<Seq<char>> {
    cs.filter(|c: Seq<char>| is_kept(c))
}

/// The pieces joined with `/` between them.
pub open spec fn join_components(cs: Seq<Seq<char>>) -> Seq<char>
    decreases cs.len(),
{
    if cs.len() == 0 {
        Seq::empty()
    } else if cs.len() == 1 {
        cs[0]
    } else {
        cs[0] + "/"@ + join_components(cs.skip(1))
    }
}

/// `dir` with the pieces appended under it; just `dir` when there are none.
pub open spec fn join_under(dir: Seq<char>, cs: Seq<Seq<char>>) -> Seq<char> {
    if cs.len() == 0 {
        dir
    } else {
        dir + "/"@ + join_components(cs)
    }
}

/// Where an entry goes: under the resource root with the remaining pieces,
/// under the library root under its own name, or nowhere.
pub enum RemapSpec {
    Resource(Seq<Seq<char>>),
    Library(Seq<char>),
    Discard,
}

/// Whether a piece names a dynamic-library file on `os`: it begins with the
/// platform's library prefix and contains its suffix (the suffix need not be
/// at the end, as in `libMaaCore.so.1`).
pub open spec fn is_lib_component(c: Seq<char>, os: Os) -> bool {
    seq_starts_with(c, os.dll_prefix_seq()) && seq_contains(c, os.dll_suffix_seq())
}

/// Scan the pieces in order. A piece equal to `resource` (with resources
/// enabled) routes the rest of the path under the resource root; a
/// dynamic-library piece routes that one piece under the library root; any
/// other piece is skipped; a path with no matching piece is discarded.
pub open spec fn spec_remap(cs: Seq<Seq<char>>, os: Os, resource: bool) -> RemapSpec
    decreases cs.len(),
{
    if cs.len() == 0 {
        RemapSpec::Discard
    } else if is_normal(cs[0]) && resource && cs[0] == "resource"@ {
        RemapSpec::Resource(kept_components(cs.skip(1)))
    } else if is_normal(cs[0]) && is_lib_component(cs[0], os) {
        RemapSpec::Library(cs[0])
    } else {
        spec_remap(cs.skip(1), os, resource)
    }
}

proof fn lemma_join_push(cs: Seq<Seq<char>>, c: Seq<char>)
    ensures
        join_components(cs.push(c)) == if cs.len() == 0 {
            c
        } else {
            join_components(cs) + "/"@ + c
        },
    decreases cs.len(),
{
    if cs.len() == 0 {
        assert(cs.push(c).len() == 1);
        assert(cs.push(c)[0] == c);
    } else if cs.len() == 1 {
        assert(cs.push(c).skip(1) =~= seq![c]);
        assert(join_components(seq![c]) == c);
    } else {
        assert(cs.push(c).skip(1) =~= cs.skip(1).push(c));
        lemma_join_push(cs.skip(1), c);
        assert(cs.push(c)[0] == cs[0]);
        assert(cs[0] + "/"@ + (join_components(cs.skip(1)) + "/"@ + c) =~= (cs[0] + "/"@
            + join_components(cs.skip(1))) + "/"@ + c);
    }
}

proof fn lemma_join_under_push(dir: Seq<char>, cs: Seq<Seq<char>>, c: Seq<char>)
    ensures
        join_under(dir, cs.push(c)) == join_under(dir, cs) + "/"@ + c,
{
    lemma_join_push(cs, c);
    if cs.len() > 0 {
        assert(dir + "/"@ + (join_components(cs) + "/"@ + c) =~= (dir + "/"@ + join_components(
            cs,
        )) + "/"@ + c);
    }
}

proof fn lemma_kept_push(s: Seq<Seq<char>>, x: Seq<char>)
    ensures
        kept_components(s.push(x)) == if is_kept(x) {
            kept_components(s).push(x)
        } else {
            kept_components(s)
        },
{
    reveal_with_fuel(Seq::<_>::filter, 2);
    assert(s.push(x).drop_last() =~= s);
    assert(s.push(x).last() == x);
}

/// The destination of one archive entry: `resource_dir` plus the preserved
/// remainder for resource entries, `lib_dir` plus the bare file name for
/// dynamic-library entries, and `None` for everything else.
pub fn extract_mapper(path: &str, lib_dir: &str, resource_dir: &str, os: Os, resource: bool) -> (r:
    Option<String>)
    ensures
        spec_remap(split_on(path@, '/'), os, resource) matches RemapSpec::Resource(rest) ==> (r
            matches Some(s) && s@ == join_under(resource_dir@, rest)),
        spec_remap(split_on(path@, '/'), os, resource) matches RemapSpec::Library(name) ==> (r
            matches Some(s) && s@ == join_under(lib_dir@, seq![name])),
        spec_remap(split_on(path@, '/'), os, resource) is Discard ==> r is None,
{
    let comps = split_slash(path);
    let ghost cs = split_on(path@, '/');
    let n = comps.len();
    proof {
        assert(cs.skip(0) =~= cs);
    }
    let mut i: usize = 0;
    while i < n
        invariant
            n == comps.len(),
            cs == split_on(path@, '/'),
            cs == comps@.map_values(|p: &str| p@),
            cs.len() == n,
            0 <= i <= n,
            spec_remap(cs.skip(i as int), os, resource) == spec_remap(cs, os, resource),
        decreases n - i,
    {
        let c: &str = comps[i];
        proof {
            assert(cs[i as int] == c@);
            assert(cs.skip(i as int)[0] == cs[i as int]);
            assert(cs.skip(i as int).skip(1) =~= cs.skip(i as int + 1));
        }
        let cn = c.unicode_len();
        let normal = cn > 0 && !str_eq(c, ".") && !str_eq(c, "..");
        proof {
            assert(normal == is_normal(cs[i as int]));
        }
        if normal && resource && str_eq(c, "resource") {
            let ghost rest = kept_components(cs.skip(i as int + 1));
            proof {
                assert(spec_remap(cs.skip(i as int), os, resource) == RemapSpec::Resource(rest));
            }
            let mut out = String::from_str(resource_dir);
            let ghost mut kept: Seq<Seq<char>> = Seq::empty();
            proof {
                assert(cs.subrange(i as int + 1, i as int + 1) =~= Seq::<Seq<char>>::empty());
                assert(kept_components(Seq::<Seq<char>>::empty()) =~= Seq::<Seq<char>>::empty());
            }
            let mut j: usize = i + 1;
            while j < n
                invariant
                    n == comps.len(),
                    cs == comps@.map_values(|p: &str| p@),
                    cs.len() == n,
                    0 <= i < j <= n,
                    kept == kept_components(cs.subrange(i as int + 1, j as int)),
                    out@ == join_under(resource_dir@, kept),
                decreases n - j,
            {
                let cj: &str = comps[j];
                proof {
                    assert(cs[j as int] == cj@);
                }
                let kn = cj.unicode_len();
                let keep = kn > 0 && !str_eq(cj, ".");
                proof {
                    assert(keep == is_kept(cs[j as int]));
                    assert(cs.subrange(i as int + 1, j as int + 1) =~= cs.subrange(
                        i as int + 1,
                        j as int,
                    ).push(cs[j as int]));
                    lemma_kept_push(cs.subrange(i as int + 1, j as int), cs[j as int]);
                }
                if keep {
                    proof {
                        lemma_join_under_push(resource_dir@, kept, cs[j as int]);
                    }
                    out.append("/");
                    out.append(cj);
                    proof {
                        kept = kept.push(cs[j as int]);
                        assert(out@ =~= join_under(resource_dir@, kept));
                    }
                }
                j = j + 1;
            }
            proof {
                assert(cs.subrange(i as int + 1, n as int) =~= cs.skip(i as int + 1));
                assert(kept == rest);
            }
            return Some(out);
        } else if normal && str_starts_with(c, os.dll_prefix()) && str_contains(
            c,
            os.dll_suffix(),
        ) {
            proof {
                assert(is_lib_component(cs[i as int], os));
                assert(spec_remap(cs.skip(i as int), os, resource) == RemapSpec::Library(
                    cs[i as int],
                ));
            }
            let mut out = String::from_str(lib_dir);
            out.append("/");
            out.append(c);
            proof {
                assert(seq![cs[i as int]].len() == 1);
                assert(join_components(seq![cs[i as int]]) == cs[i as int]);
                assert(out@ =~= join_under(lib_dir@, seq![cs[i as int]]));
            }
            return Some(out);
        } else {
            proof {
                assert(spec_remap(cs.skip(i as int), os, resource) == spec_remap(
                    cs.skip(i as int + 1),
                    os,
                    resource,
                ));
            }
        }
        i = i + 1;
    }
    proof {
        assert(cs.skip(n as int).len() == 0);
        assert(spec_remap(cs, os, resource) == RemapSpec::Discard);
    }
    None
}

} // verus!
