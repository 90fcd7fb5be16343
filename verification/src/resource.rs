//! The page-resource interception decision: which resource loads the
//! bridge serves itself, and from which file. Reading the file, guessing
//! its media type and answering the load happen outside; a read failure is
//! answered like a missing file, not fatally.

use vstd::prelude::*;
use vstd::utf8::encode_utf8;
use crate::json::{lit_at, match_lit};
use crate::transport::spec_resource_rel;

verus! {

/// What to do with one resource load.
#[derive(Clone, Debug)]
pub enum ResourcePlan {
    /// Not ours: let the rendering engine's default handling occur.
    PassThrough,
    /// Serve the file under this path relative to the window's root.
    Intercept { relative: Vec<u8> },
}

/// The path part of an interceptable URL: everything from the first slash
/// after the scheme and authority, leading slashes removed, query and
/// fragment cut off.
pub open spec fn spec_intercept_path(url: Seq<u8>) -> Seq<u8> {
    let after = url.skip(encode_utf8(("lotus-resource://")@).len() as int);
    spec_resource_rel(sp_until_slash(after))
}

/// The suffix of `s` from its first `/`, with any query or fragment part
/// removed; empty when no slash follows the authority.
pub open spec fn sp_until_slash(s: Seq<u8>) -> Seq<u8>
    decreases s.len(),
{
    if s.len() == 0 {
        Seq::empty()
    } else if s[0] == 47 {
        sp_cut_query(s)
    } else {
        sp_until_slash(s.skip(1))
    }
}

/// The prefix of `s` before its first `?` or `#`.
pub open spec fn sp_cut_query(s: Seq<u8>) -> Seq<u8>
    decreases s.len(),
{
    if s.len() == 0 {
        Seq::empty()
    } else if s[0] == 63 || s[0] == 35 {
        Seq::empty()
    } else {
        seq![s[0]] + sp_cut_query(s.skip(1))
    }
}

/// Decides one resource load: intercepted exactly when the URL names the
/// bridge's own scheme and the window still has a root recorded (metadata
/// may outlive the instance, and a load may race teardown — an absent root
/// passes the load through).
pub fn resource_plan(url: &Vec<u8>, root_known: bool) -> (r: ResourcePlan)
    ensures
        ({
            let ours = lit_at(url@, 0, ("lotus-resource://")@) && root_known;
            match r {
                ResourcePlan::PassThrough => !ours,
                ResourcePlan::Intercept { relative } => ours && relative@
                    == spec_intercept_path(url@),
            }
        }),
{
    proof {
        reveal_strlit("lotus-resource://");
        assert(vstd::string::is_ascii("lotus-resource://"));
        vstd::string::is_ascii_spec_bytes("lotus-resource://");
    }
    if !root_known || !match_lit(url, 0, "lotus-resource://") {
        return ResourcePlan::PassThrough;
    }
    let n = url.len();
    let mut i: usize = 17;
    while i < n && url[i] != 47
        invariant
            17 <= i <= n,
            n == url@.len(),
            sp_until_slash(url@.skip(17)) == sp_until_slash(url@.skip(i as int)),
        decreases n - i,
    {
        proof {
            assert(url@.skip(i as int)[0] == url@[i as int]);
            assert(url@.skip(i as int).skip(1) =~= url@.skip(i + 1));
        }
        i = i + 1;
    }
    proof {
        if i < n {
            assert(url@.skip(i as int)[0] == url@[i as int]);
        } else {
            assert(url@.skip(i as int) =~= Seq::<u8>::empty());
        }
    }
    // `i` stands on the first slash of the path, or at the end.
    let mut path: Vec<u8> = Vec::new();
    let mut j = i;
    while j < n && url[j] != 63 && url[j] != 35
        invariant
            i <= j <= n,
            n == url@.len(),
            sp_cut_query(url@.skip(i as int)) =~= path@ + sp_cut_query(url@.skip(j as int)),
        decreases n - j,
    {
        proof {
            assert(url@.skip(j as int)[0] == url@[j as int]);
            assert(url@.skip(j as int).skip(1) =~= url@.skip(j + 1));
        }
        path.push(url[j]);
        j = j + 1;
    }
    proof {
        if j < n {
            assert(url@.skip(j as int)[0] == url@[j as int]);
        } else {
            assert(url@.skip(j as int) =~= Seq::<u8>::empty());
        }
        assert(path@ =~= sp_cut_query(url@.skip(i as int)));
    }
    // Trim the leading slashes of the path part.
    let m = path.len();
    let mut k: usize = 0;
    proof {
        assert(path@.skip(0) =~= path@);
    }
    while k < m && path[k] == 47
        invariant
            k <= m,
            m == path@.len(),
            spec_resource_rel(path@) == spec_resource_rel(path@.skip(k as int)),
        decreases m - k,
    {
        proof {
            assert(path@.skip(k as int)[0] == path@[k as int]);
            assert(path@.skip(k as int).skip(1) =~= path@.skip(k + 1));
        }
        k = k + 1;
    }
    proof {
        if k < m {
            assert(path@.skip(k as int)[0] == path@[k as int]);
        } else {
            assert(path@.skip(k as int) =~= Seq::<u8>::empty());
        }
    }
    let mut relative: Vec<u8> = Vec::new();
    let mut t = k;
    while t < m
        invariant
            k <= t <= m,
            m == path@.len(),
            relative@ =~= path@.subrange(k as int, t as int),
        decreases m - t,
    {
        relative.push(path[t]);
        t = t + 1;
    }
    proof {
        assert(relative@ =~= path@.skip(k as int));
    }
    ResourcePlan::Intercept { relative }
}

} // verus!
