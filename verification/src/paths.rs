//! Canonicalization of logical paths.
//!
//! A logical path may contain the home-directory placeholder `~` and
//! redundant separators.  [`resolve`] turns it into a canonical form by
//! substituting the placeholder, squeezing every run of separators down to a
//! single `/`, and stripping one trailing separator.  The transformation is
//! purely textual: symbolic links and `.`/`..` segments are left untouched.

use vstd::prelude::*;

verus! {

/// Model of substituting every `~` in `s` by `home`.
pub open spec fn spec_replace_tilde(s: Seq<char>, home: Seq<char>) -> Seq<char>
    decreases s.len(),
{
    if s.len() == 0 {
        Seq::empty()
    } else if s[0] == '~' {
        home + spec_replace_tilde(s.drop_first(), home)
    } else {
        seq![s[0]] + spec_replace_tilde(s.drop_first(), home)
    }
}

/// Model of squeezing every run of `/` down to a single `/`.
pub open spec fn spec_collapse_slashes(s: Seq<char>) -> Seq<char>
    decreases s.len(),
{
    if s.len() == 0 {
        Seq::empty()
    } else if s.len() >= 2 && s[0] == '/' && s[1] == '/' {
        spec_collapse_slashes(s.drop_first())
    } else {
        seq![s[0]] + spec_collapse_slashes(s.drop_first())
    }
}

/// Model of removing one trailing `/`, if present.
pub open spec fn spec_strip_trailing_slash(s: Seq<char>) -> Seq<char> {
    if s.len() > 0 && s[s.len() - 1] == '/' {
        s.drop_last()
    } else {
        s
    }
}

/// Model of the whole canonicalization pass.
pub open spec fn spec_resolve(p: Seq<char>, home: Seq<char>) -> Seq<char> {
    spec_strip_trailing_slash(spec_collapse_slashes(spec_replace_tilde(p, home)))
}

/// Model of deleting every (non-overlapping, left-to-right) occurrence of
/// the two-character placeholder prefix `~/`.
pub open spec fn spec_strip_tilde_slash(s: Seq<char>) -> Seq<char>
    decreases s.len(),
{
    if s.len() == 0 {
        Seq::empty()
    } else if s.len() >= 2 && s[0] == '~' && s[1] == '/' {
        spec_strip_tilde_slash(s.skip(2))
    } else {
        seq![s[0]] + spec_strip_tilde_slash(s.drop_first())
    }
}

/// Model of joining two path fragments with a single separator.
pub open spec fn spec_join(a: Seq<char>, b: Seq<char>) -> Seq<char> {
    a + seq!['/'] + b
}

/// `s` contains no home-directory placeholder.
pub open spec fn no_tilde(s: Seq<char>) -> bool {
    forall|i: int| 0 <= i < s.len() ==> s[i] != '~'
}

/// `s` contains no two adjacent separators.
pub open spec fn no_double_slash(s: Seq<char>) -> bool {
    forall|i: int| 0 <= i && i + 1 < s.len() ==> !((#[trigger] s[i]) == '/' && s[i + 1] == '/')
}

/// Relies on `str::chars`: iterating a string slice yields exactly its
/// characters, in order.
#[verifier::external_body]
pub(crate) fn chars_of(s: &str) -> (v: Vec<char>)
    ensures
        v@ == s@,
{
    s.chars().collect()
}

/// Relies on `Iterator::collect` for `String`: collecting characters builds
/// the string consisting of exactly those characters, in order.
#[verifier::external_body]
fn string_from_chars(v: &Vec<char>) -> (s: String)
    ensures
        s@ == v@,
{
    v.iter().collect()
}

fn replace_tilde_chars(p: &Vec<char>, home: &Vec<char>) -> (r: Vec<char>)
    ensures
        r@ == spec_replace_tilde(p@, home@),
{
    let mut r: Vec<char> = Vec::new();
    let mut i: usize = 0;
    proof {
        assert(p@.skip(0) =~= p@);
        assert(Seq::<char>::empty() + spec_replace_tilde(p@, home@) =~= spec_replace_tilde(p@, home@));
    }
    while i < p.len()
        invariant
            i <= p.len(),
            spec_replace_tilde(p@, home@) == r@ + spec_replace_tilde(p@.skip(i as int), home@),
        decreases p.len() - i,
    {
        proof {
            assert(p@.skip(i as int).drop_first() =~= p@.skip(i + 1));
        }
        let ghost r_old = r@;
        let c = p[i];
        if c == '~' {
            let mut j: usize = 0;
            while j < home.len()
                invariant
                    j <= home.len(),
                    r@ == r_old + home@.take(j as int),
                decreases home.len() - j,
            {
                r.push(home[j]);
                proof {
                    assert(r@ =~= r_old + home@.take(j + 1));
                }
                j = j + 1;
            }
            proof {
                assert(home@.take(home@.len() as int) =~= home@);
                assert(r_old + (home@ + spec_replace_tilde(p@.skip(i + 1), home@))
                    =~= (r_old + home@) + spec_replace_tilde(p@.skip(i + 1), home@));
            }
        } else {
            r.push(c);
            proof {
                assert(r_old + (seq![c] + spec_replace_tilde(p@.skip(i + 1), home@))
                    =~= (r_old + seq![c]) + spec_replace_tilde(p@.skip(i + 1), home@));
                assert(r@ =~= r_old + seq![c]);
            }
        }
        i = i + 1;
    }
    proof {
        assert(p@.skip(p@.len() as int) =~= Seq::<char>::empty());
        assert(r@ + Seq::<char>::empty() =~= r@);
    }
    r
}

fn collapse_slashes_chars(p: &Vec<char>) -> (r: Vec<char>)
    ensures
        r@ == spec_collapse_slashes(p@),
{
    let mut r: Vec<char> = Vec::new();
    let mut i: usize = 0;
    proof {
        assert(p@.skip(0) =~= p@);
        assert(Seq::<char>::empty() + spec_collapse_slashes(p@) =~= spec_collapse_slashes(p@));
    }
    while i < p.len()
        invariant
            i <= p.len(),
            spec_collapse_slashes(p@) == r@ + spec_collapse_slashes(p@.skip(i as int)),
        decreases p.len() - i,
    {
        proof {
            assert(p@.skip(i as int).drop_first() =~= p@.skip(i + 1));
        }
        let ghost r_old = r@;
        let c = p[i];
        if c == '/' && i + 1 < p.len() && p[i + 1] == '/' {
            proof {
                assert(p@.skip(i as int)[0] == p@[i as int]);
                assert(p@.skip(i as int)[1] == p@[i + 1]);
            }
        } else {
            r.push(c);
            proof {
                assert(p@.skip(i as int)[0] == p@[i as int]);
                assert(r_old + (seq![c] + spec_collapse_slashes(p@.skip(i + 1)))
                    =~= (r_old + seq![c]) + spec_collapse_slashes(p@.skip(i + 1)));
                assert(r@ =~= r_old + seq![c]);
            }
        }
        i = i + 1;
    }
    proof {
        assert(p@.skip(p@.len() as int) =~= Seq::<char>::empty());
        assert(r@ + Seq::<char>::empty() =~= r@);
    }
    r
}

fn strip_trailing_slash_chars(p: &mut Vec<char>)
    ensures
        final(p)@ == spec_strip_trailing_slash(old(p)@),
{
    if p.len() > 0 && p[p.len() - 1] == '/' {
        p.pop();
        proof {
            assert(p@ =~= spec_strip_trailing_slash(old(p)@));
        }
    }
}

fn strip_tilde_slash_chars(p: &Vec<char>) -> (r: Vec<char>)
    ensures
        r@ == spec_strip_tilde_slash(p@),
{
    let mut r: Vec<char> = Vec::new();
    let mut i: usize = 0;
    proof {
        assert(p@.skip(0) =~= p@);
        assert(Seq::<char>::empty() + spec_strip_tilde_slash(p@) =~= spec_strip_tilde_slash(p@));
    }
    while i < p.len()
        invariant
            i <= p.len(),
            spec_strip_tilde_slash(p@) == r@ + spec_strip_tilde_slash(p@.skip(i as int)),
        decreases p.len() - i,
    {
        proof {
            assert(p@.skip(i as int).drop_first() =~= p@.skip(i + 1));
        }
        let ghost r_old = r@;
        let c = p[i];
        if c == '~' && i + 1 < p.len() && p[i + 1] == '/' {
            proof {
                assert(p@.skip(i as int)[0] == p@[i as int]);
                assert(p@.skip(i as int)[1] == p@[i + 1]);
                assert(p@.skip(i as int).skip(2) =~= p@.skip(i + 2));
            }
            i = i + 2;
        } else {
            r.push(c);
            proof {
                assert(p@.skip(i as int)[0] == p@[i as int]);
                assert(r_old + (seq![c] + spec_strip_tilde_slash(p@.skip(i + 1)))
                    =~= (r_old + seq![c]) + spec_strip_tilde_slash(p@.skip(i + 1)));
                assert(r@ =~= r_old + seq![c]);
            }
            i = i + 1;
        }
    }
    proof {
        assert(p@.skip(p@.len() as int) =~= Seq::<char>::empty());
        assert(r@ + Seq::<char>::empty() =~= r@);
    }
    r
}

/// Canonicalize a logical path: substitute every `~` by `home_dir`, squeeze
/// runs of `/`, and strip one trailing `/`.
pub fn resolve(path: &str, home_dir: &str) -> (r: String)
    ensures
        r@ == spec_resolve(path@, home_dir@),
{
    let p = chars_of(path);
    let h = chars_of(home_dir);
    let substituted = replace_tilde_chars(&p, &h);
    let mut collapsed = collapse_slashes_chars(&substituted);
    strip_trailing_slash_chars(&mut collapsed);
    string_from_chars(&collapsed)
}

/// Substitute every `~` in `path` by `home_dir`, with no other change.
pub fn replace_tilde(path: &str, home_dir: &str) -> (r: String)
    ensures
        r@ == spec_replace_tilde(path@, home_dir@),
{
    let p = chars_of(path);
    let h = chars_of(home_dir);
    let substituted = replace_tilde_chars(&p, &h);
    string_from_chars(&substituted)
}

/// Delete every occurrence of the placeholder prefix `~/` from `path`.
pub fn strip_tilde_slash(path: &str) -> (r: String)
    ensures
        r@ == spec_strip_tilde_slash(path@),
{
    let p = chars_of(path);
    let stripped = strip_tilde_slash_chars(&p);
    string_from_chars(&stripped)
}

/// Remove one trailing `/` from `s`, if present.
pub fn strip_trailing_slash(s: &str) -> (r: String)
    ensures
        r@ == spec_strip_trailing_slash(s@),
{
    let mut v = chars_of(s);
    strip_trailing_slash_chars(&mut v);
    string_from_chars(&v)
}

/// Join two path fragments with a single separator.
pub fn join(a: &str, b: &str) -> (r: String)
    ensures
        r@ == spec_join(a@, b@),
{
    proof {
        reveal_strlit("/");
    }
    let r = String::from_str(a).concat("/").concat(b);
    proof {
        assert(r@ =~= spec_join(a@, b@));
    }
    r
}


proof fn lemma_replace_tilde_no_tilde(s: Seq<char>, home: Seq<char>)
    requires
        no_tilde(home),
    ensures
        no_tilde(spec_replace_tilde(s, home)),
    decreases s.len(),
{
    if s.len() == 0 {
    } else {
        lemma_replace_tilde_no_tilde(s.drop_first(), home);
        let rest = spec_replace_tilde(s.drop_first(), home);
        if s[0] == '~' {
            assert forall|i: int| 0 <= i < (home + rest).len() implies (home + rest)[i] != '~' by {
                if i < home.len() {
                    assert((home + rest)[i] == home[i]);
                } else {
                    assert((home + rest)[i] == rest[i - home.len()]);
                }
            }
        } else {
            assert forall|i: int|
                0 <= i < (seq![s[0]] + rest).len() implies (seq![s[0]] + rest)[i] != '~' by {
                if i == 0 {
                } else {
                    assert((seq![s[0]] + rest)[i] == rest[i - 1]);
                }
            }
        }
    }
}

proof fn lemma_replace_tilde_identity(s: Seq<char>, home: Seq<char>)
    requires
        no_tilde(s),
    ensures
        spec_replace_tilde(s, home) == s,
    decreases s.len(),
{
    if s.len() == 0 {
        assert(spec_replace_tilde(s, home) =~= s);
    } else {
        assert(no_tilde(s.drop_first()));
        lemma_replace_tilde_identity(s.drop_first(), home);
        assert(spec_replace_tilde(s, home) =~= s);
    }
}

proof fn lemma_collapse_head(s: Seq<char>)
    requires
        s.len() > 0,
    ensures
        spec_collapse_slashes(s).len() > 0,
        spec_collapse_slashes(s)[0] == s[0],
    decreases s.len(),
{
    if s.len() >= 2 && s[0] == '/' && s[1] == '/' {
        lemma_collapse_head(s.drop_first());
    }
}

proof fn lemma_collapse_no_double(s: Seq<char>)
    ensures
        no_double_slash(spec_collapse_slashes(s)),
    decreases s.len(),
{
    if s.len() == 0 {
    } else if s.len() >= 2 && s[0] == '/' && s[1] == '/' {
        lemma_collapse_no_double(s.drop_first());
    } else {
        lemma_collapse_no_double(s.drop_first());
        let rest = spec_collapse_slashes(s.drop_first());
        let r = seq![s[0]] + rest;
        if s.drop_first().len() > 0 {
            lemma_collapse_head(s.drop_first());
        }
        assert forall|i: int|
            0 <= i && i + 1 < r.len() implies !((#[trigger] r[i]) == '/' && r[i + 1] == '/') by {
            if i == 0 {
                assert(r[0] == s[0]);
                assert(r[1] == rest[0]);
                assert(rest[0] == s.drop_first()[0]);
            } else {
                assert(r[i] == rest[i - 1]);
                assert(r[i + 1] == rest[i]);
            }
        }
    }
}

proof fn lemma_collapse_identity(s: Seq<char>)
    requires
        no_double_slash(s),
    ensures
        spec_collapse_slashes(s) == s,
    decreases s.len(),
{
    if s.len() == 0 {
        assert(spec_collapse_slashes(s) =~= s);
    } else {
        assert(!(s.len() >= 2 && s[0] == '/' && s[1] == '/'));
        assert forall|i: int|
            0 <= i && i + 1 < s.drop_first().len() implies !((#[trigger] s.drop_first()[i])
                == '/' && s.drop_first()[i + 1] == '/') by {
            assert(s.drop_first()[i] == s[i + 1]);
            assert(s.drop_first()[i + 1] == s[i + 2]);
        }
        lemma_collapse_identity(s.drop_first());
        assert(spec_collapse_slashes(s) =~= s);
    }
}

proof fn lemma_collapse_no_tilde(s: Seq<char>)
    requires
        no_tilde(s),
    ensures
        no_tilde(spec_collapse_slashes(s)),
    decreases s.len(),
{
    if s.len() == 0 {
    } else {
        assert(no_tilde(s.drop_first()));
        lemma_collapse_no_tilde(s.drop_first());
        let rest = spec_collapse_slashes(s.drop_first());
        if !(s.len() >= 2 && s[0] == '/' && s[1] == '/') {
            assert forall|i: int|
                0 <= i < (seq![s[0]] + rest).len() implies (seq![s[0]] + rest)[i] != '~' by {
                if i == 0 {
                } else {
                    assert((seq![s[0]] + rest)[i] == rest[i - 1]);
                }
            }
        }
    }
}

proof fn lemma_strip_preserves(s: Seq<char>)
    ensures
        no_tilde(s) ==> no_tilde(spec_strip_trailing_slash(s)),
        no_double_slash(s) ==> no_double_slash(spec_strip_trailing_slash(s)),
{
    let r = spec_strip_trailing_slash(s);
    assert(forall|i: int| 0 <= i < r.len() ==> r[i] == s[i]);
}

proof fn lemma_strip_idempotent(s: Seq<char>)
    requires
        no_double_slash(s),
    ensures
        spec_strip_trailing_slash(spec_strip_trailing_slash(s)) == spec_strip_trailing_slash(s),
{
    let r = spec_strip_trailing_slash(s);
    if r.len() > 0 && r[r.len() - 1] == '/' {
        assert(s.len() > 0 && s[s.len() - 1] == '/');
        assert(r == s.drop_last());
        assert(s[s.len() - 2] == '/' && s[s.len() - 1] == '/');
        assert(false);
    }
}

/// Canonical form: a resolved path never contains two adjacent separators
/// and never ends with one, so resolving is also what makes the directory
/// invariants of the configuration hold.
pub proof fn lemma_resolve_canonical(p: Seq<char>, home: Seq<char>)
    ensures
        no_double_slash(spec_resolve(p, home)),
        spec_resolve(p, home).len() > 0 ==> spec_resolve(p, home)[spec_resolve(
            p,
            home,
        ).len() - 1] != '/',
{
    let t = spec_replace_tilde(p, home);
    let c = spec_collapse_slashes(t);
    let r = spec_strip_trailing_slash(c);
    lemma_collapse_no_double(t);
    lemma_strip_preserves(c);
    if r.len() > 0 && r[r.len() - 1] == '/' {
        assert(c.len() > 0 && c[c.len() - 1] == '/');
        assert(r == c.drop_last());
        assert(c[c.len() - 2] == '/' && c[c.len() - 1] == '/');
        assert(false);
    }
}

/// Idempotence of path resolution: as long as the home directory itself
/// contains no `~` placeholder, resolving a logical path a second time
/// changes nothing — [`spec_resolve`] is idempotent in its first argument.
pub proof fn lemma_resolve_idempotent(p: Seq<char>, home: Seq<char>)
    requires
        no_tilde(home),
    ensures
        spec_resolve(spec_resolve(p, home), home) == spec_resolve(p, home),
{
    let t = spec_replace_tilde(p, home);
    let c = spec_collapse_slashes(t);
    let r = spec_strip_trailing_slash(c);
    lemma_replace_tilde_no_tilde(p, home);
    lemma_collapse_no_tilde(t);
    lemma_collapse_no_double(t);
    lemma_strip_preserves(c);
    lemma_replace_tilde_identity(r, home);
    lemma_collapse_identity(r);
    lemma_strip_idempotent(c);
}

} // verus!
