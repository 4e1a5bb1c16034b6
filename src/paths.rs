//! The path resolver: renders a context, a layer and an artifact name into a
//! file path through a template with `{context}`, `{layer}` and `{type}`.
use vstd::prelude::*;
use crate::names::{snake_case, to_snake};

verus! {

/// `s` with every occurrence of `pat` replaced by `rep`, scanning left to
/// right without overlaps; an empty `pat` leaves `s` as it is.
pub open spec fn replaced(s: Seq<char>, pat: Seq<char>, rep: Seq<char>) -> Seq<char>
    decreases s.len(),
{
    if pat.len() == 0 || s.len() < pat.len() {
        s
    } else if s.subrange(0, pat.len() as int) == pat {
        rep + replaced(s.skip(pat.len() as int), pat, rep)
    } else {
        seq![s[0]] + replaced(s.skip(1), pat, rep)
    }
}

/// The path that `resolve_path` renders.
pub open spec fn resolved_path(
    pattern: Seq<char>,
    context: Seq<char>,
    layer: Seq<char>,
    name: Seq<char>,
) -> Seq<char> {
    if pattern.len() == 0 {
        "src/"@ + snake_case(context) + "/"@ + layer + "/"@ + snake_case(name) + ".rs"@
    } else {
        replaced(
            replaced(replaced(pattern, "{context}"@, snake_case(context)), "{layer}"@, layer),
            "{type}"@,
            snake_case(name),
        )
    }
}

fn matches_at(s: &str, n: usize, i: usize, pat: &str, m: usize) -> (r: bool)
    requires
        n == s@.len(),
        m == pat@.len(),
        i <= n,
    ensures
        r == (i + m <= n && s@.subrange(i as int, i + m) == pat@),
{
    if m > n - i {
        return false;
    }
    let mut k: usize = 0;
    while k < m
        invariant
            i + m <= n,
            n == s@.len(),
            m == pat@.len(),
            k <= m,
            forall|j: int| 0 <= j < k ==> s@[i + j] == pat@[j],
        decreases m - k,
    {
        if s.get_char(i + k) != pat.get_char(k) {
            assert(s@.subrange(i as int, i + m)[k as int] != pat@[k as int]);
            return false;
        }
        k = k + 1;
    }
    assert(s@.subrange(i as int, i + m) =~= pat@);
    true
}

/// Replaces every occurrence of `pat` in `s` by `rep`, left to right.
pub fn replace_text(s: &str, pat: &str, rep: &str) -> (r: String)
    ensures
        r@ == replaced(s@, pat@, rep@),
{
    let n = s.unicode_len();
    let m = pat.unicode_len();
    if m == 0 {
        return String::from_str(s);
    }
    let mut result = String::new();
    let mut i: usize = 0;
    proof {
        assert(s@.skip(0) =~= s@);
        assert(result@ + s@ =~= s@);
        assert(result@ + replaced(s@, pat@, rep@) =~= replaced(s@, pat@, rep@));
    }
    while i < n
        invariant
            n == s@.len(),
            m == pat@.len(),
            m > 0,
            i <= n,
            result@ + replaced(s@.skip(i as int), pat@, rep@) == replaced(s@, pat@, rep@),
        decreases n - i,
    {
        let ghost rest = s@.skip(i as int);
        if matches_at(s, n, i, pat, m) {
            proof {
                assert(rest.subrange(0, m as int) =~= s@.subrange(i as int, i + m));
                assert(rest.skip(m as int) =~= s@.skip(i + m));
                assert(result@ + rep@ + replaced(s@.skip(i + m), pat@, rep@) =~= result@ + (rep@
                    + replaced(rest.skip(m as int), pat@, rep@)));
            }
            result.append(rep);
            i = i + m;
        } else {
            let c = s.get_char(i);
            proof {
                if rest.len() >= m {
                    assert(rest.subrange(0, m as int) =~= s@.subrange(i as int, i + m));
                }
                assert(rest.skip(1) =~= s@.skip(i + 1));
                assert(result@.push(c) + replaced(s@.skip(i + 1), pat@, rep@) =~= result@ + (seq![
                    rest[0],
                ] + replaced(rest.skip(1), pat@, rep@)));
            }
            crate::names::push_char(&mut result, c);
            i = i + 1;
        }
    }
    proof {
        assert(s@.skip(n as int).len() == 0);
        assert(result@ + s@.skip(n as int) =~= result@);
    }
    result
}

/// Renders a file path for artifact `name` of `context` in `layer`. An empty
/// pattern gives `src/<context>/<layer>/<name>.rs`; otherwise `{context}`,
/// `{layer}` and `{type}` are substituted in turn by the snake_case context,
/// the layer as given and the snake_case name.
pub fn resolve_path(pattern: &str, context: &str, layer: &str, name: &str) -> (r: String)
    ensures
        r@ == resolved_path(pattern@, context@, layer@, name@),
{
    let ctx = to_snake(context);
    let ty = to_snake(name);
    if pattern.unicode_len() == 0 {
        return String::from_str("src/").concat(ctx.as_str()).concat("/").concat(layer).concat(
            "/",
        ).concat(ty.as_str()).concat(".rs");
    }
    let a = replace_text(pattern, "{context}", ctx.as_str());
    let b = replace_text(a.as_str(), "{layer}", layer);
    replace_text(b.as_str(), "{type}", ty.as_str())
}

} // verus!
