//! Expansion of bare file extensions into glob patterns.
//!
//! Every backend receives extension filters as glob patterns: each bare
//! extension `ext` becomes `*.ext`, and the patterns of one filter group are
//! joined by a single separator character (a space for the subprocess tools,
//! a semicolon for the native API's file-type groups).

use vstd::prelude::*;

verus! {

/// The glob pattern for one bare extension: `*.` followed by the extension.
pub open spec fn glob_of(ext: Seq<char>) -> Seq<char> {
    seq!['*', '.'] + ext
}

/// The pattern group for a list of extensions: the glob of each extension,
/// joined by the single separator sequence `sep`.
pub open spec fn glob_pattern_spec(exts: Seq<Seq<char>>, sep: Seq<char>) -> Seq<char>
    decreases exts.len(),
{
    if exts.len() == 0 {
        Seq::empty()
    } else if exts.len() == 1 {
        glob_of(exts[0])
    } else {
        glob_of(exts[0]) + sep + glob_pattern_spec(exts.skip(1), sep)
    }
}

/// Appending one more extension extends the joined pattern by one separator
/// and one glob (or is just the glob, when the list was empty).
proof fn lemma_glob_pattern_push(exts: Seq<Seq<char>>, sep: Seq<char>, x: Seq<char>)
    ensures
        exts.len() == 0 ==> glob_pattern_spec(exts.push(x), sep) == glob_of(x),
        exts.len() > 0 ==> glob_pattern_spec(exts.push(x), sep)
            == glob_pattern_spec(exts, sep) + sep + glob_of(x),
    decreases exts.len(),
{
    if exts.len() == 0 {
        assert(exts.push(x)[0] == x);
    } else if exts.len() == 1 {
        assert(exts.push(x)[0] == exts[0]);
        assert(exts.push(x).skip(1) =~= seq![x]);
        assert(glob_pattern_spec(seq![x], sep) == glob_of(x));
    } else {
        assert(exts.push(x).skip(1) =~= exts.skip(1).push(x));
        lemma_glob_pattern_push(exts.skip(1), sep, x);
        assert(exts.push(x)[0] == exts[0]);
        assert(glob_pattern_spec(exts, sep) + sep + glob_of(x)
            == glob_of(exts[0]) + sep + (glob_pattern_spec(exts.skip(1), sep) + sep + glob_of(x)));
    }
}

/// Builds the joined glob pattern for a list of bare extensions.
pub fn glob_pattern(exts: &Vec<String>, sep: &str) -> (r: String)
    ensures
        r@ == glob_pattern_spec(exts.deep_view(), sep@),
{
    let mut r = String::new();
    let mut i: usize = 0;
    proof {
        assert(exts.deep_view().take(0) =~= Seq::<Seq<char>>::empty());
    }
    while i < exts.len()
        invariant
            i <= exts.len(),
            r@ == glob_pattern_spec(exts.deep_view().take(i as int), sep@),
        decreases exts.len() - i,
    {
        proof {
            lemma_glob_pattern_push(exts.deep_view().take(i as int), sep@, exts[i as int]@);
            assert(exts.deep_view().take(i as int).push(exts[i as int].deep_view())
                =~= exts.deep_view().take(i + 1));
        }
        if i > 0 {
            r.append(sep);
        }
        r.append("*.");
        proof {
            reveal_strlit("*.");
            assert("*."@ =~= seq!['*', '.']);
        }
        r.append(exts[i].as_str());
        i = i + 1;
    }
    proof {
        assert(exts.deep_view().take(exts.len() as int) =~= exts.deep_view());
    }
    r
}

} // verus!
