//! Cache keys: each entry's detail locator is normalized (surrounding
//! slashes stripped) and given a fixed image extension. The same locator
//! always yields the same key, and locators with distinct normalized forms
//! never collide.

use vstd::prelude::*;

verus! {

/// The sequence with every leading '/' removed.
pub open spec fn trim_leading(s: Seq<char>) -> Seq<char>
    decreases s.len(),
{
    if s.len() > 0 && s[0] == '/' {
        trim_leading(s.drop_first())
    } else {
        s
    }
}

/// The sequence with every trailing '/' removed.
pub open spec fn trim_trailing(s: Seq<char>) -> Seq<char>
    decreases s.len(),
{
    if s.len() > 0 && s.last() == '/' {
        trim_trailing(s.drop_last())
    } else {
        s
    }
}

/// The locator with surrounding slashes removed.
pub open spec fn trimmed(s: Seq<char>) -> Seq<char> {
    trim_trailing(trim_leading(s))
}

/// The deterministic cache file name derived from a detail locator.
pub open spec fn cache_key(s: Seq<char>) -> Seq<char> {
    trimmed(s) + ".png"@
}

proof fn lemma_trim_leading_at(s: Seq<char>, i: int)
    requires
        0 <= i <= s.len(),
        forall|k: int| 0 <= k < i ==> s[k] == '/',
        i < s.len() ==> s[i] != '/',
    ensures
        trim_leading(s) == s.subrange(i, s.len() as int),
    decreases i,
{
    if i == 0 {
        assert(s =~= s.subrange(0, s.len() as int));
    } else {
        let t = s.drop_first();
        assert(forall|k: int| 0 <= k < i - 1 ==> t[k] == s[k + 1]);
        lemma_trim_leading_at(t, i - 1);
        assert(t.subrange(i - 1, t.len() as int) =~= s.subrange(i, s.len() as int));
    }
}

proof fn lemma_trim_trailing_at(s: Seq<char>, j: int)
    requires
        0 <= j <= s.len(),
        forall|k: int| j <= k < s.len() ==> s[k] == '/',
        j > 0 ==> s[j - 1] != '/',
    ensures
        trim_trailing(s) == s.subrange(0, j),
    decreases s.len() - j,
{
    if j == s.len() {
        assert(s =~= s.subrange(0, j));
    } else {
        let t = s.drop_last();
        lemma_trim_trailing_at(t, j);
        assert(t.subrange(0, j) =~= s.subrange(0, j));
    }
}

/// Builds the cache file name for a locator: the locator without its
/// surrounding slashes, with ".png" appended.
pub fn cache_key_of(locator: &str) -> (r: String)
    ensures
        r@ == cache_key(locator@),
{
    let len = locator.unicode_len();
    let mut i: usize = 0;
    while i < len && locator.get_char(i) == '/'
        invariant
            len == locator@.len(),
            0 <= i <= len,
            forall|k: int| 0 <= k < i ==> locator@[k] == '/',
        decreases len - i,
    {
        i = i + 1;
    }
    let mut j: usize = len;
    while j > i && locator.get_char(j - 1) == '/'
        invariant
            len == locator@.len(),
            i <= j <= len,
            i < len ==> locator@[i as int] != '/',
            i < len ==> i < j,
            forall|k: int| j <= k < len ==> locator@[k] == '/',
        decreases j,
    {
        j = j - 1;
    }
    let stem = locator.substring_char(i, j);
    proof {
        lemma_trim_leading_at(locator@, i as int);
        if i < len {
            let t = locator@.subrange(i as int, len as int);
            assert(forall|k: int| j - i <= k < t.len() ==> t[k] == locator@[k + i]);
            lemma_trim_trailing_at(t, j - i);
            assert(t.subrange(0, j - i) =~= locator@.subrange(i as int, j as int));
        } else {
            assert(trim_leading(locator@) =~= Seq::<char>::empty());
        }
        assert(stem@ == trimmed(locator@));
    }
    let r = stem.to_owned().concat(".png");
    r
}

/// The key always carries the fixed extension, so it is never empty.
pub proof fn lemma_cache_key_nonempty(s: Seq<char>)
    ensures
        cache_key(s).len() >= 4,
{
    reveal_strlit(".png");
}

/// Locators whose normalized forms differ never collide under the key.
pub proof fn lemma_cache_key_injective(a: Seq<char>, b: Seq<char>)
    requires
        trimmed(a) != trimmed(b),
    ensures
        cache_key(a) != cache_key(b),
{
    reveal_strlit(".png");
    if cache_key(a) == cache_key(b) {
        assert(cache_key(a).len() == trimmed(a).len() + ".png"@.len());
        assert(cache_key(b).len() == trimmed(b).len() + ".png"@.len());
        assert(trimmed(a).len() == trimmed(b).len());
        assert forall|k: int| 0 <= k < trimmed(a).len() implies trimmed(a)[k] == trimmed(b)[k] by {
            assert(cache_key(a)[k] == trimmed(a)[k]);
            assert(cache_key(b)[k] == trimmed(b)[k]);
        }
        assert(trimmed(a) =~= trimmed(b));
    }
}

} // verus!
