//! Whitespace and trimming of recognized text.

use vstd::prelude::*;
use vstd::string::*;

verus! {

/// Whether `c` has the Unicode property `White_Space`.
pub open spec fn is_white_space(c: char) -> bool {
    let n = c as u32;
    ||| 0x09 <= n <= 0x0D
    ||| n == 0x20
    ||| n == 0x85
    ||| n == 0xA0
    ||| n == 0x1680
    ||| 0x2000 <= n <= 0x200A
    ||| n == 0x2028
    ||| n == 0x2029
    ||| n == 0x202F
    ||| n == 0x205F
    ||| n == 0x3000
}

/// `s` without its leading whitespace.
pub open spec fn trim_start(s: Seq<char>) -> Seq<char>
    decreases s.len(),
{
    if s.len() > 0 && is_white_space(s[0]) {
        trim_start(s.drop_first())
    } else {
        s
    }
}

/// `s` without its trailing whitespace.
pub open spec fn trim_end(s: Seq<char>) -> Seq<char>
    decreases s.len(),
{
    if s.len() > 0 && is_white_space(s.last()) {
        trim_end(s.drop_last())
    } else {
        s
    }
}

/// `s` without its leading and trailing whitespace.
pub open spec fn trimmed(s: Seq<char>) -> Seq<char> {
    trim_end(trim_start(s))
}

/// Whether every character of `s` is whitespace.
pub open spec fn is_blank(s: Seq<char>) -> bool {
    forall|i: int| 0 <= i < s.len() ==> is_white_space(#[trigger] s[i])
}

/// Whether `c` is whitespace.
pub fn is_whitespace(c: char) -> (b: bool)
    ensures
        b == is_white_space(c),
{
    let n: u32 = c as u32;
    (0x09 <= n && n <= 0x0D) || n == 0x20 || n == 0x85 || n == 0xA0 || n == 0x1680 || (0x2000 <= n
        && n <= 0x200A) || n == 0x2028 || n == 0x2029 || n == 0x202F || n == 0x205F || n == 0x3000
}

/// The text between the first and the last character of `text` that is not
/// whitespace; empty where there is none.
pub fn trim(text: &str) -> (out: String)
    ensures
        out@ == trimmed(text@),
{
    let n: usize = text.unicode_len();
    let mut a: usize = 0;
    let mut scanning = true;
    assert(text@.subrange(0, n as int) =~= text@);
    while scanning && a < n
        invariant
            a <= n,
            n == text@.len(),
            trim_start(text@) == trim_start(text@.subrange(a as int, n as int)),
            !scanning ==> a < n && !is_white_space(text@[a as int]),
        decreases n - a + (if scanning { 1int } else { 0int }),
    {
        if is_whitespace(text.get_char(a)) {
            proof {
                let rest = text@.subrange(a as int, n as int);
                assert(rest[0] == text@[a as int]);
                assert(rest.drop_first() =~= text@.subrange(a + 1, n as int));
            }
            a += 1;
        } else {
            scanning = false;
        }
    }
    let ghost head = text@.subrange(a as int, n as int);
    proof {
        if a < n {
            assert(head[0] == text@[a as int]);
        }
        assert(trim_start(text@) == head);
    }
    let mut b: usize = n;
    scanning = true;
    while scanning && a < b
        invariant
            a <= b <= n,
            n == text@.len(),
            trim_end(head) == trim_end(text@.subrange(a as int, b as int)),
            !scanning ==> a < b && !is_white_space(text@[b - 1]),
        decreases b - a + (if scanning { 1int } else { 0int }),
    {
        if is_whitespace(text.get_char(b - 1)) {
            proof {
                let rest = text@.subrange(a as int, b as int);
                assert(rest.last() == text@[b - 1]);
                assert(rest.drop_last() =~= text@.subrange(a as int, b - 1));
            }
            b -= 1;
        } else {
            scanning = false;
        }
    }
    proof {
        let core = text@.subrange(a as int, b as int);
        if a < b {
            assert(core.last() == text@[b - 1]);
        }
        assert(trim_end(head) == core);
    }
    text.substring_char(a, b).to_owned()
}

/// Whitespace in front of text that does not begin with whitespace is all
/// that `trim_start` takes away.
pub proof fn lemma_trim_start_strips(pre: Seq<char>, rest: Seq<char>)
    requires
        is_blank(pre),
        rest.len() > 0 ==> !is_white_space(rest[0]),
    ensures
        trim_start(pre + rest) == rest,
    decreases pre.len(),
{
    if pre.len() == 0 {
        assert(pre + rest =~= rest);
    } else {
        assert((pre + rest)[0] == pre[0]);
        assert((pre + rest).drop_first() =~= pre.drop_first() + rest);
        assert forall|i: int| 0 <= i < pre.drop_first().len() implies is_white_space(
            #[trigger] pre.drop_first()[i],
        ) by {
            assert(pre.drop_first()[i] == pre[i + 1]);
        }
        lemma_trim_start_strips(pre.drop_first(), rest);
    }
}

/// Whitespace behind text that does not end in whitespace is all that
/// `trim_end` takes away.
pub proof fn lemma_trim_end_strips(rest: Seq<char>, post: Seq<char>)
    requires
        is_blank(post),
        rest.len() > 0 ==> !is_white_space(rest.last()),
    ensures
        trim_end(rest + post) == rest,
    decreases post.len(),
{
    if post.len() == 0 {
        assert(rest + post =~= rest);
    } else {
        assert((rest + post).last() == post.last());
        assert((rest + post).drop_last() =~= rest + post.drop_last());
        assert forall|i: int| 0 <= i < post.drop_last().len() implies is_white_space(
            #[trigger] post.drop_last()[i],
        ) by {
            assert(post.drop_last()[i] == post[i]);
        }
        lemma_trim_end_strips(rest, post.drop_last());
    }
}

/// `trim_start` keeps a tail of `s`, drops only whitespace, and what it keeps
/// does not begin with whitespace.
pub proof fn lemma_trim_start_shape(s: Seq<char>)
    ensures
        trim_start(s).len() <= s.len(),
        trim_start(s) == s.subrange(s.len() - trim_start(s).len(), s.len() as int),
        is_blank(s.subrange(0, s.len() - trim_start(s).len())),
        trim_start(s).len() > 0 ==> !is_white_space(trim_start(s)[0]),
    decreases s.len(),
{
    if s.len() > 0 && is_white_space(s[0]) {
        let t = s.drop_first();
        lemma_trim_start_shape(t);
        let k = t.len() - trim_start(t).len();
        assert(t.subrange(k, t.len() as int) =~= s.subrange(k + 1, s.len() as int));
        assert forall|i: int| 0 <= i < k + 1 implies is_white_space(
            #[trigger] s.subrange(0, k + 1)[i],
        ) by {
            if i > 0 {
                assert(s.subrange(0, k + 1)[i] == t.subrange(0, k)[i - 1]);
            }
        }
    } else {
        assert(s.subrange(0, s.len() as int) =~= s);
    }
}

/// `trim_end` keeps a head of `s`, drops only whitespace, and what it keeps
/// does not end in whitespace.
pub proof fn lemma_trim_end_shape(s: Seq<char>)
    ensures
        trim_end(s).len() <= s.len(),
        trim_end(s) == s.subrange(0, trim_end(s).len() as int),
        is_blank(s.subrange(trim_end(s).len() as int, s.len() as int)),
        trim_end(s).len() > 0 ==> !is_white_space(trim_end(s).last()),
    decreases s.len(),
{
    if s.len() > 0 && is_white_space(s.last()) {
        let t = s.drop_last();
        lemma_trim_end_shape(t);
        let m = trim_end(t).len() as int;
        assert(t.subrange(0, m) =~= s.subrange(0, m));
        assert forall|i: int| 0 <= i < s.len() - m implies is_white_space(
            #[trigger] s.subrange(m, s.len() as int)[i],
        ) by {
            if i < t.len() - m {
                assert(s.subrange(m, s.len() as int)[i] == t.subrange(m, t.len() as int)[i]);
            }
        }
    } else {
        assert(s.subrange(0, s.len() as int) =~= s);
    }
}

/// Text whose core neither begins nor ends with whitespace, with whitespace
/// around it, trims to exactly that core.
pub proof fn trimmed_is_the_core(pre: Seq<char>, core: Seq<char>, post: Seq<char>)
    requires
        is_blank(pre),
        is_blank(post),
        core.len() > 0,
        !is_white_space(core[0]),
        !is_white_space(core.last()),
    ensures
        trimmed(pre + core + post) == core,
{
    assert(pre + core + post =~= pre + (core + post));
    assert((core + post)[0] == core[0]);
    lemma_trim_start_strips(pre, core + post);
    lemma_trim_end_strips(core, post);
}

/// Text trims to nothing exactly when all of it is whitespace.
pub proof fn trimmed_is_empty_iff_blank(s: Seq<char>)
    ensures
        trimmed(s).len() == 0 <==> is_blank(s),
{
    if is_blank(s) {
        assert(s + Seq::<char>::empty() =~= s);
        lemma_trim_start_strips(s, Seq::<char>::empty());
    }
    if trimmed(s).len() == 0 {
        let t = trim_start(s);
        lemma_trim_start_shape(s);
        lemma_trim_end_shape(t);
        let k = s.len() - t.len();
        assert forall|i: int| 0 <= i < s.len() implies is_white_space(#[trigger] s[i]) by {
            if i < k {
                assert(s[i] == s.subrange(0, k)[i]);
            } else {
                assert(s[i] == t[i - k]);
                assert(t[i - k] == t.subrange(0, t.len() as int)[i - k]);
            }
        }
    }
}

} // verus!
