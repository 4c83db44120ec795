//! Splitting the content of an arguments file into argument tokens.
use vstd::prelude::*;

verus! {

/// Whether `c` separates arguments: the characters with the Unicode
/// `White_Space` property.
pub open spec fn is_separator_spec(c: char) -> bool {
    let u = c as u32;
    (0x09 <= u && u <= 0x0D) || u == 0x20 || u == 0x85 || u == 0xA0 || u == 0x1680 || (0x2000
        <= u && u <= 0x200A) || u == 0x2028 || u == 0x2029 || u == 0x202F || u == 0x205F || u
        == 0x3000
}

/// Length of the run of non-separator characters at the start of `s`.
pub open spec fn token_len(s: Seq<char>) -> nat
    decreases s.len(),
{
    if s.len() == 0 || is_separator_spec(s[0]) {
        0
    } else {
        1 + token_len(s.drop_first())
    }
}

/// The arguments held by `s`: its maximal runs of non-separator characters,
/// in order.
pub open spec fn tokens(s: Seq<char>) -> Seq<Seq<char>>
    decreases s.len(),
    via tokens_decreases
{
    if s.len() == 0 {
        Seq::empty()
    } else if is_separator_spec(s[0]) {
        tokens(s.drop_first())
    } else {
        let n = token_len(s);
        seq![s.take(n as int)] + tokens(s.skip(n as int))
    }
}

/// A leading token never runs past the end of its sequence.
pub proof fn lemma_token_len_bound(s: Seq<char>)
    ensures
        token_len(s) <= s.len(),
    decreases s.len(),
{
    if s.len() > 0 && !is_separator_spec(s[0]) {
        lemma_token_len_bound(s.drop_first());
    }
}

#[via_fn]
proof fn tokens_decreases(s: Seq<char>) {
    if s.len() > 0 && !is_separator_spec(s[0]) {
        lemma_token_len_bound(s);
        assert(s.skip(token_len(s) as int).len() < s.len());
    }
}

/// Whether `c` separates arguments.
pub fn is_separator(c: char) -> (r: bool)
    ensures
        r == is_separator_spec(c),
{
    let u = c as u32;
    (0x09 <= u && u <= 0x0D) || u == 0x20 || u == 0x85 || u == 0xA0 || u == 0x1680 || (0x2000
        <= u && u <= 0x200A) || u == 0x2028 || u == 0x2029 || u == 0x202F || u == 0x205F || u
        == 0x3000
}

proof fn lemma_token_len_whole(w: Seq<char>)
    requires
        forall|i: int| 0 <= i < w.len() ==> !is_separator_spec(#[trigger] w[i]),
    ensures
        token_len(w) == w.len(),
    decreases w.len(),
{
    if w.len() > 0 {
        let r = w.drop_first();
        assert forall|i: int| 0 <= i < r.len() implies !is_separator_spec(#[trigger] r[i]) by {
            assert(r[i] == w[i + 1]);
        }
        lemma_token_len_whole(r);
    }
}

proof fn lemma_token_len_concat(a: Seq<char>, b: Seq<char>)
    requires
        token_len(a) < a.len() || (b.len() > 0 && is_separator_spec(b[0])),
    ensures
        token_len(a + b) == token_len(a),
    decreases a.len(),
{
    if a.len() == 0 {
        assert(a + b =~= b);
    } else {
        assert((a + b)[0] == a[0]);
        if !is_separator_spec(a[0]) {
            assert((a + b).drop_first() =~= a.drop_first() + b);
            lemma_token_len_concat(a.drop_first(), b);
        }
    }
}

/// Writing one more argument at the end of an arguments file, after a space,
/// appends exactly that argument to the list that the next launch reads.
pub proof fn lemma_appended_argument(text: Seq<char>, arg: Seq<char>)
    requires
        arg.len() > 0,
        forall|i: int| 0 <= i < arg.len() ==> !is_separator_spec(#[trigger] arg[i]),
    ensures
        tokens(text + seq![' '] + arg) == tokens(text).push(arg),
    decreases text.len(),
{
    let u = text + seq![' '] + arg;
    let tail = seq![' '] + arg;
    assert(u =~= text + tail);
    assert(is_separator_spec(' '));
    if text.len() == 0 {
        assert(u =~= tail);
        assert(u.drop_first() =~= arg);
        lemma_token_len_whole(arg);
        assert(arg.take(arg.len() as int) =~= arg);
        assert(arg.skip(arg.len() as int) =~= Seq::<char>::empty());
        assert(!is_separator_spec(arg[0]));
        assert(tokens(Seq::<char>::empty()) == Seq::<Seq<char>>::empty());
        assert(tokens(arg) == seq![arg.take(arg.len() as int)] + tokens(
            arg.skip(arg.len() as int),
        ));
        assert(tokens(arg) =~= seq![arg]);
        assert(tokens(text).push(arg) =~= seq![arg]);
    } else if is_separator_spec(text[0]) {
        assert(u[0] == text[0]);
        assert(u.drop_first() =~= text.drop_first() + seq![' '] + arg);
        lemma_appended_argument(text.drop_first(), arg);
    } else {
        assert(u[0] == text[0]);
        let n = token_len(text);
        lemma_token_len_bound(text);
        assert(tail[0] == ' ');
        lemma_token_len_concat(text, tail);
        assert(u.take(n as int) =~= text.take(n as int));
        assert(u.skip(n as int) =~= text.skip(n as int) + seq![' '] + arg);
        lemma_appended_argument(text.skip(n as int), arg);
        assert(tokens(u) =~= tokens(text).push(arg));
    }
}

/// The views of a list of arguments.
pub open spec fn views_of(v: Seq<String>) -> Seq<Seq<char>> {
    v.map_values(|a: String| a@)
}

proof fn lemma_skip_step(s: Seq<char>, i: int)
    requires
        0 <= i < s.len(),
    ensures
        s.skip(i).len() > 0,
        s.skip(i)[0] == s[i],
        s.skip(i).drop_first() == s.skip(i + 1),
{
    assert(s.skip(i).drop_first() =~= s.skip(i + 1));
}

/// Splits the content of an arguments file into its arguments: the maximal
/// runs of non-separator characters, in order. Line breaks separate like any
/// other white space; no quoting or escaping is honoured.
pub fn split_arguments(text: &str) -> (r: Vec<String>)
    ensures
        views_of(r@) == tokens(text@),
{
    let n = text.unicode_len();
    let mut out: Vec<String> = Vec::new();
    let mut i: usize = 0;
    proof {
        assert(text@.skip(0) =~= text@);
        assert(views_of(out@) + tokens(text@) =~= tokens(text@));
    }
    while i < n
        invariant
            n == text@.len(),
            i <= n,
            tokens(text@) == views_of(out@) + tokens(text@.skip(i as int)),
        decreases n - i,
    {
        let ghost s = text@;
        let c = text.get_char(i);
        proof {
            lemma_skip_step(s, i as int);
        }
        if is_separator(c) {
            i = i + 1;
        } else {
            let mut j: usize = i + 1;
            let mut at_end = false;
            proof {
                lemma_token_len_bound(s.skip(i as int));
            }
            while j < n && !at_end
                invariant
                    n == s.len(),
                    s == text@,
                    i < j <= n,
                    !is_separator_spec(s[i as int]),
                    at_end ==> j == n || is_separator_spec(s[j as int]),
                    token_len(s.skip(i as int)) == (j - i) + token_len(s.skip(j as int)),
                decreases n - j + (if at_end { 0int } else { 1int }),
            {
                if is_separator(text.get_char(j)) {
                    at_end = true;
                } else {
                    proof {
                        lemma_skip_step(s, j as int);
                    }
                    j = j + 1;
                }
            }
            if j < n {
                proof {
                    lemma_skip_step(s, j as int);
                }
            }
            assert(token_len(s.skip(j as int)) == 0);
            let word = text.substring_char(i, j).to_owned();
            proof {
                let t = s.skip(i as int);
                assert(t.take((j - i) as int) =~= s.subrange(i as int, j as int));
                assert(t.skip((j - i) as int) =~= s.skip(j as int));
            }
            let ghost before = out@;
            out.push(word);
            proof {
                assert(views_of(out@) =~= views_of(before) + seq![word@]);
            }
            i = j;
        }
    }
    proof {
        assert(text@.skip(n as int).len() == 0);
        assert(views_of(out@) + tokens(text@.skip(n as int)) =~= views_of(out@));
    }
    out
}

} // verus!
