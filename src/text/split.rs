use vstd::prelude::*;

verus! {

/// The pieces of `s` between its `'\n'` characters (one more piece than line breaks).
pub open spec fn split_nl(s: Seq<char>) -> Seq<Seq<char>>
    decreases s.len(),
{
    if s.len() == 0 {
        seq![seq![]]
    } else {
        let p = split_nl(s.drop_last());
        if s.last() == '\n' {
            p.push(seq![])
        } else {
            p.update(p.len() - 1, p.last().push(s.last()))
        }
    }
}

/// `piece` without one trailing carriage return.
pub open spec fn strip_cr(piece: Seq<char>) -> Seq<char> {
    if piece.len() > 0 && piece.last() == '\r' {
        piece.drop_last()
    } else {
        piece
    }
}

/// The lines of `s`: split at each `'\n'`, a `'\r'` right before it dropped, and no
/// line after a final line break (so the empty string has no lines).
pub open spec fn lines_spec(s: Seq<char>) -> Seq<Seq<char>> {
    let p = split_nl(s);
    let terminated = p.drop_last().map_values(|piece: Seq<char>| strip_cr(piece));
    if p.last().len() == 0 {
        terminated
    } else {
        terminated.push(p.last())
    }
}

proof fn lemma_split_nl_len(s: Seq<char>)
    ensures
        split_nl(s).len() >= 1,
    decreases s.len(),
{
    if s.len() > 0 {
        lemma_split_nl_len(s.drop_last());
    }
}

/// The lines of `s`, as `str::lines` gives them.
pub fn split_lines(s: &str) -> (r: Vec<String>)
    ensures
        r@.len() == lines_spec(s@).len(),
        forall|i: int| 0 <= i < r@.len() ==> #[trigger] r@[i]@ == lines_spec(s@)[i],
{
    let n = s.unicode_len();
    let mut out: Vec<String> = Vec::new();
    let mut start: usize = 0;
    let mut i: usize = 0;
    while i < n
        invariant
            n == s@.len(),
            start <= i <= n,
            split_nl(s@.subrange(0, i as int)).len() == out@.len() + 1,
            split_nl(s@.subrange(0, i as int)).last() == s@.subrange(start as int, i as int),
            forall|k: int|
                0 <= k < out@.len() ==> #[trigger] out@[k]@ == strip_cr(
                    split_nl(s@.subrange(0, i as int))[k],
                ),
        decreases n - i,
    {
        proof {
            lemma_split_nl_len(s@.subrange(0, i as int));
            assert(s@.subrange(0, i + 1).drop_last() == s@.subrange(0, i as int));
        }
        let c = s.get_char(i);
        if c == '\n' {
            let end = if i > start && s.get_char(i - 1) == '\r' {
                i - 1
            } else {
                i
            };
            let piece = s.substring_char(start, end);
            proof {
                assert(piece@ == strip_cr(s@.subrange(start as int, i as int)));
            }
            out.push(String::from_str(piece));
            start = i + 1;
        } else {
            proof {
                assert(s@.subrange(start as int, i + 1) == s@.subrange(start as int, i as int).push(c));
            }
        }
        i = i + 1;
    }
    proof {
        lemma_split_nl_len(s@);
        assert(s@.subrange(0, n as int) == s@);
    }
    if start < n {
        let last = s.substring_char(start, n);
        out.push(String::from_str(last));
    }
    proof {
        let p = split_nl(s@);
        assert(out@.len() == lines_spec(s@).len());
    }
    out
}

} // verus!
