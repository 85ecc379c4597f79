use vstd::prelude::*;

use vstd::string::StrSliceExecFns;

verus! {

/// The chunks of `s` in order: each of length `k`, except a shorter final
/// chunk holding the remainder.
pub open spec fn spec_chunks(s: Seq<char>, k: int) -> Seq<Seq<char>>
    decreases s.len(),
{
    if k <= 0 {
        Seq::<Seq<char>>::empty()
    } else if s.len() == 0 {
        Seq::<Seq<char>>::empty()
    } else if s.len() <= k {
        seq![s]
    } else {
        seq![s.take(k)] + spec_chunks(s.skip(k), k)
    }
}

/// What `wrap_text` produces: the chunks of the text, except that an empty
/// text yields a single empty line.
pub open spec fn spec_wrap_text(s: Seq<char>, k: int) -> Seq<Seq<char>> {
    if s.len() == 0 {
        seq![Seq::<char>::empty()]
    } else {
        spec_chunks(s, k)
    }
}

/// Split `text` into display lines of at most `max_chars` characters each.
/// An empty text still produces one (empty) line.
pub fn wrap_text(text: &str, max_chars: usize) -> (r: Vec<String>)
    requires
        max_chars > 0,
    ensures
        r.deep_view() == spec_wrap_text(text@, max_chars as int),
{
    let n: usize = text.unicode_len();
    let mut r: Vec<String> = Vec::new();
    if n == 0 {
        r.push(String::new());
        proof {
            assert(r.deep_view() =~= spec_wrap_text(text@, max_chars as int));
        }
        return r;
    }
    let mut i: usize = 0;
    proof {
        assert(text@.skip(0) =~= text@);
        assert(r.deep_view() =~= Seq::<Seq<char>>::empty());
        assert(r.deep_view() + spec_chunks(text@.skip(0), max_chars as int) =~= spec_chunks(
            text@, max_chars as int));
    }
    while i < n
        invariant
            max_chars > 0,
            n == text@.len(),
            i <= n,
            r.deep_view() + spec_chunks(text@.skip(i as int), max_chars as int) == spec_chunks(
                text@,
                max_chars as int,
            ),
        decreases n - i,
    {
        let end: usize = if n - i > max_chars {
            i + max_chars
        } else {
            n
        };
        let ghost lines: Seq<Seq<char>> = r.deep_view();
        let piece: &str = text.substring_char(i, end);
        r.push(piece.to_owned());
        proof {
            let k: int = max_chars as int;
            let tail: Seq<char> = text@.skip(i as int);
            assert(r.deep_view() =~= lines + seq![piece@]);
            if n - i > max_chars {
                assert(tail.take(k) =~= text@.subrange(i as int, end as int));
                assert(tail.skip(k) =~= text@.skip(end as int));
            } else {
                assert(tail =~= text@.subrange(i as int, end as int));
                assert(text@.skip(end as int).len() == 0);
                assert(spec_chunks(text@.skip(end as int), k) =~= Seq::<Seq<char>>::empty());
            }
            assert(r.deep_view() + spec_chunks(text@.skip(end as int), k) =~= lines + spec_chunks(
                tail, k));
        }
        i = end;
    }
    proof {
        assert(text@.skip(n as int).len() == 0);
        assert(spec_chunks(text@.skip(n as int), max_chars as int) =~= Seq::<Seq<char>>::empty());
        assert(r.deep_view() =~= spec_wrap_text(text@, max_chars as int));
    }
    r
}

} // verus!
