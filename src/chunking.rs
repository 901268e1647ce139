//! Splitting long text into an ordered run of slices: a first slice of one
//! size, then follow-up slices of another.

use vstd::prelude::*;

verus! {

/// `s` cut into consecutive slices of `size` characters; the last one holds
/// the rest (it is `s` itself when `s` is no longer than `size`).
pub open spec fn pieces(s: Seq<char>, size: nat) -> Seq<Seq<char>>
    decreases s.len(),
{
    if size == 0 || s.len() <= size {
        seq![s]
    } else {
        seq![s.take(size as int)] + pieces(s.skip(size as int), size)
    }
}

/// The slices of `s`: the first `first` characters, then the rest in slices
/// of `size`. Text that fits in `first` stays whole.
pub open spec fn output_chunks(s: Seq<char>, first: nat, size: nat) -> Seq<Seq<char>> {
    if s.len() <= first {
        seq![s]
    } else {
        seq![s.take(first as int)] + pieces(s.skip(first as int), size)
    }
}

/// Ceiling of `a / b`.
pub open spec fn ceil_div(a: nat, b: nat) -> nat {
    if b == 0 { 0 } else { ((a + b - 1) as int / b as int) as nat }
}

/// The number of slices: one, plus `ceil((L - first) / size)` when the text
/// is longer than `first`.
pub open spec fn chunk_total(len: nat, first: nat, size: nat) -> nat {
    if len <= first { 1 } else { 1 + ceil_div((len - first) as nat, size) }
}

/// The views of a run of strings.
pub open spec fn views(v: Seq<String>) -> Seq<Seq<char>> {
    v.map_values(|p: String| p@)
}

/// Joining the slices gives back the text.
pub proof fn lemma_pieces_join(s: Seq<char>, size: nat)
    ensures
        pieces(s, size).flatten() == s,
    decreases s.len(),
{
    if size == 0 || s.len() <= size {
        pieces(s, size).lemma_flatten_singleton();
    } else {
        lemma_pieces_join(s.skip(size as int), size);
        let p = pieces(s, size);
        assert(p.drop_first() =~= pieces(s.skip(size as int), size));
        assert(p.flatten() =~= s);
    }
}

/// How many slices `pieces` makes of non-empty text, and their sizes.
pub proof fn lemma_pieces_shape(s: Seq<char>, size: nat)
    requires
        size > 0,
        s.len() > 0,
    ensures
        pieces(s, size).len() == ceil_div(s.len(), size),
        forall|k: int| 0 <= k < pieces(s, size).len() ==> 0 < #[trigger] pieces(s, size)[k].len() <= size,
        forall|k: int| 0 <= k < pieces(s, size).len() - 1 ==> #[trigger] pieces(s, size)[k].len() == size,
    decreases s.len(),
{
    let n = s.len() as int;
    let z = size as int;
    if n <= z {
        assert((n + z - 1) / z == 1) by (nonlinear_arith)
            requires 0 < n <= z;
    } else {
        let rest = s.skip(size as int);
        lemma_pieces_shape(rest, size);
        let m = rest.len() as int;
        assert(m == n - z);
        assert((n + z - 1) / z == 1 + (m + z - 1) / z) by (nonlinear_arith)
            requires m == n - z, z > 0, n > z;
        let p = pieces(s, size);
        assert forall|k: int| 0 <= k < p.len() implies 0 < #[trigger] p[k].len() <= size by {
            if k > 0 {
                assert(p[k] == pieces(rest, size)[k - 1]);
            }
        }
        assert forall|k: int| 0 <= k < p.len() - 1 implies #[trigger] p[k].len() == size by {
            if k > 0 {
                assert(p[k] == pieces(rest, size)[k - 1]);
            }
        }
    }
}

/// Joining the output slices gives back the text.
pub proof fn lemma_chunks_join(s: Seq<char>, first: nat, size: nat)
    ensures
        output_chunks(s, first, size).flatten() == s,
{
    let c = output_chunks(s, first, size);
    if s.len() <= first {
        c.lemma_flatten_singleton();
    } else {
        lemma_pieces_join(s.skip(first as int), size);
        assert(c.drop_first() =~= pieces(s.skip(first as int), size));
        assert(c.flatten() =~= s);
    }
}

/// The number of output slices and their sizes: the first holds
/// `min(L, first)` characters, each later one at most `size`, all but the
/// last exactly `size`.
pub proof fn lemma_chunks_shape(s: Seq<char>, first: nat, size: nat)
    requires
        size > 0,
    ensures
        output_chunks(s, first, size).len() == chunk_total(s.len(), first, size),
        output_chunks(s, first, size)[0] == s.take(if s.len() <= first { s.len() as int } else { first as int }),
        forall|k: int| 1 <= k < output_chunks(s, first, size).len()
            ==> 0 < #[trigger] output_chunks(s, first, size)[k].len() <= size,
        forall|k: int| 1 <= k < output_chunks(s, first, size).len() - 1
            ==> #[trigger] output_chunks(s, first, size)[k].len() == size,
{
    let c = output_chunks(s, first, size);
    if s.len() <= first {
        assert(s.take(s.len() as int) =~= s);
    } else {
        let rest = s.skip(first as int);
        lemma_pieces_shape(rest, size);
        assert forall|k: int| 1 <= k < c.len() implies 0 < #[trigger] c[k].len() <= size by {
            assert(c[k] == pieces(rest, size)[k - 1]);
        }
        assert forall|k: int| 1 <= k < c.len() - 1 implies #[trigger] c[k].len() == size by {
            assert(c[k] == pieces(rest, size)[k - 1]);
        }
    }
}

/// Cuts `text` into its output slices (see `output_chunks`).
pub fn split_output(text: &str, first: usize, size: usize) -> (r: Vec<String>)
    requires
        first > 0,
        size > 0,
    ensures
        views(r@) == output_chunks(text@, first as nat, size as nat),
{
    let n = text.unicode_len();
    let mut r: Vec<String> = Vec::new();
    if n <= first {
        r.push(String::from_str(text));
        assert(views(r@) =~= output_chunks(text@, first as nat, size as nat));
        return r;
    }
    r.push(String::from_str(text.substring_char(0, first)));
    let ghost total = output_chunks(text@, first as nat, size as nat);
    assert(text@.subrange(first as int, n as int) =~= text@.skip(first as int));
    assert(views(r@) + pieces(text@.subrange(first as int, n as int), size as nat) =~= total);
    let mut pos: usize = first;
    while n - pos > size
        invariant
            n == text@.len(),
            size > 0,
            pos < n,
            views(r@) + pieces(text@.subrange(pos as int, n as int), size as nat) == total,
        decreases n - pos,
    {
        let ghost before = r@;
        let ghost rest = text@.subrange(pos as int, n as int);
        r.push(String::from_str(text.substring_char(pos, pos + size)));
        proof {
            assert(rest.take(size as int) =~= text@.subrange(pos as int, pos + size));
            assert(rest.skip(size as int) =~= text@.subrange(pos + size, n as int));
            assert(views(r@) =~= views(before).push(text@.subrange(pos as int, pos + size)));
            assert(views(r@) + pieces(text@.subrange(pos + size, n as int), size as nat)
                =~= views(before) + pieces(rest, size as nat));
        }
        pos = pos + size;
    }
    let ghost before = r@;
    r.push(String::from_str(text.substring_char(pos, n)));
    assert(views(r@) =~= views(before).push(text@.subrange(pos as int, n as int)));
    assert(views(r@) =~= total);
    r
}

} // verus!
