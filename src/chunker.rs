//! Splitting a byte buffer into transport-sized fragments.
use vstd::prelude::*;

verus! {

/// Largest payload, in bytes, that one datagram carries.
pub const FRAGMENT_MAX: usize = 1400;

/// Number of fragments a buffer of `len` bytes is cut into: `len / 1400`
/// rounded up.
pub open spec fn fragment_count_spec(len: nat) -> nat {
    (len + 1399) as nat / 1400
}

/// First byte offset of fragment `index`.
pub open spec fn fragment_start(index: int) -> int {
    index * 1400
}

/// Byte offset one past the end of fragment `index` in a buffer of `len` bytes.
pub open spec fn fragment_end(len: nat, index: int) -> int {
    if (index + 1) * 1400 <= len {
        (index + 1) * 1400
    } else {
        len as int
    }
}

/// The fragments of `bytes`, in emission order.
pub open spec fn fragments(bytes: Seq<u8>) -> Seq<Seq<u8>> {
    Seq::new(
        fragment_count_spec(bytes.len()),
        |i: int| bytes.subrange(fragment_start(i), fragment_end(bytes.len(), i)),
    )
}

/// Number of fragments that a buffer of `len` bytes is sent as.
pub fn fragment_count(len: usize) -> (r: usize)
    ensures
        r == fragment_count_spec(len as nat),
{
    let whole = len / FRAGMENT_MAX;
    let r = if len % FRAGMENT_MAX == 0 {
        whole
    } else {
        whole + 1
    };
    proof {
        assert(r == (len + 1399) as nat / 1400) by (nonlinear_arith)
            requires
                whole == len / 1400,
                r == if len % 1400 == 0 { whole as int } else { whole + 1 },
        {}
    }
    r
}

proof fn lemma_fragment_bounds(len: nat, index: int)
    requires
        0 <= index < fragment_count_spec(len),
    ensures
        0 <= fragment_start(index) < fragment_end(len, index) <= len,
        fragment_end(len, index) - fragment_start(index) <= 1400,
        index + 1 < fragment_count_spec(len) ==> fragment_end(len, index) == (index + 1) * 1400,
{
    assert(index * 1400 < len) by (nonlinear_arith)
        requires
            0 <= index,
            index < (len + 1399) as nat / 1400,
    {}
    assert((index + 1) * 1400 == index * 1400 + 1400) by (nonlinear_arith);
    if index + 1 < fragment_count_spec(len) {
        assert((index + 1) * 1400 <= len) by (nonlinear_arith)
            requires
                0 <= index,
                index + 1 < (len + 1399) as nat / 1400,
        {}
    }
}

/// Fragment `index` of `bytes`, borrowed from the buffer without a copy.
pub fn fragment<'a>(bytes: &'a [u8], index: usize) -> (r: &'a [u8])
    requires
        index < fragment_count_spec(bytes@.len()),
    ensures
        r@ == fragments(bytes@)[index as int],
        0 < r@.len() <= FRAGMENT_MAX,
{
    let len = bytes.len();
    proof {
        lemma_fragment_bounds(bytes@.len(), index as int);
    }
    let start = index * FRAGMENT_MAX;
    let end = if len - start >= FRAGMENT_MAX {
        start + FRAGMENT_MAX
    } else {
        len
    };
    vstd::slice::slice_subrange(bytes, start, end)
}

proof fn lemma_fragments_prefix(bytes: Seq<u8>, k: int)
    requires
        0 <= k <= fragment_count_spec(bytes.len()),
    ensures
        fragments(bytes).take(k).flatten_alt() == bytes.subrange(
            0,
            if k == 0 { 0 } else { fragment_end(bytes.len(), k - 1) },
        ),
    decreases k,
{
    let f = fragments(bytes);
    if k == 0 {
        assert(f.take(0).flatten_alt() =~= Seq::<u8>::empty());
        assert(bytes.subrange(0, 0) =~= Seq::<u8>::empty());
    } else {
        lemma_fragments_prefix(bytes, k - 1);
        lemma_fragment_bounds(bytes.len(), k - 1);
        assert(f.take(k).drop_last() =~= f.take(k - 1));
        let mid = if k == 1 { 0 } else { fragment_end(bytes.len(), k - 2) };
        if k > 1 {
            lemma_fragment_bounds(bytes.len(), k - 2);
        }
        assert(mid == fragment_start(k - 1));
        assert(f.take(k).flatten_alt() == f.take(k - 1).flatten_alt() + f[k - 1]);
        assert(bytes.subrange(0, mid) + bytes.subrange(mid, fragment_end(bytes.len(), k - 1))
            =~= bytes.subrange(0, fragment_end(bytes.len(), k - 1)));
    }
}

/// Cutting a buffer into fragments loses and reorders nothing: there are
/// `len / 1400` of them rounded up, each but the last holds exactly 1400
/// bytes, the last holds between 1 and 1400, and joined in emission order
/// they give back the buffer.
pub proof fn fragments_reassemble(bytes: Seq<u8>)
    ensures
        fragments(bytes).len() == (bytes.len() + 1399) as nat / 1400,
        forall|i: int|
            0 <= i < fragments(bytes).len() - 1 ==> #[trigger] fragments(bytes)[i].len() == 1400,
        fragments(bytes).len() > 0 ==> 0 < fragments(bytes).last().len() <= 1400,
        fragments(bytes).flatten() == bytes,
{
    let f = fragments(bytes);
    let n = fragment_count_spec(bytes.len());
    assert forall|i: int| 0 <= i < f.len() - 1 implies #[trigger] f[i].len() == 1400 by {
        lemma_fragment_bounds(bytes.len(), i);
    }
    lemma_fragments_prefix(bytes, n as int);
    assert(f.take(n as int) =~= f);
    if n > 0 {
        lemma_fragment_bounds(bytes.len(), n - 1);
        assert(n * 1400 >= bytes.len()) by (nonlinear_arith)
            requires
                n == (bytes.len() + 1399) as nat / 1400,
        {}
        assert(n * 1400 == (n - 1) * 1400 + 1400) by (nonlinear_arith);
        assert(fragment_end(bytes.len(), n - 1) == bytes.len());
    } else {
        assert(bytes.len() == 0);
    }
    assert(bytes.subrange(0, bytes.len() as int) =~= bytes);
    f.lemma_flatten_and_flatten_alt_are_equivalent();
}

} // verus!
