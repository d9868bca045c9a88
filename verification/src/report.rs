//! Report assembly: splicing run logs into an HTML template.
//!
//! The template carries one placeholder comment.  Assembly replaces it with
//! one script block per input file — each holding that file's bytes
//! verbatim, in input order — and leaves the placeholder behind them, so a
//! later assembly can append more files.  This is pure text substitution.

use vstd::prelude::*;
use vstd::string::StringSliceAdditionalSpecFns;

verus! {

/// The marker the template carries where data goes.
pub fn placeholder() -> (r: &'static str)
    ensures
        r.spec_bytes() == placeholder_bytes(),
{
    "<!-- __DATA__ -->"
}

/// The marker's bytes.
pub open spec fn placeholder_bytes() -> Seq<u8> {
    "<!-- __DATA__ -->".spec_bytes()
}

/// What opens one data block.
pub open spec fn script_open() -> Seq<u8> {
    "<script type=\"data\" compressed=\"false\">\n".spec_bytes()
}

/// What closes one data block.
pub open spec fn script_close() -> Seq<u8> {
    "\n</script>\n".spec_bytes()
}

/// One data block: a file's bytes between the script tags.
pub open spec fn block_of(d: Seq<u8>) -> Seq<u8> {
    script_open() + d + script_close()
}

/// All data blocks, in input order.
pub open spec fn blocks_of(ds: Seq<Seq<u8>>) -> Seq<u8>
    decreases ds.len(),
{
    if ds.len() == 0 {
        Seq::empty()
    } else {
        block_of(ds[0]) + blocks_of(ds.drop_first())
    }
}

/// The views of a list of byte vectors.
pub open spec fn byte_views(s: Seq<Vec<u8>>) -> Seq<Seq<u8>> {
    s.map_values(|v: Vec<u8>| v@)
}

/// `n` occurs in `h` at position `i`.
pub open spec fn occurs_at(h: Seq<u8>, n: Seq<u8>, i: int) -> bool {
    0 <= i && i + n.len() <= h.len() && h.subrange(i, i + n.len()) == n
}

/// `i` is the first position at which `n` occurs in `h`.
pub open spec fn is_first_occurrence(h: Seq<u8>, n: Seq<u8>, i: int) -> bool {
    occurs_at(h, n, i) && forall|j: int| 0 <= j < i ==> !occurs_at(h, n, j)
}

/// First position at which `needle` occurs in `hay`, if any.
pub fn find_first(hay: &Vec<u8>, needle: &Vec<u8>) -> (r: Option<usize>)
    ensures
        match r {
            Some(i) => is_first_occurrence(hay@, needle@, i as int),
            None => forall|j: int| !occurs_at(hay@, needle@, j),
        },
{
    if needle.len() > hay.len() {
        return None;
    }
    let mut i: usize = 0;
    while i <= hay.len() - needle.len()
        invariant
            hay@.len() <= usize::MAX,
            needle@.len() <= hay@.len(),
            i <= hay@.len() - needle@.len() + 1,
            forall|j: int| 0 <= j < i ==> !occurs_at(hay@, needle@, j),
        decreases hay@.len() - needle@.len() + 1 - i,
    {
        let mut j: usize = 0;
        let mut matches: bool = true;
        while j < needle.len()
            invariant
                hay@.len() <= usize::MAX,
                matches <==> (forall|q: int|
                    0 <= q < j ==> hay@[i + q] == needle@[q]),
                i + needle@.len() <= hay@.len(),
                j <= needle@.len(),
            decreases needle@.len() - j,
        {
            proof {
                assert(i + j < hay@.len());
            }
            if hay[i + j] != needle[j] {
                matches = false;
                proof {
                    assert(hay@[i + j as int] != needle@[j as int]);
                }
                j = needle.len();
            } else {
                proof {
                    assert(hay@[i + j as int] == needle@[j as int]);
                }
                j = j + 1;
            }
        }
        if matches {
            proof {
                assert(hay@.subrange(i as int, i + needle@.len()) =~= needle@);
            }
            return Some(i);
        }
        proof {
            if occurs_at(hay@, needle@, i as int) {
                assert(forall|q: int|
                    0 <= q < needle@.len() ==> #[trigger] hay@.subrange(
                        i as int,
                        i + needle@.len(),
                    )[q] == hay@[i + q]);
            }
        }
        i = i + 1;
    }
    proof {
        assert forall|j: int| !occurs_at(hay@, needle@, j) by {
            if occurs_at(hay@, needle@, j) {
                assert(0 <= j < i);
            }
        }
    }
    None
}

fn push_tail(out: &mut Vec<u8>, src: &Vec<u8>, from: usize)
    requires
        from <= src@.len(),
    ensures
        final(out)@ == old(out)@ + src@.skip(from as int),
    decreases src@.len() - from,
{
    if from < src.len() {
        out.push(src[from]);
        push_tail(out, src, from + 1);
        proof {
            assert(final(out)@ =~= old(out)@ + src@.skip(from as int));
        }
    } else {
        proof {
            assert(final(out)@ =~= old(out)@ + src@.skip(from as int));
        }
    }
}

fn push_take(out: &mut Vec<u8>, src: &Vec<u8>, upto: usize)
    requires
        upto <= src@.len(),
    ensures
        final(out)@ == old(out)@ + src@.take(upto as int),
{
    let mut i: usize = 0;
    while i < upto
        invariant
            i <= upto <= src@.len(),
            out@ == old(out)@ + src@.take(i as int),
        decreases upto - i,
    {
        out.push(src[i]);
        proof {
            assert(out@ =~= old(out)@ + src@.take(i + 1));
        }
        i = i + 1;
    }
}

fn push_str_bytes(out: &mut Vec<u8>, s: &str)
    ensures
        final(out)@ == old(out)@ + s.spec_bytes(),
{
    let b = s.as_bytes();
    out.extend_from_slice(b);
}

fn push_blocks(out: &mut Vec<u8>, inputs: &Vec<Vec<u8>>, k: usize)
    requires
        k <= inputs@.len(),
    ensures
        final(out)@ == old(out)@ + blocks_of(byte_views(inputs@).skip(k as int)),
    decreases inputs@.len() - k,
{
    if k < inputs.len() {
        push_str_bytes(out, "<script type=\"data\" compressed=\"false\">\n");
        let item = &inputs[k];
        out.extend_from_slice(item.as_slice());
        push_str_bytes(out, "\n</script>\n");
        push_blocks(out, inputs, k + 1);
        proof {
            assert(byte_views(inputs@).skip(k as int).drop_first() =~= byte_views(
                inputs@,
            ).skip(k + 1));
            assert(byte_views(inputs@).skip(k as int)[0] == inputs@[k as int]@);
            assert(final(out)@ =~= old(out)@ + blocks_of(byte_views(inputs@).skip(k as int)));
        }
    } else {
        proof {
            assert(byte_views(inputs@).skip(k as int).len() == 0);
            assert(final(out)@ =~= old(out)@ + blocks_of(byte_views(inputs@).skip(k as int)));
        }
    }
}

/// Splice the input files into the template at its first placeholder: one
/// block per file, in input order, the placeholder kept behind them.  A
/// template without the placeholder comes back unchanged.
pub fn merge_reports(template: &Vec<u8>, inputs: &Vec<Vec<u8>>) -> (r: Vec<u8>)
    ensures
        (forall|j: int| !occurs_at(template@, placeholder_bytes(), j)) ==> r@ == template@,
        forall|i: int|
            is_first_occurrence(template@, placeholder_bytes(), i) ==> r@ == template@.take(i)
                + blocks_of(byte_views(inputs@)) + placeholder_bytes() + template@.skip(
                i + placeholder_bytes().len(),
            ),
{
    let marker_str = placeholder();
    let marker_bytes = marker_str.as_bytes();
    let mut marker: Vec<u8> = Vec::new();
    marker.extend_from_slice(marker_bytes);
    proof {
        assert(marker@ =~= placeholder_bytes());
    }
    match find_first(template, &marker) {
        None => {
            let mut out: Vec<u8> = Vec::new();
            out.extend_from_slice(template.as_slice());
            proof {
                assert(out@ =~= template@);
            }
            out
        },
        Some(i) => {
            let mut out: Vec<u8> = Vec::new();
            push_take(&mut out, template, i);
            push_blocks(&mut out, inputs, 0);
            let tlen = template.len();
            proof {
                assert(i + marker@.len() <= tlen);
            }
            proof {
                assert(byte_views(inputs@).skip(0) =~= byte_views(inputs@));
            }
            push_str_bytes(&mut out, marker_str);
            push_tail(&mut out, template, i + marker.len());
            proof {
                assert forall|i2: int|
                    is_first_occurrence(template@, placeholder_bytes(), i2) implies i2
                    == i as int by {
                    if i2 < i {
                        assert(!occurs_at(template@, placeholder_bytes(), i2));
                    }
                    if i2 > i {
                        assert(!occurs_at(template@, placeholder_bytes(), i as int));
                    }
                }
            }
            out
        },
    }
}

/// Each input's bytes stand verbatim inside the assembled blocks, at
/// non-decreasing offsets: block `j` reproduces input `j`, in input order.
pub proof fn lemma_block_verbatim(ds: Seq<Seq<u8>>, j: int)
    requires
        0 <= j < ds.len(),
    ensures
        0 <= data_offset(ds, j),
        data_offset(ds, j) + ds[j].len() <= blocks_of(ds).len(),
        blocks_of(ds).subrange(data_offset(ds, j), data_offset(ds, j) + ds[j].len()) == ds[j],
        j + 1 < ds.len() ==> data_offset(ds, j) + ds[j].len() <= data_offset(ds, j + 1),
    decreases j,
{
    lemma_blocks_len(ds);
    let d1 = ds.drop_first();
    if j == 0 {
        lemma_blocks_len(d1);
        assert(blocks_of(ds).subrange(
            data_offset(ds, 0),
            data_offset(ds, 0) + ds[0].len(),
        ) =~= ds[0]);
        if 1 < ds.len() {
            assert(data_offset(ds, 1) == block_of(ds[0]).len() + data_offset(d1, 0));
        }
    } else {
        lemma_block_verbatim(d1, j - 1);
        assert(d1[j - 1] == ds[j]);
        let off1 = data_offset(d1, j - 1);
        assert(data_offset(ds, j) == block_of(ds[0]).len() + off1);
        assert forall|q: int| 0 <= q < ds[j].len() implies blocks_of(ds)[data_offset(ds, j) + q]
            == ds[j][q] by {
            assert(blocks_of(ds)[data_offset(ds, j) + q] == blocks_of(d1)[off1 + q]);
            assert(blocks_of(d1).subrange(off1, off1 + d1[j - 1].len())[q] == blocks_of(d1)[off1
                + q]);
        }
        assert(blocks_of(ds).subrange(data_offset(ds, j), data_offset(ds, j) + ds[j].len())
            =~= ds[j]);
        if j + 1 < ds.len() {
            assert(data_offset(ds, j + 1) == block_of(ds[0]).len() + data_offset(d1, j));
        }
    }
}

/// Round trip through assembly: in the merged output of `inputs` spliced
/// into `template` at its first placeholder, block `j` reproduces input
/// `j`'s bytes verbatim, at the offsets `data_offset` gives, in input
/// order.
pub proof fn lemma_merged_block_verbatim(template: Seq<u8>, inputs: Seq<Seq<u8>>, i: int, j: int)
    requires
        is_first_occurrence(template, placeholder_bytes(), i),
        0 <= j < inputs.len(),
    ensures
        ({
            let r = template.take(i) + blocks_of(inputs) + placeholder_bytes() + template.skip(
                i + placeholder_bytes().len(),
            );
            let off = i + data_offset(inputs, j);
            &&& off + inputs[j].len() <= r.len()
            &&& r.subrange(off, off + inputs[j].len()) == inputs[j]
        }),
{
    lemma_block_verbatim(inputs, j);
    let r = template.take(i) + blocks_of(inputs) + placeholder_bytes() + template.skip(
        i + placeholder_bytes().len(),
    );
    let off = i + data_offset(inputs, j);
    assert forall|q: int| 0 <= q < inputs[j].len() implies r[off + q] == inputs[j][q] by {
        assert(r[off + q] == blocks_of(inputs)[data_offset(inputs, j) + q]);
        assert(blocks_of(inputs).subrange(
            data_offset(inputs, j),
            data_offset(inputs, j) + inputs[j].len(),
        )[q] == blocks_of(inputs)[data_offset(inputs, j) + q]);
    }
    assert(r.subrange(off, off + inputs[j].len()) =~= inputs[j]);
}

/// Where input `j`'s bytes begin inside the assembled blocks.
pub open spec fn data_offset(ds: Seq<Seq<u8>>, j: int) -> int
    decreases j,
{
    if j <= 0 {
        script_open().len() as int
    } else {
        block_of(ds[0]).len() + data_offset(ds.drop_first(), j - 1)
    }
}

/// The blocks of a non-empty list are at least one block long.
proof fn lemma_blocks_len(ds: Seq<Seq<u8>>)
    ensures
        blocks_of(ds).len() == if ds.len() == 0 {
            0int
        } else {
            (block_of(ds[0]).len() + blocks_of(ds.drop_first()).len()) as int
        },
{
}

} // verus!
