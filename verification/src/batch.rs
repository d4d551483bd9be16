//! Splitting an unbounded list of IDs into the maximum batch size a
//! remote endpoint accepts, and recombining the per-batch results in
//! input order.

use vstd::prelude::*;
use vstd::string::StringExecFns;

use crate::Response;

verus! {

/// `items` cut into consecutive chunks of `cap`, the last one possibly
/// shorter.
pub open spec fn spec_chunks<T>(items: Seq<T>, cap: int) -> Seq<Seq<T>>
    decreases items.len() when cap >= 1
{
    if items.len() == 0 {
        Seq::empty()
    } else if items.len() <= cap {
        seq![items]
    } else {
        seq![items.take(cap)] + spec_chunks(items.skip(cap), cap)
    }
}

/// Chunking loses nothing and keeps the input order: the chunks
/// concatenated in order are exactly the input.
pub proof fn lemma_chunks_flatten<T>(items: Seq<T>, cap: int)
    requires
        cap >= 1,
    ensures
        spec_chunks(items, cap).flatten() == items,
    decreases items.len(),
{
    if items.len() == 0 {
        assert(spec_chunks(items, cap).flatten() =~= items);
    } else if items.len() <= cap {
        assert(spec_chunks(items, cap) == seq![items]);
        seq![items].lemma_flatten_one_element();
    } else {
        lemma_chunks_flatten(items.skip(cap), cap);
        let chunks = spec_chunks(items, cap);
        assert(chunks.drop_first() =~= spec_chunks(items.skip(cap), cap));
        assert(chunks.first() == items.take(cap));
        assert(chunks.flatten() == chunks.first() + chunks.drop_first().flatten());
        assert(items.take(cap) + items.skip(cap) =~= items);
    }
}

/// A batched call issues one request per chunk: for `n` items and a cap
/// of `cap`, that is `n / cap` requests, plus one for a final shorter
/// chunk; and every chunk but the last holds exactly `cap` items.
pub proof fn lemma_chunks_count<T>(items: Seq<T>, cap: int)
    requires
        cap >= 1,
    ensures
        items.len() as int % cap == 0 ==> spec_chunks(items, cap).len() == items.len() as int
            / cap,
        items.len() as int % cap != 0 ==> spec_chunks(items, cap).len() == items.len() as int / cap
            + 1,
        forall|i: int|
            0 <= i < spec_chunks(items, cap).len() ==> #[trigger] spec_chunks(
                items,
                cap,
            )[i].len() <= cap,
        forall|i: int|
            0 <= i < spec_chunks(items, cap).len() - 1 ==> #[trigger] spec_chunks(
                items,
                cap,
            )[i].len() == cap,
    decreases items.len(),
{
    let len = items.len() as int;
    if items.len() == 0 {
        assert(len % cap == 0 && len / cap == 0) by (nonlinear_arith)
            requires
                cap >= 1,
                len == 0,
        ;
    } else if items.len() <= cap {
        assert(spec_chunks(items, cap) == seq![items]);
        if len % cap == 0 {
            assert(len / cap == 1) by (nonlinear_arith)
                requires
                    cap >= 1,
                    1 <= len <= cap,
                    len % cap == 0,
            ;
        } else {
            assert(len / cap == 0) by (nonlinear_arith)
                requires
                    cap >= 1,
                    1 <= len <= cap,
                    len % cap != 0,
            ;
        }
    } else {
        lemma_chunks_count(items.skip(cap), cap);
        let rest = spec_chunks(items.skip(cap), cap);
        let rlen = items.skip(cap).len() as int;
        assert(rlen == len - cap);
        assert(rlen % cap == len % cap && rlen / cap == len / cap - 1) by (nonlinear_arith)
            requires
                cap >= 1,
                rlen == len - cap,
                len > cap,
        ;
        assert(spec_chunks(items, cap) == seq![items.take(cap)] + rest);
        assert forall|i: int| 0 <= i < spec_chunks(items, cap).len() implies #[trigger] spec_chunks(
            items,
            cap,
        )[i].len() <= cap by {
            if i > 0 {
                assert(spec_chunks(items, cap)[i] == rest[i - 1]);
            }
        }
        assert forall|i: int|
            0 <= i < spec_chunks(items, cap).len() - 1 implies #[trigger] spec_chunks(
            items,
            cap,
        )[i].len() == cap by {
            if i > 0 {
                assert(spec_chunks(items, cap)[i] == rest[i - 1]);
            }
        }
    }
}

/// Split IDs into chunks of at most `cap`, in order.
pub fn chunked_ids(ids: &Vec<String>, cap: usize) -> (r: Vec<Vec<String>>)
    requires
        cap >= 1,
    ensures
        r@.map_values(|c: Vec<String>| c@) == spec_chunks(ids@, cap as int),
{
    let mut r: Vec<Vec<String>> = Vec::new();
    let mut pos: usize = 0;
    proof {
        assert(ids@.skip(0) =~= ids@);
        let mapped = r@.map_values(|c: Vec<String>| c@);
        assert(mapped =~= Seq::<Seq<String>>::empty());
        if ids@.len() == 0 {
            assert(mapped =~= spec_chunks(ids@, cap as int));
        } else {
            assert(mapped + spec_chunks(ids@, cap as int) =~= spec_chunks(ids@, cap as int));
        }
    }
    while pos < ids.len()
        invariant
            pos <= ids@.len(),
            cap >= 1,
            pos < ids@.len() ==> r@.map_values(|c: Vec<String>| c@) + spec_chunks(
                ids@.skip(pos as int),
                cap as int,
            ) == spec_chunks(ids@, cap as int),
            pos == ids@.len() ==> r@.map_values(|c: Vec<String>| c@) == spec_chunks(
                ids@,
                cap as int,
            ),
        decreases ids@.len() - pos,
    {
        let remaining = ids.len() - pos;
        let size = if remaining <= cap {
            remaining
        } else {
            cap
        };
        let mut chunk: Vec<String> = Vec::new();
        let mut k: usize = 0;
        while k < size
            invariant
                k <= size,
                pos + size <= ids@.len(),
                ids@.len() <= usize::MAX,
                chunk@ == ids@.subrange(pos as int, pos + k),
            decreases size - k,
        {
            chunk.push(ids[pos + k].clone());
            proof {
                assert(ids@.subrange(pos as int, pos + k + 1).drop_last() =~= ids@.subrange(
                    pos as int,
                    pos + k,
                ));
                assert(chunk@ =~= ids@.subrange(pos as int, pos + k + 1));
            }
            k = k + 1;
        }
        let ghost tail = ids@.skip(pos as int);
        let ghost before = r@.map_values(|c: Vec<String>| c@);
        proof {
            assert(chunk@ =~= tail.take(size as int));
        }
        r.push(chunk);
        proof {
            let mapped = r@.map_values(|c: Vec<String>| c@);
            assert(mapped =~= before.push(tail.take(size as int)));
            if tail.len() <= cap {
                assert(tail.take(size as int) =~= tail);
                assert(spec_chunks(tail, cap as int) == seq![tail]);
                assert(mapped =~= before + seq![tail]);
                assert(mapped == spec_chunks(ids@, cap as int));
            } else {
                assert(spec_chunks(tail, cap as int) == seq![tail.take(cap as int)] + spec_chunks(
                    tail.skip(cap as int),
                    cap as int,
                ));
                assert(tail.skip(cap as int) =~= ids@.skip(pos + size));
                assert(mapped + spec_chunks(ids@.skip(pos + size), cap as int) =~= before
                    + spec_chunks(tail, cap as int));
            }
        }
        pos = pos + size;
    }
    r
}

/// Join IDs with commas, in order.
pub open spec fn spec_join_comma(ids: Seq<Seq<char>>) -> Seq<char>
    decreases ids.len(),
{
    if ids.len() == 0 {
        Seq::empty()
    } else if ids.len() == 1 {
        ids[0]
    } else {
        spec_join_comma(ids.drop_last()) + ","@ + ids.last()
    }
}

/// Join IDs with commas, in order, for a multi-ID query parameter.
pub fn join_comma(ids: &Vec<String>) -> (r: String)
    ensures
        r@ == spec_join_comma(ids@.map_values(|s: String| s@)),
{
    let ghost views = ids@.map_values(|s: String| s@);
    let mut out = String::new();
    let mut i: usize = 0;
    while i < ids.len()
        invariant
            i <= ids@.len(),
            views == ids@.map_values(|s: String| s@),
            out@ == spec_join_comma(views.take(i as int)),
        decreases ids@.len() - i,
    {
        if i > 0 {
            out.append(",");
        }
        out.append(ids[i].as_str());
        proof {
            assert(views.take(i + 1).drop_last() =~= views.take(i as int));
            assert(views.take(i + 1).last() == views[i as int]);
            assert(views[i as int] == ids@[i as int]@);
            if i == 0 {
                assert(out@ =~= spec_join_comma(views.take(1)));
            } else {
                assert(out@ =~= spec_join_comma(views.take(i + 1)));
            }
        }
        i = i + 1;
    }
    proof {
        assert(views.take(views.len() as int) =~= views);
    }
    out
}

/// Combine per-chunk responses in chunk order: the data lists
/// concatenated as the chunks were issued, under the expiry of the last
/// response, or `now` where there was nothing to send.
pub fn combined_response<T>(parts: Vec<Response<Vec<T>>>, now: u64) -> (r: Response<Vec<T>>)
    ensures
        r.data@ == parts@.map_values(|p: Response<Vec<T>>| p.data@).flatten(),
        parts@.len() == 0 ==> r.expires == now,
        parts@.len() > 0 ==> r.expires == parts@.last().expires,
{
    let ghost all = parts@;
    let mut data: Vec<T> = Vec::new();
    let mut expires: u64 = now;
    let mut parts = parts;
    let ghost mut i: int = 0;
    let ghost n = all.len();
    proof {
        assert(all.map_values(|p: Response<Vec<T>>| p.data@).take(0) =~= Seq::<Seq<T>>::empty());
        assert(Seq::<Seq<T>>::empty().flatten() =~= Seq::<T>::empty());
    }
    while parts.len() > 0
        invariant
            0 <= i <= n,
            n == all.len(),
            parts@.len() == n - i,
            forall|j: int| 0 <= j < n - i ==> parts@[j] == all[i + j],
            data@ == all.map_values(|p: Response<Vec<T>>| p.data@).take(i).flatten(),
            i == 0 ==> expires == now,
            i > 0 ==> expires == all[i - 1].expires,
        decreases n - i,
    {
        let ghost prev = parts@;
        let mut part = parts.remove(0);
        expires = part.expires;
        let ghost datas = all.map_values(|p: Response<Vec<T>>| p.data@);
        let ghost part_data = part.data@;
        data.append(&mut part.data);
        proof {
            assert(parts@ =~= prev.skip(1));
            assert(prev[0] == all[i]);
            assert(all[i].data@ == part_data);
            assert(datas.take(i + 1).len() == i + 1);
            assert(datas.take(i + 1).drop_last() =~= datas.take(i));
            assert(datas.take(i + 1).last() == datas[i]);
            assert(datas[i] == part_data);
            datas.take(i + 1).lemma_flatten_and_flatten_alt_are_equivalent();
            datas.take(i).lemma_flatten_and_flatten_alt_are_equivalent();
            assert(datas.take(i + 1).flatten_alt() == datas.take(
                i + 1,
            ).drop_last().flatten_alt() + datas[i]);
            assert(data@ == datas.take(i + 1).flatten());
            assert forall|j: int| 0 <= j < n - i - 1 implies parts@[j] == all[i + 1 + j] by {
                assert(parts@[j] == prev[j + 1]);
                assert(prev[j + 1] == all[i + j + 1]);
            }
            i = i + 1;
        }
    }
    proof {
        assert(all.map_values(|p: Response<Vec<T>>| p.data@).take(n as int) =~= all.map_values(
            |p: Response<Vec<T>>| p.data@,
        ));
    }
    Response { data, expires }
}

} // verus!
