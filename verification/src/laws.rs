use vstd::prelude::*;

verus! {

use crate::error::Error;
use crate::layout::{add_consumed, is_recognized_tag, segment_consumed, subrecord_size};

/// The total byte extent of `k` consecutive well-formed sub-records starting
/// at `pos`, each one tag byte followed by the body its tag announces, or the
/// error met while walking them.
pub open spec fn subrecords_consumed(data: Seq<u8>, pos: int, k: nat, idw: nat) -> Result<
    nat,
    Error,
>
    decreases k,
{
    if k == 0 {
        Ok(0)
    } else if pos + 1 > data.len() {
        Err(Error::Truncated)
    } else {
        match subrecord_size(data, pos + 1, idw, data[pos]) {
            Err(e) => Err(e),
            Ok(n) => add_consumed(
                subrecords_consumed(data, pos + 1 + n, (k - 1) as nat, idw),
                n + 1,
            ),
        }
    }
}

/// Walking a segment whose first `m` bytes hold `k` well-formed sub-records
/// splits: the whole walk is those `m` bytes followed by a walk of the rest,
/// with the budget reduced by `m`.
proof fn lemma_segment_splits(data: Seq<u8>, pos: int, idw: nat, k: nat, m: nat, budget: int)
    requires
        subrecords_consumed(data, pos, k, idw) == Ok::<nat, Error>(m),
        m <= budget,
    ensures
        segment_consumed(data, pos, idw, budget) == add_consumed(
            segment_consumed(data, pos + m, idw, budget - m),
            m,
        ),
    decreases k,
{
    if k == 0 {
        let s = segment_consumed(data, pos, idw, budget);
        match s {
            Ok(v) => {
                assert(add_consumed(s, 0) == Ok::<nat, Error>(v));
            },
            Err(e) => {
                assert(add_consumed(s, 0) == Err::<nat, Error>(e));
            },
        }
    } else {
        let tag = data[pos];
        match subrecord_size(data, pos + 1, idw, tag) {
            Err(_) => {
                assert(false);
            },
            Ok(n) => {
                let rest = subrecords_consumed(data, pos + 1 + n, (k - 1) as nat, idw);
                match rest {
                    Err(_) => {
                        assert(false);
                    },
                    Ok(m2) => {
                        assert(m == m2 + n + 1);
                        lemma_segment_splits(
                            data,
                            pos + 1 + n,
                            idw,
                            (k - 1) as nat,
                            m2,
                            budget - 1 - n,
                        );
                        assert(segment_consumed(data, pos, idw, budget) == add_consumed(
                            segment_consumed(data, pos + 1 + n, idw, budget - 1 - n),
                            n + 1,
                        ));
                        let tail = segment_consumed(data, pos + m, idw, budget - m);
                        match tail {
                            Ok(v) => {
                                assert(segment_consumed(data, pos, idw, budget) == Ok::<
                                    nat,
                                    Error,
                                >(v + m2 + n + 1));
                            },
                            Err(e) => {
                                assert(segment_consumed(data, pos, idw, budget) == Err::<
                                    nat,
                                    Error,
                                >(e));
                            },
                        }
                    },
                }
            },
        }
    }
}

/// A segment whose declared length is exactly the total extent of `k`
/// well-formed sub-records decodes successfully, and the cursor stops at
/// exactly that length.
pub proof fn lemma_segment_exact_length(data: Seq<u8>, pos: int, idw: nat, k: nat, l: nat)
    requires
        subrecords_consumed(data, pos, k, idw) == Ok::<nat, Error>(l),
    ensures
        segment_consumed(data, pos, idw, l as int) == Ok::<nat, Error>(l),
{
    lemma_segment_splits(data, pos, idw, k, l, l as int);
    assert(segment_consumed(data, pos + l, idw, 0) == Ok::<nat, Error>(0));
}

/// A segment whose first `k` sub-records are well-formed but whose next tag
/// byte is unrecognized fails with that byte's unknown-tag error, wherever in
/// the segment the bad tag stands: no partial success is reported.
pub proof fn lemma_segment_unknown_tag(
    data: Seq<u8>,
    pos: int,
    idw: nat,
    k: nat,
    m: nat,
    budget: int,
)
    requires
        subrecords_consumed(data, pos, k, idw) == Ok::<nat, Error>(m),
        m < budget,
        pos + m < data.len(),
        !is_recognized_tag(data[pos + m]),
    ensures
        segment_consumed(data, pos, idw, budget) == Err::<nat, Error>(
            Error::UnknownTag(data[pos + m]),
        ),
{
    lemma_segment_splits(data, pos, idw, k, m, budget);
    assert(subrecord_size(data, pos + m + 1, idw, data[pos + m]) == Err::<nat, Error>(
        Error::UnknownTag(data[pos + m]),
    ));
    assert(segment_consumed(data, pos + m, idw, budget - m) == Err::<nat, Error>(
        Error::UnknownTag(data[pos + m]),
    ));
}

/// A segment whose first `k` sub-records are well-formed and whose next
/// sub-record is cut off by the end of the data — its tag byte missing, or
/// its body asking for bytes past the end — fails as truncated: no partial
/// sub-record is treated as valid.
pub proof fn lemma_segment_truncated(
    data: Seq<u8>,
    pos: int,
    idw: nat,
    k: nat,
    m: nat,
    budget: int,
)
    requires
        subrecords_consumed(data, pos, k, idw) == Ok::<nat, Error>(m),
        m < budget,
        pos + m + 1 > data.len() || (pos + m < data.len() && subrecord_size(
            data,
            pos + m + 1,
            idw,
            data[pos + m],
        ) == Err::<nat, Error>(Error::Truncated)),
    ensures
        segment_consumed(data, pos, idw, budget) == Err::<nat, Error>(Error::Truncated),
{
    lemma_segment_splits(data, pos, idw, k, m, budget);
    assert(segment_consumed(data, pos + m, idw, budget - m) == Err::<nat, Error>(
        Error::Truncated,
    ));
}

} // verus!
