use vstd::prelude::*;
use vstd::seq_lib::{to_multiset_build, to_multiset_insert};

use crate::error::{corrupt_invoice_message, fee_inversion_message, PaymentError};
use crate::model::{OngoingSwap, Payment};
use crate::swap::{invoice_amount_msat_of, projected_payment, projection_ok, sat_of_msat};

verus! {

/// How recent an entry is: entries without a timestamp (pending swaps) count
/// as newer than any timestamp.
pub open spec fn spec_recency(p: Payment) -> int {
    match p.timestamp {
        Some(t) => t as int,
        None => u32::MAX as int + 1,
    }
}

/// Entries ordered from the most recent to the oldest.
pub open spec fn newest_first(s: Seq<Payment>) -> bool {
    forall|i: int, j: int|
        0 <= i < j < s.len() ==> #[trigger] spec_recency(s[i]) >= #[trigger] spec_recency(s[j])
}

/// The settled entries of `s` (those that are no pending swap), in order.
pub open spec fn settled_entries(s: Seq<Payment>) -> Seq<Payment>
    decreases s.len(),
{
    if s.len() == 0 {
        Seq::empty()
    } else {
        let rest = settled_entries(s.drop_last());
        if s.last().payment_type.spec_is_pending() {
            rest
        } else {
            rest.push(s.last())
        }
    }
}

/// Whether every pending swap of `swaps` projects without error.
pub open spec fn all_projectable(swaps: Seq<OngoingSwap>) -> bool {
    forall|i: int|
        0 <= i < swaps.len() ==> #[trigger] projection_ok(
            swaps[i],
            invoice_amount_msat_of(swaps[i].spec_invoice()@),
        )
}

/// The entries that stand for the pending swaps `swaps`, in order.
pub open spec fn projected_all(swaps: Seq<OngoingSwap>) -> Seq<Payment> {
    Seq::new(
        swaps.len(),
        |i: int|
            projected_payment(
                swaps[i],
                sat_of_msat(invoice_amount_msat_of(swaps[i].spec_invoice()@)->0),
            ),
    )
}

fn recency(p: &Payment) -> (r: u64)
    ensures
        r as int == spec_recency(*p),
{
    match p.timestamp {
        Some(t) => t as u64,
        None => u32::MAX as u64 + 1,
    }
}

/// The position at which `p` goes into `sorted` so that the order stays
/// newest first, after every entry that is at least as recent.
fn insert_position(sorted: &Vec<Payment>, p: &Payment) -> (r: usize)
    requires
        newest_first(sorted@),
    ensures
        r <= sorted@.len(),
        forall|i: int| 0 <= i < r ==> spec_recency(#[trigger] sorted@[i]) >= spec_recency(*p),
        forall|i: int|
            r <= i < sorted@.len() ==> spec_recency(#[trigger] sorted@[i]) < spec_recency(*p),
{
    let key = recency(p);
    let mut i: usize = 0;
    while i < sorted.len()
        invariant
            i <= sorted@.len(),
            newest_first(sorted@),
            key as int == spec_recency(*p),
            forall|k: int| 0 <= k < i ==> spec_recency(#[trigger] sorted@[k]) >= spec_recency(*p),
        decreases sorted@.len() - i,
    {
        if recency(&sorted[i]) < key {
            assert forall|k: int| i <= k < sorted@.len() implies spec_recency(
                #[trigger] sorted@[k],
            ) < spec_recency(*p) by {
                if k > i {
                    assert(spec_recency(sorted@[i as int]) >= spec_recency(sorted@[k]));
                }
            }
            return i;
        }
        i = i + 1;
    }
    i
}

/// The payment history: when `include_pending` holds, the entries projected
/// from the pending swaps come first (they have no timestamp and count as the
/// most recent), followed by the settled entries of `settled`, newest first.
/// Entries of `settled` that carry a pending type are left out: pending
/// entries only ever come from the pending swaps. Fails when a pending swap
/// that is to be shown cannot be projected.
pub fn list_payments_from(settled: Vec<Payment>, pending: Vec<OngoingSwap>, include_pending: bool)
    -> (r: Result<Vec<Payment>, PaymentError>)
    ensures
        r is Ok <==> (include_pending ==> all_projectable(pending@)),
        r is Err ==> r->Err_0.is_generic_with(corrupt_invoice_message())
            || r->Err_0.is_generic_with(fee_inversion_message()),
        r matches Ok(out) ==> {
            let np = if include_pending {
                pending@.len() as int
            } else {
                0
            };
            &&& np <= out@.len()
            &&& include_pending ==> out@.subrange(0, np) == projected_all(pending@)
            &&& out@.subrange(np, out@.len() as int).to_multiset() == settled_entries(
                settled@,
            ).to_multiset()
            &&& newest_first(out@.subrange(np, out@.len() as int))
            &&& forall|i: int|
                np <= i < out@.len() ==> !(#[trigger] out@[i]).payment_type.spec_is_pending()
        },
        !include_pending && r is Ok ==> forall|i: int|
            0 <= i < r->Ok_0@.len() ==> !(#[trigger] r->Ok_0@[i]).payment_type.spec_is_pending(),
{
    broadcast use to_multiset_build, to_multiset_insert;

    let ghost all_pending = pending@;
    let ghost all_settled = settled@;
    let mut out: Vec<Payment> = Vec::new();
    if include_pending {
        let mut swaps = pending;
        let n = swaps.len();
        let mut k: usize = 0;
        while k < n
            invariant
                n == all_pending.len(),
                all_pending == pending@,
                include_pending,
                k <= n,
                swaps@ == all_pending.subrange(k as int, n as int),
                out@ == projected_all(all_pending.subrange(0, k as int)),
                all_projectable(all_pending.subrange(0, k as int)),
            decreases n - k,
        {
            let swap = swaps.remove(0);
            assert(swap == all_pending[k as int]);
            match Payment::from_swap(swap) {
                Ok(p) => {
                    out.push(p);
                },
                Err(e) => {
                    assert(!all_projectable(all_pending)) by {
                        assert(!projection_ok(
                            all_pending[k as int],
                            invoice_amount_msat_of(all_pending[k as int].spec_invoice()@),
                        ));
                    }
                    return Err(e);
                },
            }
            k = k + 1;
            assert(out@ =~= projected_all(all_pending.subrange(0, k as int)));
            assert forall|i: int| 0 <= i < k implies #[trigger] projection_ok(
                all_pending.subrange(0, k as int)[i],
                invoice_amount_msat_of(all_pending.subrange(0, k as int)[i].spec_invoice()@),
            ) by {
                if i < k - 1 {
                    assert(all_pending.subrange(0, k as int)[i] == all_pending.subrange(
                        0,
                        k - 1,
                    )[i]);
                }
            }
        }
        assert(all_pending.subrange(0, n as int) =~= all_pending);
    }
    let ghost np = out@.len() as int;
    let ghost head = out@;
    let mut rest = settled;
    let mut sorted: Vec<Payment> = Vec::new();
    let m = rest.len();
    let mut k: usize = 0;
    while k < m
        invariant
            m == all_settled.len(),
            k <= m,
            rest@ == all_settled.subrange(k as int, m as int),
            sorted@.to_multiset() == settled_entries(all_settled.subrange(0, k as int)).to_multiset(),
            newest_first(sorted@),
            forall|i: int|
                0 <= i < sorted@.len() ==> !(#[trigger] sorted@[i]).payment_type.spec_is_pending(),
        decreases m - k,
    {
        let p = rest.remove(0);
        assert(p == all_settled[k as int]);
        let ghost before = sorted@;
        let ghost prefix = all_settled.subrange(0, k as int + 1);
        assert(prefix.drop_last() =~= all_settled.subrange(0, k as int));
        assert(prefix.last() == p);
        assert(settled_entries(prefix) == if p.payment_type.spec_is_pending() {
            settled_entries(all_settled.subrange(0, k as int))
        } else {
            settled_entries(all_settled.subrange(0, k as int)).push(p)
        });
        if !p.payment_type.is_pending() {
            let pos = insert_position(&sorted, &p);
            sorted.insert(pos, p);
            assert(sorted@ == before.insert(pos as int, p));
            proof {
                to_multiset_insert(before, pos as int, p);
                to_multiset_build(settled_entries(all_settled.subrange(0, k as int)), p);
            }
            assert(settled_entries(prefix).to_multiset() == settled_entries(
                all_settled.subrange(0, k as int),
            ).to_multiset().insert(p));
            assert forall|i: int, j: int|
                0 <= i < j < sorted@.len() implies #[trigger] spec_recency(sorted@[i])
                >= #[trigger] spec_recency(sorted@[j]) by {
                if i < pos && j == pos {
                } else if i < pos && j > pos {
                    assert(sorted@[j] == before[j - 1]);
                } else if i == pos {
                    assert(sorted@[j] == before[j - 1]);
                } else if i > pos {
                    assert(sorted@[i] == before[i - 1]);
                    assert(sorted@[j] == before[j - 1]);
                }
            }
            assert forall|i: int| 0 <= i < sorted@.len() implies !(
            #[trigger] sorted@[i]).payment_type.spec_is_pending() by {
                if i < pos {
                } else if i > pos {
                    assert(sorted@[i] == before[i - 1]);
                }
            }
        }
        k = k + 1;
    }
    assert(all_settled.subrange(0, m as int) =~= all_settled);
    let ghost tail = sorted@;
    out.append(&mut sorted);
    assert(out@.subrange(0, np) =~= head);
    assert(out@.subrange(np, out@.len() as int) =~= tail);
    assert forall|i: int| np <= i < out@.len() implies !(
    #[trigger] out@[i]).payment_type.spec_is_pending() by {
        assert(out@[i] == tail[i - np]);
    }
    Ok(out)
}

} // verus!
