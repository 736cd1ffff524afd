use vstd::prelude::*;

use crate::error::CaptureError;

verus! {

/// The top-level surfaces of the desktop, front to back, as one enumeration
/// call reported them.  Not persisted across calls.
#[derive(Clone, Debug)]
pub struct SurfaceOrder {
    pub handles: Vec<u64>,
}

/// Removes every occurrence of `excluded` from a front-to-back surface list,
/// keeping the order of the remaining handles.
///
/// Capture paths that must not see an always-on-top helper surface build
/// their exclusion list this way.
#[verifier::loop_isolation(false)]
pub fn build_exclusion(raw: &Vec<u64>, excluded: u64) -> (r: Vec<u64>)
    ensures
        r@ == raw@.filter(|h: u64| h != excluded),
{
    broadcast use vstd::seq_lib::group_filter_ensures;

    let mut out: Vec<u64> = Vec::new();
    let mut i: usize = 0;
    while i < raw.len()
        invariant
            i <= raw@.len(),
            out@ == raw@.subrange(0, i as int).filter(|h: u64| h != excluded),
        decreases raw@.len() - i,
    {
        let h = raw[i];
        proof {
            reveal(Seq::filter);
            assert(raw@.subrange(0, i as int + 1).drop_last() =~= raw@.subrange(0, i as int));
            assert(raw@.subrange(0, i as int + 1).last() == raw@[i as int]);
        }
        if h != excluded {
            out.push(h);
        }
        i += 1;
    }
    proof {
        assert(raw@.subrange(0, raw@.len() as int) =~= raw@);
    }
    out
}

/// The outcome of one surface enumeration: when the operating system's
/// listing primitive succeeded (`listed`), the order it reported with the
/// excluded handle removed; when it failed, `EnumerationFailed`, so that the
/// caller can fall back to capturing without an exclusion list.
pub fn enumerate_outcome(listed: bool, raw: Vec<u64>, excluded: u64) -> (r: Result<
    SurfaceOrder,
    CaptureError,
>)
    ensures
        listed ==> (r matches Ok(order) && order.handles@ == raw@.filter(
            |h: u64| h != excluded,
        )),
        !listed ==> (r matches Err(e) && e == CaptureError::EnumerationFailed),
{
    if listed {
        Ok(SurfaceOrder { handles: build_exclusion(&raw, excluded) })
    } else {
        Err(CaptureError::EnumerationFailed)
    }
}

/// The excluded handle never appears in the result, and every other handle
/// the operating system listed is kept.
pub proof fn lemma_exclusion_membership(raw: Seq<u64>, excluded: u64)
    ensures
        !raw.filter(|h: u64| h != excluded).contains(excluded),
        forall|i: int|
            0 <= i < raw.len() && raw[i] != excluded ==> raw.filter(|h: u64| h != excluded)
                .contains(#[trigger] raw[i]),
{
    broadcast use vstd::seq_lib::group_filter_ensures;

    let kept = raw.filter(|h: u64| h != excluded);
    if kept.contains(excluded) {
        let i = choose|i: int| 0 <= i < kept.len() && kept[i] == excluded;
        assert((|h: u64| h != excluded)(kept[i]));
    }
    assert forall|i: int| 0 <= i < raw.len() && raw[i] != excluded implies raw.filter(
        |h: u64| h != excluded,
    ).contains(#[trigger] raw[i]) by {
        assert((|h: u64| h != excluded)(raw[i]));
    }
}

} // verus!
