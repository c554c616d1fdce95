//! Protocol-wide laws of the controller, proved over the spec-level step
//! functions that every handler's contract is tied to.

use vstd::prelude::*;
use crate::controller::{CtlView, HypercallRegs, spec_dispatch, spec_read_step, spec_stop_step,
    spec_write_step, success_marker};

verus! {

/// The chunks that repeated `Write` steps with chunk size `size` deliver
/// from cursor `pos` on, concatenated.
pub open spec fn write_chunks(bytes: Seq<u8>, pos: int, size: u64) -> Seq<u8>
    decreases bytes.len() - pos,
{
    if pos < 0 || pos >= bytes.len() || size == 0 {
        Seq::empty()
    } else {
        let upper = if pos + size <= bytes.len() {
            pos + size
        } else {
            bytes.len() as int
        };
        bytes.subrange(pos, upper) + write_chunks(bytes, upper, size)
    }
}

/// For every payload and every positive chunk size, the chunks that repeated
/// `Write` steps deliver until the cursor is exhausted concatenate to exactly
/// the undelivered rest of the payload, in order.
pub proof fn lemma_write_chunks_transfer_all(bytes: Seq<u8>, pos: int, size: u64)
    requires
        0 <= pos <= bytes.len(),
        size > 0,
    ensures
        write_chunks(bytes, pos, size) == bytes.subrange(pos, bytes.len() as int),
    decreases bytes.len() - pos,
{
    if pos >= bytes.len() {
        assert(write_chunks(bytes, pos, size) =~= bytes.subrange(pos, bytes.len() as int));
    } else {
        let upper = if pos + size <= bytes.len() {
            pos + size
        } else {
            bytes.len() as int
        };
        lemma_write_chunks_transfer_all(bytes, upper, size);
        assert(bytes.subrange(pos, upper) + bytes.subrange(upper, bytes.len() as int)
            =~= bytes.subrange(pos, bytes.len() as int));
    }
}

/// Each `Write(dest, size)` step with a loaded payload and a positive chunk
/// size delivers exactly the head chunk of [`write_chunks`] to `dest`,
/// returns its length `min(size, remaining)`, and advances the cursor past
/// it; the step returns no value exactly when the cursor is exhausted.
pub proof fn lemma_write_step_chunk(m: CtlView, dest: u64, size: u64)
    requires
        m.payload matches Some((b, pos)) && pos <= b.len(),
        size > 0,
    ensures
        m.payload matches Some((b, pos)) ==> (spec_write_step(m, dest, size) matches Some(
            (m2, o),
        ) && {
            let upper = if pos + size <= b.len() {
                pos + size as int
            } else {
                b.len() as int
            };
            if pos < b.len() {
                &&& o.writes == seq![(dest, b.subrange(pos as int, upper))]
                &&& o.ret == Some((upper - pos) as u64)
                &&& m2.payload == Some((b, upper as nat))
                &&& write_chunks(b, pos as int, size) == b.subrange(pos as int, upper)
                    + write_chunks(b, upper, size)
            } else {
                &&& o.ret is None
                &&& o.writes.len() == 0
                &&& m2 == m
            }
        }),
{
}

/// With the pointers captured, none delivered yet, and the entry bytes
/// saved, three `Read` steps with nonzero liveness return the captured
/// pointers in order — execfn pointer, argv pointer-to-pointer, envp
/// pointer-to-pointer — and a fourth returns no value.
pub proof fn lemma_reads_in_order(m: CtlView, l1: u64, l2: u64, l3: u64, l4: u64)
    requires
        m.wf(),
        m.pointers is Some,
        m.pointers_read == 0,
        m.saved is Some,
        l1 != 0,
        l2 != 0,
        l3 != 0,
        l4 != 0,
    ensures
        m.pointers matches Some(p) ==> (spec_read_step(m, l1) matches Ok((m1, o1)) && o1.ret
            == Some(p.execfn_ptr) && (spec_read_step(m1, l2) matches Ok((m2, o2)) && o2.ret
            == Some(p.argv_ptr_ptr) && (spec_read_step(m2, l3) matches Ok((m3, o3)) && o3.ret
            == Some(p.env_ptr_ptr) && (spec_read_step(m3, l4) matches Ok((m4, o4)) && o4.ret
            is None && m4 == m3)))),
{
}

/// A `Read` step performs a guest-memory write only on the step that
/// delivers the final pointer, and that write restores exactly the saved
/// entry bytes at the saved address.
pub proof fn lemma_read_restores_only_at_final(m: CtlView, liveness: u64)
    requires
        m.wf(),
    ensures
        spec_read_step(m, liveness) matches Ok((m2, o)) ==> {
            &&& (o.writes.len() > 0 <==> m.pointers_read == 2)
            &&& m.pointers_read == 2 ==> (m.saved matches Some(sv) && o.writes == seq![sv])
        },
{
}

/// Once the final pointer has been delivered, the entry bytes stay saved
/// unchanged, and `Stop` re-emits exactly the same restoring write after the
/// success marker: the restoration is one-shot in the normal flow and
/// idempotent under `Stop`.
pub proof fn lemma_restore_idempotent(m: CtlView, liveness: u64, restart_addr: u64)
    requires
        m.wf(),
        m.pointers_read == 2,
        liveness != 0,
    ensures
        spec_read_step(m, liveness) matches Ok((m2, o)) ==> (m.saved matches Some(sv) && {
            &&& m2.saved == m.saved
            &&& o.writes == seq![sv]
            &&& (spec_stop_step(m2, restart_addr) matches Ok((m3, o2)) && m3 == m2 && o2.writes
                == seq![(restart_addr, success_marker()), sv])
        }),
{
}

/// No step of the protocol ever changes or drops the saved entry bytes once
/// they are recorded: whatever the guest issues, the bytes that restoration
/// writes are the bytes captured at the entry point.
pub proof fn lemma_saved_stable(m: CtlView, regs: HypercallRegs)
    requires
        m.saved is Some,
    ensures
        spec_dispatch(m, regs) matches Ok((m2, _)) ==> m2.saved == m.saved,
{
}

/// A `Stop` step never changes the controller state, and before the final
/// pointer has been delivered it performs no guest-memory write at all.
pub proof fn lemma_stop_before_done_writes_nothing(m: CtlView, restart_addr: u64)
    requires
        m.wf(),
    ensures
        spec_stop_step(m, restart_addr) matches Ok((m2, o)) ==> m2 == m && (m.pointers_read < 3
            ==> o.writes.len() == 0),
{
}

} // verus!

