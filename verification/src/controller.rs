//! The injection controller: a state machine over discrete protocol turns.
//!
//! Each handler consumes one event — a process start, a hook firing, or one
//! guest hypercall — and returns the guest-visible effects as plain data in
//! an [`Outcome`]. The spec-level step functions below are the authoritative
//! description of every transition; each handler's contract says that it
//! implements its step exactly.

use vstd::prelude::*;
use crate::protocol::HcCmd;
use crate::section::{parse_file_data, text_section_data, text_section_found, parses,
    text_section_addr, file_entry, ConfigError};
use crate::MAGIC;

verus! {

/// Where the two-stage hook installation stands.
#[derive(Copy, Clone, Debug, PartialEq, Eq, Structural)]
pub enum Stage {
    /// No hook has fired yet; the entry hook may still fire.
    WaitingForEntry,
    /// The stage-1 stub has been written over the process entry.
    Stage1Active,
    /// The stage-2 stub has been written at the address stage-1 supplied.
    Stage2Active,
    /// The original entry bytes have been restored; injection is complete.
    Complete,
}

/// The three runtime pointers captured from a process's launch metadata,
/// in delivery order.
#[derive(Copy, Clone, Debug, PartialEq, Eq, Structural)]
pub struct PointerSet {
    /// Pointer to the path the process was executed as.
    pub execfn_ptr: u64,
    /// Pointer to the argument vector pointer.
    pub argv_ptr_ptr: u64,
    /// Pointer to the environment vector pointer.
    pub env_ptr_ptr: u64,
}

impl PointerSet {
    /// The pointers in the order `Read` delivers them.
    pub open spec fn delivery_order(self) -> Seq<u64> {
        seq![self.execfn_ptr, self.argv_ptr_ptr, self.env_ptr_ptr]
    }
}

/// Launch metadata of a newly started process, as the emulator reports it.
#[derive(Copy, Clone, Debug, PartialEq, Eq, Structural)]
pub struct ProcessStart {
    /// Pointer to the path the process was executed as.
    pub execfn_ptr: u64,
    /// Pointer to the argument vector pointer.
    pub argv_ptr_ptr: u64,
    /// Pointer to the environment vector pointer.
    pub env_ptr_ptr: u64,
    /// Address of the process entry point.
    pub entry: u64,
    /// Effective user id the process runs under.
    pub euid: u64,
}

/// One guest-memory write the emulator shell must perform.
pub struct MemWrite {
    /// Guest virtual address to write at.
    pub addr: u64,
    /// Bytes to write there.
    pub bytes: Vec<u8>,
}

impl View for MemWrite {
    type V = (u64, Seq<u8>);

    open spec fn view(&self) -> (u64, Seq<u8>) {
        (self.addr, self.bytes@)
    }
}

/// The guest-visible effects of one controller step. The shell performs the
/// writes in order, then stores `ret` (if any) into the virtual CPU's return
/// register, and installs the one-shot stage-2 hook if one is requested.
pub struct Outcome {
    /// Guest-memory writes to perform, in order.
    pub writes: Vec<MemWrite>,
    /// Value for the return register; `None` leaves all registers untouched.
    pub ret: Option<u64>,
    /// Address at which to install the one-shot stage-2 hook.
    pub install_hook: Option<u64>,
}

/// Spec-level image of an [`Outcome`].
#[verifier::ext_equal]
pub ghost struct OutView {
    /// Guest-memory writes, in order, as (address, bytes).
    pub writes: Seq<(u64, Seq<u8>)>,
    /// Value for the return register.
    pub ret: Option<u64>,
    /// Address for the one-shot stage-2 hook.
    pub install_hook: Option<u64>,
}

impl View for Outcome {
    type V = OutView;

    open spec fn view(&self) -> OutView {
        OutView {
            writes: self.writes@.map_values(|w: MemWrite| w@),
            ret: self.ret,
            install_hook: self.install_hook,
        }
    }
}

/// The outcome that touches nothing: no write, no register, no hook.
pub open spec fn empty_out() -> OutView {
    OutView { writes: Seq::empty(), ret: None, install_hook: None }
}

/// A fatal protocol violation: guest and host have desynchronized, and going
/// on would risk corrupting guest memory. The shell must abort on it.
#[derive(Copy, Clone, Debug, PartialEq, Eq, Structural)]
pub enum ProtocolViolation {
    /// `Read` carried a liveness argument of zero: the caller is a forked
    /// child's duplicate of the requesting thread, not the driving stub.
    ZeroLiveness,
    /// The pointer set would have been captured a second time.
    PointersAlreadySet,
    /// A command needed the pointer set before it was captured.
    PointersMissing,
    /// The original entry bytes would have been saved a second time.
    SavedCodeAlreadySet,
    /// A command needed the saved entry bytes before they were recorded.
    SavedCodeMissing,
    /// The payload would have been loaded a second time.
    PayloadAlreadySet,
}

/// Spec-level image of a [`Controller`].
#[verifier::ext_equal]
pub ghost struct CtlView {
    /// Whether only processes with effective uid 0 qualify for injection.
    pub require_root: bool,
    /// Bytes of the stage-1 stub.
    pub stage1_text: Seq<u8>,
    /// Bytes of the stage-2 stub.
    pub stage2_text: Seq<u8>,
    /// Where the two-stage hook installation stands.
    pub stage: Stage,
    /// The captured pointer set, once captured.
    pub pointers: Option<PointerSet>,
    /// How many pointers `Read` has delivered.
    pub pointers_read: nat,
    /// The saved original entry bytes, as (address, bytes), once saved.
    pub saved: Option<(u64, Seq<u8>)>,
    /// The payload and its read cursor, once loaded.
    pub payload: Option<(Seq<u8>, nat)>,
}

impl CtlView {
    /// Well-formedness: what holds of every reachable controller state.
    pub open spec fn wf(self) -> bool {
        &&& self.pointers_read <= 3
        &&& self.pointers_read > 0 ==> self.pointers is Some
        &&& (self.pointers_read == 3 <==> self.stage == Stage::Complete)
        &&& (self.stage == Stage::Stage1Active || self.stage == Stage::Stage2Active
            || self.stage == Stage::Complete) ==> self.saved is Some
        &&& self.payload matches Some((b, pos)) ==> pos <= b.len()
    }
}

/// One `Write(dest, size)` step. `None` means the payload is not loaded yet
/// and must be provided before the step can be taken.
pub open spec fn spec_write_step(m: CtlView, dest: u64, size: u64) -> Option<(CtlView, OutView)> {
    match m.payload {
        None => None,
        Some((bytes, pos)) => {
            if pos < bytes.len() {
                let upper = if pos + size <= bytes.len() {
                    pos + size
                } else {
                    bytes.len() as int
                };
                Some(
                    (
                        CtlView { payload: Some((bytes, upper as nat)), ..m },
                        OutView {
                            writes: seq![(dest, bytes.subrange(pos as int, upper as int))],
                            ret: Some((upper - pos) as u64),
                            install_hook: None,
                        },
                    ),
                )
            } else {
                Some((m, OutView { ret: None, ..empty_out() }))
            }
        },
    }
}

/// One `Read(liveness)` step.
pub open spec fn spec_read_step(m: CtlView, liveness: u64) -> Result<
    (CtlView, OutView),
    ProtocolViolation,
> {
    if liveness == 0 {
        Err(ProtocolViolation::ZeroLiveness)
    } else {
        match m.pointers {
            None => Err(ProtocolViolation::PointersMissing),
            Some(ptrs) => {
                if m.pointers_read < 3 {
                    if m.pointers_read == 2 {
                        match m.saved {
                            None => Err(ProtocolViolation::SavedCodeMissing),
                            Some((addr, bytes)) => Ok(
                                (
                                    CtlView { pointers_read: 3, stage: Stage::Complete, ..m },
                                    OutView {
                                        writes: seq![(addr, bytes)],
                                        ret: Some(ptrs.delivery_order()[m.pointers_read as int]),
                                        install_hook: None,
                                    },
                                ),
                            ),
                        }
                    } else {
                        Ok(
                            (
                                CtlView { pointers_read: m.pointers_read + 1, ..m },
                                OutView {
                                    ret: Some(ptrs.delivery_order()[m.pointers_read as int]),
                                    ..empty_out()
                                },
                            ),
                        )
                    }
                } else {
                    Ok((m, OutView { ret: None, ..empty_out() }))
                }
            },
        }
    }
}

/// The fixed four-byte marker `Stop` places at the requested restart address
/// once the transfer has completed.
pub open spec fn success_marker() -> Seq<u8> {
    seq![1u8, 2u8, 3u8, 4u8]
}

/// One `Stop(restart_addr)` step.
pub open spec fn spec_stop_step(m: CtlView, restart_addr: u64) -> Result<
    (CtlView, OutView),
    ProtocolViolation,
> {
    match m.pointers {
        None => Err(ProtocolViolation::PointersMissing),
        Some(_) => {
            if m.pointers_read == 3 {
                match m.saved {
                    None => Err(ProtocolViolation::SavedCodeMissing),
                    Some((addr, bytes)) => Ok(
                        (
                            m,
                            OutView {
                                writes: seq![(restart_addr, success_marker()), (addr, bytes)],
                                ret: None,
                                install_hook: None,
                            },
                        ),
                    ),
                }
            } else {
                Ok((m, empty_out()))
            }
        },
    }
}

/// One `Start(entry_addr)` step: request the one-shot stage-2 hook.
pub open spec fn spec_start_step(m: CtlView, entry_addr: u64) -> (CtlView, OutView) {
    (m, OutView { install_hook: Some(entry_addr), ..empty_out() })
}

/// The entry hook firing at `pc`, with `current` the bytes found there.
pub open spec fn spec_entry_step(m: CtlView, pc: u64, current: Seq<u8>) -> Result<
    (CtlView, OutView),
    ProtocolViolation,
> {
    if m.stage != Stage::WaitingForEntry {
        Err(ProtocolViolation::SavedCodeAlreadySet)
    } else {
        Ok(
            (
                CtlView { stage: Stage::Stage1Active, saved: Some((pc, current)), ..m },
                OutView { writes: seq![(pc, m.stage1_text)], ret: None, install_hook: None },
            ),
        )
    }
}

/// The stage-2 hook firing at `pc`. It acts only once, out of `Stage1Active`;
/// fired in any other stage it is disabled and touches nothing.
pub open spec fn spec_inject_step(m: CtlView, pc: u64) -> (CtlView, OutView) {
    if m.stage == Stage::Stage1Active {
        (
            CtlView { stage: Stage::Stage2Active, ..m },
            OutView { writes: seq![(pc, m.stage2_text)], ret: None, install_hook: None },
        )
    } else {
        (m, empty_out())
    }
}

/// A process start. The second component of the result is the entry address
/// to hook — `Some` exactly when the process qualifies under the policy, in
/// which case the process-start observer is also to be deregistered.
pub open spec fn spec_proc_start_step(m: CtlView, meta: ProcessStart) -> Result<
    (CtlView, Option<u64>),
    ProtocolViolation,
> {
    if m.require_root && meta.euid != 0 {
        Ok((m, None))
    } else if m.pointers is Some {
        Err(ProtocolViolation::PointersAlreadySet)
    } else {
        Ok(
            (
                CtlView {
                    pointers: Some(
                        PointerSet {
                            execfn_ptr: meta.execfn_ptr,
                            argv_ptr_ptr: meta.argv_ptr_ptr,
                            env_ptr_ptr: meta.env_ptr_ptr,
                        },
                    ),
                    ..m
                },
                Some(meta.entry),
            ),
        )
    }
}

/// Loading the payload bytes, once.
pub open spec fn spec_provide_payload(m: CtlView, bytes: Seq<u8>) -> Result<
    CtlView,
    ProtocolViolation,
> {
    if m.payload is Some {
        Err(ProtocolViolation::PayloadAlreadySet)
    } else {
        Ok(CtlView { payload: Some((bytes, 0)), ..m })
    }
}

/// One full hypercall: the magic check, the command decode and the command's
/// step. `Ok((m2, None))` asks the shell to provide the payload and repeat
/// the hypercall; `Ok((m2, Some(out)))` is a handled call.
pub open spec fn spec_dispatch(m: CtlView, regs: HypercallRegs) -> Result<
    (CtlView, Option<OutView>),
    ProtocolViolation,
> {
    if regs.reg0 != MAGIC {
        Ok((m, Some(empty_out())))
    } else {
        match HcCmd::spec_parse(regs.reg1) {
            HcCmd::Start => {
                let (m2, o) = spec_start_step(m, regs.reg2);
                Ok((m2, Some(o)))
            },
            HcCmd::Write => match spec_write_step(m, regs.reg2, regs.reg3) {
                None => Ok((m, None)),
                Some((m2, o)) => Ok((m2, Some(o))),
            },
            HcCmd::Read => match spec_read_step(m, regs.reg2) {
                Ok((m2, o)) => Ok((m2, Some(o))),
                Err(e) => Err(e),
            },
            HcCmd::Stop => match spec_stop_step(m, regs.reg2) {
                Ok((m2, o)) => Ok((m2, Some(o))),
                Err(e) => Err(e),
            },
            _ => Ok((m, Some(empty_out()))),
        }
    }
}

/// The four registers of one hypercall: `reg0` carries the magic value,
/// `reg1` the command tag, `reg2` and `reg3` the command's arguments.
#[derive(Copy, Clone, Debug, PartialEq, Eq, Structural)]
pub struct HypercallRegs {
    /// Register 0: the magic value.
    pub reg0: u64,
    /// Register 1: the command tag.
    pub reg1: u64,
    /// Register 2: the command's first argument.
    pub reg2: u64,
    /// Register 3: the command's second argument.
    pub reg3: u64,
}

/// The payload under transfer: its bytes and the read cursor.
struct Payload {
    bytes: Vec<u8>,
    pos: usize,
}

/// The original bytes found at the entry point, kept for restoration.
struct SavedCode {
    addr: u64,
    bytes: Vec<u8>,
}

/// The result of dispatching one hypercall: either it was handled, or the
/// shell must load the payload bytes, hand them over with
/// [`Controller::provide_payload`], and repeat the call.
pub enum Dispatched {
    /// The call was handled with these effects.
    Handled(Outcome),
    /// The call was a `Write` and the payload is not loaded yet.
    NeedPayload,
}

impl View for Dispatched {
    type V = Option<OutView>;

    open spec fn view(&self) -> Option<OutView> {
        match self {
            Dispatched::Handled(o) => Some(o@),
            Dispatched::NeedPayload => None,
        }
    }
}

/// The injection controller for one emulator instance: configuration, the
/// two stub texts, and the transfer state, all behind explicit handlers.
pub struct Controller {
    require_root: bool,
    stage1_text: Vec<u8>,
    stage2_text: Vec<u8>,
    stage: Stage,
    pointers: Option<PointerSet>,
    pointers_read: usize,
    saved: Option<SavedCode>,
    payload: Option<Payload>,
}

impl View for Controller {
    type V = CtlView;

    closed spec fn view(&self) -> CtlView {
        CtlView {
            require_root: self.require_root,
            stage1_text: self.stage1_text@,
            stage2_text: self.stage2_text@,
            stage: self.stage,
            pointers: self.pointers,
            pointers_read: self.pointers_read as nat,
            saved: match self.saved {
                Some(s) => Some((s.addr, s.bytes@)),
                None => None,
            },
            payload: match self.payload {
                Some(p) => Some((p.bytes@, p.pos as nat)),
                None => None,
            },
        }
    }
}

/// Copy `v[start..end]` into a fresh vector.
fn copy_range(v: &Vec<u8>, start: usize, end: usize) -> (r: Vec<u8>)
    requires
        start <= end <= v.len(),
    ensures
        r@ == v@.subrange(start as int, end as int),
{
    let mut r: Vec<u8> = Vec::new();
    let mut i: usize = start;
    while i < end
        invariant
            start <= i <= end <= v.len(),
            r@ == v@.subrange(start as int, i as int),
        decreases end - i,
    {
        r.push(v[i]);
        i = i + 1;
        proof {
            assert(v@.subrange(start as int, i as int) =~= v@.subrange(
                start as int,
                i - 1,
            ).push(v@[i - 1]));
        }
    }
    r
}

/// Copy a whole vector of bytes.
fn copy_bytes(v: &Vec<u8>) -> (r: Vec<u8>)
    ensures
        r@ == v@,
{
    let r = copy_range(v, 0, v.len());
    proof {
        assert(v@.subrange(0, v.len() as int) =~= v@);
    }
    r
}

/// The outcome that touches nothing.
pub fn empty_outcome() -> (r: Outcome)
    ensures
        r@ == empty_out(),
{
    let r = Outcome { writes: Vec::new(), ret: None, install_hook: None };
    proof {
        assert(r@ =~= empty_out());
    }
    r
}

impl Controller {
    /// Build a controller from the policy flag and the two stub object files.
    /// Both stubs must expose a `.text` section; the stage-1 stub must be
    /// position independent with no gap, that is, its section must sit right
    /// at its entry address.
    pub fn new(require_root: bool, stage1_obj: &[u8], stage2_obj: &[u8]) -> (r: Result<
        Controller,
        ConfigError,
    >)
        ensures
            r is Ok <==> parses(stage1_obj@) && text_section_addr(stage1_obj@) == file_entry(
                stage1_obj@,
            ) && parses(stage2_obj@),
            r matches Ok(c) ==> c@ == (CtlView {
                require_root,
                stage1_text: text_section_data(stage1_obj@),
                stage2_text: text_section_data(stage2_obj@),
                stage: Stage::WaitingForEntry,
                pointers: None,
                pointers_read: 0,
                saved: None,
                payload: None,
            }) && c@.wf(),
            r matches Err(e) ==> (if !parses(stage1_obj@) {
                (!text_section_found(stage1_obj@) && e == ConfigError::MissingSection) || (
                text_section_found(stage1_obj@) && e == ConfigError::EntryAboveSection)
            } else if text_section_addr(stage1_obj@) != file_entry(stage1_obj@) {
                e == ConfigError::NonzeroOffset
            } else {
                (!text_section_found(stage2_obj@) && e == ConfigError::MissingSection) || (
                text_section_found(stage2_obj@) && e == ConfigError::EntryAboveSection)
            }),
    {
        let stage1 = match parse_file_data(stage1_obj) {
            Ok(s) => s,
            Err(e) => return Err(e),
        };
        if stage1.offset != 0 {
            return Err(ConfigError::NonzeroOffset);
        }
        let stage2 = match parse_file_data(stage2_obj) {
            Ok(s) => s,
            Err(e) => return Err(e),
        };
        let c = Controller {
            require_root,
            stage1_text: stage1.data,
            stage2_text: stage2.data,
            stage: Stage::WaitingForEntry,
            pointers: None,
            pointers_read: 0,
            saved: None,
            payload: None,
        };
        proof {
            assert(c@ =~= (CtlView {
                require_root,
                stage1_text: text_section_data(stage1_obj@),
                stage2_text: text_section_data(stage2_obj@),
                stage: Stage::WaitingForEntry,
                pointers: None,
                pointers_read: 0,
                saved: None,
                payload: None,
            }));
        }
        Ok(c)
    }

    /// Handle a process start. Returns the entry address to hook when the
    /// process qualifies under the policy (in which case the caller must also
    /// deregister the process-start observer), `None` when it does not.
    /// Capturing the pointer set a second time is a fatal violation.
    pub fn handle_proc_start(&mut self, meta: ProcessStart) -> (r: Result<
        Option<u64>,
        ProtocolViolation,
    >)
        requires
            old(self)@.wf(),
        ensures
            final(self)@.wf(),
            match r {
                Ok(hook) => spec_proc_start_step(old(self)@, meta) matches Ok(p) && p.0 == final(self)@ && p.1 == hook,
                Err(e) => final(self)@ == old(self)@ && (spec_proc_start_step(old(self)@, meta)
                    matches Err(e2) && e2 == e),
            },
    {
        if self.require_root && meta.euid != 0 {
            return Ok(None);
        }
        if self.pointers.is_some() {
            return Err(ProtocolViolation::PointersAlreadySet);
        }
        self.pointers = Some(
            PointerSet {
                execfn_ptr: meta.execfn_ptr,
                argv_ptr_ptr: meta.argv_ptr_ptr,
                env_ptr_ptr: meta.env_ptr_ptr,
            },
        );
        proof {
            assert(final(self)@ =~= (CtlView {
                pointers: final(self)@.pointers,
                ..old(self)@
            }));
        }
        Ok(Some(meta.entry))
    }

    /// The entry hook fired at `pc`, where `current_bytes` are the bytes the
    /// shell read there. Records them for restoration and hands back the
    /// stage-1 stub to write over them. Firing twice is a fatal violation.
    pub fn entry_hook(&mut self, pc: u64, current_bytes: Vec<u8>) -> (r: Result<
        Outcome,
        ProtocolViolation,
    >)
        requires
            old(self)@.wf(),
        ensures
            final(self)@.wf(),
            match r {
                Ok(out) => spec_entry_step(old(self)@, pc, current_bytes@) matches Ok(p) && p.0
                    == final(self)@ && p.1 == out@,
                Err(e) => final(self)@ == old(self)@ && (spec_entry_step(
                    old(self)@,
                    pc,
                    current_bytes@,
                ) matches Err(e2) && e2 == e),
            },
    {
        if !(matches!(self.stage, Stage::WaitingForEntry)) {
            return Err(ProtocolViolation::SavedCodeAlreadySet);
        }
        let stub = copy_bytes(&self.stage1_text);
        let mut writes: Vec<MemWrite> = Vec::new();
        writes.push(MemWrite { addr: pc, bytes: stub });
        let out = Outcome { writes, ret: None, install_hook: None };
        self.saved = Some(SavedCode { addr: pc, bytes: current_bytes });
        self.stage = Stage::Stage1Active;
        proof {
            let p = spec_entry_step(old(self)@, pc, current_bytes@)->Ok_0;
            assert(final(self)@ =~= p.0);
            assert(out@ =~= p.1);
        }
        Ok(out)
    }

    /// The stage-2 hook fired at `pc`: out of `Stage1Active` it hands back
    /// the stage-2 stub to write at `pc`; in every other stage it is disabled
    /// and the outcome is empty.
    pub fn inject_hook(&mut self, pc: u64) -> (r: Outcome)
        requires
            old(self)@.wf(),
        ensures
            final(self)@.wf(),
            spec_inject_step(old(self)@, pc).0 == final(self)@,
            spec_inject_step(old(self)@, pc).1 == r@,
    {
        if matches!(self.stage, Stage::Stage1Active) {
            let stub = copy_bytes(&self.stage2_text);
            let mut writes: Vec<MemWrite> = Vec::new();
            writes.push(MemWrite { addr: pc, bytes: stub });
            self.stage = Stage::Stage2Active;
            let out = Outcome { writes, ret: None, install_hook: None };
            proof {
                assert(final(self)@ =~= spec_inject_step(old(self)@, pc).0);
                assert(out@ =~= spec_inject_step(old(self)@, pc).1);
            }
            out
        } else {
            let out = empty_outcome();
            proof {
                assert(final(self)@ =~= spec_inject_step(old(self)@, pc).0);
            }
            out
        }
    }

    /// `Start(entry_addr)`: request installation of the one-shot stage-2 hook
    /// at the address the stage-1 stub supplied. No register is written.
    pub fn hyp_start(&self, entry_addr: u64) -> (r: Outcome)
        ensures
            spec_start_step(self@, entry_addr).1 == r@,
            spec_start_step(self@, entry_addr).0 == self@,
    {
        let out = Outcome { writes: Vec::new(), ret: None, install_hook: Some(entry_addr) };
        proof {
            assert(out@ =~= spec_start_step(self@, entry_addr).1);
        }
        out
    }

    /// Load the payload bytes, exactly once. Loading twice is a fatal
    /// violation.
    pub fn provide_payload(&mut self, bytes: Vec<u8>) -> (r: Result<(), ProtocolViolation>)
        requires
            old(self)@.wf(),
        ensures
            final(self)@.wf(),
            match r {
                Ok(_) => spec_provide_payload(old(self)@, bytes@) matches Ok(m2) && m2 == final(self)@,
                Err(e) => final(self)@ == old(self)@ && (spec_provide_payload(old(self)@, bytes@)
                    matches Err(e2) && e2 == e),
            },
    {
        if self.payload.is_some() {
            return Err(ProtocolViolation::PayloadAlreadySet);
        }
        self.payload = Some(Payload { bytes, pos: 0 });
        proof {
            let m2 = spec_provide_payload(old(self)@, bytes@)->Ok_0;
            assert(final(self)@ =~= m2);
        }
        Ok(())
    }

    /// `Write(dest, size_requested)`: copy the next `min(size_requested,
    /// remaining)` payload bytes to guest address `dest` and return the count;
    /// once the cursor is exhausted, return no value, which tells the stub the
    /// transfer has ended. Asks for the payload on the first call.
    pub fn hyp_write(&mut self, dest: u64, size_requested: u64) -> (r: Dispatched)
        requires
            old(self)@.wf(),
        ensures
            final(self)@.wf(),
            match r {
                Dispatched::NeedPayload => final(self)@ == old(self)@ && spec_write_step(
                    old(self)@,
                    dest,
                    size_requested,
                ) is None,
                Dispatched::Handled(out) => spec_write_step(old(self)@, dest, size_requested)
                    matches Some(p) && p.0 == final(self)@ && p.1 == out@,
            },
    {
        let ghost pre = self@;
        match &mut self.payload {
            None => Dispatched::NeedPayload,
            Some(p) => {
                if p.pos < p.bytes.len() {
                    let remaining = p.bytes.len() - p.pos;
                    let take: usize = if size_requested >= remaining as u64 {
                        remaining
                    } else {
                        size_requested as usize
                    };
                    let chunk = copy_range(&p.bytes, p.pos, p.pos + take);
                    p.pos = p.pos + take;
                    let mut writes: Vec<MemWrite> = Vec::new();
                    writes.push(MemWrite { addr: dest, bytes: chunk });
                    let out = Outcome { writes, ret: Some(take as u64), install_hook: None };
                    proof {
                        let q = spec_write_step(pre, dest, size_requested)->Some_0;
                        assert(final(self)@ =~= q.0);
                        assert(out@ =~= q.1);
                    }
                    Dispatched::Handled(out)
                } else {
                    let out = Outcome { writes: Vec::new(), ret: None, install_hook: None };
                    proof {
                        let q = spec_write_step(pre, dest, size_requested)->Some_0;
                        assert(final(self)@ =~= q.0);
                        assert(out@ =~= q.1);
                    }
                    Dispatched::Handled(out)
                }
            },
        }
    }

    /// `Read(liveness)`: deliver the next undelivered captured pointer.
    /// `liveness` must be nonzero — zero marks a forked child and is a fatal
    /// violation. Delivering the final pointer restores the saved entry
    /// bytes as a side effect; once exhausted, no value is returned.
    pub fn hyp_read(&mut self, liveness: u64) -> (r: Result<Outcome, ProtocolViolation>)
        requires
            old(self)@.wf(),
        ensures
            final(self)@.wf(),
            match r {
                Ok(out) => spec_read_step(old(self)@, liveness) matches Ok(p) && p.0 == final(self)@ && p.1 == out@,
                Err(e) => final(self)@ == old(self)@ && (spec_read_step(old(self)@, liveness)
                    matches Err(e2) && e2 == e),
            },
    {
        if liveness == 0 {
            return Err(ProtocolViolation::ZeroLiveness);
        }
        let ptrs = match &self.pointers {
            Some(p) => *p,
            None => return Err(ProtocolViolation::PointersMissing),
        };
        if self.pointers_read < 3 {
            let idx = self.pointers_read;
            let value = if idx == 0 {
                ptrs.execfn_ptr
            } else if idx == 1 {
                ptrs.argv_ptr_ptr
            } else {
                ptrs.env_ptr_ptr
            };
            if idx == 2 {
                let (addr, restored) = match &self.saved {
                    Some(s) => (s.addr, copy_bytes(&s.bytes)),
                    None => return Err(ProtocolViolation::SavedCodeMissing),
                };
                self.pointers_read = 3;
                self.stage = Stage::Complete;
                let mut writes: Vec<MemWrite> = Vec::new();
                writes.push(MemWrite { addr, bytes: restored });
                let out = Outcome { writes, ret: Some(value), install_hook: None };
                proof {
                    let p = spec_read_step(old(self)@, liveness)->Ok_0;
                    assert(final(self)@ =~= p.0);
                    assert(out@ =~= p.1);
                }
                Ok(out)
            } else {
                self.pointers_read = idx + 1;
                let out = Outcome { writes: Vec::new(), ret: Some(value), install_hook: None };
                proof {
                    let p = spec_read_step(old(self)@, liveness)->Ok_0;
                    assert(final(self)@ =~= p.0);
                    assert(out@ =~= p.1);
                }
                Ok(out)
            }
        } else {
            let out = Outcome { writes: Vec::new(), ret: None, install_hook: None };
            proof {
                let p = spec_read_step(old(self)@, liveness)->Ok_0;
                assert(final(self)@ =~= p.0);
                assert(out@ =~= p.1);
            }
            Ok(out)
        }
    }

    /// `Stop(restart_addr)`: if all pointers have been delivered, write the
    /// four-byte success marker at `restart_addr` and re-apply the
    /// restoration of the saved entry bytes; otherwise do nothing. Before
    /// the final pointer is delivered, `Stop` performs no guest-memory write.
    pub fn hyp_stop(&mut self, restart_addr: u64) -> (r: Result<Outcome, ProtocolViolation>)
        requires
            old(self)@.wf(),
        ensures
            final(self)@.wf(),
            final(self)@ == old(self)@,
            match r {
                Ok(out) => spec_stop_step(old(self)@, restart_addr) matches Ok(p) && p.0 == final(self)@ && p.1 == out@,
                Err(e) => spec_stop_step(old(self)@, restart_addr) matches Err(e2) && e2 == e,
            },
            r matches Ok(out) ==> (old(self)@.pointers_read < 3 ==> out@.writes.len() == 0),
    {
        match &self.pointers {
            Some(_) => (),
            None => return Err(ProtocolViolation::PointersMissing),
        };
        if self.pointers_read == 3 {
            let (addr, restored) = match &self.saved {
                Some(s) => (s.addr, copy_bytes(&s.bytes)),
                None => return Err(ProtocolViolation::SavedCodeMissing),
            };
            let mut marker: Vec<u8> = Vec::new();
            marker.push(1u8);
            marker.push(2u8);
            marker.push(3u8);
            marker.push(4u8);
            let mut writes: Vec<MemWrite> = Vec::new();
            writes.push(MemWrite { addr: restart_addr, bytes: marker });
            writes.push(MemWrite { addr, bytes: restored });
            let out = Outcome { writes, ret: None, install_hook: None };
            proof {
                let p = spec_stop_step(old(self)@, restart_addr)->Ok_0;
                assert(out@.writes[0].1 =~= success_marker());
                assert(out@ =~= p.1);
            }
            Ok(out)
        } else {
            let out = empty_outcome();
            Ok(out)
        }
    }

    /// How many bytes the stage-1 stub overwrites at the entry point — the
    /// number of original bytes the shell must read there before the entry
    /// hook is handled.
    pub fn stage1_len(&self) -> (r: usize)
        ensures
            r == self@.stage1_text.len(),
    {
        self.stage1_text.len()
    }

    /// Decode and route one guest hypercall. A call whose register 0 does not
    /// carry the magic value, or whose tag maps to a command with no action
    /// here, mutates neither guest memory nor any register.
    pub fn hypercall_handler(&mut self, regs: HypercallRegs) -> (r: Result<
        Dispatched,
        ProtocolViolation,
    >)
        requires
            old(self)@.wf(),
        ensures
            final(self)@.wf(),
            match r {
                Ok(d) => spec_dispatch(old(self)@, regs) matches Ok(p) && p.0 == final(self)@
                    && p.1 == d@,
                Err(e) => final(self)@ == old(self)@ && (spec_dispatch(old(self)@, regs)
                    matches Err(e2) && e2 == e),
            },
            regs.reg0 != MAGIC ==> final(self)@ == old(self)@ && (r matches Ok(d) && d@ == Some(
                empty_out(),
            )),
            regs.reg0 == MAGIC && HcCmd::spec_parse(regs.reg1) == HcCmd::Read && regs.reg2 == 0
                ==> r == Err::<Dispatched, ProtocolViolation>(ProtocolViolation::ZeroLiveness),
    {
        if regs.reg0 != MAGIC {
            return Ok(Dispatched::Handled(empty_outcome()));
        }
        let cmd = HcCmd::parse(regs.reg1);
        match cmd {
            HcCmd::Start => Ok(Dispatched::Handled(self.hyp_start(regs.reg2))),
            HcCmd::Write => Ok(self.hyp_write(regs.reg2, regs.reg3)),
            HcCmd::Read => match self.hyp_read(regs.reg2) {
                Ok(o) => Ok(Dispatched::Handled(o)),
                Err(e) => Err(e),
            },
            HcCmd::Stop => match self.hyp_stop(regs.reg2) {
                Ok(o) => Ok(Dispatched::Handled(o)),
                Err(e) => Err(e),
            },
            _ => Ok(Dispatched::Handled(empty_outcome())),
        }
    }
}

} // verus!
