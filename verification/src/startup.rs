//! The one-time hardware operations of the startup, and their order.
//!
//! The domain grant comes first. Only then is the modem's interrupt let
//! through: its handler hands every event to the modem driver, which touches
//! the shared memory and the communication block that the grant opens. The
//! session runs last.

use crate::grant::{grant_plan, plan_of, GrantWrite};
use crate::layout::MemoryLayout;
use cortex_m::interrupt::InterruptNumber;
use embassy_nrf::pac::Interrupt;
use vstd::prelude::*;

verus! {

/// Number of priority bits that the interrupt controller implements. They
/// are the upper bits of the priority register.
pub const PRIORITY_BITS: u8 = 3;

/// The priority level of the modem's interrupt.
pub const IPC_PRIORITY_LEVEL: u8 = 0;

/// The interrupt line of the inter-processor communication block. It bears
/// the number of the block's peripheral ID.
pub const IPC_LINE: u16 = 42;

/// `InterruptNumber::number` of the peripheral access crate's interrupt
/// `IPC`: the position of the line in the vector table, which is 42.
#[verifier::external_body]
fn ipc_interrupt_number() -> (line: u16)
    ensures
        line == IPC_LINE,
{
    Interrupt::IPC.number()
}

/// One hardware operation of the startup.
#[derive(Clone, Copy, Debug, PartialEq, Eq, Structural)]
pub enum StartupOp {
    /// Make one write of the domain grant.
    Grant(GrantWrite),
    /// Let the interrupt `line` through.
    Unmask { line: u16 },
    /// Store `value` in the priority register of `line`.
    SetPriority { line: u16, value: u8 },
    /// Run the session.
    RunSession,
}

/// The value of the priority register for a priority level.
pub open spec fn priority_value(level: u8) -> u8 {
    (level * 32) as u8
}

/// The value to store in an interrupt's priority register for a priority
/// level: the level, moved into the implemented upper bits.
pub fn priority_register_value(level: u8) -> (value: u8)
    requires
        level < 8,
    ensures
        value == priority_value(level),
        value == level << 5,
        value as int == level * 32,
{
    assert(level << 5u8 == (level * 32) as u8 && level * 32 < 256) by (bit_vector)
        requires
            level < 8,
    ;
    level << (8 - PRIORITY_BITS)
}

/// The operations of the startup for a layout: the writes of the grant in
/// their order, then the unmasking of the modem's interrupt, its priority,
/// and the session.
pub open spec fn startup_of(layout: MemoryLayout) -> Seq<StartupOp> {
    Seq::new(plan_of(layout).len(), |k: int| StartupOp::Grant(plan_of(layout)[k])) + seq![
        StartupOp::Unmask { line: IPC_LINE },
        StartupOp::SetPriority { line: IPC_LINE, value: priority_value(IPC_PRIORITY_LEVEL) },
        StartupOp::RunSession,
    ]
}

/// The hardware operations of the startup, in the order in which they are
/// to be made.
pub fn startup_plan(layout: &MemoryLayout) -> (ops: Vec<StartupOp>)
    requires
        layout.wf(),
    ensures
        ops@ == startup_of(*layout),
        grant_precedes_unmask(ops@, *layout),
{
    let grants = grant_plan(layout);
    let mut ops: Vec<StartupOp> = Vec::new();
    let mut k: usize = 0;
    while k < grants.len()
        invariant
            k <= grants@.len(),
            grants@ == plan_of(*layout),
            ops@ == Seq::new(k as nat, |j: int| StartupOp::Grant(plan_of(*layout)[j])),
        decreases grants@.len() - k,
    {
        ops.push(StartupOp::Grant(grants[k]));
        k = k + 1;
    }
    let line = ipc_interrupt_number();
    ops.push(StartupOp::Unmask { line });
    ops.push(StartupOp::SetPriority { line, value: priority_register_value(IPC_PRIORITY_LEVEL) });
    ops.push(StartupOp::RunSession);
    proof {
        lemma_startup_order(*layout);
    }
    ops
}

/// Whether the first operations of `ops` are the writes of the grant for
/// `layout`, all of them and in their order.
pub open spec fn begins_with_grant(ops: Seq<StartupOp>, layout: MemoryLayout) -> bool {
    &&& plan_of(layout).len() <= ops.len()
    &&& forall|k: int|
        0 <= k < plan_of(layout).len() ==> #[trigger] ops[k] == StartupOp::Grant(plan_of(layout)[k])
}

/// Whether no interrupt is let through in `ops` before the grant for
/// `layout` is complete: wherever `ops` unmasks, every write of the grant
/// has been made before, and no write of a grant follows.
pub open spec fn grant_precedes_unmask(ops: Seq<StartupOp>, layout: MemoryLayout) -> bool {
    forall|j: int|
        0 <= j < ops.len() && #[trigger] ops[j] is Unmask ==> {
            &&& begins_with_grant(ops, layout)
            &&& plan_of(layout).len() <= j
            &&& forall|k: int| j < k < ops.len() ==> !(#[trigger] ops[k] is Grant)
        }
}

/// The startup keeps its order: the grant is complete before the interrupt
/// is let through, the interrupt that is let through is the one of a block
/// that the grant has opened, and the session runs last.
pub proof fn lemma_startup_order(layout: MemoryLayout)
    requires
        layout.wf(),
    ensures
        grant_precedes_unmask(startup_of(layout), layout),
        begins_with_grant(startup_of(layout), layout),
        startup_of(layout).len() == plan_of(layout).len() + 3,
        startup_of(layout)[plan_of(layout).len() as int] == (StartupOp::Unmask { line: IPC_LINE }),
        startup_of(layout).last() == StartupOp::RunSession,
        plan_of(layout).contains(GrantWrite::Peripheral { id: IPC_LINE as u32 }),
{
    let ops = startup_of(layout);
    let plan = plan_of(layout);
    let n = plan.len() as int;
    layout.lemma_range_is_ordered();
    assert(plan.len() == layout.region_count() + 3);
    assert(plan[n - 1] == GrantWrite::Peripheral { id: IPC_LINE as u32 });
    assert forall|k: int| 0 <= k < n implies #[trigger] ops[k] == StartupOp::Grant(plan[k]) by {}
    assert(ops[n] == StartupOp::Unmask { line: IPC_LINE });
    assert(ops[n + 1] is SetPriority);
    assert(ops[n + 2] == StartupOp::RunSession);
    assert forall|j: int| 0 <= j < ops.len() && #[trigger] ops[j] is Unmask implies {
        &&& begins_with_grant(ops, layout)
        &&& n <= j
        &&& forall|k: int| j < k < ops.len() ==> !(#[trigger] ops[k] is Grant)
    } by {
        if j < n {
            assert(ops[j] == StartupOp::Grant(plan[j]));
        }
        assert forall|k: int| j < k < ops.len() implies !(#[trigger] ops[k] is Grant) by {
            assert(k == n + 1 || k == n + 2);
        }
    }
}

/// Checks a sequence of startup operations, as made or as planned, against
/// the order that the grant demands: `true` exactly where no interrupt is
/// let through before the grant for `layout` is complete.
pub fn check_order(ops: &Vec<StartupOp>, layout: &MemoryLayout) -> (in_order: bool)
    requires
        layout.wf(),
    ensures
        in_order == grant_precedes_unmask(ops@, *layout),
{
    let plan = grant_plan(layout);
    let mut first_unmask: usize = 0;
    while first_unmask < ops.len() && !is_unmask(&ops[first_unmask])
        invariant
            first_unmask <= ops@.len(),
            forall|j: int| 0 <= j < first_unmask ==> !(#[trigger] ops@[j] is Unmask),
        decreases ops@.len() - first_unmask,
    {
        first_unmask = first_unmask + 1;
    }
    if first_unmask == ops.len() {
        return true;
    }
    if plan.len() > first_unmask {
        assert(ops@[first_unmask as int] is Unmask);
        return false;
    }
    let mut k: usize = 0;
    while k < plan.len()
        invariant
            k <= plan@.len() <= first_unmask < ops@.len(),
            plan@ == plan_of(*layout),
            ops@[first_unmask as int] is Unmask,
            forall|j: int| 0 <= j < k ==> #[trigger] ops@[j] == StartupOp::Grant(plan@[j]),
        decreases plan@.len() - k,
    {
        let same = match ops[k] {
            StartupOp::Grant(w) => w == plan[k],
            _ => false,
        };
        if !same {
            assert(ops@[k as int] != StartupOp::Grant(plan@[k as int]));
            return false;
        }
        k = k + 1;
    }
    let mut m: usize = first_unmask + 1;
    while m < ops.len()
        invariant
            first_unmask < m <= ops@.len(),
            ops@[first_unmask as int] is Unmask,
            forall|j: int| first_unmask < j < m ==> !(#[trigger] ops@[j] is Grant),
        decreases ops@.len() - m,
    {
        if is_grant(&ops[m]) {
            assert(ops@[first_unmask as int] is Unmask);
            return false;
        }
        m = m + 1;
    }
    assert(begins_with_grant(ops@, *layout));
    true
}

/// Whether the operation unmasks an interrupt.
fn is_unmask(op: &StartupOp) -> (unmask: bool)
    ensures
        unmask == (*op is Unmask),
{
    match op {
        StartupOp::Unmask { .. } => true,
        _ => false,
    }
}

/// Whether the operation is a write of a grant.
fn is_grant(op: &StartupOp) -> (grant: bool)
    ensures
        grant == (*op is Grant),
{
    match op {
        StartupOp::Grant(_) => true,
        _ => false,
    }
}

} // verus!
