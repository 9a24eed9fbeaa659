//! The domain grant: the register writes that hand the shared RAM and the
//! modem's peripherals to the non-secure domain, and a register bank that
//! shows what the writes do.

use crate::fault::Fault;
use crate::layout::{MemoryLayout, RAM_REGION_COUNT};
use crate::perm::{
    clear_secure_attribute, has_bit, is_locked, non_secure_word, RegionPerm, LOCK_BIT,
    SECATTR_BIT,
};
use vstd::prelude::*;

verus! {

/// Peripheral ID of the regulators.
pub const REGULATORS_ID: u32 = 4;

/// Peripheral ID of clock and power control.
pub const CLOCK_POWER_ID: u32 = 5;

/// Peripheral ID of the inter-processor communication block.
pub const IPC_ID: u32 = 42;

/// Number of peripheral IDs that have a permission register.
pub const PERIPHERAL_ID_COUNT: u32 = 67;

/// One write to a permission register of the security unit.
#[derive(Clone, Copy, Debug, PartialEq, Eq, Structural)]
pub enum GrantWrite {
    /// Replace the permissions of RAM region `index` by `perm`.
    RamRegion { index: u32, perm: RegionPerm },
    /// Clear the secure attribute of peripheral `id`, and nothing else.
    Peripheral { id: u32 },
}

/// A permission register: that of a RAM region or that of a peripheral.
#[derive(Clone, Copy, Debug, PartialEq, Eq, Structural)]
pub enum Register {
    RamRegion(u32),
    Peripheral(u32),
}

impl GrantWrite {
    /// The register that the write addresses.
    pub open spec fn target(self) -> Register {
        match self {
            GrantWrite::RamRegion { index, .. } => Register::RamRegion(index),
            GrantWrite::Peripheral { id } => Register::Peripheral(id),
        }
    }

    /// Whether the register that the write addresses exists.
    pub open spec fn in_range(self) -> bool {
        match self {
            GrantWrite::RamRegion { index, .. } => index < RAM_REGION_COUNT,
            GrantWrite::Peripheral { id } => id < PERIPHERAL_ID_COUNT,
        }
    }

    /// The word that the write stores in a register that holds `current`.
    pub open spec fn word(self, current: u32) -> u32 {
        match self {
            GrantWrite::RamRegion { perm, .. } => perm.bits(),
            GrantWrite::Peripheral { .. } => non_secure_word(current),
        }
    }

    /// Whether the register that the write addresses exists.
    pub fn addresses_register(&self) -> (ok: bool)
        ensures
            ok == self.in_range(),
    {
        match self {
            GrantWrite::RamRegion { index, .. } => *index < RAM_REGION_COUNT,
            GrantWrite::Peripheral { id } => *id < PERIPHERAL_ID_COUNT,
        }
    }

    /// The word to store in the addressed register, which holds `current`.
    /// A region write replaces the whole word; a peripheral write changes
    /// the secure attribute only.
    pub fn apply(&self, current: u32) -> (word: u32)
        ensures
            word == self.word(current),
    {
        match self {
            GrantWrite::RamRegion { perm, .. } => perm.to_bits(),
            GrantWrite::Peripheral { .. } => clear_secure_attribute(current),
        }
    }
}

/// Whether `id` is one of the peripherals that the modem needs.
pub open spec fn modem_peripheral(id: int) -> bool {
    id == REGULATORS_ID || id == CLOCK_POWER_ID || id == IPC_ID
}

/// The writes that grant `count` regions from `first` upwards.
pub open spec fn region_writes(first: int, count: int) -> Seq<GrantWrite> {
    Seq::new(
        count as nat,
        |k: int| GrantWrite::RamRegion { index: (first + k) as u32, perm: RegionPerm::shared_access() },
    )
}

/// The writes that grant the modem's peripherals.
pub open spec fn peripheral_writes() -> Seq<GrantWrite> {
    seq![
        GrantWrite::Peripheral { id: REGULATORS_ID },
        GrantWrite::Peripheral { id: CLOCK_POWER_ID },
        GrantWrite::Peripheral { id: IPC_ID },
    ]
}

/// The whole grant for a layout: every region of the shared extent in
/// rising order, then the three peripherals.
pub open spec fn plan_of(layout: MemoryLayout) -> Seq<GrantWrite> {
    region_writes(layout.first_region(), layout.region_count()) + peripheral_writes()
}

/// The writes of the domain grant, in the order in which they are made.
pub fn grant_plan(layout: &MemoryLayout) -> (plan: Vec<GrantWrite>)
    requires
        layout.wf(),
    ensures
        plan@ == plan_of(*layout),
        plan@.len() == layout.region_count() + 3,
{
    let (first, last) = layout.region_range();
    let perm = RegionPerm::non_secure_full_access();
    let mut plan: Vec<GrantWrite> = Vec::new();
    let mut index: u32 = first;
    while index <= last
        invariant
            first <= index <= last + 1,
            last < RAM_REGION_COUNT,
            perm == RegionPerm::shared_access(),
            plan@ == region_writes(first as int, index - first),
        decreases last + 1 - index,
    {
        plan.push(GrantWrite::RamRegion { index, perm });
        index = index + 1;
    }
    plan.push(GrantWrite::Peripheral { id: REGULATORS_ID });
    plan.push(GrantWrite::Peripheral { id: CLOCK_POWER_ID });
    plan.push(GrantWrite::Peripheral { id: IPC_ID });
    plan
}

/// What a register that holds `current` holds after `word` is written to
/// it. A register whose lock bit is set keeps its word until the next reset,
/// whatever is written.
pub open spec fn stored(current: u32, word: u32) -> u32 {
    if has_bit(current, LOCK_BIT) {
        current
    } else {
        word
    }
}

/// The words of all permission registers.
pub struct RegisterState {
    pub ram: Seq<u32>,
    pub peripherals: Seq<u32>,
}

impl RegisterState {
    /// There is one word for each register of the hardware.
    pub open spec fn wf(self) -> bool {
        self.ram.len() == RAM_REGION_COUNT && self.peripherals.len() == PERIPHERAL_ID_COUNT
    }

    /// The state after the write `w`. A write that addresses no register
    /// leaves the state as it is, and so does a write to a locked register.
    pub open spec fn written(self, w: GrantWrite) -> RegisterState {
        match w {
            GrantWrite::RamRegion { index, .. } => if index < self.ram.len() {
                RegisterState {
                    ram: self.ram.update(
                        index as int,
                        stored(self.ram[index as int], w.word(self.ram[index as int])),
                    ),
                    ..self
                }
            } else {
                self
            },
            GrantWrite::Peripheral { id } => if id < self.peripherals.len() {
                RegisterState {
                    peripherals: self.peripherals.update(
                        id as int,
                        stored(self.peripherals[id as int], w.word(self.peripherals[id as int])),
                    ),
                    ..self
                }
            } else {
                self
            },
        }
    }

    /// The state after the first `n` writes of `writes`, made in order.
    pub open spec fn written_all(self, writes: Seq<GrantWrite>, n: nat) -> RegisterState
        decreases n,
    {
        if n == 0 {
            self
        } else {
            self.written_all(writes, (n - 1) as nat).written(writes[n - 1])
        }
    }

    /// The state after the domain grant for `layout`: every region of the
    /// shared extent holds the shared-access word, the modem's peripherals
    /// have lost their secure attribute, and every other word is as before.
    /// A register that was locked before is as before, too.
    pub open spec fn granted(self, layout: MemoryLayout) -> RegisterState {
        RegisterState {
            ram: Seq::new(
                self.ram.len(),
                |i: int|
                    if layout.first_region() <= i <= layout.last_region() {
                        stored(self.ram[i], RegionPerm::shared_access().bits())
                    } else {
                        self.ram[i]
                    },
            ),
            peripherals: Seq::new(
                self.peripherals.len(),
                |id: int|
                    if modem_peripheral(id) {
                        stored(self.peripherals[id], non_secure_word(self.peripherals[id]))
                    } else {
                        self.peripherals[id]
                    },
            ),
        }
    }
}

/// The index of the first write from `from` on that addresses no register,
/// or the number of writes where there is none.
pub open spec fn first_fault(writes: Seq<GrantWrite>, from: nat) -> nat
    decreases writes.len() - from,
{
    if from >= writes.len() || !writes[from as int].in_range() {
        from
    } else {
        first_fault(writes, from + 1)
    }
}

/// The state after the first `n` region writes of a grant that starts at
/// region `first`.
spec fn regions_granted(state: RegisterState, first: int, n: int) -> RegisterState {
    RegisterState {
        ram: Seq::new(
            state.ram.len(),
            |i: int|
                if first <= i < first + n {
                    stored(state.ram[i], RegionPerm::shared_access().bits())
                } else {
                    state.ram[i]
                },
        ),
        peripherals: state.peripherals,
    }
}

proof fn lemma_regions_effect(state: RegisterState, layout: MemoryLayout, n: nat)
    requires
        state.wf(),
        layout.wf(),
        n <= layout.region_count(),
    ensures
        state.written_all(plan_of(layout), n) == regions_granted(
            state,
            layout.first_region(),
            n as int,
        ),
    decreases n,
{
    layout.lemma_range_is_ordered();
    let first = layout.first_region();
    let plan = plan_of(layout);
    if n == 0 {
        assert(regions_granted(state, first, 0).ram =~= state.ram);
    } else {
        lemma_regions_effect(state, layout, (n - 1) as nat);
        let before = regions_granted(state, first, n - 1);
        let w = plan[n - 1];
        assert(w == GrantWrite::RamRegion {
            index: (first + n - 1) as u32,
            perm: RegionPerm::shared_access(),
        });
        assert(before.written(w).ram =~= regions_granted(state, first, n as int).ram);
    }
}

/// The writes of a grant all address registers that exist, and made in
/// order they leave the registers in the granted state.
pub proof fn lemma_plan_effect(state: RegisterState, layout: MemoryLayout)
    requires
        state.wf(),
        layout.wf(),
    ensures
        forall|k: int| 0 <= k < plan_of(layout).len() ==> (#[trigger] plan_of(layout)[k]).in_range(),
        first_fault(plan_of(layout), 0) == plan_of(layout).len(),
        state.written_all(plan_of(layout), plan_of(layout).len()) == state.granted(layout),
        state.granted(layout).wf(),
{
    layout.lemma_range_is_ordered();
    let first = layout.first_region();
    let count = layout.region_count();
    let plan = plan_of(layout);
    assert(plan.len() == count + 3);
    assert forall|k: int| 0 <= k < plan.len() implies (#[trigger] plan[k]).in_range() by {
        if k < count {
            assert(plan[k] == GrantWrite::RamRegion {
                index: (first + k) as u32,
                perm: RegionPerm::shared_access(),
            });
        } else {
            assert(plan[k] == peripheral_writes()[k - count]);
        }
    }
    lemma_no_fault(plan, 0);
    lemma_regions_effect(state, layout, count as nat);
    let s0 = regions_granted(state, first, count);
    assert(plan[count] == GrantWrite::Peripheral { id: REGULATORS_ID });
    assert(plan[count + 1] == GrantWrite::Peripheral { id: CLOCK_POWER_ID });
    assert(plan[count + 2] == GrantWrite::Peripheral { id: IPC_ID });
    let s1 = s0.written(plan[count]);
    let s2 = s1.written(plan[count + 1]);
    let s3 = s2.written(plan[count + 2]);
    assert(state.written_all(plan, (count + 1) as nat) == s1);
    assert(state.written_all(plan, (count + 2) as nat) == s2);
    assert(state.written_all(plan, (count + 3) as nat) == s3);
    assert(s3.ram =~= state.granted(layout).ram);
    assert(s3.peripherals =~= state.granted(layout).peripherals);
}

proof fn lemma_no_fault(writes: Seq<GrantWrite>, from: nat)
    requires
        from <= writes.len(),
        forall|k: int| from <= k < writes.len() ==> (#[trigger] writes[k]).in_range(),
    ensures
        first_fault(writes, from) == writes.len(),
    decreases writes.len() - from,
{
    if from < writes.len() {
        lemma_no_fault(writes, from + 1);
    }
}

/// Granting twice leaves the registers as granting once does.
pub proof fn lemma_grant_is_idempotent(state: RegisterState, layout: MemoryLayout)
    requires
        state.wf(),
        layout.wf(),
    ensures
        state.granted(layout).granted(layout) == state.granted(layout),
{
    let once = state.granted(layout);
    let twice = once.granted(layout);
    assert forall|id: int| 0 <= id < once.peripherals.len() implies twice.peripherals[id]
        == once.peripherals[id] by {
        let word = state.peripherals[id];
        assert((word & !0x010u32) & !0x010u32 == word & !0x010u32) by (bit_vector);
    }
    assert(twice.ram =~= once.ram);
    assert(twice.peripherals =~= once.peripherals);
}

/// The grant locks nothing and unlocks nothing: a register is locked after
/// the grant exactly where it was locked before. A later boot stage can
/// still adjust whatever the grant has set.
pub proof fn lemma_grant_keeps_locks(state: RegisterState, layout: MemoryLayout, index: int, id: int)
    requires
        state.wf(),
        layout.wf(),
        0 <= index < RAM_REGION_COUNT,
        0 <= id < PERIPHERAL_ID_COUNT,
    ensures
        has_bit(state.granted(layout).ram[index], LOCK_BIT) == has_bit(state.ram[index], LOCK_BIT),
        has_bit(state.granted(layout).peripherals[id], LOCK_BIT) == has_bit(
            state.peripherals[id],
            LOCK_BIT,
        ),
{
    RegionPerm::lemma_shared_access_word();
    assert(0x007u32 & 0x100u32 == 0) by (bit_vector);
    let word = state.peripherals[id];
    assert((word & !0x010u32) & 0x100u32 == word & 0x100u32) by (bit_vector);
}

/// After the grant, every region of the shared extent that was not locked
/// allows read, write and execute from the non-secure domain and is not
/// locked; a locked region, and every region outside the extent, holds the
/// word it held before.
pub proof fn lemma_granted_regions(state: RegisterState, layout: MemoryLayout, index: int)
    requires
        state.wf(),
        layout.wf(),
        0 <= index < RAM_REGION_COUNT,
    ensures
        layout.overlaps(index) && !has_bit(state.ram[index], LOCK_BIT) ==> RegionPerm::decode(
            state.granted(layout).ram[index],
        ) == RegionPerm::shared_access(),
        layout.overlaps(index) && !has_bit(state.ram[index], LOCK_BIT) ==> state.granted(
            layout,
        ).ram[index] == 0x007,
        !layout.overlaps(index) || has_bit(state.ram[index], LOCK_BIT) ==> state.granted(
            layout,
        ).ram[index] == state.ram[index],
{
    layout.lemma_range_is_cover(index);
    RegionPerm::lemma_decode_bits(RegionPerm::shared_access());
    RegionPerm::lemma_shared_access_word();
}

/// After the grant, each of the modem's peripherals that was not locked has
/// its secure attribute cleared. No peripheral differs from its former word
/// in any other bit, and a peripheral that is locked, or is none of the
/// modem's, holds the word it held before.
pub proof fn lemma_granted_peripherals(state: RegisterState, layout: MemoryLayout, id: int)
    requires
        state.wf(),
        layout.wf(),
        0 <= id < PERIPHERAL_ID_COUNT,
    ensures
        modem_peripheral(id) && !has_bit(state.peripherals[id], LOCK_BIT) ==> !has_bit(
            state.granted(layout).peripherals[id],
            SECATTR_BIT,
        ),
        state.granted(layout).peripherals[id] & !SECATTR_BIT == state.peripherals[id]
            & !SECATTR_BIT,
        !modem_peripheral(id) || has_bit(state.peripherals[id], LOCK_BIT) ==> state.granted(
            layout,
        ).peripherals[id] == state.peripherals[id],
{
    let word = state.peripherals[id];
    assert((word & !0x010u32) & 0x010u32 == 0 && (word & !0x010u32) & !0x010u32 == word
        & !0x010u32) by (bit_vector);
}

/// What the writes of a grant store. The write for a region of the shared
/// extent stores read, write and execute, not secure and not locked, and
/// nothing else, whatever the register held. The write for a peripheral
/// stores the word that the register held, with the secure attribute
/// cleared and every other bit untouched.
pub proof fn lemma_plan_words(layout: MemoryLayout, k: int, current: u32)
    requires
        layout.wf(),
        0 <= k < plan_of(layout).len(),
    ensures
        k < layout.region_count() ==> {
            &&& plan_of(layout)[k] == (GrantWrite::RamRegion {
                index: (layout.first_region() + k) as u32,
                perm: RegionPerm::shared_access(),
            })
            &&& plan_of(layout)[k].word(current) == 0x007
            &&& RegionPerm::decode(plan_of(layout)[k].word(current)) == RegionPerm::shared_access()
        },
        k >= layout.region_count() ==> {
            &&& plan_of(layout)[k] is Peripheral
            &&& modem_peripheral(plan_of(layout)[k]->id as int)
            &&& !has_bit(plan_of(layout)[k].word(current), SECATTR_BIT)
            &&& plan_of(layout)[k].word(current) & !SECATTR_BIT == current & !SECATTR_BIT
        },
{
    layout.lemma_range_is_ordered();
    let count = layout.region_count();
    let plan = plan_of(layout);
    if k < count {
        RegionPerm::lemma_decode_bits(RegionPerm::shared_access());
        RegionPerm::lemma_shared_access_word();
    } else {
        assert(plan[k] == peripheral_writes()[k - count]);
        assert((current & !0x010u32) & 0x010u32 == 0 && (current & !0x010u32) & !0x010u32
            == current & !0x010u32) by (bit_vector);
    }
}

/// A grant writes every register at most once: no two of its writes
/// address the same register.
pub proof fn lemma_plan_writes_once(layout: MemoryLayout, i: int, j: int)
    requires
        layout.wf(),
        0 <= i < j < plan_of(layout).len(),
    ensures
        plan_of(layout)[i].target() != plan_of(layout)[j].target(),
{
    layout.lemma_range_is_ordered();
    let first = layout.first_region();
    let count = layout.region_count();
    let plan = plan_of(layout);
    if i < count {
        assert(plan[i] == GrantWrite::RamRegion {
            index: (first + i) as u32,
            perm: RegionPerm::shared_access(),
        });
    } else {
        assert(plan[i] == peripheral_writes()[i - count]);
    }
    if j < count {
        assert(plan[j] == GrantWrite::RamRegion {
            index: (first + j) as u32,
            perm: RegionPerm::shared_access(),
        });
    } else {
        assert(plan[j] == peripheral_writes()[j - count]);
    }
}

/// No write of a grant makes anything secure, and none sets a lock: the
/// word that a write stores has its secure attribute cleared, and has its
/// lock bit set only where the register held it before.
pub proof fn lemma_plan_never_secures_nor_locks(layout: MemoryLayout, k: int, current: u32)
    requires
        layout.wf(),
        0 <= k < plan_of(layout).len(),
    ensures
        !has_bit(plan_of(layout)[k].word(current), SECATTR_BIT),
        has_bit(plan_of(layout)[k].word(current), LOCK_BIT) ==> has_bit(current, LOCK_BIT),
        plan_of(layout)[k] is RamRegion ==> !has_bit(
            plan_of(layout)[k].word(current),
            LOCK_BIT,
        ),
{
    layout.lemma_range_is_ordered();
    let first = layout.first_region();
    let count = layout.region_count();
    let plan = plan_of(layout);
    if k < count {
        assert(plan[k] == GrantWrite::RamRegion {
            index: (first + k) as u32,
            perm: RegionPerm::shared_access(),
        });
        RegionPerm::lemma_shared_access_word();
        assert(0x007u32 & 0x010u32 == 0 && 0x007u32 & 0x100u32 == 0) by (bit_vector);
    } else {
        assert(plan[k] == peripheral_writes()[k - count]);
        assert((current & !0x010u32) & 0x010u32 == 0 && ((current & !0x010u32) & 0x100u32 != 0
            ==> current & 0x100u32 != 0)) by (bit_vector);
    }
}

/// A bank of permission registers: one word for each RAM region and one
/// for each peripheral ID. It stands for the hardware wherever the effect of
/// the grant is to be observed. Every bank that `new` makes is well formed,
/// and every method keeps it so.
pub struct SecurityRegisters {
    ram: Vec<u32>,
    peripherals: Vec<u32>,
}

impl View for SecurityRegisters {
    type V = RegisterState;

    closed spec fn view(&self) -> RegisterState {
        RegisterState { ram: self.ram@, peripherals: self.peripherals@ }
    }
}

impl SecurityRegisters {
    /// A bank in which every region word is `ram_word` and every peripheral
    /// word is `peripheral_word`.
    pub fn new(ram_word: u32, peripheral_word: u32) -> (bank: SecurityRegisters)
        ensures
            bank@.wf(),
            forall|i: int| 0 <= i < RAM_REGION_COUNT ==> bank@.ram[i] == ram_word,
            forall|id: int| 0 <= id < PERIPHERAL_ID_COUNT ==> bank@.peripherals[id] == peripheral_word,
    {
        let mut ram: Vec<u32> = Vec::new();
        let mut i: u32 = 0;
        while i < RAM_REGION_COUNT
            invariant
                i <= RAM_REGION_COUNT,
                ram@.len() == i,
                forall|k: int| 0 <= k < i ==> ram@[k] == ram_word,
            decreases RAM_REGION_COUNT - i,
        {
            ram.push(ram_word);
            i = i + 1;
        }
        let mut peripherals: Vec<u32> = Vec::new();
        let mut id: u32 = 0;
        while id < PERIPHERAL_ID_COUNT
            invariant
                id <= PERIPHERAL_ID_COUNT,
                peripherals@.len() == id,
                forall|k: int| 0 <= k < id ==> peripherals@[k] == peripheral_word,
            decreases PERIPHERAL_ID_COUNT - id,
        {
            peripherals.push(peripheral_word);
            id = id + 1;
        }
        SecurityRegisters { ram, peripherals }
    }

    /// The word of RAM region `index`, if there is such a region.
    pub fn region_word(&self, index: u32) -> (word: Option<u32>)
        requires
            self@.wf(),
        ensures
            word == if index < RAM_REGION_COUNT {
                Some(self@.ram[index as int])
            } else {
                None
            },
    {
        if index < RAM_REGION_COUNT {
            Some(self.ram[index as usize])
        } else {
            None
        }
    }

    /// The word of peripheral `id`, if there is such a peripheral.
    pub fn peripheral_word(&self, id: u32) -> (word: Option<u32>)
        requires
            self@.wf(),
        ensures
            word == if id < PERIPHERAL_ID_COUNT {
                Some(self@.peripherals[id as int])
            } else {
                None
            },
    {
        if id < PERIPHERAL_ID_COUNT {
            Some(self.peripherals[id as usize])
        } else {
            None
        }
    }

    /// Puts `word` into the register of RAM region `index`, as a reset or an
    /// earlier boot stage has left it there: no lock stands in the way.
    /// Fails, and changes nothing, where there is no such region.
    pub fn load_region(&mut self, index: u32, word: u32) -> (done: Result<(), Fault>)
        requires
            old(self)@.wf(),
        ensures
            final(self)@.wf(),
            done.is_ok() == (index < RAM_REGION_COUNT),
            done is Err ==> done == Err::<(), Fault>(Fault::HardwareFault) && final(self)@ == old(
                self,
            )@,
            done is Ok ==> final(self)@ == (RegisterState {
                ram: old(self)@.ram.update(index as int, word),
                ..old(self)@
            }),
    {
        if index < RAM_REGION_COUNT {
            self.ram.set(index as usize, word);
            Ok(())
        } else {
            Err(Fault::HardwareFault)
        }
    }

    /// Puts `word` into the register of peripheral `id`, as a reset or an
    /// earlier boot stage has left it there: no lock stands in the way.
    /// Fails, and changes nothing, where there is no such peripheral.
    pub fn load_peripheral(&mut self, id: u32, word: u32) -> (done: Result<(), Fault>)
        requires
            old(self)@.wf(),
        ensures
            final(self)@.wf(),
            done.is_ok() == (id < PERIPHERAL_ID_COUNT),
            done is Err ==> done == Err::<(), Fault>(Fault::HardwareFault) && final(self)@ == old(
                self,
            )@,
            done is Ok ==> final(self)@ == (RegisterState {
                peripherals: old(self)@.peripherals.update(id as int, word),
                ..old(self)@
            }),
    {
        if id < PERIPHERAL_ID_COUNT {
            self.peripherals.set(id as usize, word);
            Ok(())
        } else {
            Err(Fault::HardwareFault)
        }
    }

    /// Performs one write of a grant. A write that addresses no register is
    /// a hardware fault and changes nothing; a write to a locked register
    /// succeeds and changes nothing.
    pub fn write(&mut self, w: &GrantWrite) -> (done: Result<(), Fault>)
        requires
            old(self)@.wf(),
        ensures
            final(self)@.wf(),
            done.is_ok() == w.in_range(),
            done is Err ==> done == Err::<(), Fault>(Fault::HardwareFault),
            final(self)@ == old(self)@.written(*w),
    {
        match w {
            GrantWrite::RamRegion { index, .. } => {
                if *index < RAM_REGION_COUNT {
                    let current = self.ram[*index as usize];
                    if !is_locked(current) {
                        self.ram.set(*index as usize, w.apply(current));
                    }
                    assert(self@.ram =~= old(self)@.written(*w).ram);
                    Ok(())
                } else {
                    Err(Fault::HardwareFault)
                }
            },
            GrantWrite::Peripheral { id } => {
                if *id < PERIPHERAL_ID_COUNT {
                    let current = self.peripherals[*id as usize];
                    if !is_locked(current) {
                        self.peripherals.set(*id as usize, w.apply(current));
                    }
                    assert(self@.peripherals =~= old(self)@.written(*w).peripherals);
                    Ok(())
                } else {
                    Err(Fault::HardwareFault)
                }
            },
        }
    }

    /// Performs the writes in order and stops before the first that
    /// addresses no register, which is a hardware fault.
    pub fn write_all(&mut self, writes: &Vec<GrantWrite>) -> (done: Result<(), Fault>)
        requires
            old(self)@.wf(),
        ensures
            final(self)@.wf(),
            done.is_ok() == (first_fault(writes@, 0) == writes@.len()),
            done is Err ==> done == Err::<(), Fault>(Fault::HardwareFault),
            final(self)@ == old(self)@.written_all(writes@, first_fault(writes@, 0)),
    {
        let mut k: usize = 0;
        while k < writes.len()
            invariant
                k <= writes@.len(),
                self@.wf(),
                first_fault(writes@, 0) == first_fault(writes@, k as nat),
                self@ == old(self)@.written_all(writes@, k as nat),
            decreases writes@.len() - k,
        {
            if !writes[k].addresses_register() {
                return Err(Fault::HardwareFault);
            }
            let _ = self.write(&writes[k]);
            k = k + 1;
        }
        Ok(())
    }

    /// The domain grant: hands every RAM region of the layout's shared
    /// extent, and the modem's three peripherals, to the non-secure domain.
    /// Returns the writes that were made, in order.
    pub fn configure(&mut self, layout: &MemoryLayout) -> (plan: Vec<GrantWrite>)
        requires
            old(self)@.wf(),
            layout.wf(),
        ensures
            final(self)@.wf(),
            plan@ == plan_of(*layout),
            final(self)@ == old(self)@.granted(*layout),
    {
        let plan = grant_plan(layout);
        proof {
            lemma_plan_effect(self@, *layout);
        }
        let _ = self.write_all(&plan);
        plan
    }
}

} // verus!
