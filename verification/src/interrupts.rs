//! Interrupt source registry and binding certificates.
//!
//! Every interrupt vector used by the subsystem has an identity in
//! [`InterruptId`]. The NVIC (the core's interrupt controller) is modeled by
//! [`Nvic`], which records the enabled/pending/priority state of each vector;
//! drivers mutate that state through the source types below.
//!
//! A driver that wants to service interrupts asynchronously must present a
//! [`Binding`]: a certificate, issued exactly once per vector by a
//! [`Bindings`] registry, that a handler has been wired to that vector. The
//! registry refuses to issue a second certificate for a vector that already
//! has one, so at most one handler ever services a given interrupt source.

use vstd::prelude::*;

verus! {

/// Number of priority bits the modeled NVIC implements.
pub const NVIC_PRIO_BITS: u8 = 2;

/// Number of interrupt vectors in [`InterruptId`].
pub const NUM_VECTORS: usize = 12;

/// Identity of one hardware interrupt vector.
#[derive(Clone, Copy, Debug, PartialEq, Eq, Structural)]
pub enum InterruptId {
    /// DMA controller, channel 0.
    Dmac0,
    /// DMA controller, channel 1.
    Dmac1,
    /// DMA controller, channel 2.
    Dmac2,
    /// DMA controller, all remaining channels.
    DmacOther,
    /// Serial engine 0.
    Sercom0,
    /// Serial engine 1.
    Sercom1,
    /// Serial engine 2.
    Sercom2,
    /// Timer/counter 3.
    Tc3,
    /// Timer/counter 4.
    Tc4,
    /// Timer/counter 5.
    Tc5,
    /// External interrupt controller.
    Eic,
    /// Analog-to-digital converter.
    Adc,
}

impl InterruptId {
    /// Position of this vector in the NVIC's register banks.
    pub open spec fn spec_index(self) -> int {
        match self {
            InterruptId::Dmac0 => 0,
            InterruptId::Dmac1 => 1,
            InterruptId::Dmac2 => 2,
            InterruptId::DmacOther => 3,
            InterruptId::Sercom0 => 4,
            InterruptId::Sercom1 => 5,
            InterruptId::Sercom2 => 6,
            InterruptId::Tc3 => 7,
            InterruptId::Tc4 => 8,
            InterruptId::Tc5 => 9,
            InterruptId::Eic => 10,
            InterruptId::Adc => 11,
        }
    }

    /// Vector number of this interrupt.
    pub fn index(self) -> (i: usize)
        ensures
            i == self.spec_index(),
            i < NUM_VECTORS,
    {
        match self {
            InterruptId::Dmac0 => 0,
            InterruptId::Dmac1 => 1,
            InterruptId::Dmac2 => 2,
            InterruptId::DmacOther => 3,
            InterruptId::Sercom0 => 4,
            InterruptId::Sercom1 => 5,
            InterruptId::Sercom2 => 6,
            InterruptId::Tc3 => 7,
            InterruptId::Tc4 => 8,
            InterruptId::Tc5 => 9,
            InterruptId::Eic => 10,
            InterruptId::Adc => 11,
        }
    }
}

/// Logical interrupt priority level.
///
/// `P4` is the most urgent and `P1` the least urgent level. The logical
/// scale ascends with urgency, while the hardware encoding descends: the
/// translation between the two is a fixed bit-shift formula.
#[derive(Clone, Copy, Debug, PartialEq, Eq, Structural)]
pub enum Priority {
    /// Least urgent level.
    P1,
    /// Second least urgent level.
    P2,
    /// Second most urgent level.
    P3,
    /// Most urgent level.
    P4,
}

impl Priority {
    /// Numeric value of the logical level, ascending with urgency.
    pub open spec fn spec_level(self) -> u8 {
        match self {
            Priority::P1 => 1,
            Priority::P2 => 2,
            Priority::P3 => 3,
            Priority::P4 => 4,
        }
    }

    /// Numeric value of the logical level.
    pub fn level(self) -> (r: u8)
        ensures
            r == self.spec_level(),
            1 <= r <= 4,
    {
        match self {
            Priority::P1 => 1,
            Priority::P2 => 2,
            Priority::P3 => 3,
            Priority::P4 => 4,
        }
    }

    /// Hardware encoding of a logical level.
    pub open spec fn spec_logical2hw(self) -> u8 {
        (((4 - self.spec_level()) as u8) << 6) as u8
    }

    /// Convert a logical priority (higher number = more urgent) to the
    /// hardware priority encoding (lower number = more urgent). The
    /// hardware keeps the level in the top [`NVIC_PRIO_BITS`] bits of a
    /// byte, so every encoded value is a multiple of the hardware
    /// granularity `0x40`.
    pub fn logical2hw(self) -> (r: u8)
        ensures
            r == self.spec_logical2hw(),
            r % 0x40 == 0,
    {
        let l = self.level();
        let r: u8 = (4 - l) << 6;
        proof {
            let lv = self.spec_level();
            assert(1 <= lv <= 4 ==> ((((4 - lv) as u8) << 6) as u8) % 0x40 == 0) by (bit_vector);
        }
        r
    }

    /// Logical level denoted by an exact-granularity hardware value.
    pub open spec fn spec_hw2logical(prio: u8) -> Priority {
        if prio >> 6 == 0 {
            Priority::P4
        } else if prio >> 6 == 1 {
            Priority::P3
        } else if prio >> 6 == 2 {
            Priority::P2
        } else {
            Priority::P1
        }
    }

    /// Convert a hardware priority value back to a logical priority.
    ///
    /// The translation is defined only for hardware values that are exact
    /// multiples of the hardware's priority granularity (`0x40` with two
    /// priority bits); any other raw value indicates a corrupted register
    /// read and is a programming error, excluded here by precondition.
    /// Use [`Priority::try_hw2logical`] to screen an untrusted raw value.
    pub fn hw2logical(prio: u8) -> (r: Priority)
        requires
            prio % 0x40 == 0,
        ensures
            r == Priority::spec_hw2logical(prio),
    {
        match prio >> 6 {
            0 => Priority::P4,
            1 => Priority::P3,
            2 => Priority::P2,
            _ => Priority::P1,
        }
    }

    /// Translate a raw hardware priority value, rejecting any value that is
    /// not an exact multiple of the hardware's priority granularity.
    pub fn try_hw2logical(prio: u8) -> (r: Option<Priority>)
        ensures
            prio % 0x40 == 0 ==> r == Some(Priority::spec_hw2logical(prio)),
            prio % 0x40 != 0 ==> r is None,
    {
        if prio % 0x40 == 0 {
            Some(Self::hw2logical(prio))
        } else {
            None
        }
    }
}

/// For every valid logical priority level, translating to the hardware
/// encoding and back yields the same level.
pub proof fn lemma_priority_round_trip(p: Priority)
    ensures
        Priority::spec_hw2logical(p.spec_logical2hw()) == p,
{
    let lv = p.spec_level();
    assert(1 <= lv <= 4 ==> ((((4 - lv) as u8) << 6) as u8) >> 6 == (4 - lv) as u8)
        by (bit_vector);
}

/// Model of the NVIC's per-vector state: which vectors are enabled, which
/// are pending, and the hardware priority value of each.
pub struct Nvic {
    /// Enable bit of each vector.
    pub enabled: Vec<bool>,
    /// Pending bit of each vector.
    pub pending: Vec<bool>,
    /// Hardware priority byte of each vector.
    pub priority: Vec<u8>,
}

impl Nvic {
    /// The register banks cover every vector of [`InterruptId`].
    pub open spec fn wf(self) -> bool {
        &&& self.enabled.len() == NUM_VECTORS
        &&& self.pending.len() == NUM_VECTORS
        &&& self.priority.len() == NUM_VECTORS
    }

    /// Reset state: every vector disabled, not pending, at hardware
    /// priority zero.
    pub fn new() -> (r: Nvic)
        ensures
            r.wf(),
            forall|i: int| 0 <= i < NUM_VECTORS ==> !r.enabled[i] && !r.pending[i],
            forall|i: int| 0 <= i < NUM_VECTORS ==> r.priority[i] == 0,
    {
        let mut enabled: Vec<bool> = Vec::new();
        let mut pending: Vec<bool> = Vec::new();
        let mut priority: Vec<u8> = Vec::new();
        let mut i: usize = 0;
        while i < NUM_VECTORS
            invariant
                i <= NUM_VECTORS,
                enabled.len() == i,
                pending.len() == i,
                priority.len() == i,
                forall|j: int| 0 <= j < i ==> !enabled[j] && !pending[j],
                forall|j: int| 0 <= j < i ==> priority[j] == 0,
            decreases NUM_VECTORS - i,
        {
            enabled.push(false);
            pending.push(false);
            priority.push(0);
            i = i + 1;
        }
        Nvic { enabled, pending, priority }
    }

    /// Enable one vector.
    pub fn enable(&mut self, irq: InterruptId)
        requires
            old(self).wf(),
        ensures
            final(self).wf(),
            final(self).enabled@ == old(self).enabled@.update(irq.spec_index(), true),
            final(self).pending == old(self).pending,
            final(self).priority == old(self).priority,
    {
        let i = irq.index();
        self.enabled[i] = true;
    }

    /// Disable one vector.
    pub fn disable(&mut self, irq: InterruptId)
        requires
            old(self).wf(),
        ensures
            final(self).wf(),
            final(self).enabled@ == old(self).enabled@.update(irq.spec_index(), false),
            final(self).pending == old(self).pending,
            final(self).priority == old(self).priority,
    {
        let i = irq.index();
        self.enabled[i] = false;
    }

    /// Whether one vector is enabled.
    pub fn is_enabled(&self, irq: InterruptId) -> (r: bool)
        requires
            self.wf(),
        ensures
            r == self.enabled[irq.spec_index()],
    {
        self.enabled[irq.index()]
    }

    /// Whether one vector is pending.
    pub fn is_pending(&self, irq: InterruptId) -> (r: bool)
        requires
            self.wf(),
        ensures
            r == self.pending[irq.spec_index()],
    {
        self.pending[irq.index()]
    }

    /// Set one vector pending.
    pub fn pend(&mut self, irq: InterruptId)
        requires
            old(self).wf(),
        ensures
            final(self).wf(),
            final(self).pending@ == old(self).pending@.update(irq.spec_index(), true),
            final(self).enabled == old(self).enabled,
            final(self).priority == old(self).priority,
    {
        let i = irq.index();
        self.pending[i] = true;
    }

    /// Clear one vector's pending bit.
    pub fn unpend(&mut self, irq: InterruptId)
        requires
            old(self).wf(),
        ensures
            final(self).wf(),
            final(self).pending@ == old(self).pending@.update(irq.spec_index(), false),
            final(self).enabled == old(self).enabled,
            final(self).priority == old(self).priority,
    {
        let i = irq.index();
        self.pending[i] = false;
    }

    /// Set the priority of one vector from a logical level.
    pub fn set_priority(&mut self, irq: InterruptId, prio: Priority)
        requires
            old(self).wf(),
        ensures
            final(self).wf(),
            final(self).priority@ == old(self).priority@.update(
                irq.spec_index(),
                prio.spec_logical2hw(),
            ),
            final(self).enabled == old(self).enabled,
            final(self).pending == old(self).pending,
    {
        let i = irq.index();
        self.priority[i] = prio.logical2hw();
    }

    /// Read the priority of one vector as a logical level.
    ///
    /// The stored byte must be an exact multiple of the hardware priority
    /// granularity; [`Nvic::set_priority`] only ever stores such values.
    pub fn get_priority(&self, irq: InterruptId) -> (r: Priority)
        requires
            self.wf(),
            self.priority[irq.spec_index()] % 0x40 == 0,
        ensures
            r == Priority::spec_hw2logical(self.priority[irq.spec_index()]),
    {
        Priority::hw2logical(self.priority[irq.index()])
    }
}

/// Whether some vector in `vs` sits at NVIC position `j`.
pub open spec fn covers(vs: Seq<InterruptId>, j: int) -> bool {
    exists|k: int| 0 <= k < vs.len() && #[trigger] vs[k].spec_index() == j
}
/// What enabling a set of vectors does to the NVIC: exactly those vectors
/// become enabled, everything else is untouched.
pub open spec fn spec_enable_effect(pre: Nvic, post: Nvic, vs: Seq<InterruptId>) -> bool {
    &&& post.wf()
    &&& forall|j: int|
        0 <= j < NUM_VECTORS ==> (#[trigger] post.enabled@[j]) == (pre.enabled@[j] || covers(
            vs,
            j,
        ))
    &&& post.pending == pre.pending
    &&& post.priority == pre.priority
}

/// What disabling a set of vectors does to the NVIC.
pub open spec fn spec_disable_effect(pre: Nvic, post: Nvic, vs: Seq<InterruptId>) -> bool {
    &&& post.wf()
    &&& forall|j: int|
        0 <= j < NUM_VECTORS ==> (#[trigger] post.enabled@[j]) == (pre.enabled@[j] && !covers(
            vs,
            j,
        ))
    &&& post.pending == pre.pending
    &&& post.priority == pre.priority
}

/// What clearing the pending bit of a set of vectors does to the NVIC.
pub open spec fn spec_unpend_effect(pre: Nvic, post: Nvic, vs: Seq<InterruptId>) -> bool {
    &&& post.wf()
    &&& forall|j: int|
        0 <= j < NUM_VECTORS ==> (#[trigger] post.pending@[j]) == (pre.pending@[j] && !covers(
            vs,
            j,
        ))
    &&& post.enabled == pre.enabled
    &&& post.priority == pre.priority
}

/// What setting the priority of a set of vectors does to the NVIC.
pub open spec fn spec_set_priority_effect(
    pre: Nvic,
    post: Nvic,
    vs: Seq<InterruptId>,
    prio: Priority,
) -> bool {
    &&& post.wf()
    &&& forall|j: int|
        0 <= j < NUM_VECTORS && covers(vs, j) ==> (#[trigger] post.priority@[j])
            == prio.spec_logical2hw()
    &&& forall|j: int|
        0 <= j < NUM_VECTORS && !covers(vs, j) ==> (#[trigger] post.priority@[j])
            == pre.priority@[j]
    &&& post.enabled == pre.enabled
    &&& post.pending == pre.pending
}

/// What clearing the pending bits and then enabling a set of vectors does
/// to the NVIC: the vectors end up enabled and not pending, everything
/// else is untouched.
pub open spec fn spec_unpend_then_enable_effect(
    pre: Nvic,
    post: Nvic,
    vs: Seq<InterruptId>,
) -> bool {
    &&& post.wf()
    &&& forall|j: int|
        0 <= j < NUM_VECTORS ==> (#[trigger] post.enabled@[j]) == (pre.enabled@[j] || covers(
            vs,
            j,
        ))
    &&& forall|j: int|
        0 <= j < NUM_VECTORS ==> (#[trigger] post.pending@[j]) == (pre.pending@[j] && !covers(
            vs,
            j,
        ))
    &&& post.priority == pre.priority
}

/// Enable every vector of `vs`, in order, leaving the rest untouched.
pub(crate) fn apply_enable(nvic: &mut Nvic, vs: &Vec<InterruptId>)
    requires
        old(nvic).wf(),
    ensures
        spec_enable_effect(*old(nvic), *final(nvic), vs@),
{
    let n = vs.len();
    let mut i: usize = 0;
    while i < n
        invariant
            i <= n,
            n == vs.len(),
            nvic.wf(),
            forall|j: int|
                0 <= j < NUM_VECTORS ==> nvic.enabled@[j] == (old(nvic).enabled@[j] || covers(
                    vs@.take(i as int),
                    j,
                )),
            nvic.pending == old(nvic).pending,
            nvic.priority == old(nvic).priority,
        decreases n - i,
    {
        nvic.enable(vs[i]);
        proof {
            lemma_covers_take_step(vs@, i as int);
        }
        i = i + 1;
    }
    proof {
        assert(vs@.take(n as int) == vs@);
    }
}

/// Disable every vector of `vs`, in order, leaving the rest untouched.
pub(crate) fn apply_disable(nvic: &mut Nvic, vs: &Vec<InterruptId>)
    requires
        old(nvic).wf(),
    ensures
        spec_disable_effect(*old(nvic), *final(nvic), vs@),
{
    let n = vs.len();
    let mut i: usize = 0;
    while i < n
        invariant
            i <= n,
            n == vs.len(),
            nvic.wf(),
            forall|j: int|
                0 <= j < NUM_VECTORS ==> nvic.enabled@[j] == (old(nvic).enabled@[j] && !covers(
                    vs@.take(i as int),
                    j,
                )),
            nvic.pending == old(nvic).pending,
            nvic.priority == old(nvic).priority,
        decreases n - i,
    {
        nvic.disable(vs[i]);
        proof {
            lemma_covers_take_step(vs@, i as int);
        }
        i = i + 1;
    }
    proof {
        assert(vs@.take(n as int) == vs@);
    }
}

/// Clear the pending bit of every vector of `vs`, in order.
pub(crate) fn apply_unpend(nvic: &mut Nvic, vs: &Vec<InterruptId>)
    requires
        old(nvic).wf(),
    ensures
        spec_unpend_effect(*old(nvic), *final(nvic), vs@),
{
    let n = vs.len();
    let mut i: usize = 0;
    while i < n
        invariant
            i <= n,
            n == vs.len(),
            nvic.wf(),
            forall|j: int|
                0 <= j < NUM_VECTORS ==> nvic.pending@[j] == (old(nvic).pending@[j] && !covers(
                    vs@.take(i as int),
                    j,
                )),
            nvic.enabled == old(nvic).enabled,
            nvic.priority == old(nvic).priority,
        decreases n - i,
    {
        nvic.unpend(vs[i]);
        proof {
            lemma_covers_take_step(vs@, i as int);
        }
        i = i + 1;
    }
    proof {
        assert(vs@.take(n as int) == vs@);
    }
}

/// Set the priority of every vector of `vs`, in order.
pub(crate) fn apply_set_priority(nvic: &mut Nvic, vs: &Vec<InterruptId>, prio: Priority)
    requires
        old(nvic).wf(),
    ensures
        spec_set_priority_effect(*old(nvic), *final(nvic), vs@, prio),
{
    let n = vs.len();
    let mut i: usize = 0;
    while i < n
        invariant
            i <= n,
            n == vs.len(),
            nvic.wf(),
            forall|j: int|
                0 <= j < NUM_VECTORS && covers(vs@.take(i as int), j) ==> nvic.priority@[j]
                    == prio.spec_logical2hw(),
            forall|j: int|
                0 <= j < NUM_VECTORS && !covers(vs@.take(i as int), j) ==> nvic.priority@[j]
                    == old(nvic).priority@[j],
            nvic.enabled == old(nvic).enabled,
            nvic.pending == old(nvic).pending,
        decreases n - i,
    {
        nvic.set_priority(vs[i], prio);
        proof {
            lemma_covers_take_step(vs@, i as int);
        }
        i = i + 1;
    }
    proof {
        assert(vs@.take(n as int) == vs@);
    }
}

/// Extending the processed prefix by one vector extends its coverage by
/// exactly that vector's position.
proof fn lemma_covers_take_step(vs: Seq<InterruptId>, i: int)
    requires
        0 <= i < vs.len(),
    ensures
        forall|j: int|
            covers(vs.take(i + 1), j) == (covers(vs.take(i), j) || vs[i].spec_index() == j),
{
    assert forall|j: int|
        covers(vs.take(i + 1), j) == (covers(vs.take(i), j) || vs[i].spec_index() == j) by {
        if covers(vs.take(i), j) {
            let k = choose|k: int|
                0 <= k < vs.take(i).len() && #[trigger] vs.take(i)[k].spec_index() == j;
            assert(vs.take(i + 1)[k].spec_index() == j);
        }
        if vs[i].spec_index() == j {
            assert(vs.take(i + 1)[i].spec_index() == j);
        }
        if covers(vs.take(i + 1), j) {
            let k = choose|k: int|
                0 <= k < vs.take(i + 1).len() && #[trigger] vs.take(i + 1)[k].spec_index() == j;
            if k < i {
                assert(vs.take(i)[k].spec_index() == j);
            }
        }
    }
}

/// An interrupt source: one vector, or several vectors that together
/// service a single logical peripheral. Operations act on every vector of
/// the source, sequentially, in declaration order.
pub trait InterruptSource: Sized {
    /// The vectors this source covers, in declaration order.
    spec fn spec_vectors(&self) -> Seq<InterruptId>;

    /// The vectors this source covers, in declaration order.
    fn vectors(&self) -> (v: Vec<InterruptId>)
        ensures
            v@ == self.spec_vectors(),
    ;

    /// Enable every vector of the source.
    fn enable(&self, nvic: &mut Nvic)
        requires
            old(nvic).wf(),
        ensures
            spec_enable_effect(*old(nvic), *final(nvic), self.spec_vectors()),
    ;

    /// Disable every vector of the source.
    fn disable(&self, nvic: &mut Nvic)
        requires
            old(nvic).wf(),
        ensures
            spec_disable_effect(*old(nvic), *final(nvic), self.spec_vectors()),
    ;

    /// Clear the pending bit of every vector of the source.
    fn unpend(&self, nvic: &mut Nvic)
        requires
            old(nvic).wf(),
        ensures
            spec_unpend_effect(*old(nvic), *final(nvic), self.spec_vectors()),
    ;

    /// Set the priority of every vector of the source.
    fn set_priority(&self, nvic: &mut Nvic, prio: Priority)
        requires
            old(nvic).wf(),
        ensures
            spec_set_priority_effect(*old(nvic), *final(nvic), self.spec_vectors(), prio),
    ;
}

/// Marker for an interrupt source that covers exactly one vector.
pub trait SingleInterruptSource: InterruptSource {

}

/// Marker for an interrupt source that aggregates several vectors sharing
/// one handler.
pub trait MultipleInterruptSources: InterruptSource {

}

impl InterruptSource for InterruptId {
    open spec fn spec_vectors(&self) -> Seq<InterruptId> {
        seq![*self]
    }

    fn vectors(&self) -> (v: Vec<InterruptId>) {
        let mut v: Vec<InterruptId> = Vec::new();
        v.push(*self);
        assert(v@ == self.spec_vectors());
        v
    }

    fn enable(&self, nvic: &mut Nvic) {
        let vs = self.vectors();
        apply_enable(nvic, &vs);
    }

    fn disable(&self, nvic: &mut Nvic) {
        let vs = self.vectors();
        apply_disable(nvic, &vs);
    }

    fn unpend(&self, nvic: &mut Nvic) {
        let vs = self.vectors();
        apply_unpend(nvic, &vs);
    }

    fn set_priority(&self, nvic: &mut Nvic, prio: Priority) {
        let vs = self.vectors();
        apply_set_priority(nvic, &vs, prio);
    }
}

impl SingleInterruptSource for InterruptId {

}

/// The DMA controller's aggregate interrupt source: one vector per
/// low-numbered channel plus one vector for all remaining channels, all
/// serviced by the same handler.
pub struct DmacInterruptSources;

impl DmacInterruptSources {
    /// The DMAC vectors, in declaration order.
    pub open spec fn spec_dmac_vectors() -> Seq<InterruptId> {
        seq![
            InterruptId::Dmac0,
            InterruptId::Dmac1,
            InterruptId::Dmac2,
            InterruptId::DmacOther,
        ]
    }
}

impl InterruptSource for DmacInterruptSources {
    open spec fn spec_vectors(&self) -> Seq<InterruptId> {
        DmacInterruptSources::spec_dmac_vectors()
    }

    fn vectors(&self) -> (v: Vec<InterruptId>) {
        let mut v: Vec<InterruptId> = Vec::new();
        v.push(InterruptId::Dmac0);
        v.push(InterruptId::Dmac1);
        v.push(InterruptId::Dmac2);
        v.push(InterruptId::DmacOther);
        assert(v@ == self.spec_vectors());
        v
    }

    fn enable(&self, nvic: &mut Nvic) {
        let vs = self.vectors();
        apply_enable(nvic, &vs);
    }

    fn disable(&self, nvic: &mut Nvic) {
        let vs = self.vectors();
        apply_disable(nvic, &vs);
    }

    fn unpend(&self, nvic: &mut Nvic) {
        let vs = self.vectors();
        apply_unpend(nvic, &vs);
    }

    fn set_priority(&self, nvic: &mut Nvic, prio: Priority) {
        let vs = self.vectors();
        apply_set_priority(nvic, &vs, prio);
    }
}

impl MultipleInterruptSources for DmacInterruptSources {

}

/// Implemented by driver types that service an interrupt. The integration
/// point must arrange for `on_interrupt` to run, with the driver's shared
/// state, every time the bound vector fires; drivers demand a [`Binding`]
/// certificate as evidence that this arrangement exists.
pub trait Handler {
    /// The state the handler shares with the suspended operation it wakes.
    type Context;

    /// Service one firing of the bound interrupt.
    fn on_interrupt(ctx: &mut Self::Context);
}

/// A bind request is granted only when none of the source's vectors has a
/// handler yet.
pub open spec fn spec_can_bind(bound: Seq<bool>, vs: Seq<InterruptId>) -> bool {
    forall|k: int| 0 <= k < vs.len() ==> !bound[#[trigger] vs[k].spec_index()]
}

/// The registry state after granting a bind request: every vector of the
/// source is marked as having a handler.
pub open spec fn spec_mark_bound(bound: Seq<bool>, vs: Seq<InterruptId>) -> Seq<bool> {
    Seq::new(bound.len(), |j: int| bound[j] || covers(vs, j))
}

/// Refusing a second handler for a bound source.
#[derive(Clone, Copy, Debug, PartialEq, Eq, Structural)]
pub enum BindError {
    /// Some vector of the source already has a handler.
    AlreadyBound,
}

/// Certificate that a handler has been wired to every vector of an
/// interrupt source. Issued only by [`Bindings::bind`], which issues at
/// most one certificate touching any given vector; a driver that demands a
/// `Binding` for its source can therefore assume it is the sole handler.
pub struct Binding {
    vectors: Vec<InterruptId>,
    handler: u64,
}

impl Binding {
    /// The vectors this certificate covers.
    pub closed spec fn spec_vectors(self) -> Seq<InterruptId> {
        self.vectors@
    }

    /// The handler wired to those vectors.
    pub closed spec fn spec_handler(self) -> u64 {
        self.handler
    }

    /// The vectors this certificate covers.
    pub fn vectors(&self) -> (v: &Vec<InterruptId>)
        ensures
            v@ == self.spec_vectors(),
    {
        &self.vectors
    }

    /// The handler wired to those vectors.
    pub fn handler(&self) -> (h: u64)
        ensures
            h == self.spec_handler(),
    {
        self.handler
    }
}

/// The integration point's record of which vectors have a handler.
pub struct Bindings {
    bound: Vec<bool>,
}

impl Bindings {
    /// One flag per vector.
    pub open spec fn wf(self) -> bool {
        self.spec_bound().len() == NUM_VECTORS
    }

    /// Which vectors have a handler.
    pub closed spec fn spec_bound(self) -> Seq<bool> {
        self.bound@
    }

    /// A fresh registry: no vector has a handler.
    pub fn new() -> (r: Bindings)
        ensures
            r.wf(),
            forall|j: int| 0 <= j < NUM_VECTORS ==> !r.spec_bound()[j],
    {
        let mut bound: Vec<bool> = Vec::new();
        let mut i: usize = 0;
        while i < NUM_VECTORS
            invariant
                i <= NUM_VECTORS,
                bound.len() == i,
                forall|j: int| 0 <= j < i ==> !bound@[j],
            decreases NUM_VECTORS - i,
        {
            bound.push(false);
            i = i + 1;
        }
        Bindings { bound }
    }

    /// Wire `handler` to every vector of `source`, producing the [`Binding`]
    /// certificate — unless some vector of the source already has a handler,
    /// in which case the request is refused and the registry is unchanged.
    /// At most one certificate touching any given vector is ever issued.
    pub fn bind<S: InterruptSource>(&mut self, source: &S, handler: u64) -> (r: Result<
        Binding,
        BindError,
    >)
        requires
            old(self).wf(),
        ensures
            final(self).wf(),
            r is Ok <==> spec_can_bind(old(self).spec_bound(), source.spec_vectors()),
            r matches Ok(b) ==> {
                &&& b.spec_vectors() == source.spec_vectors()
                &&& b.spec_handler() == handler
                &&& final(self).spec_bound() == spec_mark_bound(
                    old(self).spec_bound(),
                    source.spec_vectors(),
                )
            },
            r is Err ==> *final(self) == *old(self),
    {
        let vs = source.vectors();
        let n = vs.len();
        let mut k: usize = 0;
        while k < n
            invariant
                k <= n,
                n == vs.len(),
                self.wf(),
                vs@ == source.spec_vectors(),
                *self == *old(self),
                forall|k2: int| 0 <= k2 < k ==> !self.bound@[#[trigger] vs@[k2].spec_index()],
            decreases n - k,
        {
            if self.bound[vs[k].index()] {
                return Err(BindError::AlreadyBound);
            }
            k = k + 1;
        }
        let mut i: usize = 0;
        while i < n
            invariant
                i <= n,
                n == vs.len(),
                self.wf(),
                vs@ == source.spec_vectors(),
                self.bound@.len() == old(self).bound@.len(),
                forall|j: int|
                    0 <= j < NUM_VECTORS ==> self.bound@[j] == (old(self).bound@[j] || covers(
                        vs@.take(i as int),
                        j,
                    )),
            decreases n - i,
        {
            let idx = vs[i].index();
            self.bound[idx] = true;
            proof {
                lemma_covers_take_step(vs@, i as int);
            }
            i = i + 1;
        }
        proof {
            assert(vs@.take(n as int) == vs@);
            assert(self.bound@ =~= spec_mark_bound(old(self).bound@, vs@));
        }
        Ok(Binding { vectors: vs, handler })
    }
}

/// Once a handler has been wired to an interrupt source, no further bind
/// request that touches any vector of that source can be granted: at most
/// one handler ever services a given interrupt source.
pub proof fn lemma_at_most_one_handler(
    bound: Seq<bool>,
    vs1: Seq<InterruptId>,
    vs2: Seq<InterruptId>,
    k1: int,
    k2: int,
)
    requires
        bound.len() == NUM_VECTORS,
        spec_can_bind(bound, vs1),
        0 <= k1 < vs1.len(),
        0 <= k2 < vs2.len(),
        vs1[k1].spec_index() == vs2[k2].spec_index(),
    ensures
        !spec_can_bind(spec_mark_bound(bound, vs1), vs2),
{
    let idx = vs1[k1].spec_index();
    assert(0 <= idx < NUM_VECTORS);
    assert(covers(vs1, idx));
    assert(spec_mark_bound(bound, vs1)[idx]);
    assert(vs2[k2].spec_index() == idx);
}

} // verus!
