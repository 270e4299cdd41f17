//! The decoded-instruction facade: bounds-checked, typed access to the
//! operation, the mnemonic and the operands of one decoded instruction.

use vstd::prelude::*;

use crate::operand::{Operand, RawOperandSlot};
use crate::operation::Operation;

verus! {

/// The fixed capacity of an instruction's operand array.
pub const MAX_OPERANDS: usize = 5;

/// A decoded instruction: the address supplied at decode time, the symbolic
/// operation, and the raw operand slots as the external decoder filled
/// them.  Operands are classified on demand.  An `Instruction` is created
/// only by a successful decode and is never mutated.
#[derive(Debug, PartialEq, Eq, Hash)]
pub struct Instruction {
    address: u64,
    operation: Operation,
    slots: Vec<RawOperandSlot>,
}

/// The first index at or after `i` whose slot classifies to `None`, or the
/// length of `slots` if every slot from `i` on classifies to an operand.
pub open spec fn first_empty(slots: Seq<RawOperandSlot>, i: int) -> int
    decreases slots.len() - i,
{
    if i < 0 || i >= slots.len() {
        i
    } else if Operand::spec_classify(slots[i]) is None {
        i
    } else {
        first_empty(slots, i + 1)
    }
}

/// Everything the scan of `first_empty` observes: the result lies between
/// the start index and the length, every slot before it classifies to an
/// operand, and the slot at it (if any) does not.
pub proof fn lemma_first_empty(slots: Seq<RawOperandSlot>, i: int)
    requires
        0 <= i <= slots.len(),
    ensures
        i <= first_empty(slots, i) <= slots.len(),
        forall|j: int|
            i <= j < first_empty(slots, i) ==> Operand::spec_classify(slots[j]) is Some,
        first_empty(slots, i) < slots.len() ==> Operand::spec_classify(
            slots[first_empty(slots, i)],
        ) is None,
    decreases slots.len() - i,
{
    if i < slots.len() && Operand::spec_classify(slots[i]) is Some {
        lemma_first_empty(slots, i + 1);
    }
}

/// The scan is insensitive to where it starts, as long as no slot before
/// the start has classified to `None`: if every slot in `[i, k)` holds an
/// operand and `k` is at or before the first empty slot, scanning from `i`
/// and scanning from `k` agree.
proof fn lemma_first_empty_shift(slots: Seq<RawOperandSlot>, i: int, k: int)
    requires
        0 <= i <= k <= slots.len(),
        forall|j: int| i <= j < k ==> Operand::spec_classify(slots[j]) is Some,
    ensures
        first_empty(slots, i) == first_empty(slots, k),
    decreases k - i,
{
    if i < k {
        lemma_first_empty_shift(slots, i + 1, k);
    }
}

impl Instruction {
    /// An instruction always carries exactly [`MAX_OPERANDS`] slots.
    #[verifier::type_invariant]
    spec fn inv(self) -> bool {
        self.slots@.len() == MAX_OPERANDS
    }

    /// The address supplied at decode time.
    pub closed spec fn spec_address(self) -> u64 {
        self.address
    }

    /// The symbolic operation of the instruction.
    pub closed spec fn spec_operation(self) -> Operation {
        self.operation
    }

    /// The raw operand slots, in order.
    pub closed spec fn spec_slots(self) -> Seq<RawOperandSlot> {
        self.slots@
    }

    /// The operand at index `n`: the classification of slot `n`, or `None`
    /// beyond the slot array.
    pub open spec fn spec_operand(self, n: int) -> Option<Operand> {
        if 0 <= n < self.spec_slots().len() {
            Operand::spec_classify(self.spec_slots()[n])
        } else {
            None
        }
    }

    /// The operand count: the index of the first slot that classifies to
    /// `None`, bounded by the slot capacity.
    pub open spec fn spec_num_operands(self) -> int {
        first_empty(self.spec_slots(), 0)
    }

    /// Whether the slots uphold the decoder's contiguous-run convention:
    /// after the first slot that classifies to `None`, every slot does.
    pub open spec fn spec_contiguous(self) -> bool {
        forall|i: int, j: int|
            0 <= i <= j < self.spec_slots().len() && self.spec_operand(i) is None
                ==> self.spec_operand(j) is None
    }

    /// Wraps one successfully decoded raw record.  Only the decode entry
    /// point constructs instructions.
    pub(crate) fn new(address: u64, operation: Operation, slots: Vec<RawOperandSlot>) -> (r:
        Instruction)
        requires
            slots@.len() == MAX_OPERANDS,
        ensures
            r.spec_address() == address,
            r.spec_operation() == operation,
            r.spec_slots() == slots@,
    {
        Instruction { address, operation, slots }
    }

    /// Returns an equal instruction: same address, same operation, same
    /// slots.
    pub fn duplicate(&self) -> (r: Instruction)
        ensures
            r.spec_address() == self.spec_address(),
            r.spec_operation() == self.spec_operation(),
            r.spec_slots() == self.spec_slots(),
    {
        proof {
            use_type_invariant(&*self);
        }
        Instruction {
            address: self.address,
            operation: self.operation,
            slots: clone_slots(&self.slots),
        }
    }

    /// Returns the instruction address, exactly as it was supplied at
    /// decode time; it is never derived from the decoded record.
    pub fn address(&self) -> (r: u64)
        ensures
            r == self.spec_address(),
    {
        self.address
    }

    /// Returns the symbolic operation.
    pub fn operation(&self) -> (r: Operation)
        ensures
            r == self.spec_operation(),
    {
        self.operation
    }

    /// Returns the instruction mnemonic: a pure function of the operation.
    pub fn mnem(&self) -> (r: &'static str)
        ensures
            r@ == self.spec_operation().spec_mnemonic(),
    {
        self.operation.mnemonic()
    }

    /// Returns the `n`th operand.  `None` is returned for an index at or
    /// beyond the slot capacity, and for a slot at or after the first
    /// empty one.
    pub fn operand(&self, n: usize) -> (r: Option<Operand>)
        ensures
            r == self.spec_operand(n as int),
    {
        proof {
            use_type_invariant(&*self);
        }
        if n >= MAX_OPERANDS {
            return None;
        }
        Operand::classify(self.slots[n])
    }

    /// Returns the operand count: the bounded linear scan from index 0 up
    /// to the first slot that classifies to `None`.
    pub fn num_operands(&self) -> (r: usize)
        ensures
            r == self.spec_num_operands(),
            r <= MAX_OPERANDS,
            forall|i: int| 0 <= i < r ==> self.spec_operand(i) is Some,
            r < MAX_OPERANDS ==> self.spec_operand(r as int) is None,
    {
        proof {
            use_type_invariant(&*self);
        }
        let mut n: usize = 0;
        while n < MAX_OPERANDS
            invariant
                0 <= n <= MAX_OPERANDS,
                self.spec_slots().len() == MAX_OPERANDS,
                forall|i: int|
                    0 <= i < n ==> Operand::spec_classify(self.spec_slots()[i]) is Some,
            decreases MAX_OPERANDS - n,
        {
            if self.operand(n).is_none() {
                proof {
                    lemma_first_empty_shift(self.spec_slots(), 0, n as int);
                }
                return n;
            }
            n = n + 1;
        }
        proof {
            lemma_first_empty_shift(self.spec_slots(), 0, n as int);
        }
        n
    }

    /// Returns a fresh, independently positioned enumerator over the
    /// operands.  Enumeration never changes the instruction; any number of
    /// enumerators can be started and they all yield the same operands.
    pub fn operands(&self) -> (r: OperandIter<'_>)
        ensures
            r.spec_ins() == *self,
            r.spec_index() == 0,
    {
        OperandIter { ins: self, n: 0 }
    }
}

/// A forward enumerator over the operands of one instruction.  It yields
/// the operands in slot order and yields `None` from the first empty slot
/// on; the instruction itself is only read.
pub struct OperandIter<'a> {
    ins: &'a Instruction,
    n: usize,
}

impl<'a> OperandIter<'a> {
    /// The instruction being enumerated.
    pub closed spec fn spec_ins(self) -> Instruction {
        *self.ins
    }

    /// The current position of the enumerator.
    pub closed spec fn spec_index(self) -> int {
        self.n as int
    }

    /// The `k`th operand still ahead of the enumerator.
    pub open spec fn spec_yield(self, k: int) -> Option<Operand> {
        self.spec_ins().spec_operand(self.spec_index() + k)
    }

    /// Yields the operand at the current position and advances.  What is
    /// yielded is a function of the instruction and the position alone.
    pub fn next(&mut self) -> (r: Option<Operand>)
        ensures
            final(self).spec_ins() == old(self).spec_ins(),
            r == old(self).spec_yield(0),
            forall|k: int| k >= 0 ==> final(self).spec_yield(k) == old(self).spec_yield(k + 1),
    {
        proof {
            use_type_invariant(&*self.ins);
        }
        let r = self.ins.operand(self.n);
        if self.n < MAX_OPERANDS {
            self.n = self.n + 1;
        }
        r
    }
}

/// Copies a slot vector element by element.
fn clone_slots(v: &Vec<RawOperandSlot>) -> (r: Vec<RawOperandSlot>)
    ensures
        r@ == v@,
{
    let mut r: Vec<RawOperandSlot> = Vec::new();
    let mut i: usize = 0;
    while i < v.len()
        invariant
            0 <= i <= v@.len(),
            r@ == v@.subrange(0, i as int),
        decreases v@.len() - i,
    {
        r.push(v[i]);
        proof {
            assert(r@ == v@.subrange(0, i as int + 1));
        }
        i = i + 1;
    }
    proof {
        assert(v@.subrange(0, v@.len() as int) == v@);
    }
    r
}

/// Past the operand count there are no operands: for an instruction whose
/// slots keep the decoder's contiguous-run convention, every index at or
/// after `num_operands()` has `operand(n) == None`.
pub proof fn lemma_no_operand_past_count(ins: Instruction, n: int)
    requires
        ins.spec_contiguous(),
        n >= ins.spec_num_operands(),
    ensures
        ins.spec_operand(n) is None,
{
    let slots = ins.spec_slots();
    let fe = first_empty(slots, 0);
    lemma_first_empty(slots, 0);
    if n < slots.len() {
        assert(ins.spec_operand(fe) is None);
    }
}

/// The mnemonic is a pure function of the operation: two instructions with
/// equal operations have identical mnemonics.
pub proof fn lemma_mnem_of_operation(a: Instruction, b: Instruction)
    requires
        a.spec_operation() == b.spec_operation(),
    ensures
        a.spec_operation().spec_mnemonic() == b.spec_operation().spec_mnemonic(),
{
}

/// Operand enumeration is restartable and side-effect free: two
/// enumerators over the same instruction at the same position yield the
/// same operand at every offset.
pub proof fn lemma_operands_restartable(i1: OperandIter<'_>, i2: OperandIter<'_>, k: int)
    requires
        i1.spec_ins() == i2.spec_ins(),
        i1.spec_index() == i2.spec_index(),
    ensures
        i1.spec_yield(k) == i2.spec_yield(k),
{
}

} // verus!
