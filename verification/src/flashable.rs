//! The firmware-loading capability: anything that can be flashed into a
//! handle's simulated program memory.

use vstd::prelude::*;

use crate::Avr;

verus! {

/// What one flash leaves in program memory: the flashed bytes from address
/// zero, and behind them whatever the memory already held.  A later flash
/// plainly overwrites an earlier one where the two overlap; nothing is
/// merged.
pub open spec fn overwrite(mem: Seq<u8>, data: Seq<u8>) -> Seq<u8> {
    if data.len() >= mem.len() {
        data
    } else {
        data + mem.skip(data.len() as int)
    }
}

/// The pointwise reading of `overwrite`: the flashed bytes where they
/// reach, the old contents behind them, and nothing lost at the end.
pub proof fn lemma_overwrite_pointwise(mem: Seq<u8>, data: Seq<u8>)
    ensures
        overwrite(mem, data).len() == if data.len() >= mem.len() {
            data.len()
        } else {
            mem.len()
        },
        forall|i: int| 0 <= i < data.len() ==> overwrite(mem, data)[i] == data[i],
        forall|i: int| data.len() <= i < mem.len() ==> overwrite(mem, data)[i] == mem[i],
{
    if data.len() < mem.len() {
        assert forall|i: int| data.len() <= i < mem.len() implies overwrite(mem, data)[i]
            == mem[i] by {
            assert(overwrite(mem, data)[i] == mem.skip(data.len() as int)[i - data.len()]);
        }
    }
}

/// Repeated flashes are last-write-wins: where a later flash covers an
/// earlier one it alone decides the byte; bytes past its end keep what the
/// earlier flash (or the memory before it) left there.
pub proof fn lemma_flash_last_write_wins(mem: Seq<u8>, first: Seq<u8>, second: Seq<u8>)
    ensures
        forall|i: int| 0 <= i < second.len()
            ==> overwrite(overwrite(mem, first), second)[i] == second[i],
        forall|i: int| second.len() <= i < first.len()
            ==> overwrite(overwrite(mem, first), second)[i] == first[i],
        forall|i: int| second.len() <= i && first.len() <= i && i < mem.len()
            ==> overwrite(overwrite(mem, first), second)[i] == mem[i],
{
    lemma_overwrite_pointwise(mem, first);
    lemma_overwrite_pointwise(overwrite(mem, first), second);
}

/// How one flash relates the handle before it to the handle after it: the
/// flashed bytes land in program memory from address zero, and nothing
/// else about the handle moves.
pub open spec fn flash_step(pre: Avr, post: Avr, data: Seq<u8>) -> bool {
    &&& post.program@ == overwrite(pre.program@, data)
    &&& post.current_state == pre.current_state
    &&& post.status == pre.status
    &&& post.mcu_name == pre.mcu_name
    &&& post.frequency == pre.frequency
    &&& post.terminated == pre.terminated
}

/// Something which can be flashed to program memory.
pub trait Flashable {
    /// The bytes this loadable writes into program memory, from address
    /// zero.
    spec fn payload(&self) -> Seq<u8>;

    /// Writes the payload into the handle's program memory.  Later flashes
    /// overwrite earlier ones where they overlap.
    fn flash(&self, avr: &mut Avr)
        requires
            !old(avr).terminated,
        ensures
            flash_step(*old(avr), *final(avr), self.payload()),
    ;
}

/// A handle to a parsed firmware image, independent of any handle; it may
/// be flashed into any number of them.  The bytes are what the external
/// image reader extracted as the program contents; the reading itself
/// happens outside the library.
pub struct Firmware {
    data: Vec<u8>,
}

impl View for Firmware {
    type V = Seq<u8>;

    /// The program bytes the image carries.
    closed spec fn view(&self) -> Seq<u8> {
        self.data@
    }
}

impl Firmware {
    /// Creates a firmware image from its program bytes.
    pub fn new(data: Vec<u8>) -> (fw: Firmware)
        ensures
            fw@ == data@,
    {
        Firmware { data }
    }

    /// The program bytes the image carries.
    pub fn data(&self) -> (bytes: &Vec<u8>)
        ensures
            bytes@ == self@,
    {
        &self.data
    }
}

impl Flashable for Firmware {
    open spec fn payload(&self) -> Seq<u8> {
        self@
    }

    fn flash(&self, avr: &mut Avr) {
        load_at_start(avr, &self.data);
    }
}

impl Flashable for Vec<u8> {
    open spec fn payload(&self) -> Seq<u8> {
        self@
    }

    fn flash(&self, avr: &mut Avr) {
        load_at_start(avr, self);
    }
}

/// Writes raw bytes into program memory starting at address zero, keeping
/// whatever lies beyond them.
fn load_at_start(avr: &mut Avr, bytes: &Vec<u8>)
    ensures
        flash_step(*old(avr), *final(avr), bytes@),
{
    let mut i: usize = 0;
    while i < bytes.len()
        invariant
            i <= bytes@.len(),
            avr.program@.len() == if i >= old(avr).program@.len() {
                i as int
            } else {
                old(avr).program@.len() as int
            },
            forall|j: int| 0 <= j < i ==> avr.program@[j] == bytes@[j],
            forall|j: int|
                i <= j < old(avr).program@.len() ==> avr.program@[j] == old(avr).program@[j],
            avr.current_state == old(avr).current_state,
            avr.status == old(avr).status,
            avr.mcu_name == old(avr).mcu_name,
            avr.frequency == old(avr).frequency,
            avr.terminated == old(avr).terminated,
        decreases bytes@.len() - i,
    {
        let byte = bytes[i];
        if i < avr.program.len() {
            avr.program.set(i, byte);
        } else {
            avr.program.push(byte);
        }
        i = i + 1;
    }
    proof {
        lemma_overwrite_pointwise(old(avr).program@, bytes@);
        assert(avr.program@ =~= overwrite(old(avr).program@, bytes@));
    }
}

} // verus!
