//! Bounds-checked access to the bytes of one instantiation's linear memory.
//!
//! Every range that guest code names is checked against the memory's size
//! before a single byte moves; data crosses from one memory to another only
//! as a copy.

use vstd::prelude::*;

verus! {

/// An access that names bytes past the end of a linear memory.
#[derive(Clone, Copy, Debug, PartialEq, Eq, Structural)]
pub struct OutOfBounds {
    pub start: u32,
    pub len: u32,
    pub size: usize,
}

/// The range `[start, start + len)` lies inside a memory of `size` bytes.
pub open spec fn in_bounds(size: nat, start: nat, len: nat) -> bool {
    start + len <= size
}

/// The bytes of `mem` in `[start, start + len)`.
pub open spec fn bytes_at(mem: Seq<u8>, start: nat, len: nat) -> Seq<u8> {
    mem.subrange(start as int, (start + len) as int)
}

/// `mem` with `data` written from `start` on; every other byte kept.
pub open spec fn written(mem: Seq<u8>, start: nat, data: Seq<u8>) -> Seq<u8> {
    mem.subrange(0, start as int) + data + mem.subrange((start + data.len()) as int, mem.len() as int)
}

/// Copies `[start, start + len)` out of `mem` into a value of its own.
pub fn read_range(mem: &[u8], start: u32, len: u32) -> (r: Result<Vec<u8>, OutOfBounds>)
    ensures
        r is Ok <==> in_bounds(mem@.len(), start as nat, len as nat),
        r matches Ok(v) ==> v@ == bytes_at(mem@, start as nat, len as nat),
        r matches Err(e) ==> e == (OutOfBounds { start, len, size: mem@.len() as usize }),
{
    let size = mem.len();
    if (start as usize) > size || (len as usize) > size - (start as usize) {
        return Err(OutOfBounds { start, len, size });
    }
    let begin = start as usize;
    let end = begin + len as usize;
    let mut out: Vec<u8> = Vec::with_capacity(len as usize);
    let mut i: usize = begin;
    while i < end
        invariant
            begin <= i <= end,
            end <= mem@.len(),
            out@ == mem@.subrange(begin as int, i as int),
        decreases end - i,
    {
        out.push(mem[i]);
        i = i + 1;
        assert(out@ =~= mem@.subrange(begin as int, i as int));
    }
    Ok(out)
}

/// Writes `data` into `mem` from `start` on, where the whole range fits.
pub fn write_range(mem: &mut [u8], start: u32, data: &[u8]) -> (r: Result<(), OutOfBounds>)
    requires
        data@.len() <= u32::MAX,
    ensures
        final(mem)@.len() == old(mem)@.len(),
        r is Ok <==> in_bounds(old(mem)@.len(), start as nat, data@.len()),
        r is Ok ==> final(mem)@ == written(old(mem)@, start as nat, data@),
        r matches Err(e) ==> final(mem)@ == old(mem)@ && e == (OutOfBounds {
            start,
            len: data@.len() as u32,
            size: old(mem)@.len() as usize,
        }),
{
    let size = mem.len();
    let n = data.len();
    if (start as usize) > size || n > size - (start as usize) {
        return Err(OutOfBounds { start, len: n as u32, size });
    }
    let begin = start as usize;
    let mut i: usize = 0;
    while i < n
        invariant
            0 <= i <= n,
            n == data@.len(),
            begin + n <= size,
            size == old(mem)@.len(),
            mem@.len() == size,
            forall|k: int| 0 <= k < begin ==> mem@[k] == old(mem)@[k],
            forall|k: int| begin <= k < begin + i ==> mem@[k] == data@[k - begin],
            forall|k: int| begin + i <= k < size ==> mem@[k] == old(mem)@[k],
        decreases n - i,
    {
        mem[begin + i] = data[i];
        i = i + 1;
    }
    assert(mem@ =~= written(old(mem)@, start as nat, data@));
    Ok(())
}

/// Writing a range changes no byte outside it.
pub proof fn lemma_write_keeps_rest(mem: Seq<u8>, start: nat, data: Seq<u8>, k: int)
    requires
        in_bounds(mem.len(), start, data.len()),
        0 <= k < mem.len(),
        !(start <= k < start + data.len()),
    ensures
        written(mem, start, data).len() == mem.len(),
        written(mem, start, data)[k] == mem[k],
{
}

/// A payload copied out of one memory and written into another reads back
/// there exactly as the first memory held it when it was copied; what the
/// first memory holds afterwards plays no part.
pub proof fn lemma_payload_fidelity(
    caller: Seq<u8>,
    p: nat,
    len: nat,
    target: Seq<u8>,
    ptr: nat,
)
    requires
        in_bounds(caller.len(), p, len),
        in_bounds(target.len(), ptr, len),
    ensures
        bytes_at(written(target, ptr, bytes_at(caller, p, len)), ptr, len) == bytes_at(
            caller,
            p,
            len,
        ),
{
    let payload = bytes_at(caller, p, len);
    assert(bytes_at(written(target, ptr, payload), ptr, len) =~= payload);
}

/// Memories are separate values: a write into the memory of one
/// instantiation leaves the memory of every other one as it was.
pub proof fn lemma_writes_stay_private(
    mems: Seq<Seq<u8>>,
    i: int,
    start: nat,
    data: Seq<u8>,
    j: int,
)
    requires
        0 <= i < mems.len(),
        0 <= j < mems.len(),
        i != j,
        in_bounds(mems[i].len(), start, data.len()),
    ensures
        mems.update(i, written(mems[i], start, data))[j] == mems[j],
{
}

} // verus!
