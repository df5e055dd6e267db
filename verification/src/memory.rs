//! Buffer and memory model: picking a compatible memory type, creating
//! buffers, and the staging path that moves bytes from the host into a
//! buffer the host cannot write directly. The copy models the one-shot,
//! synchronous command-buffer submission: when it returns, the destination
//! holds the source bytes.

use vstd::prelude::*;
use crate::InitError;

verus! {

/// Property bit: memory the device itself reads fastest.
pub const MEMORY_DEVICE_LOCAL: u32 = 0x1;

/// Property bit: memory the host may map and write.
pub const MEMORY_HOST_VISIBLE: u32 = 0x2;

/// Property bit: host writes become visible without explicit flushes.
pub const MEMORY_HOST_COHERENT: u32 = 0x4;

/// Memory type `i` is compatible when the resource's supported-type bitmask
/// has bit `i` set and the type carries every required property flag.
pub open spec fn memory_type_compatible(type_bits: u32, required: u32, flags: u32, i: int) -> bool {
    &&& (type_bits >> (i as u32)) & 1u32 == 1u32
    &&& flags & required == required
}

/// Find the first memory type that the resource accepts and that has all the
/// required property flags, or fail: this design has no fallback allocator
/// tier, so the caller treats the failure as fatal. A device reports at most
/// 32 memory types, one per bit of the mask.
pub fn find_memory_type(type_bits: u32, required: u32, type_flags: &Vec<u32>) -> (r: Result<
    usize,
    InitError,
>)
    requires
        type_flags@.len() <= 32,
    ensures
        r matches Ok(i) ==> i < type_flags@.len()
            && memory_type_compatible(type_bits, required, type_flags@[i as int], i as int)
            && (forall|j: int|
                0 <= j < i ==> !memory_type_compatible(type_bits, required, type_flags@[j], j)),
        r matches Err(e) ==> e == InitError::NoSuitableMemoryType
            && (forall|j: int|
                0 <= j < type_flags@.len()
                    ==> !memory_type_compatible(type_bits, required, type_flags@[j], j)),
{
    let mut i: usize = 0;
    while i < type_flags.len()
        invariant
            i <= type_flags@.len() <= 32,
            forall|j: int|
                0 <= j < i ==> !memory_type_compatible(type_bits, required, type_flags@[j], j),
        decreases type_flags@.len() - i,
    {
        let bit_set = (type_bits >> (i as u32)) & 1u32 == 1u32;
        let flags = type_flags[i];
        if bit_set && (flags & required) == required {
            return Ok(i);
        }
        i = i + 1;
    }
    Err(InitError::NoSuitableMemoryType)
}

/// A buffer with its backing memory. `host_visible` records whether the host
/// may write the contents directly; a buffer the host cannot write is filled
/// only through `copy_buffer`.
pub struct Buffer {
    pub host_visible: bool,
    pub contents: Vec<u8>,
}

/// Create a buffer of `size` bytes backed by memory with the given host
/// visibility. Fresh memory holds nothing meaningful; the model zeroes it.
pub fn create_buffer(size: usize, host_visible: bool) -> (b: Buffer)
    ensures
        b.contents@.len() == size,
        b.host_visible == host_visible,
{
    let mut contents: Vec<u8> = Vec::new();
    let mut i: usize = 0;
    while i < size
        invariant
            i <= size,
            contents@.len() == i,
        decreases size - i,
    {
        contents.push(0);
        i = i + 1;
    }
    Buffer { host_visible, contents }
}

fn clone_bytes(src: &Vec<u8>) -> (r: Vec<u8>)
    ensures
        r@ == src@,
{
    let mut copied: Vec<u8> = Vec::new();
    let mut i: usize = 0;
    while i < src.len()
        invariant
            i <= src@.len(),
            copied@ =~= src@.take(i as int),
        decreases src@.len() - i,
    {
        copied.push(src[i]);
        i = i + 1;
    }
    proof {
        assert(copied@ =~= src@);
    }
    copied
}

/// Map a host-visible buffer and overwrite its contents with `bytes`.
pub fn write_buffer(b: &mut Buffer, bytes: &Vec<u8>)
    requires
        old(b).host_visible,
        bytes@.len() == old(b).contents@.len(),
    ensures
        final (b).contents@ == bytes@,
        final (b).host_visible == old(b).host_visible,
{
    b.contents = clone_bytes(bytes);
}

/// Copy the first `size` bytes of `src` into `dst` through a one-shot
/// command-buffer submission that waits for the queue to go idle: the copy
/// is synchronous and blocking by design, and when it returns the
/// destination's prefix holds the source bytes.
pub fn copy_buffer(src: &Buffer, dst: &mut Buffer, size: usize)
    requires
        size <= src.contents@.len(),
        size <= old(dst).contents@.len(),
    ensures
        final (dst).contents@ == src.contents@.take(size as int) + old(dst).contents@.skip(
            size as int,
        ),
        final (dst).host_visible == old(dst).host_visible,
{
    let ghost old_dst = dst.contents@;
    let mut merged: Vec<u8> = Vec::new();
    let mut i: usize = 0;
    while i < size
        invariant
            i <= size <= src.contents@.len(),
            merged@ =~= src.contents@.take(i as int),
        decreases size - i,
    {
        merged.push(src.contents[i]);
        i = i + 1;
    }
    let mut k: usize = size;
    while k < dst.contents.len()
        invariant
            size <= k <= dst.contents@.len(),
            dst.contents@ == old_dst,
            dst.host_visible == old(dst).host_visible,
            merged@ =~= src.contents@.take(size as int) + old_dst.subrange(size as int, k as int),
        decreases dst.contents@.len() - k,
    {
        merged.push(dst.contents[k]);
        k = k + 1;
    }
    proof {
        assert(merged@ =~= src.contents@.take(size as int) + old_dst.skip(size as int));
    }
    dst.contents = merged;
}

/// Upload `payload` into a buffer the host cannot write, by writing a
/// host-visible staging buffer and copying it over. The destination ends up
/// holding exactly the payload bytes.
pub fn upload_via_staging(payload: &Vec<u8>) -> (b: Buffer)
    ensures
        b.contents@ == payload@,
        !b.host_visible,
{
    let mut staging = create_buffer(payload.len(), true);
    write_buffer(&mut staging, payload);
    let mut device_buf = create_buffer(payload.len(), false);
    copy_buffer(&staging, &mut device_buf, payload.len());
    proof {
        assert(device_buf.contents@ =~= payload@);
    }
    device_buf
}

/// Read a buffer the host cannot map back to the host, by copying it into a
/// host-visible staging buffer. The returned bytes are exactly the buffer's
/// contents.
pub fn download_via_staging(b: &Buffer) -> (v: Vec<u8>)
    ensures
        v@ == b.contents@,
{
    let mut staging = create_buffer(b.contents.len(), true);
    copy_buffer(b, &mut staging, b.contents.len());
    proof {
        assert(staging.contents@ =~= b.contents@);
    }
    staging.contents
}

/// One host-visible uniform buffer per swapchain image, so that concurrent
/// in-flight frames never write the same uniform buffer: a frame only writes
/// the slot of the image it has acquired.
pub struct UniformSet {
    pub slots: Vec<Vec<u8>>,
}

impl UniformSet {
    /// Every image, the first included, has a slot of the agreed size.
    pub open spec fn well_formed(&self, image_count: int, size: int) -> bool {
        &&& self.slots@.len() == image_count
        &&& forall|i: int| 0 <= i < image_count ==> (#[trigger] self.slots@[i])@.len() == size
    }

    /// Allocate one uniform buffer of `size` bytes for each of the
    /// `image_count` swapchain images — all of them, from slot zero on.
    pub fn allocate(image_count: usize, size: usize) -> (u: UniformSet)
        ensures
            u.well_formed(image_count as int, size as int),
    {
        let mut slots: Vec<Vec<u8>> = Vec::new();
        let mut i: usize = 0;
        while i < image_count
            invariant
                i <= image_count,
                slots@.len() == i,
                forall|j: int| 0 <= j < i ==> (#[trigger] slots@[j])@.len() == size,
            decreases image_count - i,
        {
            let b = create_buffer(size, true);
            slots.push(b.contents);
            i = i + 1;
        }
        UniformSet { slots }
    }

    /// Write this frame's caller-supplied transform data into the slot of
    /// the acquired image; every other slot is untouched.
    pub fn update(&mut self, image: usize, data: &Vec<u8>)
        requires
            image < old(self).slots@.len(),
        ensures
            final (self).slots@.len() == old(self).slots@.len(),
            (final (self).slots@[image as int])@ == data@,
            forall|j: int|
                0 <= j < old(self).slots@.len() && j != image ==> final (self).slots@[j] == old(
                    self,
                ).slots@[j],
    {
        let copied = clone_bytes(data);
        self.slots.set(image, copied);
    }
}

/// Round trip: bytes pushed through the staging upload and read back through
/// a device-to-host copy are identical to the source bytes.
pub proof fn lemma_staging_round_trip(payload: Seq<u8>, uploaded: Buffer, read_back: Seq<u8>)
    requires
        uploaded.contents@ == payload,
        read_back == uploaded.contents@,
    ensures
        read_back == payload,
{
}

} // verus!
