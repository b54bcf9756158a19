//! A bounded pool of reusable, zero-filled byte buffers.

use vstd::prelude::*;
use vstd::string::*;
use crate::error::{DIOrbError, Result};

verus! {

/// `n` zero bytes.
pub open spec fn zeros(n: nat) -> Seq<u8> {
    Seq::new(n, |i: int| 0u8)
}

/// Buffer pool for reusing allocated buffers to reduce memory allocation overhead
pub struct BufferPool {
    buffers: Vec<Vec<u8>>,
    buffer_size: usize,
    max_buffers: usize,
}

/// A zero-filled buffer of `len` bytes.
fn zeroed(len: usize) -> (r: Vec<u8>)
    ensures
        r@ == zeros(len as nat),
{
    let mut v: Vec<u8> = Vec::new();
    let mut i: usize = 0;
    while i < len
        invariant
            i <= len,
            v@ == zeros(i as nat),
        decreases len - i,
    {
        v.push(0);
        i = i + 1;
        assert(v@ =~= zeros(i as nat));
    }
    v
}

/// Overwrites every byte of `buf` with zero.
fn clear_bytes(buf: &mut Vec<u8>)
    ensures
        final(buf)@ == zeros(old(buf)@.len()),
{
    let n = buf.len();
    let mut i: usize = 0;
    while i < n
        invariant
            i <= n,
            buf@.len() == n,
            forall|j: int| 0 <= j < i ==> buf@[j] == 0u8,
        decreases n - i,
    {
        buf.set(i, 0);
        i = i + 1;
    }
    assert(buf@ =~= zeros(n as nat));
}

impl BufferPool {
    /// The pool's contents: the buffers it holds, each as its bytes.
    pub closed spec fn pooled(&self) -> Seq<Seq<u8>> {
        self.buffers@.map_values(|b: Vec<u8>| b@)
    }

    /// The size of every buffer the pool hands out.
    pub closed spec fn size(&self) -> nat {
        self.buffer_size as nat
    }

    /// The largest number of buffers the pool keeps.
    pub closed spec fn capacity(&self) -> nat {
        self.max_buffers as nat
    }

    /// Sizes are positive, the pool stays within its capacity, and every
    /// pooled buffer has the pool's size and holds only zeros.
    pub open spec fn wf(&self) -> bool {
        &&& self.size() > 0
        &&& self.capacity() > 0
        &&& self.pooled().len() <= self.capacity()
        &&& forall|i: int| 0 <= i < self.pooled().len() ==> #[trigger] self.pooled()[i] == zeros(self.size())
    }

    /// Create a new buffer pool; both sizes must be positive.
    pub fn new(buffer_size: usize, max_buffers: usize) -> (r: Result<Self>)
        ensures
            buffer_size == 0 ==> r is Err && r->Err_0 is ConfigError,
            buffer_size > 0 && max_buffers == 0 ==> r is Err && r->Err_0 is ConfigError,
            buffer_size > 0 && max_buffers > 0 ==> r is Ok && {
                let p = r->Ok_0;
                &&& p.wf()
                &&& p.size() == buffer_size
                &&& p.capacity() == max_buffers
                &&& p.pooled().len() == 0
            },
    {
        if buffer_size == 0 {
            return Err(DIOrbError::ConfigError(String::from_str("Buffer size must be greater than 0")));
        }
        if max_buffers == 0 {
            return Err(DIOrbError::ConfigError(String::from_str("Max buffers must be greater than 0")));
        }
        let p = BufferPool { buffers: Vec::new(), buffer_size, max_buffers };
        assert(p.pooled() =~= Seq::<Seq<u8>>::empty());
        Ok(p)
    }

    /// Get a buffer from the pool, creating a new one if none is available.
    /// It always holds `buffer_size` zero bytes.
    pub fn get_buffer(&mut self) -> (r: Vec<u8>)
        requires
            old(self).wf(),
        ensures
            final(self).wf(),
            r@ == zeros(old(self).size()),
            final(self).size() == old(self).size(),
            final(self).capacity() == old(self).capacity(),
            old(self).pooled().len() > 0 ==> final(self).pooled() == old(self).pooled().drop_last(),
            old(self).pooled().len() == 0 ==> final(self).pooled() == old(self).pooled(),
    {
        match self.buffers.pop() {
            Some(b) => {
                proof {
                    assert(b@ == old(self).pooled()[old(self).pooled().len() - 1]);
                    assert(self.pooled() =~= old(self).pooled().drop_last());
                }
                b
            },
            None => zeroed(self.buffer_size),
        }
    }

    /// Return a buffer to the pool for reuse. It is kept, zeroed, only when
    /// its size matches and the pool has room; otherwise it is dropped.
    pub fn return_buffer(&mut self, buffer: Vec<u8>) -> (r: Result<()>)
        requires
            old(self).wf(),
        ensures
            r is Ok,
            final(self).wf(),
            final(self).size() == old(self).size(),
            final(self).capacity() == old(self).capacity(),
            (buffer@.len() == old(self).size() && old(self).pooled().len() < old(self).capacity())
                ==> final(self).pooled() == old(self).pooled().push(zeros(old(self).size())),
            !(buffer@.len() == old(self).size() && old(self).pooled().len() < old(self).capacity())
                ==> final(self).pooled() == old(self).pooled(),
    {
        if buffer.len() == self.buffer_size && self.buffers.len() < self.max_buffers {
            let mut b = buffer;
            clear_bytes(&mut b);
            self.buffers.push(b);
            proof {
                assert(self.pooled() =~= old(self).pooled().push(zeros(old(self).size())));
            }
        }
        Ok(())
    }

    /// Get the configured buffer size
    pub fn buffer_size(&self) -> (r: usize)
        ensures
            r == self.size(),
    {
        self.buffer_size
    }

    /// Get the configured maximum number of pooled buffers
    pub fn max_buffers(&self) -> (r: usize)
        ensures
            r == self.capacity(),
    {
        self.max_buffers
    }

    /// Get current number of pooled buffers
    pub fn pool_size(&self) -> (r: Result<usize>)
        ensures
            r == Ok::<usize, DIOrbError>(self.pooled().len() as usize),
    {
        Ok(self.buffers.len())
    }
}

/// A pool never holds more buffers than its capacity: the bound is part of
/// its well-formedness, which creation establishes and every acquisition
/// and return preserves, whatever the order or number of returns.
pub proof fn lemma_pool_never_exceeds_capacity(p: BufferPool)
    requires
        p.wf(),
    ensures
        p.pooled().len() <= p.capacity(),
{
}

/// A buffer taken from a pool, to be handed back with `release`.
pub struct PooledBuffer {
    buffer: Vec<u8>,
}

impl PooledBuffer {
    /// The bytes of the buffer.
    pub closed spec fn bytes(&self) -> Seq<u8> {
        self.buffer@
    }

    /// Takes a buffer from the pool.
    pub fn new(pool: &mut BufferPool) -> (r: Result<Self>)
        requires
            old(pool).wf(),
        ensures
            r is Ok,
            r->Ok_0.bytes() == zeros(old(pool).size()),
            final(pool).wf(),
            final(pool).size() == old(pool).size(),
            final(pool).capacity() == old(pool).capacity(),
            old(pool).pooled().len() > 0 ==> final(pool).pooled() == old(pool).pooled().drop_last(),
            old(pool).pooled().len() == 0 ==> final(pool).pooled() == old(pool).pooled(),
    {
        Ok(PooledBuffer { buffer: pool.get_buffer() })
    }

    /// Get mutable access to the buffer
    pub fn as_mut(&mut self) -> (r: &mut Vec<u8>)
        ensures
            r@ == old(self).bytes(),
            final(self).bytes() == final(r)@,
    {
        &mut self.buffer
    }

    /// Get immutable access to the buffer
    pub fn as_ref(&self) -> (r: &[u8])
        ensures
            r@ == self.bytes(),
    {
        self.buffer.as_slice()
    }

    /// Get the buffer size
    pub fn len(&self) -> (r: usize)
        ensures
            r == self.bytes().len(),
    {
        self.buffer.len()
    }

    /// Check if buffer is empty
    pub fn is_empty(&self) -> (r: bool)
        ensures
            r == (self.bytes().len() == 0),
    {
        self.len() == 0
    }

    /// Hands the buffer back to the pool.
    pub fn release(self, pool: &mut BufferPool)
        requires
            old(pool).wf(),
        ensures
            final(pool).wf(),
            final(pool).size() == old(pool).size(),
            final(pool).capacity() == old(pool).capacity(),
            (self.bytes().len() == old(pool).size() && old(pool).pooled().len() < old(pool).capacity())
                ==> final(pool).pooled() == old(pool).pooled().push(zeros(old(pool).size())),
            !(self.bytes().len() == old(pool).size() && old(pool).pooled().len()
                < old(pool).capacity()) ==> final(pool).pooled() == old(pool).pooled(),
    {
        let _ = pool.return_buffer(self.buffer);
    }
}

} // verus!
