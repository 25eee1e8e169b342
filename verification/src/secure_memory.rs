//! A buffer for secrets with a fixed capacity and a current length, and the
//! memory primitives under it.
//!
//! The buffer zeroes its whole capacity before every write and when it is
//! cleared or destroyed, and it is destroyed when it goes away. A destroyed
//! buffer answers every question as an empty one would, so that nothing about
//! its former content can be learned.
//!
//! Locking the pages of the buffer into memory is the business of the program
//! that owns it: it locks the region, tells the buffer what came of it, and
//! unlocks the region before the buffer is destroyed.

use vstd::prelude::*;
use crate::wipe::{zeroize_all, zeroize_from, zeros};

verus! {

/// The alignment, in bytes, of a buffer's memory.
pub const BUFFER_ALIGNMENT: usize = 32;

/// Why an operation on a buffer failed.
#[derive(Debug, Clone, Copy, PartialEq, Eq, Structural)]
pub enum SecureBufferError {
    InvalidSize,
    AllocationFailed,
    /// The pages could not be locked; the code is the system's error number.
    LockFailed(i32),
    CopyOverflow,
    InvalidState,
}

impl SecureBufferError {
    /// The error in words.
    pub fn message(&self) -> (text: String)
        ensures
            text@ == (match *self {
                SecureBufferError::InvalidSize => "Invalid size"@,
                SecureBufferError::AllocationFailed => "Allocation failed"@,
                SecureBufferError::LockFailed(_) => "Lock failed"@,
                SecureBufferError::CopyOverflow => "Copy overflow"@,
                SecureBufferError::InvalidState => "Invalid state"@,
            }),
    {
        match self {
            SecureBufferError::InvalidSize => "Invalid size".to_string(),
            SecureBufferError::AllocationFailed => "Allocation failed".to_string(),
            SecureBufferError::LockFailed(_) => "Lock failed".to_string(),
            SecureBufferError::CopyOverflow => "Copy overflow".to_string(),
            SecureBufferError::InvalidState => "Invalid state".to_string(),
        }
    }
}

/// The outcome of an operation on the membership filter, as the foreign
/// interface reports it.
#[derive(Debug, Clone, Copy, PartialEq, Eq, Structural)]
pub enum UniversalBloomFilterError {
    Success,
    InvalidConfiguration,
    InvalidInput,
    HashComputationError,
    SystemTimeError,
    MemoryError,
    ConcurrencyError,
    NullPointer,
    InvalidSize,
}

/// The number that stands for an outcome on the foreign interface: zero for
/// success, and the negative numbers from -1 to -8 for the errors.
pub open spec fn error_code(e: UniversalBloomFilterError) -> int {
    match e {
        UniversalBloomFilterError::Success => 0,
        UniversalBloomFilterError::InvalidConfiguration => -1,
        UniversalBloomFilterError::InvalidInput => -2,
        UniversalBloomFilterError::HashComputationError => -3,
        UniversalBloomFilterError::SystemTimeError => -4,
        UniversalBloomFilterError::MemoryError => -5,
        UniversalBloomFilterError::ConcurrencyError => -6,
        UniversalBloomFilterError::NullPointer => -7,
        UniversalBloomFilterError::InvalidSize => -8,
    }
}

impl UniversalBloomFilterError {
    /// The number that stands for the outcome on the foreign interface.
    pub fn code(&self) -> (code: i32)
        ensures
            code == error_code(*self),
    {
        match self {
            UniversalBloomFilterError::Success => 0,
            UniversalBloomFilterError::InvalidConfiguration => -1,
            UniversalBloomFilterError::InvalidInput => -2,
            UniversalBloomFilterError::HashComputationError => -3,
            UniversalBloomFilterError::SystemTimeError => -4,
            UniversalBloomFilterError::MemoryError => -5,
            UniversalBloomFilterError::ConcurrencyError => -6,
            UniversalBloomFilterError::NullPointer => -7,
            UniversalBloomFilterError::InvalidSize => -8,
        }
    }

    /// The outcome that `code` stands for, if any.
    pub fn from_code(code: i32) -> (outcome: Option<UniversalBloomFilterError>)
        ensures
            outcome.is_some() == (-8 <= code <= 0),
            outcome matches Some(e) ==> error_code(e) == code,
    {
        match code {
            0 => Some(UniversalBloomFilterError::Success),
            -1 => Some(UniversalBloomFilterError::InvalidConfiguration),
            -2 => Some(UniversalBloomFilterError::InvalidInput),
            -3 => Some(UniversalBloomFilterError::HashComputationError),
            -4 => Some(UniversalBloomFilterError::SystemTimeError),
            -5 => Some(UniversalBloomFilterError::MemoryError),
            -6 => Some(UniversalBloomFilterError::ConcurrencyError),
            -7 => Some(UniversalBloomFilterError::NullPointer),
            -8 => Some(UniversalBloomFilterError::InvalidSize),
            _ => None,
        }
    }
}

/// Overwrites every byte of `region` with zero, in a way that the compiler
/// may not remove.
pub fn explicit_bzero(region: &mut Vec<u8>)
    ensures
        final(region)@ == zeros(old(region)@.len()),
    opens_invariants none
    no_unwind
{
    zeroize_from(region, 0);
    proof {
        assert(region@ =~= zeros(old(region)@.len()));
    }
}

/// What a buffer holds.
pub struct SecureBufferState {
    /// The bytes that were written last.
    pub content: Seq<u8>,
    /// The number of bytes that can be written.
    pub capacity: nat,
    pub is_valid: bool,
    pub is_locked: bool,
}

/// A buffer for secrets with a fixed capacity.
pub struct SecureBuffer {
    data: Vec<u8>,
    capacity: usize,
    length: usize,
    is_valid: bool,
    is_locked: bool,
}

impl View for SecureBuffer {
    type V = SecureBufferState;

    closed spec fn view(&self) -> SecureBufferState {
        SecureBufferState {
            content: self.data@.take(self.length as int),
            capacity: self.capacity as nat,
            is_valid: self.is_valid,
            is_locked: self.is_locked,
        }
    }
}

/// The largest capacity for which memory of the buffer's alignment can be
/// laid out.
pub open spec fn max_capacity() -> int {
    isize::MAX - (BUFFER_ALIGNMENT - 1)
}

impl SecureBuffer {
    /// The representation invariant: the memory is as large as the capacity,
    /// the length is within it, and every byte beyond the length is zero.
    pub closed spec fn wf(&self) -> bool {
        &&& self.data@.len() == self.capacity
        &&& self.length <= self.capacity
        &&& forall|i: int| self.length <= i < self.capacity ==> self.data@[i] == 0
        &&& !self.is_valid ==> self.capacity == 0 && !self.is_locked
    }

    /// A well-formed buffer holds no more than its capacity, and a destroyed
    /// one holds nothing.
    pub proof fn lemma_bounds(&self)
        requires
            self.wf(),
        ensures
            self@.content.len() <= self@.capacity,
            !self@.is_valid ==> self@.capacity == 0 && self@.content.len() == 0 && !self@.is_locked,
    {
    }

    /// An empty, valid buffer that can hold `capacity` bytes, its pages not
    /// locked. A capacity of zero is refused, and so is one for which no
    /// memory can be laid out.
    pub fn new(capacity: usize) -> (made: Result<Self, String>)
        ensures
            made.is_ok() <==> 0 < capacity <= max_capacity(),
            made matches Ok(buffer) ==> buffer.wf() && buffer@ == (SecureBufferState {
                content: Seq::empty(),
                capacity: capacity as nat,
                is_valid: true,
                is_locked: false,
            }),
            made matches Err(text) ==> text@ == (if capacity == 0 {
                "Capacity must be greater than 0"@
            } else {
                "Invalid layout for allocation"@
            }),
    {
        if capacity == 0 {
            return Err("Capacity must be greater than 0".to_string());
        }
        if capacity > (isize::MAX as usize) - (BUFFER_ALIGNMENT - 1) {
            return Err("Invalid layout for allocation".to_string());
        }
        let mut data = vec![0u8; capacity];
        explicit_bzero(&mut data);
        let buffer = SecureBuffer { data, capacity, length: 0, is_valid: true, is_locked: false };
        assert(buffer@.content =~= Seq::<u8>::empty());
        Ok(buffer)
    }

    /// The whole memory of the buffer: the content, followed by zeros up to
    /// the capacity. This is the region whose pages the owner locks.
    pub fn region(&self) -> (region: &[u8])
        requires
            self.wf(),
        ensures
            region@ == self@.content + zeros((self@.capacity - self@.content.len()) as nat),
    {
        let region = self.data.as_slice();
        assert(region@ =~= self@.content + zeros((self@.capacity - self@.content.len()) as nat));
        region
    }

    /// Records what came of locking the buffer's pages: a valid buffer is
    /// locked from now on where the lock succeeded. A failed lock is no
    /// failure of the buffer, which goes on unlocked.
    pub fn with_lock_outcome(self, outcome: Result<(), i32>) -> (buffer: Self)
        requires
            self.wf(),
        ensures
            buffer.wf(),
            buffer@ == (SecureBufferState {
                is_locked: self@.is_valid && outcome.is_ok(),
                ..self@
            }),
    {
        let mut buffer = self;
        buffer.is_locked = buffer.is_valid && outcome.is_ok();
        buffer
    }

    /// Replaces the content by `data`. A destroyed buffer and data beyond the
    /// capacity are refused, in that order, and leave the buffer as it was.
    pub fn write(&mut self, data: &[u8]) -> (written: Result<(), String>)
        requires
            old(self).wf(),
        ensures
            final(self).wf(),
            written.is_ok() <==> old(self)@.is_valid && data@.len() <= old(self)@.capacity,
            written.is_ok() ==> final(self)@ == (SecureBufferState { content: data@, ..old(self)@ }),
            written matches Err(text) ==> final(self)@ == old(self)@ && text@ == (if !old(
                self,
            )@.is_valid {
                "Buffer is not valid"@
            } else {
                "Data exceeds buffer capacity"@
            }),
    {
        if !self.is_valid {
            return Err("Buffer is not valid".to_string());
        }
        if data.len() > self.capacity {
            return Err("Data exceeds buffer capacity".to_string());
        }
        explicit_bzero(&mut self.data);
        let count = data.len();
        let mut i: usize = 0;
        while i < count
            invariant
                i <= count,
                count == data@.len(),
                count <= self.capacity,
                self.data@.len() == self.capacity,
                self.capacity == old(self).capacity,
                self.is_valid == old(self).is_valid,
                self.is_locked == old(self).is_locked,
                forall|j: int| 0 <= j < i ==> self.data@[j] == data@[j],
                forall|j: int| i <= j < self.capacity ==> self.data@[j] == 0,
            decreases count - i,
        {
            self.data[i] = data[i];
            i += 1;
        }
        self.length = count;
        assert(self@.content =~= data@);
        Ok(())
    }

    /// Copies the content into `buf`, as far as `buf` has room, and returns the
    /// number of bytes copied. The rest of `buf` is left alone. A destroyed
    /// buffer is refused.
    pub fn read(&self, buf: &mut [u8]) -> (copied: Result<usize, String>)
        requires
            self.wf(),
        ensures
            copied.is_ok() == self@.is_valid,
            copied matches Err(text) ==> text@ == "Buffer is not valid"@ && final(buf)@ == old(
                buf,
            )@,
            copied matches Ok(n) ==> {
                &&& n == (if old(buf)@.len() < self@.content.len() {
                    old(buf)@.len()
                } else {
                    self@.content.len()
                })
                &&& final(buf)@ == self@.content.take(n as int) + old(buf)@.skip(n as int)
            },
    {
        if !self.is_valid {
            return Err("Buffer is not valid".to_string());
        }
        let copy_len = if buf.len() < self.length {
            buf.len()
        } else {
            self.length
        };
        let mut i: usize = 0;
        while i < copy_len
            invariant
                i <= copy_len,
                copy_len <= self.length <= self.data@.len(),
                copy_len <= buf@.len(),
                buf@.len() == old(buf)@.len(),
                forall|j: int| 0 <= j < i ==> buf@[j] == self.data@[j],
                forall|j: int| i <= j < buf@.len() ==> buf@[j] == old(buf)@[j],
            decreases copy_len - i,
        {
            buf[i] = self.data[i];
            i += 1;
        }
        assert(buf@ =~= self@.content.take(copy_len as int) + old(buf)@.skip(copy_len as int));
        Ok(copy_len)
    }

    /// The content. A destroyed buffer and an empty one are refused; the error
    /// of an empty buffer does not say more than that.
    pub fn as_slice(&self) -> (content: Result<&[u8], String>)
        requires
            self.wf(),
        ensures
            content.is_ok() <==> self@.is_valid && self@.content.len() > 0,
            content matches Ok(bytes) ==> bytes@ == self@.content,
            content matches Err(text) ==> text@ == (if !self@.is_valid {
                "Buffer is not valid"@
            } else {
                "Empty"@
            }),
    {
        if !self.is_valid {
            return Err("Buffer is not valid".to_string());
        }
        if self.length == 0 {
            return Err("Empty".to_string());
        }
        let bytes = vstd::slice::slice_subrange(self.data.as_slice(), 0, self.length);
        assert(bytes@ =~= self@.content);
        Ok(bytes)
    }

    /// The number of bytes written last; zero for a destroyed buffer.
    pub fn len(&self) -> (len: usize)
        requires
            self.wf(),
        ensures
            len == (if self@.is_valid {
                self@.content.len()
            } else {
                0
            }),
    {
        if self.is_valid {
            self.length
        } else {
            0
        }
    }

    /// The number of bytes that can be written; zero for a destroyed buffer.
    pub fn capacity(&self) -> (capacity: usize)
        ensures
            capacity == (if self@.is_valid {
                self@.capacity
            } else {
                0
            }),
    {
        if self.is_valid {
            self.capacity
        } else {
            0
        }
    }

    /// Zeroes the buffer and forgets its content. A destroyed buffer is left
    /// alone.
    pub fn clear(&mut self)
        requires
            old(self).wf(),
        ensures
            final(self).wf(),
            final(self)@ == (if old(self)@.is_valid {
                SecureBufferState { content: Seq::empty(), ..old(self)@ }
            } else {
                old(self)@
            }),
    {
        if self.is_valid {
            explicit_bzero(&mut self.data);
            self.length = 0;
            assert(self@.content =~= Seq::<u8>::empty());
        }
    }

    /// Whether the buffer holds nothing or is destroyed.
    pub fn is_empty(&self) -> (empty: bool)
        requires
            self.wf(),
        ensures
            empty == (!self@.is_valid || self@.content.len() == 0),
    {
        !self.is_valid || self.length == 0
    }

    /// Whether the buffer has not been destroyed.
    pub fn is_valid(&self) -> (valid: bool)
        ensures
            valid == self@.is_valid,
    {
        self.is_valid
    }

    /// Whether the buffer's pages are locked into memory, as far as the owner
    /// has told. The owner unlocks them before the buffer is destroyed.
    pub fn is_locked(&self) -> (locked: bool)
        ensures
            locked == self@.is_locked,
    {
        self.is_locked
    }

    /// Destroys the buffer: it is marked invalid, zeroed twice and emptied,
    /// and no longer counts as locked. Destroying it again changes nothing.
    pub fn destroy(&mut self)
        ensures
            final(self).wf(),
            final(self)@ == (SecureBufferState {
                content: Seq::empty(),
                capacity: 0,
                is_valid: false,
                is_locked: false,
            }),
        opens_invariants none
        no_unwind
    {
        self.is_valid = false;
        explicit_bzero(&mut self.data);
        zeroize_all(&mut self.data);
        self.is_locked = false;
        self.capacity = 0;
        self.length = 0;
        proof {
            assert(self@.content =~= Seq::<u8>::empty());
        }
    }
}

impl Drop for SecureBuffer {
    /// A buffer that goes away is destroyed first.
    fn drop(&mut self)
        opens_invariants none
        no_unwind
    {
        self.destroy();
    }
}

} // verus!
