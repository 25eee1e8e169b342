//! A buffer for secrets that is wiped when it is overwritten and when it
//! goes away.
//!
//! The buffer has a fixed size between one byte and one gibibyte. Whatever a
//! copy does not cover is zeroed, so no stale byte of an earlier secret stays
//! behind. Locking the pages of the buffer into memory is the business of the
//! program that owns it; the buffer records what came of it.

use vstd::prelude::*;
use crate::wipe::{zeroize_all, zeroize_from, zeros};

verus! {

/// The largest buffer: one gibibyte.
pub const MAX_BUFFER_SIZE: usize = 0x4000_0000;

/// Why an operation on a buffer failed.
#[derive(Debug, Clone, Copy, PartialEq, Eq, Structural)]
pub enum SecureBufferError {
    /// The size is zero or above one gibibyte.
    InvalidSize,
    /// No memory could be had.
    AllocationFailed,
    /// The pages could not be locked; the code is the system's error number.
    LockFailed(i32),
    /// More bytes were offered than the buffer holds.
    CopyOverflow,
    /// The buffer has been invalidated.
    InvalidState,
}

/// What a buffer holds.
pub struct SecureBufferState {
    pub bytes: Seq<u8>,
    pub lock_count: nat,
    pub is_valid: bool,
}

/// A fixed-size buffer for secrets.
pub struct SecureBuffer {
    buffer: Vec<u8>,
    lock_count: usize,
    is_valid: bool,
}

impl View for SecureBuffer {
    type V = SecureBufferState;

    closed spec fn view(&self) -> SecureBufferState {
        SecureBufferState {
            bytes: self.buffer@,
            lock_count: self.lock_count as nat,
            is_valid: self.is_valid,
        }
    }
}

impl SecureBuffer {
    /// A valid buffer of `size` zero bytes whose pages are not locked yet.
    /// A size of zero, or of more than one gibibyte, is refused.
    pub fn new(size: usize) -> (made: Result<Self, SecureBufferError>)
        ensures
            made.is_ok() <==> 0 < size <= MAX_BUFFER_SIZE,
            made matches Err(e) ==> e == SecureBufferError::InvalidSize,
            made matches Ok(buffer) ==> buffer@ == (SecureBufferState {
                bytes: zeros(size as nat),
                lock_count: 0,
                is_valid: true,
            }),
    {
        if size == 0 || size > MAX_BUFFER_SIZE {
            return Err(SecureBufferError::InvalidSize);
        }
        let buffer = vec![0u8; size];
        assert(buffer@ =~= zeros(size as nat));
        Ok(SecureBuffer { buffer, lock_count: 0, is_valid: true })
    }

    /// Records what came of locking the buffer's pages. A successful lock is
    /// counted. After a failed one the buffer is wiped and given up, and the
    /// system's error number is passed on.
    pub fn with_lock_outcome(self, outcome: Result<(), i32>) -> (locked: Result<
        Self,
        SecureBufferError,
    >)
        ensures
            locked.is_ok() == outcome.is_ok(),
            locked matches Ok(buffer) ==> buffer@ == (SecureBufferState {
                lock_count: if self@.lock_count < usize::MAX {
                    self@.lock_count + 1
                } else {
                    self@.lock_count
                },
                ..self@
            }),
            locked matches Err(e) ==> outcome == Err::<(), i32>(e->LockFailed_0) && e
                is LockFailed,
    {
        let mut buffer = self;
        match outcome {
            Ok(()) => {
                buffer.lock_count = buffer.lock_count.saturating_add(1);
                Ok(buffer)
            },
            Err(code) => {
                buffer.destroy();
                Err(SecureBufferError::LockFailed(code))
            },
        }
    }

    /// Replaces the content by `data`, followed by zeros up to the buffer's
    /// size. An invalidated buffer and data longer than the buffer are
    /// refused, in that order, and leave the buffer as it was.
    pub fn copy_from_slice(&mut self, data: &[u8]) -> (copied: Result<(), SecureBufferError>)
        ensures
            copied == (if !old(self)@.is_valid {
                Err::<(), SecureBufferError>(SecureBufferError::InvalidState)
            } else if data@.len() > old(self)@.bytes.len() {
                Err::<(), SecureBufferError>(SecureBufferError::CopyOverflow)
            } else {
                Ok::<(), SecureBufferError>(())
            }),
            copied.is_err() ==> final(self)@ == old(self)@,
            copied.is_ok() ==> final(self)@ == (SecureBufferState {
                bytes: data@ + zeros((old(self)@.bytes.len() - data@.len()) as nat),
                ..old(self)@
            }),
    {
        if !self.is_valid {
            return Err(SecureBufferError::InvalidState);
        }
        if data.len() > self.buffer.len() {
            return Err(SecureBufferError::CopyOverflow);
        }
        let count = data.len();
        let mut i: usize = 0;
        while i < count
            invariant
                i <= count,
                count == data@.len(),
                count <= self.buffer@.len(),
                self.buffer@.len() == old(self).buffer@.len(),
                self.lock_count == old(self).lock_count,
                self.is_valid == old(self).is_valid,
                forall|j: int| 0 <= j < i ==> self.buffer@[j] == data@[j],
            decreases count - i,
        {
            self.buffer[i] = data[i];
            i += 1;
        }
        if count < self.buffer.len() {
            zeroize_from(&mut self.buffer, count);
        }
        assert(self.buffer@ =~= data@ + zeros((old(self)@.bytes.len() - data@.len()) as nat));
        Ok(())
    }

    /// The content, unless the buffer has been invalidated.
    pub fn as_slice(&self) -> (content: Option<&[u8]>)
        ensures
            content.is_some() == self@.is_valid,
            content matches Some(bytes) ==> bytes@ == self@.bytes,
    {
        if !self.is_valid {
            None
        } else {
            Some(self.buffer.as_slice())
        }
    }

    /// The content for writing, unless the buffer has been invalidated. What
    /// the caller writes through the slice is what the buffer holds afterwards.
    pub fn as_mut_slice(&mut self) -> (content: Option<&mut [u8]>)
        ensures
            content.is_some() == old(self)@.is_valid,
            content is None ==> final(self)@ == old(self)@,
            content matches Some(bytes) ==> bytes@ == old(self)@.bytes && final(self)@ == (
            SecureBufferState { bytes: final(bytes)@, ..old(self)@ }),
    {
        if !self.is_valid {
            None
        } else {
            Some(self.buffer.as_mut_slice())
        }
    }

    /// The size of the buffer in bytes.
    pub fn len(&self) -> (len: usize)
        ensures
            len == self@.bytes.len(),
    {
        self.buffer.len()
    }

    /// Wipes the buffer: every byte is zeroed and the buffer is left empty.
    pub fn zeroize(&mut self)
        ensures
            final(self)@ == (SecureBufferState { bytes: Seq::empty(), ..old(self)@ }),
    {
        zeroize_all(&mut self.buffer);
    }

    /// Invalidates the buffer and wipes it. This is what must happen to a
    /// buffer before it goes away.
    pub fn destroy(&mut self)
        ensures
            final(self)@ == (SecureBufferState {
                bytes: Seq::empty(),
                is_valid: false,
                ..old(self)@
            }),
        opens_invariants none
        no_unwind
    {
        self.is_valid = false;
        zeroize_all(&mut self.buffer);
    }

    /// Whether pages of the buffer are locked and have to be unlocked before
    /// the memory is given back.
    pub fn needs_unlock(&self) -> (needed: bool)
        ensures
            needed == (self@.lock_count > 0),
    {
        self.lock_count > 0
    }
}

impl Drop for SecureBuffer {
    /// A buffer that goes away is invalidated and wiped first.
    fn drop(&mut self)
        opens_invariants none
        no_unwind
    {
        self.destroy();
    }
}

} // verus!
