use sprint_backend::securebuffer::{SecureBuffer, SecureBufferError, MAX_BUFFER_SIZE};

#[test]
fn new_buffer_is_zeroed_and_valid() {
    let buffer = SecureBuffer::new(16).unwrap();
    assert_eq!(buffer.len(), 16);
    assert_eq!(buffer.as_slice().unwrap(), &[0u8; 16]);
    assert!(!buffer.needs_unlock());
}

#[test]
fn sizes_outside_the_range_are_refused() {
    assert_eq!(SecureBuffer::new(0).err(), Some(SecureBufferError::InvalidSize));
    assert_eq!(SecureBuffer::new(MAX_BUFFER_SIZE + 1).err(), Some(SecureBufferError::InvalidSize));
    assert!(SecureBuffer::new(1).is_ok());
    assert_eq!(MAX_BUFFER_SIZE, 1 << 30);
}

#[test]
fn copy_zeroes_what_it_does_not_cover() {
    let mut buffer = SecureBuffer::new(8).unwrap();
    assert_eq!(buffer.copy_from_slice(&[1, 2, 3, 4, 5, 6, 7, 8]), Ok(()));
    assert_eq!(buffer.as_slice().unwrap(), &[1, 2, 3, 4, 5, 6, 7, 8]);
    assert_eq!(buffer.copy_from_slice(&[9, 9]), Ok(()));
    assert_eq!(buffer.as_slice().unwrap(), &[9, 9, 0, 0, 0, 0, 0, 0]);
    assert_eq!(buffer.copy_from_slice(&[]), Ok(()));
    assert_eq!(buffer.as_slice().unwrap(), &[0u8; 8]);
}

#[test]
fn copy_of_too_much_is_refused() {
    let mut buffer = SecureBuffer::new(4).unwrap();
    assert_eq!(buffer.copy_from_slice(&[7, 7, 7]), Ok(()));
    assert_eq!(buffer.copy_from_slice(&[1, 2, 3, 4, 5]), Err(SecureBufferError::CopyOverflow));
    assert_eq!(buffer.as_slice().unwrap(), &[7, 7, 7, 0]);
}

#[test]
fn destroyed_buffer_is_invalid_and_empty() {
    let mut buffer = SecureBuffer::new(4).unwrap();
    buffer.copy_from_slice(&[1, 2, 3, 4]).unwrap();
    buffer.destroy();
    assert!(buffer.as_slice().is_none());
    assert!(buffer.as_mut_slice().is_none());
    assert_eq!(buffer.len(), 0);
    assert_eq!(buffer.copy_from_slice(&[1]), Err(SecureBufferError::InvalidState));
}

#[test]
fn zeroize_empties_the_buffer() {
    let mut buffer = SecureBuffer::new(4).unwrap();
    buffer.copy_from_slice(&[1, 2, 3, 4]).unwrap();
    buffer.zeroize();
    assert_eq!(buffer.len(), 0);
    assert_eq!(buffer.as_slice().unwrap(), &[] as &[u8]);
}

#[test]
fn writes_through_the_mutable_slice_are_kept() {
    let mut buffer = SecureBuffer::new(3).unwrap();
    buffer.as_mut_slice().unwrap()[1] = 42;
    assert_eq!(buffer.as_slice().unwrap(), &[0, 42, 0]);
}

#[test]
fn lock_outcome_is_recorded() {
    let buffer = SecureBuffer::new(4).unwrap();
    let locked = buffer.with_lock_outcome(Ok(())).unwrap();
    assert!(locked.needs_unlock());
    let other = SecureBuffer::new(4).unwrap();
    assert_eq!(other.with_lock_outcome(Err(12)).err(), Some(SecureBufferError::LockFailed(12)));
}
