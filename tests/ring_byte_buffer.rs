use rplidar_drv::RingByteBuffer;

#[test]
fn constructor() {
    let ring_buf = RingByteBuffer::with_capacity(100);

    assert_eq!(ring_buf.len(), 0);
    assert_eq!(ring_buf.capacity(), 100);
    assert_eq!(ring_buf.free_space(), 100);
    assert_eq!(ring_buf.current_read_slice().len(), 0);
}

#[test]
fn read_and_write() {
    let mut ring_buf = RingByteBuffer::with_capacity(6);

    let test_data = vec![1, 2, 3, 4];

    assert_eq!(ring_buf.write(&test_data[..]), 4);
    assert_eq!(ring_buf.len(), 4);
    assert_eq!(ring_buf.free_space(), 2);

    assert_eq!(ring_buf.write(&test_data[..]), 2);
    assert_eq!(ring_buf.len(), 6);
    assert_eq!(ring_buf.free_space(), 0);

    assert_eq!(ring_buf.current_read_slice(), [1, 2, 3, 4, 1, 2]);

    let mut read_buf = [0; 5];

    assert_eq!(ring_buf.read(&mut read_buf), 5);
    assert_eq!(read_buf, [1, 2, 3, 4, 1]);
    assert_eq!(ring_buf.len(), 1);
    assert_eq!(ring_buf.free_space(), 5);
    assert_eq!(ring_buf.read(&mut read_buf), 1);
    assert_eq!(read_buf, [2, 2, 3, 4, 1]);
    assert_eq!(ring_buf.len(), 0);
    assert_eq!(ring_buf.free_space(), 6);
}

#[test]
fn wraps_around_storage() {
    let mut ring_buf = RingByteBuffer::with_capacity(4);
    assert_eq!(ring_buf.write(&[1, 2, 3]), 3);
    assert_eq!(ring_buf.skip_bytes(2), 2);
    assert_eq!(ring_buf.write(&[4, 5, 6, 7]), 3);
    assert_eq!(ring_buf.current_read_slice(), [3, 4]);
    let mut out = [0u8; 8];
    assert_eq!(ring_buf.read(&mut out), 4);
    assert_eq!(&out[0..4], &[3, 4, 5, 6]);
    assert_eq!(ring_buf.skip_bytes(3), 0);
}

#[test]
fn zero_capacity_holds_nothing() {
    let mut ring_buf = RingByteBuffer::with_capacity(0);
    assert_eq!(ring_buf.write(&[1, 2]), 0);
    assert_eq!(ring_buf.skip_bytes(1), 0);
    assert_eq!(ring_buf.free_space(), 0);
}
