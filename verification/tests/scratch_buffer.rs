use kwasm::scratch::{kwasm_reserve_space, ScratchBuffer};

#[test]
fn reserve_sizes_and_zeroes() {
    let mut buffer = ScratchBuffer::new();
    assert_eq!(buffer.len(), 0);
    kwasm_reserve_space(&mut buffer, 4);
    assert_eq!(buffer.len(), 4);
    assert_eq!(buffer.take(), vec![0, 0, 0, 0]);
    assert_eq!(buffer.len(), 0);
}

#[test]
fn reserve_discards_previous_contents() {
    let mut buffer = ScratchBuffer::new();
    buffer.reserve(3);
    buffer.write(0, 10);
    buffer.write(1, 20);
    buffer.write(2, 30);
    kwasm_reserve_space(&mut buffer, 2);
    assert_eq!(buffer.take(), vec![0, 0]);
}

#[test]
fn take_moves_the_written_bytes_out() {
    let mut buffer = ScratchBuffer::new();
    buffer.reserve(3);
    buffer.write(0, 5);
    buffer.write(2, 9);
    assert_eq!(buffer.take(), vec![5, 0, 9]);
    assert_eq!(buffer.take(), Vec::<u8>::new());
}
