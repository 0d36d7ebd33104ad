use front_io_board::eeprom::{chunk_plan, Chunk};

fn c(eeprom_offset: usize, data_offset: usize, len: usize) -> Chunk {
    Chunk { eeprom_offset, data_offset, len }
}

#[test]
fn empty_transfer_has_no_chunk() {
    assert_eq!(chunk_plan(77, 0), vec![]);
}

#[test]
fn exact_buffer_is_one_chunk() {
    assert_eq!(chunk_plan(5, 128), vec![c(5, 0, 128)]);
}

#[test]
fn long_transfer_ends_with_remainder() {
    assert_eq!(chunk_plan(10, 300), vec![c(10, 0, 128), c(138, 128, 128), c(266, 256, 44)]);
    assert_eq!(chunk_plan(0, 129), vec![c(0, 0, 128), c(128, 128, 1)]);
}

#[test]
fn chunks_cover_range_once() {
    for len in [1usize, 127, 128, 255, 256, 1000] {
        let plan = chunk_plan(4096, len);
        let total: usize = plan.iter().map(|k| k.len).sum();
        assert_eq!(total, len);
        let mut next = 0;
        for k in &plan {
            assert_eq!(k.data_offset, next);
            assert_eq!(k.eeprom_offset, 4096 + next);
            assert!(k.len > 0 && k.len <= 128);
            next += k.len;
        }
    }
}
