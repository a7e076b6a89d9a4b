use crispy_core::transport::{
    shared_memory_size, Header, SharedMemory, CAPACITY_FRAMES, CHANNELS, CRISPY_MAGIC,
    HEADER_BYTES, PROTOCOL_VERSION, SAMPLE_FORMAT, SAMPLE_RATE,
};

#[test]
fn test_header_init() {
    let header = Header::init();
    assert!(header.validate());
    assert_eq!(header.sample_rate, SAMPLE_RATE);
    assert_eq!(header.channels, CHANNELS);
}

#[test]
fn header_init_zeroes_state() {
    let header = Header::init();
    assert_eq!(header.magic, CRISPY_MAGIC);
    assert_eq!(header.version, PROTOCOL_VERSION);
    assert_eq!(header.format, SAMPLE_FORMAT);
    assert_eq!(header.capacity_frames, CAPACITY_FRAMES);
    assert_eq!(header.write_index, 0);
    assert_eq!(header.read_index, 0);
    assert_eq!(header.underrun_count, 0);
    assert_eq!(header.overrun_count, 0);
    assert_eq!(header.sequence, 0);
}

#[test]
fn validate_rejects_wrong_magic_or_version() {
    let mut header = Header::init();
    header.magic = 0x12345678;
    assert!(!header.validate());

    let mut header = Header::init();
    header.version = 2;
    assert!(!header.validate());

    // Every other field is irrelevant to validation.
    let mut header = Header::init();
    header.sample_rate = 1;
    header.channels = 7;
    header.format = 3;
    header.capacity_frames = 0;
    header.write_index = 99;
    header.sequence = u64::MAX;
    assert!(header.validate());
}

#[test]
fn shared_memory_size_is_header_plus_samples() {
    assert_eq!(
        shared_memory_size(),
        HEADER_BYTES + CAPACITY_FRAMES as usize * CHANNELS as usize * 4
    );
    assert_eq!(shared_memory_size(), 56 + 9600 * 4);
}

#[test]
fn worked_example_four_slots() {
    // Capacity 4 means 3 usable slots.
    let mut shm = SharedMemory::with_capacity(4);
    assert_eq!(shm.fill_level(), 0);

    let accepted = shm.write(&[1.0f32.to_bits(), 2.0f32.to_bits(), 3.0f32.to_bits()]);
    assert_eq!(accepted, 3);
    assert_eq!(shm.fill_level(), 3);

    let accepted = shm.write(&[4.0f32.to_bits(), 5.0f32.to_bits()]);
    assert_eq!(accepted, 0);
    assert_eq!(shm.overrun_count(), 1);
    assert_eq!(shm.fill_level(), 3);

    let mut buf = vec![0u32; 4];
    let got = shm.read(&mut buf);
    assert_eq!(got, 3);
    let samples: Vec<f32> = buf.iter().map(|&b| f32::from_bits(b)).collect();
    assert_eq!(samples, vec![1.0, 2.0, 3.0, 0.0]);
    assert_eq!(shm.underrun_count(), 1);
    assert_eq!(shm.fill_level(), 0);
}

#[test]
fn lossless_round_trip() {
    let mut shm = SharedMemory::new();
    let frames: Vec<u32> = (0..1000u32).map(|i| (i as f32 * 0.25).to_bits()).collect();
    let accepted = shm.write(&frames);
    assert_eq!(accepted, frames.len());

    let mut back = vec![0u32; 1000];
    let got = shm.read(&mut back);
    assert_eq!(got, 1000);
    // Bit-identical, in order.
    assert_eq!(back, frames);
    assert_eq!(shm.underrun_count(), 0);
    assert_eq!(shm.overrun_count(), 0);
    assert_eq!(shm.fill_level(), 0);
}

#[test]
fn overrun_counts_once_per_full_write() {
    let mut shm = SharedMemory::with_capacity(8);
    assert_eq!(shm.write(&[1, 2, 3, 4, 5, 6, 7]), 7);
    assert_eq!(shm.fill_level(), 7);
    for attempt in 1..=5u64 {
        assert_eq!(shm.write(&[42]), 0);
        assert_eq!(shm.overrun_count(), attempt);
        assert_eq!(shm.fill_level(), 7);
    }
}

#[test]
fn partial_write_is_not_an_overrun() {
    let mut shm = SharedMemory::with_capacity(8);
    let accepted = shm.write(&[1, 2, 3, 4, 5, 6, 7, 8, 9, 10]);
    assert_eq!(accepted, 7);
    assert_eq!(shm.overrun_count(), 0);
    assert_eq!(shm.fill_level(), 7);
}

#[test]
fn underrun_fills_tail_with_silence() {
    let mut shm = SharedMemory::with_capacity(16);
    assert_eq!(shm.write(&[10, 20, 30]), 3);

    let mut buf = vec![0xdeadbeefu32; 8];
    let got = shm.read(&mut buf);
    assert_eq!(got, 3);
    assert_eq!(buf, vec![10, 20, 30, 0, 0, 0, 0, 0]);
    assert_eq!(shm.underrun_count(), 1);

    // Reading from an empty buffer is a full-silence underrun.
    let mut buf = vec![7u32; 4];
    let got = shm.read(&mut buf);
    assert_eq!(got, 0);
    assert_eq!(buf, vec![0, 0, 0, 0]);
    assert_eq!(shm.underrun_count(), 2);
}

#[test]
fn exact_read_counts_no_underrun() {
    let mut shm = SharedMemory::with_capacity(16);
    assert_eq!(shm.write(&[10, 20, 30]), 3);
    let mut buf = vec![0u32; 3];
    assert_eq!(shm.read(&mut buf), 3);
    assert_eq!(buf, vec![10, 20, 30]);
    assert_eq!(shm.underrun_count(), 0);
}

#[test]
fn wraparound_preserves_order_and_values() {
    // Push well over two capacities through a small ring in ragged
    // chunks, so the indices wrap repeatedly at awkward positions.
    let mut shm = SharedMemory::with_capacity(7);
    let total: u32 = 7 * 3 + 5;
    let mut next_in: u32 = 0;
    let mut next_out: u32 = 0;
    let chunk_sizes = [3usize, 5, 2, 6, 1, 4];
    let mut chunk_index = 0;

    while next_out < total {
        let want = chunk_sizes[chunk_index % chunk_sizes.len()];
        chunk_index += 1;

        let chunk: Vec<u32> = (next_in..next_in + want as u32).collect();
        let accepted = shm.write(&chunk);
        next_in += accepted as u32;

        let level = shm.fill_level() as usize;
        let mut buf = vec![0u32; level.min(want)];
        let got = shm.read(&mut buf);
        assert_eq!(got, buf.len());
        for &value in buf.iter() {
            assert_eq!(value, next_out);
            next_out += 1;
        }
        if next_in >= total && shm.fill_level() == 0 {
            break;
        }
    }
}

#[test]
fn fill_level_stays_under_capacity() {
    let mut shm = SharedMemory::with_capacity(5);
    for round in 0..50u32 {
        shm.write(&[round, round + 1, round + 2]);
        let level = shm.fill_level();
        assert!(level < 5);
        let mut buf = vec![0u32; (round % 3) as usize];
        shm.read(&mut buf);
        assert!(shm.fill_level() < 5);
    }
}

#[test]
fn interleaved_totals_balance() {
    // A deterministic stand-in for the two-thread fuzz run: ragged
    // writes and reads interleave, and every sample accepted comes back
    // exactly once, in order.
    let mut shm = SharedMemory::with_capacity(64);
    let mut state: u64 = 0x853c49e6748fea9b;
    let mut rand = move || {
        state = state
            .wrapping_mul(6364136223846793005)
            .wrapping_add(1442695040888963407);
        (state >> 33) as usize
    };

    let mut next_in: u32 = 0;
    let mut next_out: u32 = 0;
    let mut total_accepted: u64 = 0;
    let mut total_read: u64 = 0;

    for _ in 0..10_000 {
        let want = rand() % 90;
        let chunk: Vec<u32> = (next_in..next_in + want as u32).collect();
        let accepted = shm.write(&chunk);
        assert!(accepted <= want);
        next_in += accepted as u32;
        total_accepted += accepted as u64;

        let ask = rand() % 90;
        let level = shm.fill_level() as usize;
        let mut buf = vec![0u32; ask];
        let got = shm.read(&mut buf);
        assert_eq!(got, ask.min(level));
        for &value in buf.iter().take(got) {
            assert_eq!(value, next_out);
            next_out += 1;
        }
        for &value in buf.iter().skip(got) {
            assert_eq!(value, 0);
        }
        total_read += got as u64;
    }

    // Drain what is left and compare the totals.
    let level = shm.fill_level() as usize;
    let mut buf = vec![0u32; level];
    total_read += shm.read(&mut buf) as u64;
    assert_eq!(total_read, total_accepted);
    assert_eq!(shm.header.sequence, total_accepted);
}

#[test]
fn sequence_counts_accepted_frames() {
    let mut shm = SharedMemory::with_capacity(8);
    shm.write(&[1, 2, 3]);
    assert_eq!(shm.header.sequence, 3);
    shm.write(&[4, 5, 6, 7, 8, 9]);
    // Only 4 more slots were usable.
    assert_eq!(shm.header.sequence, 7);
    let mut buf = vec![0u32; 7];
    shm.read(&mut buf);
    shm.write(&[10]);
    assert_eq!(shm.header.sequence, 8);
}
