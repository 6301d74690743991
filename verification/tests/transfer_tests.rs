use capsule_host::transfer::{
    PacketKind, PacketProcessingError, TransferState, WORD_BYTES, decode_be_word, process_packet,
};

fn declare_datagram(total: u32) -> Vec<u8> {
    vec![
        (total >> 24) as u8,
        (total >> 16) as u8,
        (total >> 8) as u8,
        total as u8,
    ]
}

#[test]
fn decode_be_word_reads_big_endian() {
    assert_eq!(decode_be_word(&[0x12, 0x34, 0x56, 0x78]), 0x1234_5678);
    assert_eq!(decode_be_word(&[0, 0, 1, 44]), 300);
    assert_eq!(decode_be_word(&[0xff, 0xff, 0xff, 0xff]), u32::MAX);
    assert_eq!(WORD_BYTES, 4);
}

#[test]
fn three_chunks_of_a_declared_transfer() {
    // Scenario: 300 bytes declared, three 100-byte chunks in order.
    let mut buffer = vec![0u8; 400];
    let mut state = TransferState::NotStarted;

    let declare = declare_datagram(300);
    let r = process_packet(Ok(declare.len()), &declare, &mut buffer, &mut state);
    assert!(matches!(r, Ok(PacketKind::DeclareSize)));
    assert_eq!(state, TransferState::InProgress(0, 300));

    let chunk_a = vec![1u8; 100];
    let chunk_b = vec![2u8; 100];
    let chunk_c = vec![3u8; 100];

    let r = process_packet(Ok(100), &chunk_a, &mut buffer, &mut state);
    assert!(matches!(r, Ok(PacketKind::PartialFill)));
    assert_eq!(state, TransferState::InProgress(100, 200));

    let r = process_packet(Ok(100), &chunk_b, &mut buffer, &mut state);
    assert!(matches!(r, Ok(PacketKind::PartialFill)));
    assert_eq!(state, TransferState::InProgress(200, 100));

    let r = process_packet(Ok(100), &chunk_c, &mut buffer, &mut state);
    assert!(matches!(r, Ok(PacketKind::BufferFiled)));
    assert_eq!(state, TransferState::InProgress(300, 0));

    let mut expected = Vec::new();
    expected.extend_from_slice(&chunk_a);
    expected.extend_from_slice(&chunk_b);
    expected.extend_from_slice(&chunk_c);
    assert_eq!(&buffer[..300], &expected[..]);
    // Bytes past the declared size were never written.
    assert!(buffer[300..].iter().all(|b| *b == 0));
}

#[test]
fn oversized_declaration_is_rejected_and_state_resets() {
    // Scenario: the declared total exceeds the fixed buffer.
    let mut buffer = vec![0u8; 128];
    let mut state = TransferState::NotStarted;
    let declare = declare_datagram(129);
    let r = process_packet(Ok(declare.len()), &declare, &mut buffer, &mut state);
    assert!(matches!(r, Err(PacketProcessingError::SizeTooBig)));
    assert_eq!(state, TransferState::NotStarted);
    assert!(buffer.iter().all(|b| *b == 0));
}

#[test]
fn declaration_only_recognised_while_idle() {
    // A word-sized datagram declares a size only from NotStarted; the same
    // shape mid-transfer is an ordinary chunk, never a declaration.
    let mut buffer = vec![0u8; 64];
    let mut state = TransferState::NotStarted;

    let declare = declare_datagram(8);
    let r = process_packet(Ok(4), &declare, &mut buffer, &mut state);
    assert!(matches!(r, Ok(PacketKind::DeclareSize)));

    let word_shaped = vec![9u8; 4];
    let r = process_packet(Ok(4), &word_shaped, &mut buffer, &mut state);
    match r {
        Ok(PacketKind::DeclareSize) => unreachable!("declaration accepted mid-transfer"),
        other => assert!(matches!(other, Ok(PacketKind::PartialFill))),
    }
    assert_eq!(state, TransferState::InProgress(4, 4));
}

#[test]
fn zero_length_datagrams() {
    let mut buffer = vec![0u8; 64];
    let mut state = TransferState::NotStarted;

    // Idle: ignored.
    let r = process_packet(Ok(0), &[], &mut buffer, &mut state);
    assert!(matches!(r, Ok(PacketKind::Useless)));
    assert_eq!(state, TransferState::NotStarted);

    // Mid-transfer: the sender gave up.
    let declare = declare_datagram(10);
    process_packet(Ok(4), &declare, &mut buffer, &mut state).unwrap();
    let r = process_packet(Ok(0), &[], &mut buffer, &mut state);
    assert!(matches!(r, Err(PacketProcessingError::ProgressStopped)));
}

#[test]
fn a_zero_size_declaration_opens_an_unfinishable_transfer() {
    // Declaring zero bytes is accepted, but no datagram can complete it: a
    // zero-length datagram aborts, and any chunk exceeds what is owed.
    let mut buffer = vec![0u8; 16];
    let mut state = TransferState::NotStarted;
    let r = process_packet(Ok(4), &declare_datagram(0), &mut buffer, &mut state);
    assert!(matches!(r, Ok(PacketKind::DeclareSize)));
    assert_eq!(state, TransferState::InProgress(0, 0));

    let r = process_packet(Ok(1), &[1], &mut buffer, &mut state);
    assert!(matches!(r, Err(PacketProcessingError::SizeTooBig)));
    let r = process_packet(Ok(0), &[], &mut buffer, &mut state);
    assert!(matches!(r, Err(PacketProcessingError::ProgressStopped)));
}

#[test]
fn non_declaration_while_idle_is_a_violation() {
    let mut buffer = vec![0u8; 64];
    let mut state = TransferState::NotStarted;
    let datagram = vec![1u8; 5];
    let r = process_packet(Ok(5), &datagram, &mut buffer, &mut state);
    assert!(matches!(r, Err(PacketProcessingError::HadntStartedYet)));
    assert_eq!(state, TransferState::NotStarted);
}

#[test]
fn chunk_longer_than_remaining_is_rejected() {
    let mut buffer = vec![0u8; 64];
    let mut state = TransferState::NotStarted;
    let declare = declare_datagram(10);
    process_packet(Ok(4), &declare, &mut buffer, &mut state).unwrap();

    let chunk = vec![1u8; 11];
    let r = process_packet(Ok(11), &chunk, &mut buffer, &mut state);
    assert!(matches!(r, Err(PacketProcessingError::SizeTooBig)));
}

#[test]
fn receive_failure_is_fatal() {
    let mut buffer = vec![0u8; 64];
    let mut state = TransferState::NotStarted;
    let r = process_packet(Err(()), &[], &mut buffer, &mut state);
    assert!(matches!(r, Err(PacketProcessingError::ReceiveError)));
    assert_eq!(state, TransferState::NotStarted);
}

#[test]
fn single_byte_chunks_fill_exactly() {
    // Boundary-sized chunks: 1-byte datagrams, including the final one.
    let mut buffer = vec![0u8; 16];
    let mut state = TransferState::NotStarted;
    let declare = declare_datagram(3);
    process_packet(Ok(4), &declare, &mut buffer, &mut state).unwrap();

    let mut accepted = 0usize;
    for b in [7u8, 8, 9] {
        let r = process_packet(Ok(1), &[b], &mut buffer, &mut state).unwrap();
        accepted += 1;
        if accepted < 3 {
            assert!(matches!(r, PacketKind::PartialFill));
        } else {
            assert!(matches!(r, PacketKind::BufferFiled));
        }
    }
    assert_eq!(&buffer[..3], &[7, 8, 9]);
    assert_eq!(accepted, 3);
}

#[test]
fn random_chunking_accepts_exactly_the_declared_size() {
    // Pseudo-random chunk sizes: the accepted bytes sum to the declared size
    // exactly when the buffer reports filled, and nothing past the declared
    // size is written.
    let total: usize = 300;
    let payload: Vec<u8> = (0..total).map(|i| (i * 37 % 251) as u8).collect();
    let mut seed: u64 = 0x2545_f491_4f6c_dd1d;
    let mut next = |bound: usize| -> usize {
        seed ^= seed << 13;
        seed ^= seed >> 7;
        seed ^= seed << 17;
        (seed as usize) % bound + 1
    };

    let mut buffer = vec![0u8; 512];
    let mut state = TransferState::NotStarted;
    let declare = declare_datagram(total as u32);
    process_packet(Ok(4), &declare, &mut buffer, &mut state).unwrap();

    let mut sent = 0usize;
    let mut accepted = 0usize;
    loop {
        let remaining = total - sent;
        let n = next(remaining.min(64));
        let chunk = &payload[sent..sent + n];
        let r = process_packet(Ok(n), chunk, &mut buffer, &mut state).unwrap();
        sent += n;
        accepted += n;
        match r {
            PacketKind::PartialFill => assert!(sent < total),
            PacketKind::BufferFiled => break,
            _ => unreachable!(),
        }
    }
    assert_eq!(accepted, total);
    assert_eq!(state, TransferState::InProgress(total, 0));
    assert_eq!(&buffer[..total], &payload[..]);
    assert!(buffer[total..].iter().all(|b| *b == 0));
}
