use hue_sync::codec::{decode, encode, DecodeError};
use hue_sync::framer::{mac_to_nonce, open, seal, AuthError, SharedKey};
use hue_sync::mailbox::{LatestCell, Mailbox};
use hue_sync::net::{start_net, NetRx, NetTx, RawFrame, RecvError};

const ADDR_A: [u8; 6] = [0x10, 0x20, 0x30, 0x40, 0x50, 0x60];
const ADDR_B: [u8; 6] = [0xAA, 0xBB, 0xCC, 0xDD, 0xEE, 0xFF];

#[test]
fn encode_known_values() {
    assert_eq!(encode(0), vec![0x00]);
    assert_eq!(encode(127), vec![0x7F]);
    assert_eq!(encode(128), vec![0x80, 0x01]);
    assert_eq!(encode(300), vec![0xAC, 0x02]);
    assert_eq!(encode(16384), vec![0x80, 0x80, 0x01]);
    assert_eq!(encode(65535), vec![0xFF, 0xFF, 0x03]);
}

#[test]
fn codec_round_trip_every_value() {
    for v in 0..=u16::MAX {
        assert_eq!(decode(&encode(v)), Ok(v));
    }
}

#[test]
fn decode_ignores_trailing_bytes() {
    assert_eq!(decode(&[0xAC, 0x02, 0x99, 0x00]), Ok(300));
}

#[test]
fn decode_rejects_malformed() {
    assert_eq!(decode(&[]), Err(DecodeError::Malformed));
    assert_eq!(decode(&[0x80]), Err(DecodeError::Malformed));
    assert_eq!(decode(&[0xFF, 0xFF]), Err(DecodeError::Malformed));
    assert_eq!(decode(&[0xFF, 0xFF, 0x04]), Err(DecodeError::Malformed));
    assert_eq!(decode(&[0xFF, 0xFF, 0x80, 0x00]), Err(DecodeError::Malformed));
}

#[test]
fn key_is_padded_or_truncated() {
    let short = SharedKey::from_secret(b"Rust rocks!");
    let mut expected = [0u8; 32];
    expected[..11].copy_from_slice(b"Rust rocks!");
    assert_eq!(short.bytes, expected);

    let long_secret: Vec<u8> = (0u8..40).collect();
    let long = SharedKey::from_secret(&long_secret);
    let expected: Vec<u8> = (0u8..32).collect();
    assert_eq!(long.bytes.to_vec(), expected);

    assert_eq!(SharedKey::from_secret(&[]).bytes, [0u8; 32]);
}

#[test]
fn nonce_pads_address_with_zeros() {
    assert_eq!(mac_to_nonce(ADDR_A), [0x10, 0x20, 0x30, 0x40, 0x50, 0x60, 0, 0]);
}

#[test]
fn seal_open_round_trip() {
    let key = SharedKey::from_secret(b"shared");
    let nonce = mac_to_nonce(ADDR_A);
    for plain in [vec![], vec![1u8], b"hello, phase".to_vec(), (0u8..=255).collect::<Vec<u8>>()] {
        let frame = seal(&key, &nonce, &plain);
        assert_eq!(frame.len(), plain.len() + 8);
        assert_eq!(open(&key, &nonce, &frame), Ok(plain));
    }
}

#[test]
fn seal_hides_plaintext() {
    let key = SharedKey::from_secret(b"shared");
    let nonce = mac_to_nonce(ADDR_A);
    let plain = b"hello, phase".to_vec();
    let frame = seal(&key, &nonce, &plain);
    assert_ne!(&frame[..plain.len()], &plain[..]);
}

#[test]
fn tampered_frame_rejected() {
    let key = SharedKey::from_secret(b"shared");
    let nonce = mac_to_nonce(ADDR_A);
    let frame = seal(&key, &nonce, &encode(30000));
    for byte in 0..frame.len() {
        for bit in 0..8 {
            let mut bad = frame.clone();
            bad[byte] ^= 1 << bit;
            assert_eq!(open(&key, &nonce, &bad), Err(AuthError::Rejected));
        }
    }
}

#[test]
fn wrong_key_rejected() {
    let k1 = SharedKey::from_secret(b"first key");
    let k2 = SharedKey::from_secret(b"second key");
    let nonce = mac_to_nonce(ADDR_A);
    let frame = seal(&k1, &nonce, b"payload");
    assert_eq!(open(&k2, &nonce, &frame), Err(AuthError::Rejected));
}

#[test]
fn wrong_nonce_rejected() {
    let key = SharedKey::from_secret(b"shared");
    let frame = seal(&key, &mac_to_nonce(ADDR_A), b"payload");
    assert_eq!(open(&key, &mac_to_nonce(ADDR_B), &frame), Err(AuthError::Rejected));
}

#[test]
fn short_frame_rejected() {
    let key = SharedKey::from_secret(b"shared");
    assert_eq!(open(&key, &mac_to_nonce(ADDR_A), &[1, 2, 3]), Err(AuthError::Rejected));
}

#[test]
fn sent_frame_is_accepted() {
    let (rx, _) = start_net(b"Rust rocks!", ADDR_B);
    let (_, tx) = start_net(b"Rust rocks!", ADDR_A);
    for v in [0u16, 1, 127, 128, 30000, 65535] {
        let frame = RawFrame { src: ADDR_A, data: tx.frame_of(v) };
        assert_eq!(rx.accept(&frame), Ok(v));
    }
}

#[test]
fn frame_from_other_address_is_unauthentic() {
    let (rx, tx) = start_net(b"Rust rocks!", ADDR_A);
    let frame = RawFrame { src: ADDR_B, data: tx.frame_of(42) };
    assert_eq!(rx.accept(&frame), Err(RecvError::Unauthentic));
}

#[test]
fn undecodable_payload_is_dropped() {
    let key = SharedKey::from_secret(b"k");
    let rx = NetRx::new(SharedKey::from_secret(b"k"));
    let data = seal(&key, &mac_to_nonce(ADDR_A), &[0x80]);
    let frame = RawFrame { src: ADDR_A, data };
    assert_eq!(rx.accept(&frame), Err(RecvError::Undecodable));
}

#[test]
fn recv_skips_noise() {
    let (rx, _) = start_net(b"net", ADDR_B);
    let tx = NetTx::new(SharedKey::from_secret(b"net"), ADDR_A);
    let stranger = NetTx::new(SharedKey::from_secret(b"other"), ADDR_A);
    let key = SharedKey::from_secret(b"net");
    let frames = vec![
        RawFrame { src: ADDR_A, data: vec![] },
        RawFrame { src: ADDR_A, data: vec![0xDE, 0xAD, 0xBE, 0xEF, 1, 2, 3, 4, 5, 6, 7] },
        RawFrame { src: ADDR_A, data: stranger.frame_of(7) },
        RawFrame { src: ADDR_A, data: seal(&key, &mac_to_nonce(ADDR_A), &[0xFF, 0xFF, 0xFF]) },
        RawFrame { src: ADDR_A, data: tx.frame_of(1234) },
        RawFrame { src: ADDR_A, data: tx.frame_of(999) },
    ];
    assert_eq!(rx.recv(&frames), Some((4, 1234)));
    assert_eq!(rx.recv(&frames[5..]), Some((0, 999)));
    assert_eq!(rx.recv(&frames[..4]), None);
    assert_eq!(rx.recv(&[]), None);
}

#[test]
fn send_backpressure() {
    let (_, tx) = start_net(b"net", ADDR_A);
    let mut outbox: Mailbox<Vec<u8>> = Mailbox::new();
    assert_eq!(tx.send(1, &mut outbox), Ok(()));
    assert!(outbox.is_full());
    assert_eq!(tx.send(2, &mut outbox), Err(2));
    assert_eq!(outbox.try_recv(), Some(tx.frame_of(1)));
    assert!(!outbox.is_full());
    assert_eq!(tx.send(2, &mut outbox), Ok(()));
    assert_eq!(outbox.try_recv(), Some(tx.frame_of(2)));
}

#[test]
fn mailbox_refuses_second_item() {
    let mut m: Mailbox<u16> = Mailbox::new();
    assert_eq!(m.try_recv(), None);
    assert_eq!(m.try_send(10), Ok(()));
    assert_eq!(m.try_send(20), Err(20));
    assert_eq!(m.try_recv(), Some(10));
    assert_eq!(m.try_recv(), None);
    assert_eq!(m.try_send(20), Ok(()));
    assert_eq!(m.try_recv(), Some(20));
}

#[test]
fn latest_cell_keeps_second_value() {
    let mut c: LatestCell<u16> = LatestCell::new();
    c.publish(1);
    c.publish(2);
    assert_eq!(c.take(), Some(2));
    assert_eq!(c.take(), None);
}
