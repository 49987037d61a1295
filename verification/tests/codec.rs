use cattle_herd::codec::{decode, encode, CodecError};
use cattle_herd::message::{CattleInitialConnect, CattleUpdate, Message, MessageType};

fn sample_update() -> CattleUpdate {
    CattleUpdate {
        cpu_utilization: 4321,
        available_memory_bytes: 123456789,
        available_disk_bytes: 987654321,
        running_processes: 42,
        most_intense_process_name: b"stress-ng".to_vec(),
        most_intense_process_owner: b"alice".to_vec(),
    }
}

fn sample_initial() -> CattleInitialConnect {
    CattleInitialConnect {
        name: b"barnyard".to_vec(),
        id: vec![7u8; 16],
        os_name: b"Linux".to_vec(),
        os_version: b"6.1".to_vec(),
        os_version_long: b"Linux 6.1.0 LTS".to_vec(),
        ram_bytes: 16 * 1024 * 1024 * 1024,
        disk_bytes: 512 * 1024 * 1024 * 1024,
        cpu_count: 8,
        cpu_brand: b"ACME Cores Inc".to_vec(),
        cpu_name: b"acme-8000".to_vec(),
        uptime_seconds: 3600,
    }
}

#[test]
fn round_trip_send_public_key() {
    let m = Message(MessageType::SendPublicKey(vec![1, 2, 3, 4]));
    let e = encode(&m);
    match decode(&e) {
        Ok(Message(MessageType::SendPublicKey(k))) => assert_eq!(k, vec![1, 2, 3, 4]),
        _ => panic!("expected SendPublicKey back"),
    }
}

#[test]
fn round_trip_request_update() {
    let m = Message(MessageType::RequestUpdate);
    let e = encode(&m);
    match decode(&e) {
        Ok(Message(MessageType::RequestUpdate)) => {}
        _ => panic!("expected RequestUpdate back"),
    }
}

#[test]
fn round_trip_send_update() {
    let m = Message(MessageType::SendUpdate(sample_update()));
    let e = encode(&m);
    match decode(&e) {
        Ok(Message(MessageType::SendUpdate(u))) => {
            assert_eq!(u.cpu_utilization, 4321);
            assert_eq!(u.available_memory_bytes, 123456789);
            assert_eq!(u.available_disk_bytes, 987654321);
            assert_eq!(u.running_processes, 42);
            assert_eq!(u.most_intense_process_name, b"stress-ng".to_vec());
            assert_eq!(u.most_intense_process_owner, b"alice".to_vec());
        }
        _ => panic!("expected SendUpdate back"),
    }
}

#[test]
fn round_trip_send_initial_info() {
    let m = Message(MessageType::SendInitialInfo(sample_initial()));
    let e = encode(&m);
    match decode(&e) {
        Ok(Message(MessageType::SendInitialInfo(i))) => {
            assert_eq!(i.name, b"barnyard".to_vec());
            assert_eq!(i.id, vec![7u8; 16]);
            assert_eq!(i.os_name, b"Linux".to_vec());
            assert_eq!(i.os_version, b"6.1".to_vec());
            assert_eq!(i.os_version_long, b"Linux 6.1.0 LTS".to_vec());
            assert_eq!(i.ram_bytes, 16 * 1024 * 1024 * 1024);
            assert_eq!(i.disk_bytes, 512 * 1024 * 1024 * 1024);
            assert_eq!(i.cpu_count, 8);
            assert_eq!(i.cpu_brand, b"ACME Cores Inc".to_vec());
            assert_eq!(i.cpu_name, b"acme-8000".to_vec());
            assert_eq!(i.uptime_seconds, 3600);
        }
        _ => panic!("expected SendInitialInfo back"),
    }
}

#[test]
fn frame_carries_payload_length() {
    let m = Message(MessageType::RequestUpdate);
    let e = encode(&m);
    // 8-byte big-endian length prefix, then a 1-byte payload: the tag.
    assert_eq!(e.len(), 9);
    assert_eq!(&e[0..8], &[0, 0, 0, 0, 0, 0, 0, 1]);
    assert_eq!(e[8], 1);
}

#[test]
fn decode_empty_is_malformed() {
    assert_eq!(decode(&Vec::new()).unwrap_err(), CodecError::MalformedMessage);
}

#[test]
fn decode_truncated_is_malformed() {
    let m = Message(MessageType::SendUpdate(sample_update()));
    let mut e = encode(&m);
    e.pop();
    assert_eq!(decode(&e).unwrap_err(), CodecError::MalformedMessage);
}

#[test]
fn decode_trailing_bytes_is_malformed() {
    let m = Message(MessageType::SendPublicKey(vec![9, 9]));
    let mut e = encode(&m);
    e.push(0);
    assert_eq!(decode(&e).unwrap_err(), CodecError::MalformedMessage);
}

#[test]
fn decode_unknown_tag_is_malformed() {
    // A well-framed payload of one byte, but the tag 9 names no variant.
    let e = vec![0, 0, 0, 0, 0, 0, 0, 1, 9];
    assert_eq!(decode(&e).unwrap_err(), CodecError::MalformedMessage);
}

#[test]
fn decode_excess_payload_is_schema_mismatch() {
    // RequestUpdate's tag followed by a body it must not have.
    let e = vec![0, 0, 0, 0, 0, 0, 0, 2, 1, 99];
    assert_eq!(decode(&e).unwrap_err(), CodecError::SchemaMismatch);
}

#[test]
fn decode_truncated_body_is_schema_mismatch() {
    // SendUpdate's tag with an empty body: a known tag, wrong shape.
    let e = vec![0, 0, 0, 0, 0, 0, 0, 1, 2];
    assert_eq!(decode(&e).unwrap_err(), CodecError::SchemaMismatch);
}

#[test]
fn decode_overlong_inner_length_is_schema_mismatch() {
    // SendPublicKey whose inner length claims more bytes than follow.
    let e = vec![0, 0, 0, 0, 0, 0, 0, 10, 0, 0, 0, 0, 0, 0, 0, 0, 99, 1];
    assert_eq!(decode(&e).unwrap_err(), CodecError::SchemaMismatch);
}

#[test]
fn round_trip_empty_key() {
    let m = Message(MessageType::SendPublicKey(Vec::new()));
    let e = encode(&m);
    match decode(&e) {
        Ok(Message(MessageType::SendPublicKey(k))) => assert_eq!(k, Vec::<u8>::new()),
        _ => panic!("expected SendPublicKey back"),
    }
}

#[test]
fn round_trip_empty_update_fields() {
    let m = Message(MessageType::SendUpdate(CattleUpdate {
        cpu_utilization: 0,
        available_memory_bytes: 0,
        available_disk_bytes: u64::MAX,
        running_processes: 0,
        most_intense_process_name: Vec::new(),
        most_intense_process_owner: Vec::new(),
    }));
    let e = encode(&m);
    match decode(&e) {
        Ok(Message(MessageType::SendUpdate(u))) => {
            assert_eq!(u.cpu_utilization, 0);
            assert_eq!(u.available_disk_bytes, u64::MAX);
            assert_eq!(u.most_intense_process_name, Vec::<u8>::new());
            assert_eq!(u.most_intense_process_owner, Vec::<u8>::new());
        }
        _ => panic!("expected SendUpdate back"),
    }
}
