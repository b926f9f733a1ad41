use bee_storage_rocksdb::error::DecodeError;
use bee_storage_rocksdb::health::StorageHealth;
use bee_storage_rocksdb::integer::{
    u16_from_le, u16_to_le, u32_from_le, u32_to_le, u64_from_le, u64_to_le,
};
use bee_storage_rocksdb::ledger::{
    pack_bytes32, unpack_bytes32, Ed25519Address, LedgerIndex, MilestoneIndex, Output, OutputId,
    SnapshotInfo, SolidEntryPoint, Unspent,
};
use bee_storage_rocksdb::packable::{unpack_exact, Packable};
use bee_storage_rocksdb::system::{
    System, STORAGE_HEALTH_KEY, STORAGE_VERSION, STORAGE_VERSION_KEY, SYSTEM_HEALTH_TAG,
    SYSTEM_VERSION_TAG,
};

fn counting(from: u8) -> [u8; 32] {
    let mut bytes = [0u8; 32];
    for (i, byte) in bytes.iter_mut().enumerate() {
        *byte = from.wrapping_add(i as u8);
    }
    bytes
}

#[test]
fn health_bytes() {
    assert_eq!(StorageHealth::Healthy.to_byte(), 0);
    assert_eq!(StorageHealth::Idle.to_byte(), 1);
    assert_eq!(StorageHealth::from_byte(0), Some(StorageHealth::Healthy));
    assert_eq!(StorageHealth::from_byte(1), Some(StorageHealth::Idle));
    assert_eq!(StorageHealth::from_byte(2), None);
    assert_eq!(StorageHealth::from_byte(255), None);
}

#[test]
fn health_pack_round_trip() {
    for health in [StorageHealth::Healthy, StorageHealth::Idle] {
        let bytes = health.pack();
        assert_eq!(bytes, vec![health.to_byte()]);
        assert_eq!(StorageHealth::unpack(&bytes), Ok(health));
    }
    assert_eq!(StorageHealth::unpack(&[]), Err(DecodeError));
    assert_eq!(StorageHealth::unpack(&[2]), Err(DecodeError));
    assert_eq!(StorageHealth::unpack(&[0, 0]), Err(DecodeError));
}

#[test]
fn system_constants() {
    assert_eq!(STORAGE_VERSION_KEY, 0);
    assert_eq!(STORAGE_HEALTH_KEY, 1);
    assert_eq!(SYSTEM_VERSION_TAG, 0);
    assert_eq!(SYSTEM_HEALTH_TAG, 1);
    assert_ne!(STORAGE_VERSION_KEY, STORAGE_HEALTH_KEY);
}

#[test]
fn system_version_bytes() {
    let record = System::Version(0x0102_0304_0506_0708);
    assert_eq!(record.pack(), vec![0, 8, 7, 6, 5, 4, 3, 2, 1]);
    assert_eq!(System::unpack(&[0, 8, 7, 6, 5, 4, 3, 2, 1]), Ok(record));
    assert_eq!(System::Version(STORAGE_VERSION).pack().len(), 9);
    assert_eq!(System::Version(u64::MAX).pack(), vec![0, 255, 255, 255, 255, 255, 255, 255, 255]);
}

#[test]
fn system_health_bytes() {
    assert_eq!(System::Health(StorageHealth::Healthy).pack(), vec![1, 0]);
    assert_eq!(System::Health(StorageHealth::Idle).pack(), vec![1, 1]);
    assert_eq!(System::unpack(&[1, 0]), Ok(System::Health(StorageHealth::Healthy)));
    assert_eq!(System::unpack(&[1, 1]), Ok(System::Health(StorageHealth::Idle)));
}

#[test]
fn system_unpack_rejects_what_no_record_encodes_to() {
    assert_eq!(System::unpack(&[]), Err(DecodeError));
    assert_eq!(System::unpack(&[0]), Err(DecodeError));
    assert_eq!(System::unpack(&[0, 1, 2, 3, 4, 5, 6, 7]), Err(DecodeError));
    assert_eq!(System::unpack(&[0, 1, 2, 3, 4, 5, 6, 7, 8, 9]), Err(DecodeError));
    assert_eq!(System::unpack(&[1]), Err(DecodeError));
    assert_eq!(System::unpack(&[1, 2]), Err(DecodeError));
    assert_eq!(System::unpack(&[1, 0, 0]), Err(DecodeError));
    assert_eq!(System::unpack(&[2, 0]), Err(DecodeError));
    assert_eq!(System::unpack(&[255, 0, 0, 0, 0, 0, 0, 0, 0]), Err(DecodeError));
}

#[test]
fn system_round_trip() {
    let records = [
        System::Version(0),
        System::Version(1),
        System::Version(STORAGE_VERSION),
        System::Version(u64::MAX),
        System::Health(StorageHealth::Healthy),
        System::Health(StorageHealth::Idle),
    ];
    for record in records {
        assert_eq!(System::unpack(&record.pack()), Ok(record));
        assert_eq!(unpack_exact::<System>(&record.pack()), Ok(record));
    }
}

#[test]
fn unit_and_byte_encodings() {
    assert_eq!(().pack(), Vec::<u8>::new());
    assert_eq!(<()>::unpack(&[]), Ok(()));
    assert_eq!(<()>::unpack(&[0]), Err(DecodeError));
    assert_eq!(7u8.pack(), vec![7]);
    assert_eq!(u8::unpack(&[7]), Ok(7));
    assert_eq!(u8::unpack(&[]), Err(DecodeError));
    assert_eq!(u8::unpack(&[7, 7]), Err(DecodeError));
}

#[test]
fn bytes32_copy() {
    let id = counting(1);
    let bytes = pack_bytes32(&id);
    assert_eq!(bytes.len(), 32);
    assert_eq!(bytes[0], 1);
    assert_eq!(bytes[31], 32);
    assert_eq!(unpack_bytes32(&bytes), Some(id));
    assert_eq!(unpack_bytes32(&bytes[..31]), None);
    assert_eq!(unpack_bytes32(&[0u8; 33]), None);
}

#[test]
fn milestone_index_bytes() {
    assert_eq!(MilestoneIndex(0x0102_0304).pack(), vec![4, 3, 2, 1]);
    assert_eq!(MilestoneIndex::unpack(&[4, 3, 2, 1]), Ok(MilestoneIndex(0x0102_0304)));
    assert_eq!(MilestoneIndex::unpack(&[4, 3, 2]), Err(DecodeError));
    assert_eq!(MilestoneIndex::unpack(&[4, 3, 2, 1, 0]), Err(DecodeError));
    assert_eq!(LedgerIndex(MilestoneIndex(5)).pack(), vec![5, 0, 0, 0]);
    assert_eq!(LedgerIndex::unpack(&[5, 0, 0, 0]), Ok(LedgerIndex(MilestoneIndex(5))));
    assert_eq!(LedgerIndex::unpack(&[]), Err(DecodeError));
}

#[test]
fn identifier_bytes() {
    let id = counting(10);
    assert_eq!(SolidEntryPoint(id).pack(), id.to_vec());
    assert_eq!(SolidEntryPoint::unpack(&id), Ok(SolidEntryPoint(id)));
    assert_eq!(SolidEntryPoint::unpack(&id[1..]), Err(DecodeError));
    assert_eq!(Ed25519Address(id).pack(), id.to_vec());
    assert_eq!(Ed25519Address::unpack(&id), Ok(Ed25519Address(id)));
    assert_eq!(Ed25519Address::unpack(&[]), Err(DecodeError));
}

#[test]
fn output_id_bytes() {
    let id = OutputId { transaction_id: counting(0), index: 0x0102 };
    let mut expected = counting(0).to_vec();
    expected.extend_from_slice(&[2, 1]);
    assert_eq!(id.pack(), expected);
    assert_eq!(id.pack().len(), 34);
    assert_eq!(OutputId::unpack(&expected), Ok(id));
    assert_eq!(OutputId::unpack(&expected[..33]), Err(DecodeError));
    assert_eq!(Unspent(id).pack(), expected);
    assert_eq!(Unspent::unpack(&expected), Ok(Unspent(id)));
    assert_eq!(Unspent::unpack(&[0u8; 35]), Err(DecodeError));
}

#[test]
fn address_output_key_bytes() {
    let address = Ed25519Address(counting(100));
    let id = OutputId { transaction_id: counting(7), index: 3 };
    let key = (address, id);
    let bytes = key.pack();
    assert_eq!(bytes.len(), 66);
    assert_eq!(&bytes[..32], &address.pack()[..]);
    assert_eq!(&bytes[32..], &id.pack()[..]);
    assert_eq!(<(Ed25519Address, OutputId)>::unpack(&bytes), Ok(key));
    assert_eq!(<(Ed25519Address, OutputId)>::unpack(&bytes[..65]), Err(DecodeError));
}

#[test]
fn output_bytes() {
    let output = Output {
        message_id: counting(1),
        address: Ed25519Address(counting(50)),
        amount: 0x0a0b_0c0d_0e0f_1011,
    };
    let mut expected = counting(1).to_vec();
    expected.extend_from_slice(&counting(50));
    expected.extend_from_slice(&[0x11, 0x10, 0x0f, 0x0e, 0x0d, 0x0c, 0x0b, 0x0a]);
    assert_eq!(output.pack(), expected);
    assert_eq!(Output::unpack(&expected), Ok(output));
    assert_eq!(Output::unpack(&expected[..71]), Err(DecodeError));
}

#[test]
fn snapshot_info_bytes() {
    let info = SnapshotInfo {
        network_id: 1,
        snapshot_index: MilestoneIndex(2),
        entry_point_index: MilestoneIndex(3),
        pruning_index: MilestoneIndex(0x0400_0000),
        timestamp: 0x0500_0000_0000_0000,
    };
    let expected = vec![
        1, 0, 0, 0, 0, 0, 0, 0, 2, 0, 0, 0, 3, 0, 0, 0, 0, 0, 0, 4, 0, 0, 0, 0, 0, 0, 0, 5,
    ];
    assert_eq!(info.pack(), expected);
    assert_eq!(SnapshotInfo::unpack(&expected), Ok(info));
    assert_eq!(SnapshotInfo::unpack(&expected[..27]), Err(DecodeError));
    assert_eq!(SnapshotInfo::unpack(&[]), Err(DecodeError));
}

#[test]
fn integers_low_byte_first() {
    assert_eq!(u16_to_le(0x0102), vec![2, 1]);
    assert_eq!(u16_to_le(u16::MAX), vec![255, 255]);
    assert_eq!(u32_to_le(0x0102_0304), vec![4, 3, 2, 1]);
    assert_eq!(u32_to_le(0), vec![0, 0, 0, 0]);
    assert_eq!(u64_to_le(0x0102_0304_0506_0708), vec![8, 7, 6, 5, 4, 3, 2, 1]);
    assert_eq!(u64_to_le(u64::MAX), vec![255; 8]);
    assert_eq!(u16_from_le(&[2, 1]), Some(0x0102));
    assert_eq!(u32_from_le(&[4, 3, 2, 1]), Some(0x0102_0304));
    assert_eq!(u64_from_le(&[8, 7, 6, 5, 4, 3, 2, 1]), Some(0x0102_0304_0506_0708));
    assert_eq!(u64_from_le(&[255; 8]), Some(u64::MAX));
    assert_eq!(u32_from_le(&[255; 4]), Some(u32::MAX));
    assert_eq!(u16_from_le(&[255; 2]), Some(u16::MAX));
}

#[test]
fn integers_of_another_length_are_not_read() {
    assert_eq!(u16_from_le(&[]), None);
    assert_eq!(u16_from_le(&[1]), None);
    assert_eq!(u16_from_le(&[1, 2, 3]), None);
    assert_eq!(u32_from_le(&[1, 2, 3]), None);
    assert_eq!(u32_from_le(&[1, 2, 3, 4, 5]), None);
    assert_eq!(u64_from_le(&[1, 2, 3, 4, 5, 6, 7]), None);
    assert_eq!(u64_from_le(&[0; 9]), None);
}

#[test]
fn integers_agree_with_the_standard_encoding() {
    for x in [0u64, 1, 255, 256, 65_535, 65_536, 1 << 32, (1 << 56) + 5, u64::MAX - 1] {
        assert_eq!(u64_to_le(x), x.to_le_bytes().to_vec());
        assert_eq!(u64_from_le(&x.to_le_bytes()), Some(x));
        let y = x as u32;
        assert_eq!(u32_to_le(y), y.to_le_bytes().to_vec());
        assert_eq!(u32_from_le(&y.to_le_bytes()), Some(y));
        let z = x as u16;
        assert_eq!(u16_to_le(z), z.to_le_bytes().to_vec());
        assert_eq!(u16_from_le(&z.to_le_bytes()), Some(z));
    }
}
