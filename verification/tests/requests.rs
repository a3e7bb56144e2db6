use wormhole_executor::requests::{
    make_cctp_v1_request, make_cctp_v2_request, make_ntt_v1_request, make_vaa_v1_request,
};

const ADDR: [u8; 32] = [
    0x00, 0x00, 0x00, 0x00, 0x00, 0x00, 0x00, 0x00, 0x00, 0x00, 0x00, 0x00, 0xd4, 0xa6, 0xa7,
    0x2a, 0x02, 0x55, 0x99, 0xfd, 0x73, 0x57, 0xc0, 0xf1, 0x57, 0xc7, 0x18, 0xd0, 0xf5, 0xe3,
    0x8c, 0x76,
];

#[test]
fn vaa_v1() {
    assert_eq!(
        make_vaa_v1_request(10002, ADDR, 29),
        [
            0x45, 0x52, 0x56, 0x31, 0x27, 0x12, 0x00, 0x00, 0x00, 0x00, 0x00, 0x00, 0x00, 0x00,
            0x00, 0x00, 0x00, 0x00, 0xd4, 0xa6, 0xa7, 0x2a, 0x02, 0x55, 0x99, 0xfd, 0x73, 0x57,
            0xc0, 0xf1, 0x57, 0xc7, 0x18, 0xd0, 0xf5, 0xe3, 0x8c, 0x76, 0x00, 0x00, 0x00, 0x00,
            0x00, 0x00, 0x00, 0x1d
        ]
    );
}

#[test]
fn ntt_v1() {
    let mut message_id = [0u8; 32];
    message_id[24..].copy_from_slice(&29u64.to_be_bytes());
    assert_eq!(
        make_ntt_v1_request(10002, ADDR, message_id),
        [
            0x45, 0x52, 0x4E, 0x31, 0x27, 0x12, 0x00, 0x00, 0x00, 0x00, 0x00, 0x00, 0x00, 0x00,
            0x00, 0x00, 0x00, 0x00, 0xd4, 0xa6, 0xa7, 0x2a, 0x02, 0x55, 0x99, 0xfd, 0x73, 0x57,
            0xc0, 0xf1, 0x57, 0xc7, 0x18, 0xd0, 0xf5, 0xe3, 0x8c, 0x76, 0x00, 0x00, 0x00, 0x00,
            0x00, 0x00, 0x00, 0x00, 0x00, 0x00, 0x00, 0x00, 0x00, 0x00, 0x00, 0x00, 0x00, 0x00,
            0x00, 0x00, 0x00, 0x00, 0x00, 0x00, 0x00, 0x00, 0x00, 0x00, 0x00, 0x00, 0x00, 0x1d
        ]
    );
}

#[test]
fn cctp_v1() {
    assert_eq!(
        make_cctp_v1_request(6, 6344),
        [
            0x45, 0x52, 0x43, 0x31, 0x00, 0x00, 0x00, 0x06, 0x00, 0x00, 0x00, 0x00, 0x00, 0x00,
            0x18, 0xc8
        ]
    );
}

#[test]
fn cctp_v2() {
    assert_eq!(make_cctp_v2_request(), [0x45, 0x52, 0x43, 0x32, 0x01]);
}
