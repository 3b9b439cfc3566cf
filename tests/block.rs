use camellia_rs::Block;

#[test]
fn rotl15() {
    let mut data = Block::from([
        0x01, 0x23, 0x45, 0x67, 0x89, 0xab, 0xcd, 0xef, 0x00, 0x11, 0x22, 0x33, 0x44, 0x55, 0x66,
        0x77,
    ]);
    data.bit_rotate_left(15);
    assert_eq!(
        data,
        Block::from([
            0xa2, 0xb3, 0xc4, 0xd5, 0xe6, 0xf7, 0x80, 0x08, 0x91, 0x19, 0xa2, 0x2a, 0xb3, 0x3b,
            0x80, 0x91
        ])
    )
}

#[test]
fn rotl34() {
    let mut data = Block::from([
        0x01, 0x23, 0x45, 0x67, 0x89, 0xab, 0xcd, 0xef, 0x00, 0x11, 0x22, 0x33, 0x44, 0x55, 0x66,
        0x77,
    ]);
    data.bit_rotate_left(34);
    assert_eq!(
        data,
        Block::from([
            0x26, 0xaf, 0x37, 0xbc, 0x00, 0x44, 0x88, 0xcd, 0x11, 0x55, 0x99, 0xdc, 0x04, 0x8d,
            0x15, 0x9e
        ])
    )
}

fn sample() -> Block {
    Block::from([
        0x01, 0x23, 0x45, 0x67, 0x89, 0xab, 0xcd, 0xef, 0x00, 0x11, 0x22, 0x33, 0x44, 0x55, 0x66,
        0x77,
    ])
}

#[test]
fn rotate_then_rotate_back_is_identity() {
    for n in [1u32, 15, 17, 30, 32, 34, 45, 51, 64, 127] {
        let mut data = sample();
        data.bit_rotate_left(n);
        assert_ne!(data, sample());
        data.bit_rotate_left((128 - n) % 128);
        assert_eq!(data, sample());
    }
}

#[test]
fn rotate_by_zero_or_full_width_is_identity() {
    let mut data = sample();
    data.bit_rotate_left(0);
    assert_eq!(data, sample());
    data.bit_rotate_left(128);
    assert_eq!(data, sample());
}

#[test]
fn rotate_by_eight_moves_bytes() {
    let mut data = sample();
    data.bit_rotate_left(8);
    let out: [u8; 16] = data.into();
    assert_eq!(
        out,
        [
            0x23, 0x45, 0x67, 0x89, 0xab, 0xcd, 0xef, 0x00, 0x11, 0x22, 0x33, 0x44, 0x55, 0x66,
            0x77, 0x01
        ]
    );
}

#[test]
fn swap_halves_exchanges_and_twice_restores() {
    let mut data = sample();
    data.swap_halves();
    let out: [u8; 16] = data.into();
    assert_eq!(
        out,
        [
            0x00, 0x11, 0x22, 0x33, 0x44, 0x55, 0x66, 0x77, 0x01, 0x23, 0x45, 0x67, 0x89, 0xab,
            0xcd, 0xef
        ]
    );
    data.swap_halves();
    assert_eq!(data, sample());
}

#[test]
fn xor_with_itself_is_zero() {
    let a = sample();
    assert_eq!(a.xor(&a), Block::from([0u8; 16]));
    let mut b = sample();
    b.xor_assign(&a);
    assert_eq!(b, Block::default());
}

#[test]
fn xor_is_commutative_and_associative() {
    let a = sample();
    let b = Block::from([0xffu8; 16]);
    let c = Block::from([
        0x0f, 0x1e, 0x2d, 0x3c, 0x4b, 0x5a, 0x69, 0x78, 0x87, 0x96, 0xa5, 0xb4, 0xc3, 0xd2, 0xe1,
        0xf0,
    ]);
    assert_eq!(a.xor(&b), b.xor(&a));
    assert_eq!(a.xor(&b).xor(&c), a.xor(&b.xor(&c)));
    let out: [u8; 16] = a.xor(&b).into();
    assert_eq!(
        out,
        [
            0xfe, 0xdc, 0xba, 0x98, 0x76, 0x54, 0x32, 0x10, 0xff, 0xee, 0xdd, 0xcc, 0xbb, 0xaa,
            0x99, 0x88
        ]
    );
}

#[test]
fn value_and_halves_are_big_endian() {
    let data = sample();
    assert_eq!(data.to_u128(), 0x0123456789abcdef0011223344556677u128);
    assert_eq!(data.high_half(), 0x0123456789abcdefu64);
    assert_eq!(data.low_half(), 0x0011223344556677u64);
    assert_eq!(Block::from_u128(0x0123456789abcdef0011223344556677u128), data);
    assert_eq!(Block::from_halves(0x0123456789abcdef, 0x0011223344556677), data);
}

#[test]
fn words_are_big_endian() {
    let data = sample();
    assert_eq!(data.word(0), 0x01234567);
    assert_eq!(data.word(1), 0x89abcdef);
    assert_eq!(data.word(2), 0x00112233);
    assert_eq!(data.word(3), 0x44556677);
}
