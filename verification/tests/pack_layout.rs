use borsh::{BorshDeserialize, BorshSerialize};
use fund::accounts::fund::{Fund, FundType};
use fund::error::{FundError, FundErrorCode};
use fund::identity::Identity;

fn sample(fund_type: FundType) -> Fund {
    let mut owner = [0u8; 32];
    for (i, b) in owner.iter_mut().enumerate() {
        *b = i as u8;
    }
    Fund {
        initialized: true,
        open: false,
        fund_type,
        owner: Identity::new(owner),
        authority: Identity::new([0xa2; 32]),
        max_balance: 0x0102_0304_0506_0708,
        balance: 500,
        nonce: 253,
        mint: Identity::new([0xa3; 32]),
        vault: Identity::new([0xa4; 32]),
        shares: u64::MAX,
        nft_account: Identity::new([0xa5; 32]),
        nft_mint: Identity::new([0xa6; 32]),
        whitelist: Identity::new([0xa7; 32]),
        payback_vault: Identity::new([0xa8; 32]),
        payback_bal: 1,
    }
}

fn field_by_field(f: &Fund) -> Vec<u8> {
    let mut out = Vec::new();
    f.initialized.serialize(&mut out).unwrap();
    f.open.serialize(&mut out).unwrap();
    match f.fund_type {
        FundType::FundMe => 0u8.serialize(&mut out).unwrap(),
        FundType::Raise { private } => {
            1u8.serialize(&mut out).unwrap();
            private.serialize(&mut out).unwrap();
        }
    }
    f.owner.bytes.serialize(&mut out).unwrap();
    f.authority.bytes.serialize(&mut out).unwrap();
    f.max_balance.serialize(&mut out).unwrap();
    f.balance.serialize(&mut out).unwrap();
    f.nonce.serialize(&mut out).unwrap();
    f.mint.bytes.serialize(&mut out).unwrap();
    f.vault.bytes.serialize(&mut out).unwrap();
    f.shares.serialize(&mut out).unwrap();
    f.nft_account.bytes.serialize(&mut out).unwrap();
    f.nft_mint.bytes.serialize(&mut out).unwrap();
    f.whitelist.bytes.serialize(&mut out).unwrap();
    f.payback_vault.bytes.serialize(&mut out).unwrap();
    f.payback_bal.serialize(&mut out).unwrap();
    out
}

fn malformed() -> Result<Fund, FundError> {
    Err(FundError::ErrorCode(FundErrorCode::InvalidAccountData))
}

#[test]
fn fund_me_record_takes_292_bytes() {
    let f = sample(FundType::FundMe);
    let data = f.pack();
    assert_eq!(data.len(), 292);
    assert_eq!(f.size(), 292);
    assert_eq!(&data[..3], &[1, 0, 0]);
    assert_eq!(&data[3..35], &f.owner.bytes[..]);
    assert_eq!(&data[35..67], &[0xa2; 32][..]);
    assert_eq!(&data[67..75], &[8, 7, 6, 5, 4, 3, 2, 1]);
    assert_eq!(&data[75..83], &[0xf4, 1, 0, 0, 0, 0, 0, 0]);
    assert_eq!(data[83], 253);
    assert_eq!(&data[84..116], &[0xa3; 32][..]);
    assert_eq!(&data[116..148], &[0xa4; 32][..]);
    assert_eq!(&data[148..156], &[0xff; 8][..]);
    assert_eq!(&data[156..188], &[0xa5; 32][..]);
    assert_eq!(&data[188..220], &[0xa6; 32][..]);
    assert_eq!(&data[220..252], &[0xa7; 32][..]);
    assert_eq!(&data[252..284], &[0xa8; 32][..]);
    assert_eq!(&data[284..292], &[1, 0, 0, 0, 0, 0, 0, 0]);
}

#[test]
fn raise_record_takes_293_bytes() {
    let f = sample(FundType::Raise { private: true });
    let data = f.pack();
    assert_eq!(data.len(), 293);
    assert_eq!(f.size(), 293);
    assert_eq!(&data[..4], &[1, 0, 1, 1]);
    assert_eq!(&data[4..36], &f.owner.bytes[..]);
    let g = sample(FundType::Raise { private: false });
    assert_eq!(&g.pack()[..4], &[1, 0, 1, 0]);
    assert_eq!(&g.pack()[4..], &data[4..]);
}

#[test]
fn pack_agrees_with_borsh_field_by_field() {
    for fund_type in [FundType::FundMe, FundType::Raise { private: false }, FundType::Raise { private: true }] {
        let f = sample(fund_type);
        assert_eq!(f.pack(), field_by_field(&f));
        let blank = Fund { fund_type, ..Fund::default() };
        assert_eq!(blank.pack(), field_by_field(&blank));
    }
}

#[test]
fn unpack_gives_the_packed_record_back() {
    for fund_type in [FundType::FundMe, FundType::Raise { private: false }, FundType::Raise { private: true }] {
        let f = sample(fund_type);
        assert_eq!(Fund::unpack(&f.pack()), Ok(f));
        assert_eq!(Fund::unpack(&field_by_field(&f)), Ok(f));
        assert_eq!(Fund::unpack(&Fund::default().pack()), Ok(Fund::default()));
    }
}

#[test]
fn pack_gives_the_unpacked_bytes_back() {
    let mut data = vec![0u8; 293];
    for (i, b) in data.iter_mut().enumerate() {
        *b = (i * 7 % 251) as u8;
    }
    data[0] = 0;
    data[1] = 1;
    data[2] = 1;
    data[3] = 0;
    let f = Fund::unpack(&data).unwrap();
    assert!(!f.initialized);
    assert!(f.open);
    assert_eq!(f.fund_type, FundType::Raise { private: false });
    assert_eq!(f.nonce, data[84]);
    assert_eq!(f.pack(), data);
}

#[test]
fn unpack_refuses_a_wrong_length() {
    let data = sample(FundType::FundMe).pack();
    assert_eq!(Fund::unpack(&[]), malformed());
    assert_eq!(Fund::unpack(&data[..2]), malformed());
    assert_eq!(Fund::unpack(&data[..291]), malformed());
    let mut longer = data.clone();
    longer.push(0);
    assert_eq!(Fund::unpack(&longer), malformed());
    let raise = sample(FundType::Raise { private: false }).pack();
    assert_eq!(Fund::unpack(&raise[..292]), malformed());
    let mut longer = raise.clone();
    longer.push(0);
    assert_eq!(Fund::unpack(&longer), malformed());
}

#[test]
fn unpack_refuses_a_flag_that_is_no_bool() {
    let data = sample(FundType::Raise { private: true }).pack();
    for at in [0, 1, 3] {
        let mut bad = data.clone();
        bad[at] = 2;
        assert_eq!(Fund::unpack(&bad), malformed());
        bad[at] = 255;
        assert_eq!(Fund::unpack(&bad), malformed());
    }
}

#[test]
fn unpack_refuses_an_unknown_fund_type() {
    let mut data = sample(FundType::FundMe).pack();
    data[2] = 2;
    assert_eq!(Fund::unpack(&data), malformed());
    data[2] = 1;
    assert_eq!(Fund::unpack(&data), malformed());
}

#[test]
fn unpack_takes_a_flag_exactly_where_borsh_takes_a_bool() {
    let data = sample(FundType::Raise { private: true }).pack();
    for b in 0..=255u8 {
        let flag = bool::try_from_slice(&[b]);
        for at in [0, 1, 3] {
            let mut changed = data.clone();
            changed[at] = b;
            let r = Fund::unpack(&changed);
            assert_eq!(r.is_ok(), flag.is_ok());
            if let (Ok(f), Ok(flag)) = (r, &flag) {
                let read = [f.initialized, f.open, f.fund_type == FundType::Raise { private: true }];
                assert_eq!(read[at.min(2)], *flag);
            }
        }
    }
}

#[test]
fn unpack_reads_numbers_as_borsh_does() {
    let mut data = sample(FundType::FundMe).pack();
    for (i, b) in data[67..75].iter_mut().enumerate() {
        *b = 0x80 + i as u8;
    }
    let f = Fund::unpack(&data).unwrap();
    assert_eq!(f.max_balance, u64::try_from_slice(&data[67..75]).unwrap());
    assert_eq!(f.max_balance, 0x8786_8584_8382_8180);
    assert_eq!(f.owner.bytes, <[u8; 32]>::try_from_slice(&data[3..35]).unwrap());
}
