use novax_executor::bytes::hex_encode;
use novax_executor::codec::Decode;
use novax_executor::error::DataError;
use novax_executor::outcome::{decode_data, DeployOutcome, RawResponse, TransactionOutcome, TxStatus};
use novax_executor::data::Address;

#[test]
fn a_u64_is_read_most_significant_byte_first() {
    assert_eq!(u64::decode(&vec![vec![]]), Some(0));
    assert_eq!(u64::decode(&vec![vec![42]]), Some(42));
    assert_eq!(u64::decode(&vec![vec![1, 0]]), Some(256));
    assert_eq!(u64::decode(&vec![vec![0, 0, 1, 2]]), Some(258));
    assert_eq!(u64::decode(&vec![vec![0xff; 8]]), Some(u64::MAX));
    assert_eq!(
        u64::decode(&vec![vec![0x12, 0x34, 0x56, 0x78, 0x9a, 0xbc, 0xde, 0xf0]]),
        Some(0x1234_5678_9abc_def0)
    );
}

#[test]
fn a_u64_takes_at_most_eight_bytes() {
    assert_eq!(u64::decode(&vec![vec![0, 0, 0, 0, 0, 0, 0, 0, 1]]), None);
    assert_eq!(u64::decode(&vec![vec![1; 9]]), None);
    assert_eq!(u64::decode(&vec![vec![0; 10]]), None);
}

#[test]
fn a_value_is_read_from_the_first_byte_string() {
    assert_eq!(u64::decode(&vec![]), None);
    assert_eq!(u64::decode(&vec![vec![7], vec![8]]), Some(7));
    assert_eq!(u32::decode(&vec![]), None);
    assert_eq!(bool::decode(&vec![]), None);
    assert_eq!(Vec::<u8>::decode(&vec![]), None);
    assert_eq!(Vec::<u8>::decode(&vec![vec![1, 2], vec![3]]), Some(vec![1, 2]));
    assert_eq!(Vec::<u8>::decode(&vec![vec![]]), Some(vec![]));
}

#[test]
fn a_u32_must_fit_in_32_bits() {
    assert_eq!(u32::decode(&vec![vec![]]), Some(0));
    assert_eq!(u32::decode(&vec![vec![1, 0]]), Some(256));
    assert_eq!(u32::decode(&vec![vec![0xff, 0xff, 0xff, 0xff]]), Some(u32::MAX));
    assert_eq!(u32::decode(&vec![vec![0, 0, 0, 0, 0, 0, 0, 9]]), Some(9));
    assert_eq!(u32::decode(&vec![vec![1, 0, 0, 0, 0]]), None);
    assert_eq!(u32::decode(&vec![vec![0; 9]]), None);
}

#[test]
fn a_bool_is_empty_or_zero_or_one() {
    assert_eq!(bool::decode(&vec![vec![]]), Some(false));
    assert_eq!(bool::decode(&vec![vec![0]]), Some(false));
    assert_eq!(bool::decode(&vec![vec![1]]), Some(true));
    assert_eq!(bool::decode(&vec![vec![2]]), None);
    assert_eq!(bool::decode(&vec![vec![0, 1]]), None);
    assert_eq!(bool::decode(&vec![vec![1, 1]]), None);
}

#[test]
fn the_unit_reads_nothing() {
    assert_eq!(<()>::decode(&vec![]), Some(()));
    assert_eq!(<()>::decode(&vec![vec![1, 2, 3]]), Some(()));
}

#[test]
fn data_that_does_not_decode_is_kept_in_the_error() {
    let data = vec![vec![1u8; 9], vec![2]];
    assert_eq!(decode_data::<u64>(&data), Err(DataError { raw: data.clone() }));
    assert_eq!(decode_data::<u64>(&vec![vec![1, 1]]), Ok(257));
}

#[test]
fn an_outcome_decodes_its_data() {
    let response =
        RawResponse { status: TxStatus::Success, data: vec![vec![1]], logs: vec![vec![9]] };
    let outcome = TransactionOutcome { response: response.clone(), deployed: None };
    assert_eq!(outcome.decode::<u64>(), Ok(1));
    assert_eq!(outcome.decode::<bool>(), Ok(true));
    assert_eq!(outcome.decode::<Vec<u8>>(), Ok(vec![1]));

    let bad = TransactionOutcome {
        response: RawResponse { status: TxStatus::Success, data: vec![vec![3]], logs: vec![] },
        deployed: None,
    };
    assert_eq!(bad.decode::<bool>(), Err(DataError { raw: vec![vec![3]] }));

    let deployment = DeployOutcome { address: Address::new(vec![4; 32]), response };
    assert_eq!(deployment.decode::<u32>(), Ok(1));
    assert_eq!(
        DeployOutcome {
            address: Address::new(vec![4; 32]),
            response: RawResponse { status: TxStatus::Success, data: vec![], logs: vec![] }
        }
        .decode::<u32>(),
        Err(DataError { raw: vec![] })
    );
}

#[test]
fn a_deployment_needs_an_address() {
    let response = RawResponse { status: TxStatus::Success, data: vec![], logs: vec![] };
    let without = TransactionOutcome { response: response.clone(), deployed: None };
    assert_eq!(DeployOutcome::from_transaction(without), None);

    let empty =
        TransactionOutcome { response: response.clone(), deployed: Some(Address::new(vec![])) };
    assert_eq!(DeployOutcome::from_transaction(empty), None);

    let with = TransactionOutcome {
        response: response.clone(),
        deployed: Some(Address::new(vec![1, 2])),
    };
    assert_eq!(
        DeployOutcome::from_transaction(with),
        Some(DeployOutcome { address: Address::new(vec![1, 2]), response })
    );
}

#[test]
fn bytes_are_written_in_lower_case_hexadecimal() {
    assert_eq!(hex_encode(&vec![]), b"".to_vec());
    assert_eq!(hex_encode(&vec![0x00, 0x0f, 0x10, 0x9a, 0xff]), b"000f109aff".to_vec());
    assert_eq!(hex_encode(&vec![0xab, 0xcd, 0xef]), b"abcdef".to_vec());
}
