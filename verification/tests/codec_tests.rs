use oks_util::codec::{recover, split, CodecError};

fn secret32() -> Vec<u8> {
    (0u8..32u8).collect()
}

#[test]
fn split_three_of_five_recovers_from_two_subsets() {
    let secret = secret32();
    let shares = split(&secret, 3, 5).unwrap();
    assert_eq!(shares.len(), 5);

    // Shares 1, 3 and 5 (one-based).
    let subset_a = vec![
        shares[0].clone(),
        shares[2].clone(),
        shares[4].clone(),
    ];
    assert_eq!(recover(&subset_a).unwrap(), secret);

    // Shares 2, 4 and 5.
    let subset_b = vec![
        shares[1].clone(),
        shares[3].clone(),
        shares[4].clone(),
    ];
    assert_eq!(recover(&subset_b).unwrap(), secret);
}

#[test]
fn every_threshold_subset_recovers_in_any_order() {
    let secret = secret32();
    let shares = split(&secret, 3, 5).unwrap();
    for i in 0..5 {
        for j in 0..5 {
            for k in 0..5 {
                if i != j && j != k && i != k {
                    let subset = vec![
                        shares[i].clone(),
                        shares[j].clone(),
                        shares[k].clone(),
                    ];
                    assert_eq!(recover(&subset).unwrap(), secret);
                }
            }
        }
    }
}

#[test]
fn fewer_than_threshold_shares_fail() {
    let secret = secret32();
    let shares = split(&secret, 3, 5).unwrap();
    // The boundary case: one share short of the threshold.
    for i in 0..5 {
        for j in 0..5 {
            if i != j {
                let subset = vec![shares[i].clone(), shares[j].clone()];
                assert!(matches!(recover(&subset), Err(CodecError::Recovery)));
            }
        }
    }
    let one = vec![shares[0].clone()];
    assert!(matches!(recover(&one), Err(CodecError::Recovery)));
    let none: Vec<String> = Vec::new();
    assert!(matches!(recover(&none), Err(CodecError::Recovery)));
}

#[test]
fn bad_split_parameters_are_refused() {
    let secret = secret32();
    assert!(matches!(
        split(&secret, 6, 5),
        Err(CodecError::BadParameters)
    ));
    assert!(matches!(
        split(&secret, 0, 5),
        Err(CodecError::BadParameters)
    ));
    let empty: Vec<u8> = Vec::new();
    assert!(matches!(
        split(&empty, 3, 5),
        Err(CodecError::BadParameters)
    ));
}

#[test]
fn threshold_equal_to_share_count() {
    let secret = secret32();
    let shares = split(&secret, 2, 2).unwrap();
    assert_eq!(shares.len(), 2);
    assert_eq!(recover(&shares).unwrap(), secret);
    let one = vec![shares[1].clone()];
    assert!(matches!(recover(&one), Err(CodecError::Recovery)));
}

#[test]
fn garbage_shares_do_not_yield_a_secret() {
    let shares = vec!["not-a-share".to_string(), "also-not".to_string()];
    assert!(matches!(recover(&shares), Err(CodecError::Recovery)));
}
