use peel_ip::memcmp::memcmp;
use peel_ip::memcmp::tag_compare;
use peel_ip::memcmp::CompareResult;

#[test]
fn memcmp_success_1_to_20() {
    let mut vec: Vec<u8> = vec![];
    for i in 1..20 {
        vec.push(i);
        assert!(memcmp(&vec, &vec));
    }
}

#[test]
fn memcmp_failure_1_to_20() {
    let mut vec_1: Vec<u8> = vec![];
    let mut vec_2: Vec<u8> = vec![];
    for i in 1..20 {
        vec_1.push(i);
        vec_2.push(0);
        assert!(!memcmp(&vec_1, &vec_2));
    }
}

#[test]
fn tag_compare_three_way() {
    assert_eq!(
        tag_compare(b"TEST TEST TEST", 0, b"TEST"),
        CompareResult::Matched
    );
    assert_eq!(
        tag_compare(b"FAILURE", 0, b"TEST"),
        CompareResult::Mismatch
    );
    assert_eq!(tag_compare(b"T", 0, b"TEST"), CompareResult::Incomplete);
    assert_eq!(tag_compare(b"abTEST", 2, b"TEST"), CompareResult::Matched);
}
