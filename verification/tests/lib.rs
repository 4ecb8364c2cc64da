use time_local::DateTime;
use time_local::InitGate;

#[test]
fn lib_it_works() {
    let mut gate = InitGate::new();
    gate.init().unwrap();
    let offset = gate.cached_local_offset();
    let date = DateTime::from_unix_timestamp(1718785511).unwrap();
    assert_eq!(date.to_offset(offset).offset, offset);
}
