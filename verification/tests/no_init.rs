use time_local::InitGate;
use time_local::utc_offset_init_error;

#[test]
#[should_panic(
    expected = "call `time_local::init()` once during application initialization before spawning threads"
)]
fn panic_on_no_init() {
    let gate = InitGate::new();
    match gate.peek_cached() {
        Some(offset) => {
            let _ = offset;
        }
        None => panic!("{}", utc_offset_init_error()),
    }
}
