use std::sync::Mutex;

// The guard returned by `lock` holds the mutex until it is dropped; taking a
// second guard while the first is alive would block forever.  The channel
// library's slot lock is used the same way: acquire, update, release.
#[test]
fn test_mutex() {
    let m = Mutex::new(5);

    let mut num1 = m.lock().unwrap();
    *num1 = *num1 + 1;
    drop(num1);

    let mut num2 = m.lock().unwrap();
    *num2 = *num2 + 1;
    assert_eq!(*num2, 7);
    drop(num2);

    // The library is exercised by the other test file; this one only pins
    // down the locking behaviour the channel slot relies on.
    let _ = handoff::one_shot::transfer(7);
}
