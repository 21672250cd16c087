use handoff::multi_shot::new_multi_chan;
use handoff::multi_shot::round_trip;
use handoff::one_shot::new_chan;
use handoff::one_shot::transfer;
use handoff::threaded::round_trip_spawned;
use handoff::threaded::transfer_spawned;

#[test]
fn test_SR() {
    let (s, r) = new_chan();
    s.send(10);
    let n = r.recv();
    assert_eq!(n, 10);
}

#[test]
fn test_multi_chan() {
    let (mut s, mut r) = new_multi_chan();
    for i in 0..10 {
        s = s.send(i);
    }
    s.close();
    let mut got: Vec<i32> = Vec::new();
    loop {
        match r.recv() {
            Some((msg, r2)) => {
                got.push(msg);
                r = r2;
            }
            None => break,
        }
    }
    assert_eq!(got, vec![0, 1, 2, 3, 4, 5, 6, 7, 8, 9]);
}

#[test]
fn test_transfer_int() {
    assert_eq!(transfer(10), 10);
}

#[test]
fn test_transfer_string() {
    let s = String::from("one value, once");
    assert_eq!(transfer(s.clone()), s);
}

#[test]
fn test_transfer_spawned_threads() {
    assert_eq!(transfer_spawned(10), 10);
}

#[test]
fn test_one_shot_pair_values() {
    let (s, r) = new_chan();
    s.send((14, 20));
    assert_eq!(r.recv(), (14, 20));
}

#[test]
fn test_round_trip_order() {
    let items = vec![3, 1, 4, 1, 5, 9, 2, 6];
    assert_eq!(round_trip(items.clone()), items);
}

#[test]
fn test_round_trip_empty() {
    let items: Vec<u8> = Vec::new();
    assert_eq!(round_trip(items), Vec::<u8>::new());
}

#[test]
fn test_round_trip_spawned_threads() {
    let items: Vec<i32> = (0..10).collect();
    assert_eq!(round_trip_spawned(items.clone()), items);
}

#[test]
fn test_close_without_sends() {
    let (s, r) = new_multi_chan::<i32>();
    s.close();
    assert!(r.recv().is_none());
}

#[test]
fn test_multi_chan_stepwise() {
    let (s, r) = new_multi_chan();
    let s2 = s.send(5);
    let (v, r2) = r.recv().expect("stream is open");
    assert_eq!(v, 5);
    s2.close();
    assert!(r2.recv().is_none());
}
