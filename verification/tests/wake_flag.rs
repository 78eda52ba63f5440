use jni_utils::wake_flag::TestWakerData;

#[test]
fn new_flag_is_not_woken() {
    let data = TestWakerData::new();
    assert!(!data.value());
}

#[test]
fn value_reads_back_what_was_set() {
    let mut data = TestWakerData::new();
    data.set_value(true);
    assert!(data.value());
    data.set_value(false);
    assert!(!data.value());
}

#[test]
fn later_set_overwrites_earlier() {
    let mut data = TestWakerData::new();
    data.set_value(true);
    data.set_value(false);
    assert!(!data.value());
}

#[test]
fn wake_sets_the_flag() {
    let mut data = TestWakerData::new();
    data.wake();
    assert!(data.value());
}

#[test]
fn wake_twice_is_wake_once() {
    let mut data = TestWakerData::new();
    data.wake();
    data.wake();
    assert!(data.value());
}

#[test]
fn wake_after_reset() {
    let mut data = TestWakerData::new();
    data.wake();
    data.set_value(false);
    assert!(!data.value());
    data.wake();
    assert!(data.value());
}
