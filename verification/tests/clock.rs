use std::time::{SystemTime, UNIX_EPOCH};
use uniclip::error::UniClipError;
use uniclip::timestamp::{get_utc_now, stamp_from};

#[test]
fn now_is_the_system_clock() {
    let before = SystemTime::now().duration_since(UNIX_EPOCH).unwrap().as_secs();
    let now = get_utc_now().unwrap();
    let after = SystemTime::now().duration_since(UNIX_EPOCH).unwrap().as_secs();
    assert!(before <= now && now <= after);
    assert!(now > 1_600_000_000);
}

#[test]
fn clock_before_the_epoch_is_an_error() {
    assert_eq!(stamp_from(Some(0)), Ok(0));
    assert_eq!(stamp_from(Some(77)), Ok(77));
    assert_eq!(stamp_from(None), Err(UniClipError::SystemClockError));
}
