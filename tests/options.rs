use std::time::Duration;

use wait_file_created::{AccessMode, Options};

#[test]
fn defaults_take_no_robustness_measure() {
    let o = Options::with_open_options(AccessMode::read_only());
    assert!(!o.retries_on_fluke());
    assert!(!o.create_is_atomic());
    assert_eq!(o.polling_fallback(), None);
    assert_eq!(o.access_mode(), AccessMode { read: true, write: false, append: false });
}

#[test]
fn builders_set_one_field_each() {
    let o = Options::with_open_options(AccessMode::read_write())
        .retry_on_fluke(true)
        .polling_fallback_interval(Duration::from_secs(2))
        .assume_create_is_atomic(true);
    assert!(o.retries_on_fluke());
    assert!(o.create_is_atomic());
    assert_eq!(o.polling_fallback(), Some(Duration::from_secs(2)));
    assert_eq!(o.access_mode(), AccessMode { read: true, write: true, append: false });
    let o = o.retry_on_fluke(false).assume_create_is_atomic(false);
    assert!(!o.retries_on_fluke());
    assert!(!o.create_is_atomic());
    assert_eq!(o.polling_fallback(), Some(Duration::from_secs(2)));
}

#[test]
fn access_modes() {
    assert_eq!(AccessMode::read_only(), AccessMode { read: true, write: false, append: false });
    assert_eq!(AccessMode::read_write(), AccessMode { read: true, write: true, append: false });
    assert_eq!(AccessMode::read_append(), AccessMode { read: true, write: false, append: true });
}
