//! Global initialization.

use ssh2::init;

#[test]
fn lib_smoke() {
    init();
}

#[test]
fn init_is_idempotent() {
    init();
    init();
    init();
}
