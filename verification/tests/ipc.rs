//! The agent protocol's version.

use openlogi::ipc::PROTOCOL_VERSION;

#[test]
fn protocol_version_is_pinned() {
    assert_eq!(PROTOCOL_VERSION, 11);
}
