//! The provider's fixed facts.
use umbra_storage_nfs_userspace::transport::{WireProfile, MINOR_VERSION};
use umbra_storage_nfs_userspace::PROVIDER_ID;

#[test]
fn the_provider_id_is_distinct_from_the_mounted_adapter() {
    assert_eq!(PROVIDER_ID, "nfs-userspace");
    assert_ne!(PROVIDER_ID, "nfs");
}

#[test]
fn the_wire_profile_is_locked_to_v4_0() {
    assert_eq!(MINOR_VERSION, 0);
    assert!(WireProfile::v40_tcp_sys().check().is_ok());
}
