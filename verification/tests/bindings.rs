use gpu_life::bindings::{
    BIND_GROUP, COMPUTE_ENTRY, DESTINATION_BINDING, DIMENSIONS_BINDING, DISPLAY_BINDING,
    FRAGMENT_ENTRY, SOURCE_BINDING, VERTEX_ENTRY,
};

#[test]
fn simulation_stage_binds_dimensions_source_and_destination() {
    assert_eq!(BIND_GROUP, 0);
    assert_eq!(DIMENSIONS_BINDING, 0);
    assert_eq!(SOURCE_BINDING, 1);
    assert_eq!(DESTINATION_BINDING, 2);
    assert_ne!(SOURCE_BINDING, DESTINATION_BINDING);
}

#[test]
fn display_stage_binds_the_newest_state() {
    assert_eq!(DISPLAY_BINDING, 0);
}

#[test]
fn entry_points_of_the_programs() {
    assert_eq!(COMPUTE_ENTRY, "main");
    assert_eq!(VERTEX_ENTRY, "vs_main");
    assert_eq!(FRAGMENT_ENTRY, "fs_main");
}
