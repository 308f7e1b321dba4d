use androidsink::init::{
    capture_decision, init_failure_message, on_load_result, CaptureStep, HostHandles, RunGuard,
    MIN_JNI_VERSION,
};
use androidsink::plugins::{
    default_plugin_names, gst_android_load_gio_modules, keeps_library, plugin_library_name,
    plugin_registrar_symbol, PluginLoader, PluginOutcome,
};

#[test]
fn plugin_names_follow_the_shared_object_convention() {
    assert_eq!(plugin_library_name("app"), "libgstapp.so");
    assert_eq!(plugin_library_name("coreelements"), "libgstcoreelements.so");
}

#[test]
fn registrar_names_follow_the_entry_point_convention() {
    assert_eq!(plugin_registrar_symbol("app"), "gst_plugin_app_register");
    assert_eq!(
        plugin_registrar_symbol("coreelements"),
        "gst_plugin_coreelements_register"
    );
}

#[test]
fn only_a_failed_open_loses_the_library() {
    assert!(!keeps_library(PluginOutcome::LibraryMissing));
    assert!(keeps_library(PluginOutcome::RegistrarMissing));
    assert!(keeps_library(PluginOutcome::Registered));
}

#[test]
fn the_default_plugin_list_is_fixed() {
    let names = default_plugin_names();
    assert_eq!(names.len(), 23);
    assert_eq!(names[0], "coreelements");
    assert_eq!(names[8], "audiotestsrc");
    assert_eq!(names[22], "androidmedia");
}

#[test]
fn a_loader_walk_survives_every_failure() {
    let names = vec![
        String::from("adder"),
        String::from("app"),
        String::from("volume"),
    ];
    let mut loader = PluginLoader::new(names);
    assert!(!loader.finished());

    assert_eq!(loader.next_library().unwrap(), "libgstadder.so");
    assert_eq!(loader.next_registrar().unwrap(), "gst_plugin_adder_register");
    loader.record(PluginOutcome::Registered);

    assert_eq!(loader.next_library().unwrap(), "libgstapp.so");
    loader.record(PluginOutcome::LibraryMissing);
    assert!(!loader.finished());

    assert_eq!(loader.next_library().unwrap(), "libgstvolume.so");
    assert_eq!(loader.next_registrar().unwrap(), "gst_plugin_volume_register");
    loader.record(PluginOutcome::RegistrarMissing);

    assert!(loader.finished());
    assert_eq!(loader.kept_libraries(), 2);
    assert!(loader.next_library().is_none());
    assert!(loader.next_registrar().is_none());
}

#[test]
fn the_gio_module_hook_loads_nothing() {
    gst_android_load_gio_modules();
}

#[test]
fn a_successful_load_returns_the_negotiated_version() {
    assert_eq!(on_load_result(true, Some(0x0001_0006), true), 0x0001_0006);
    assert_eq!(on_load_result(true, Some(MIN_JNI_VERSION), true), MIN_JNI_VERSION);
}

#[test]
fn any_failed_step_makes_the_load_report_zero() {
    assert_eq!(on_load_result(false, Some(0x0001_0006), true), 0);
    assert_eq!(on_load_result(true, None, true), 0);
    assert_eq!(on_load_result(true, Some(0x0001_0006), false), 0);
}

#[test]
fn a_version_older_than_the_floor_is_rejected() {
    assert_eq!(on_load_result(true, Some(0x0001_0002), true), 0);
}

#[test]
fn the_run_latch_admits_one_run_at_a_time() {
    let mut guard = RunGuard::new();
    assert!(!guard.is_running());
    assert!(guard.try_begin());
    assert!(guard.is_running());
    assert!(!guard.try_begin());
    guard.finish();
    assert!(!guard.is_running());
    assert!(guard.try_begin());
}

#[test]
fn host_handles_start_unset_and_remember_what_is_stored() {
    let mut handles = HostHandles::new();
    assert_eq!(handles.java_vm(), None);
    assert_eq!(handles.context(), None);
    assert_eq!(handles.class_loader(), None);

    handles.store_java_vm(0x1000);
    assert_eq!(handles.java_vm(), Some(0x1000));

    handles.store_context(Some(0x2000), None);
    assert_eq!(handles.context(), Some(0x2000));
    assert_eq!(handles.class_loader(), None);
    assert_eq!(handles.java_vm(), Some(0x1000));
}

#[test]
fn the_capture_decision_follows_the_host_answers() {
    assert_eq!(capture_decision(true, true, Some(false)), CaptureStep::Proceed);
    assert_eq!(
        capture_decision(true, true, Some(true)),
        CaptureStep::ClearExceptionAndStop
    );
    assert_eq!(capture_decision(true, true, None), CaptureStep::Stop);
    assert_eq!(capture_decision(true, false, Some(false)), CaptureStep::Stop);
    assert_eq!(capture_decision(false, true, Some(false)), CaptureStep::Stop);
}

#[test]
fn the_init_failure_message_carries_the_detail() {
    assert_eq!(
        init_failure_message("no registry"),
        "GStreamer initialization failed: no registry"
    );
}
