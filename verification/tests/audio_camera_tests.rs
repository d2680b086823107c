use sysdiag::audio::list_audio_devices;
use sysdiag::camera::{list_cameras, parse_camera_json};
use sysdiag::platform::{Platform, ToolOutput};

#[test]
fn unreadable_audio_names_become_unknown() {
    let devices = list_audio_devices(
        vec![Some("Built-in Mic".to_string()), None, Some("USB Mic".to_string())],
        vec![None, Some("Speakers".to_string())],
        Some("Built-in Mic".to_string()),
        None,
    );
    assert_eq!(devices.inputs, vec!["Built-in Mic", "Unknown", "USB Mic"]);
    assert_eq!(devices.outputs, vec!["Unknown", "Speakers"]);
    assert_eq!(devices.default_input, Some("Built-in Mic".to_string()));
    assert_eq!(devices.default_output, None);
}

#[test]
fn audio_enumeration_keeps_every_entry() {
    let devices = list_audio_devices(vec![None, None], vec![], None, None);
    assert_eq!(devices.inputs.len(), 2);
    assert_eq!(devices.inputs, vec!["Unknown", "Unknown"]);
    assert_eq!(devices.outputs.len(), 0);
}

#[test]
fn unsupported_platform_has_no_cameras() {
    let out = ToolOutput::Text("{\"SPCameraDataType\":[{\"_name\":\"Cam\"}]}".to_string());
    assert_eq!(list_cameras(Platform::Windows, out.clone()), Vec::<String>::new());
    assert_eq!(list_cameras(Platform::Other, out), Vec::<String>::new());
}

#[test]
fn camera_names_are_read_and_nameless_entries_skipped() {
    let json = r#"{"SPCameraDataType":[
        {"_name":"FaceTime HD Camera"},
        {"model":"no name here"},
        {"_name":"Continuity Camera"}
    ]}"#;
    assert_eq!(
        parse_camera_json(json),
        vec!["FaceTime HD Camera".to_string(), "Continuity Camera".to_string()]
    );
    assert_eq!(
        list_cameras(Platform::MacOs, ToolOutput::Text(json.to_string())),
        vec!["FaceTime HD Camera".to_string(), "Continuity Camera".to_string()]
    );
}

#[test]
fn camera_utility_failure_is_not_an_error() {
    assert_eq!(list_cameras(Platform::MacOs, ToolOutput::Unavailable), Vec::<String>::new());
    assert_eq!(list_cameras(Platform::MacOs, ToolOutput::Unreadable), Vec::<String>::new());
    assert_eq!(parse_camera_json("not json"), Vec::<String>::new());
}
