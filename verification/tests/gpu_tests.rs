use sysdiag::gpu::{
    get_gpu_info, get_gpu_info_macos, get_gpu_info_windows, get_gpu_info_windows_powershell,
    parse_macos_gpu_json, parse_windows_gpu_csv, parse_windows_gpu_powershell, GpuInfo,
};
use sysdiag::platform::{Platform, ToolOutput};

fn gpu(name: &str, vendor: &str, vram: Option<&str>) -> GpuInfo {
    GpuInfo {
        name: name.to_string(),
        vendor: vendor.to_string(),
        vram: vram.map(|v| v.to_string()),
    }
}

#[test]
fn csv_rows_become_records() {
    let csv = "Node,AdapterRAM,Name\r\n\
               DESKTOP,4294967296,NVIDIA GeForce RTX 3060 \r\n\
               DESKTOP,0,Intel UHD Graphics\r\n\
               DESKTOP,notanumber,Radeon RX 580\r\n";
    let gpus = parse_windows_gpu_csv(csv);
    assert_eq!(
        gpus,
        vec![
            gpu("NVIDIA GeForce RTX 3060", "Unknown", Some("4096 MB")),
            gpu("Intel UHD Graphics", "Unknown", None),
            gpu("Radeon RX 580", "Unknown", None),
        ]
    );
}

#[test]
fn csv_skips_header_repeats_and_short_lines() {
    let csv = "Node,AdapterRAM,Name\nDESKTOP,1,Name\nDESKTOP,2,\njusttwo,fields\nDESKTOP,none, Kept ";
    let gpus = parse_windows_gpu_csv(csv);
    assert_eq!(gpus, vec![gpu("Kept", "Unknown", None)]);
}

#[test]
fn csv_vram_rounds_down_to_mebibytes() {
    let csv = "h\na,1048576,One\na,1048575,Sub";
    let gpus = parse_windows_gpu_csv(csv);
    assert_eq!(gpus[0].vram, Some("1 MB".to_string()));
    assert_eq!(gpus[1].vram, Some("0 MB".to_string()));
}

#[test]
fn csv_empty_input_yields_nothing() {
    assert_eq!(parse_windows_gpu_csv(""), vec![]);
}

#[test]
fn macos_json_inventory() {
    let json = r#"{"SPDisplaysDataType":[
        {"sppci_model":"Apple M1","sppci_vendor":"Apple","sppci_vram":"8 GB"},
        {"_name":"External Panel","spdisplays_vendor":"Acme"}
    ]}"#;
    let gpus = parse_macos_gpu_json(json);
    assert_eq!(
        gpus,
        vec![
            gpu("Apple M1", "Apple", Some("8 GB")),
            gpu("External Panel", "Acme", None),
        ]
    );
}

#[test]
fn macos_unparseable_output_yields_nothing() {
    assert_eq!(parse_macos_gpu_json("not json at all"), vec![]);
    assert_eq!(parse_macos_gpu_json("{\"other\": 1}"), vec![]);
    assert_eq!(parse_macos_gpu_json("{\"SPDisplaysDataType\": \"not an array\"}"), vec![]);
}

#[test]
fn powershell_json_array_and_single_object() {
    let arr = r#"[{"Name":"Card A","AdapterRAM":2147483648},{"AdapterRAM":0}]"#;
    let gpus = parse_windows_gpu_powershell(arr);
    assert_eq!(
        gpus,
        vec![
            gpu("Card A", "Unknown", Some("2048 MB")),
            gpu("Unknown GPU", "Unknown", None),
        ]
    );
    let single = r#"{"Name":"Solo Card"}"#;
    assert_eq!(parse_windows_gpu_powershell(single), vec![gpu("Solo Card", "Unknown", None)]);
}

#[test]
fn powershell_unparseable_output_yields_nothing() {
    assert_eq!(parse_windows_gpu_powershell("garbage"), vec![]);
}

#[test]
fn unavailable_utility_yields_empty_list() {
    assert_eq!(
        get_gpu_info(Platform::MacOs, ToolOutput::Unavailable, ToolOutput::Unavailable),
        vec![]
    );
    assert_eq!(
        get_gpu_info(Platform::Windows, ToolOutput::Unreadable, ToolOutput::Unavailable),
        vec![]
    );
    assert_eq!(get_gpu_info_macos(ToolOutput::Unreadable), vec![]);
    assert_eq!(get_gpu_info_windows_powershell(ToolOutput::Unavailable), vec![]);
}

#[test]
fn unsupported_platform_has_no_gpus() {
    let out = ToolOutput::Text("{\"SPDisplaysDataType\":[{\"_name\":\"X\"}]}".to_string());
    assert_eq!(get_gpu_info(Platform::Other, out, ToolOutput::Unavailable), vec![]);
}

#[test]
fn windows_falls_back_to_powershell_only_when_primary_missing() {
    let ps = ToolOutput::Text(r#"{"Name":"Fallback Card"}"#.to_string());
    assert_eq!(
        get_gpu_info_windows(ToolOutput::Unavailable, ps.clone()),
        vec![gpu("Fallback Card", "Unknown", None)]
    );
    // A primary that ran but was unreadable does not reach the fallback.
    assert_eq!(get_gpu_info_windows(ToolOutput::Unreadable, ps), vec![]);
}
