use fancontrol::inventory::{build_system_info, choose_cpu_brand, parse_gpu_names, pick_dedicated_gpu};

fn strings(names: &[&str]) -> Vec<String> {
    names.iter().map(|s| s.to_string()).collect()
}

#[test]
fn picks_discrete_over_integrated() {
    let names = strings(&["Intel UHD Graphics 780M", "NVIDIA GeForce RTX 4070"]);
    assert_eq!(pick_dedicated_gpu(&names), Some("NVIDIA GeForce RTX 4070".to_string()));
}

#[test]
fn only_integrated_yields_none() {
    let names = strings(&["Intel Iris Xe"]);
    assert_eq!(pick_dedicated_gpu(&names), None);
}

#[test]
fn unknown_device_survives_as_fallback() {
    let names = strings(&["Some Unknown Device"]);
    assert_eq!(pick_dedicated_gpu(&names), Some("Some Unknown Device".to_string()));
}

#[test]
fn empty_list_yields_none() {
    let names: Vec<String> = Vec::new();
    assert_eq!(pick_dedicated_gpu(&names), None);
}

#[test]
fn matching_is_case_insensitive() {
    let names = strings(&["nvidia geforce rtx 3060"]);
    assert_eq!(pick_dedicated_gpu(&names), Some("nvidia geforce rtx 3060".to_string()));
}

#[test]
fn discrete_marker_with_integrated_marker_is_filtered() {
    // "radeon rx" looks discrete, but "vega" marks it integrated, so it is
    // neither a winner nor a fallback candidate.
    let names = strings(&["AMD Radeon RX Vega 8"]);
    assert_eq!(pick_dedicated_gpu(&names), None);
}

#[test]
fn first_non_integrated_name_wins_as_fallback() {
    let names = strings(&["Intel Iris Xe", "Matrox Display Adapter", "Another Device"]);
    assert_eq!(pick_dedicated_gpu(&names), Some("Matrox Display Adapter".to_string()));
}

#[test]
fn first_winner_short_circuits_over_later_entries() {
    let names = strings(&["Plain Device", "NVIDIA GeForce GTX 1650", "NVIDIA GeForce RTX 4090"]);
    assert_eq!(pick_dedicated_gpu(&names), Some("NVIDIA GeForce GTX 1650".to_string()));
}

#[test]
fn rx_marker_needs_its_space() {
    // "RX580" does not contain "rx " with the space, so it is no winner,
    // but it is not integrated-looking either and survives as fallback.
    let names = strings(&["RX580"]);
    assert_eq!(pick_dedicated_gpu(&names), Some("RX580".to_string()));
}

#[test]
fn cpu_brand_prefers_trimmed_global() {
    let global = "  AMD Ryzen 7 7840U  ".to_string();
    let units = strings(&["unit brand"]);
    assert_eq!(choose_cpu_brand(&global, &units), "AMD Ryzen 7 7840U".to_string());
}

#[test]
fn cpu_brand_falls_back_to_first_nonblank_unit() {
    let global = "   ".to_string();
    let units = strings(&["", "  ", "\tIntel Core Ultra 7\n", "other"]);
    assert_eq!(choose_cpu_brand(&global, &units), "Intel Core Ultra 7".to_string());
}

#[test]
fn cpu_brand_is_empty_when_nothing_is_known() {
    let global = "".to_string();
    let units = strings(&["", " \t "]);
    assert_eq!(choose_cpu_brand(&global, &units), "".to_string());
}

#[test]
fn envelope_reports_best_effort_fields() {
    let info = build_system_info(
        &" Example CPU ".to_string(),
        &strings(&[]),
        8 * 1024 * 1024 * 1024,
        None,
        &strings(&["Intel UHD Graphics", "NVIDIA GeForce RTX 4070"]),
    );
    assert!(info.ok);
    assert_eq!(info.cpu, "Example CPU".to_string());
    assert_eq!(info.memory_total_mb, 8192);
    assert_eq!(info.os, "Unknown OS".to_string());
    assert_eq!(info.dgpu, Some("NVIDIA GeForce RTX 4070".to_string()));
}

#[test]
fn envelope_keeps_reported_os_name() {
    let info = build_system_info(
        &"cpu".to_string(),
        &strings(&[]),
        0,
        Some("ExampleOS 1.0".to_string()),
        &strings(&[]),
    );
    assert!(info.ok);
    assert_eq!(info.os, "ExampleOS 1.0".to_string());
    assert_eq!(info.memory_total_mb, 0);
    assert_eq!(info.dgpu, None);
}

#[test]
fn parses_one_name_per_line_trimmed() {
    let raw = "Intel UHD Graphics\r\n  NVIDIA GeForce RTX 4070  \r\n";
    assert_eq!(parse_gpu_names(raw), vec![
        "Intel UHD Graphics".to_string(),
        "NVIDIA GeForce RTX 4070".to_string(),
    ]);
}

#[test]
fn drops_blank_lines_of_enumerator_output() {
    let raw = "\n   \nAMD Radeon RX 7800 XT\n\t\nSecond Device";
    assert_eq!(parse_gpu_names(raw), vec![
        "AMD Radeon RX 7800 XT".to_string(),
        "Second Device".to_string(),
    ]);
}

#[test]
fn empty_enumerator_output_yields_no_names() {
    assert_eq!(parse_gpu_names(""), Vec::<String>::new());
    assert_eq!(parse_gpu_names("\n\n"), Vec::<String>::new());
}
