use servo_deno_plugin::embedder::{user_agent, version};
use servo_deno_plugin::geometry::{
    default_coordinates, DeviceBox, DevicePoint, DeviceSize, EmbedderGeometry,
};
use servo_deno_plugin::init::{
    extension_name, initial_url, initialization_result, op_names, resources_path,
};

#[test]
fn default_geometry_values() {
    let g = default_coordinates();
    assert_eq!(g.hidpi_percent, 100);
    assert_eq!(g.screen, DeviceSize { width: 1920, height: 1080 });
    assert_eq!(g.screen_avail, DeviceSize { width: 1920, height: 1040 });
    assert_eq!(g.framebuffer, DeviceSize { width: 800, height: 600 });
    assert_eq!(g.window_size, DeviceSize { width: 800, height: 600 });
    assert_eq!(g.window_origin, DevicePoint { x: 0, y: 0 });
    assert_eq!(g.viewport.min, DevicePoint { x: 0, y: 0 });
    assert_eq!(g.viewport.max, DevicePoint { x: 800, y: 600 });
}

#[test]
fn default_viewport_matches_window() {
    let g = default_coordinates();
    let s = g.viewport_size();
    assert_eq!(s, DeviceSize { width: 800, height: 600 });
    assert_eq!(s, g.window_size);
}

#[test]
fn offset_window_viewport_matches_window() {
    let g = EmbedderGeometry {
        hidpi_percent: 200,
        screen: DeviceSize { width: 2560, height: 1440 },
        screen_avail: DeviceSize { width: 2560, height: 1400 },
        framebuffer: DeviceSize { width: 1024, height: 768 },
        window_size: DeviceSize { width: 1024, height: 768 },
        window_origin: DevicePoint { x: 64, y: 32 },
        viewport: DeviceBox {
            min: DevicePoint { x: 64, y: 32 },
            max: DevicePoint { x: 1088, y: 800 },
        },
    };
    assert_eq!(g.viewport_size(), DeviceSize { width: 1024, height: 768 });
}

#[test]
fn user_agent_string() {
    assert_eq!(
        user_agent().as_deref(),
        Some("Servo/Deno Embedder (like Firefox/Gecko)")
    );
}

#[test]
fn version_string() {
    assert_eq!(version().as_deref(), Some("0.1.0"));
}

#[test]
fn initial_url_is_blank_page() {
    assert_eq!(initial_url(), "about:blank");
}

#[test]
fn initialization_reports_success() {
    let r = initialization_result();
    assert!(r.success);
    assert_eq!(r.message, "Servo initialized successfully");
}

#[test]
fn resources_path_under_working_directory() {
    assert_eq!(
        resources_path("/home/user/project"),
        "/home/user/project/servo/resources"
    );
}

#[test]
fn resources_path_under_empty_directory() {
    assert_eq!(resources_path(""), "/servo/resources");
}

#[test]
fn extension_registration_data() {
    assert_eq!(extension_name(), "servo_deno_plugin");
    let ops = op_names();
    assert_eq!(ops.len(), 1);
    assert_eq!(ops[0], "op_initialize_servo");
}
