use gpuburden::action::GpuAction;
use gpuburden::configuration::{Configuration, MonitorConfig};
use gpuburden::registry::{OutputIdentity, OutputRegistry};
use gpuburden::session::{ShaderSource, Transform};

fn output(name: &str, width: u32, height: u32, transform: Transform) -> OutputIdentity {
    OutputIdentity { name: name.to_string(), width, height, transform }
}

fn dp1_only_config() -> Configuration {
    Configuration::new(vec![MonitorConfig {
        name: "DP-1".to_string(),
        shader: "a.wgsl".to_string(),
    }])
}

#[test]
fn no_document_accepts_every_output() {
    // Scenario: no configuration document found. Every discovered output
    // gets a session, each using the built-in default shader.
    let mut registry = OutputRegistry::new(None);
    let actions = registry.on_output_discovered(output("DP-1", 1920, 1080, Transform::Normal));
    assert_eq!(actions.len(), 1);
    let actions = registry.on_output_discovered(output("HDMI-1", 2560, 1440, Transform::Normal));
    assert_eq!(actions.len(), 1);
    assert_eq!(registry.session_count(), 2);
    assert!(registry.has_session("DP-1"));
    assert!(registry.has_session("HDMI-1"));
    assert_eq!(registry.sessions[0].shader_path, None);
    assert_eq!(registry.sessions[1].shader_path, None);
    assert!(!registry.sessions[0].configured);
}

#[test]
fn document_limits_scope_to_listed_outputs() {
    // Scenario: the document lists only DP-1 with shader a.wgsl. DP-1 gets
    // a session carrying that shader file; HDMI-1 gets none.
    let mut registry = OutputRegistry::new(Some(dp1_only_config()));
    let actions = registry.on_output_discovered(output("DP-1", 1920, 1080, Transform::Normal));
    assert_eq!(
        actions[0],
        GpuAction::CreateLayerSurface {
            layer_id: 0,
            name: "DP-1".to_string(),
            width: 1920,
            height: 1080,
        }
    );
    let actions = registry.on_output_discovered(output("HDMI-1", 2560, 1440, Transform::Normal));
    assert!(actions.is_empty());
    assert_eq!(registry.session_count(), 1);
    assert!(registry.has_session("DP-1"));
    assert!(!registry.has_session("HDMI-1"));
    assert_eq!(registry.sessions[0].shader_path, Some("a.wgsl".to_string()));
}

#[test]
fn rediscovered_name_is_not_registered_twice() {
    let mut registry = OutputRegistry::new(None);
    registry.on_output_discovered(output("DP-1", 1920, 1080, Transform::Normal));
    let actions = registry.on_output_discovered(output("DP-1", 1920, 1080, Transform::Normal));
    assert!(actions.is_empty());
    assert_eq!(registry.session_count(), 1);
}

#[test]
fn configure_builds_pipeline_draws_and_rearms() {
    let mut registry = OutputRegistry::new(None);
    registry.on_output_discovered(output("DP-1", 1920, 1080, Transform::Normal));
    let layer_id = registry.sessions[0].layer_id;
    let actions = registry.on_configure(layer_id, 1920, 1080, Transform::Normal, None);
    assert_eq!(actions.len(), 3);
    assert_eq!(
        actions[0],
        GpuAction::BuildPipeline {
            layer_id,
            width: 1920,
            height: 1080,
            shader: ShaderSource::BuiltIn,
        }
    );
    match &actions[1] {
        GpuAction::Draw { layer_id: drawn, frame_data } => {
            assert_eq!(*drawn, layer_id);
            let block = frame_data.as_ref().unwrap();
            assert_eq!(block.screen_width, 1920);
            assert_eq!(block.screen_height, 1080);
            assert_eq!(block.frame_index, 1);
        }
        other => panic!("expected a draw action, got {other:?}"),
    }
    assert_eq!(actions[2], GpuAction::RequestFrameCallback { layer_id });
    assert!(registry.sessions[0].configured);
}

#[test]
fn quarter_turn_transforms_swap_axes() {
    // Rotation property: a 90/270 degree transform (plain or flipped) swaps
    // the configure size's axes; every other transform passes it through.
    for transform in [
        Transform::Rotate90,
        Transform::Rotate270,
        Transform::FlippedRotate90,
        Transform::FlippedRotate270,
    ] {
        let mut registry = OutputRegistry::new(None);
        registry.on_output_discovered(output("DP-1", 1920, 1080, transform));
        let layer_id = registry.sessions[0].layer_id;
        registry.on_configure(layer_id, 1920, 1080, transform, None);
        assert_eq!(registry.sessions[0].width, 1080);
        assert_eq!(registry.sessions[0].height, 1920);
    }
    for transform in [
        Transform::Normal,
        Transform::Rotate180,
        Transform::Flipped,
        Transform::FlippedRotate180,
    ] {
        let mut registry = OutputRegistry::new(None);
        registry.on_output_discovered(output("DP-1", 1920, 1080, transform));
        let layer_id = registry.sessions[0].layer_id;
        registry.on_configure(layer_id, 1920, 1080, transform, None);
        assert_eq!(registry.sessions[0].width, 1920);
        assert_eq!(registry.sessions[0].height, 1080);
    }
}

#[test]
fn second_configure_is_ignored() {
    // A second configure on an already-configured session is a no-op,
    // never a crash: the stale size stays and no actions come back.
    let mut registry = OutputRegistry::new(None);
    registry.on_output_discovered(output("DP-1", 1920, 1080, Transform::Normal));
    let layer_id = registry.sessions[0].layer_id;
    registry.on_configure(layer_id, 1920, 1080, Transform::Normal, None);
    let frame_before = registry.sessions[0].frame_index;
    let actions = registry.on_configure(layer_id, 800, 600, Transform::Normal, None);
    assert!(actions.is_empty());
    assert_eq!(registry.sessions[0].width, 1920);
    assert_eq!(registry.sessions[0].height, 1080);
    assert_eq!(registry.sessions[0].frame_index, frame_before);
}

#[test]
fn configure_for_unknown_layer_is_ignored() {
    let mut registry = OutputRegistry::new(None);
    let actions = registry.on_configure(99, 1920, 1080, Transform::Normal, None);
    assert!(actions.is_empty());
}

#[test]
fn shader_text_reaches_the_pipeline() {
    let mut registry = OutputRegistry::new(Some(dp1_only_config()));
    registry.on_output_discovered(output("DP-1", 1920, 1080, Transform::Normal));
    let layer_id = registry.sessions[0].layer_id;
    assert_eq!(registry.shader_path_for_layer(layer_id), Some("a.wgsl".to_string()));
    let text = "fragment code".to_string();
    registry.on_configure(layer_id, 1920, 1080, Transform::Normal, Some(text.clone()));
    assert_eq!(registry.sessions[0].shader, ShaderSource::Custom(text));
}

#[test]
fn failed_shader_read_falls_back_to_built_in() {
    // Scenario: the session's shader file fails to read. The session still
    // configures, on the built-in default shader.
    let mut registry = OutputRegistry::new(Some(dp1_only_config()));
    registry.on_output_discovered(output("DP-1", 1920, 1080, Transform::Normal));
    let layer_id = registry.sessions[0].layer_id;
    let actions = registry.on_configure(layer_id, 1920, 1080, Transform::Normal, None);
    assert_eq!(actions.len(), 3);
    assert!(registry.sessions[0].configured);
    assert_eq!(registry.sessions[0].shader, ShaderSource::BuiltIn);
}

#[test]
fn frame_ticks_advance_the_counter_one_by_one() {
    let mut registry = OutputRegistry::new(None);
    registry.on_output_discovered(output("DP-1", 1920, 1080, Transform::Normal));
    let layer_id = registry.sessions[0].layer_id;
    registry.on_configure(layer_id, 1920, 1080, Transform::Normal, None);
    assert_eq!(registry.sessions[0].frame_index, 1);
    let actions = registry.on_frame_tick(layer_id);
    assert_eq!(actions.len(), 2);
    match &actions[0] {
        GpuAction::Draw { frame_data, .. } => {
            assert_eq!(frame_data.as_ref().unwrap().frame_index, 2);
        }
        other => panic!("expected a draw action, got {other:?}"),
    }
    assert_eq!(actions[1], GpuAction::RequestFrameCallback { layer_id });
    let actions = registry.on_frame_tick(layer_id);
    match &actions[0] {
        GpuAction::Draw { frame_data, .. } => {
            assert_eq!(frame_data.as_ref().unwrap().frame_index, 3);
        }
        other => panic!("expected a draw action, got {other:?}"),
    }
    assert_eq!(registry.sessions[0].frame_index, 3);
}

#[test]
fn unconfigured_session_draws_without_frame_data() {
    let mut registry = OutputRegistry::new(None);
    registry.on_output_discovered(output("DP-1", 1920, 1080, Transform::Normal));
    let layer_id = registry.sessions[0].layer_id;
    let actions = registry.on_frame_tick(layer_id);
    assert!(matches!(actions[0], GpuAction::Draw { frame_data: None, .. }));
}

#[test]
fn pipeline_failure_leaves_session_unconfigured() {
    let mut registry = OutputRegistry::new(None);
    registry.on_output_discovered(output("DP-1", 1920, 1080, Transform::Normal));
    let layer_id = registry.sessions[0].layer_id;
    registry.on_configure(layer_id, 1920, 1080, Transform::Normal, Some("bad".to_string()));
    registry.on_pipeline_failure(layer_id);
    assert!(!registry.sessions[0].configured);
    assert_eq!(registry.sessions[0].shader, ShaderSource::BuiltIn);
    // The session stays registered and keeps drawing the bare clear.
    let actions = registry.on_frame_tick(layer_id);
    assert!(matches!(actions[0], GpuAction::Draw { frame_data: None, .. }));
}

#[test]
fn removal_releases_surface_before_device() {
    let mut registry = OutputRegistry::new(None);
    registry.on_output_discovered(output("DP-1", 1920, 1080, Transform::Normal));
    let layer_id = registry.sessions[0].layer_id;
    let actions = registry.on_output_removed("DP-1");
    assert_eq!(
        actions,
        vec![
            GpuAction::ReleaseSurface { layer_id },
            GpuAction::ReleaseDevice { layer_id },
        ]
    );
    assert_eq!(registry.session_count(), 0);
    assert!(!registry.has_session("DP-1"));
}

#[test]
fn removing_an_unknown_output_is_a_no_op() {
    let mut registry = OutputRegistry::new(None);
    registry.on_output_discovered(output("DP-1", 1920, 1080, Transform::Normal));
    let actions = registry.on_output_removed("HDMI-1");
    assert!(actions.is_empty());
    assert_eq!(registry.session_count(), 1);
}

#[test]
fn shutdown_tears_every_session_down_in_order() {
    let mut registry = OutputRegistry::new(None);
    registry.on_output_discovered(output("DP-1", 1920, 1080, Transform::Normal));
    registry.on_output_discovered(output("HDMI-1", 2560, 1440, Transform::Normal));
    let first = registry.sessions[0].layer_id;
    let second = registry.sessions[1].layer_id;
    let actions = registry.shutdown();
    assert_eq!(
        actions,
        vec![
            GpuAction::ReleaseSurface { layer_id: first },
            GpuAction::ReleaseDevice { layer_id: first },
            GpuAction::ReleaseSurface { layer_id: second },
            GpuAction::ReleaseDevice { layer_id: second },
        ]
    );
    assert_eq!(registry.session_count(), 0);
}

#[test]
fn close_flag_is_recorded() {
    let mut registry = OutputRegistry::new(None);
    assert!(!registry.is_closed());
    registry.on_closed();
    assert!(registry.is_closed());
}
