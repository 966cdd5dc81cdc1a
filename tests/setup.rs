use sagitario::context::{
    instance_extensions, needs_portability, plan_instance, plan_logical_device, validations_layers,
    ApiVersion, INSTANCE_CREATE_ENUMERATE_PORTABILITY,
};
use sagitario::error::SetupError;
use sagitario::pipeline::{
    command_script, framebuffer_specs, pipeline_state, render_pass_state, FramebufferSpec,
    RecordCommand, ShaderCode, ShaderError, CULL_MODE_BACK, FRONT_FACE_CLOCKWISE,
    LAYOUT_PRESENT_SRC, LOAD_OP_CLEAR, POLYGON_MODE_FILL, TOPOLOGY_TRIANGLE_LIST,
};
use sagitario::queue_family::QueueFamilyIndices;
use sagitario::swapchain::Extent2D;
use vulkanalia::vk;

fn strings(v: &[&str]) -> Vec<String> {
    v.iter().map(|s| s.to_string()).collect()
}

#[test]
fn extension_names_match_vulkan() {
    let ext = instance_extensions(vec![], true, true);
    assert_eq!(
        ext,
        vec![
            vk::KHR_GET_PHYSICAL_DEVICE_PROPERTIES2_EXTENSION.name.to_string_lossy().to_string(),
            vk::KHR_PORTABILITY_ENUMERATION_EXTENSION.name.to_string_lossy().to_string(),
            vk::EXT_DEBUG_UTILS_EXTENSION.name.to_string_lossy().to_string(),
        ]
    );
    let plan = plan_logical_device(&QueueFamilyIndices { graphics: 0, present: 0 }, false, true);
    assert_eq!(plan.extensions[1], vk::KHR_PORTABILITY_SUBSET_EXTENSION.name.to_string_lossy().to_string());
    assert_eq!(vk::InstanceCreateFlags::ENUMERATE_PORTABILITY_KHR.bits(), INSTANCE_CREATE_ENUMERATE_PORTABILITY);
}

#[test]
fn validation_layer_required_only_when_enabled() {
    assert_eq!(validations_layers(true, &strings(&["VK_LAYER_other"])), Err(SetupError::ValidationLayerMissing));
    assert_eq!(
        validations_layers(true, &strings(&["VK_LAYER_other", "VK_LAYER_KHRONOS_validation"])),
        Ok(strings(&["VK_LAYER_KHRONOS_validation"]))
    );
    assert_eq!(validations_layers(false, &vec![]), Ok(vec![]));
}

#[test]
fn instance_plan_orders_extensions() {
    let plan = plan_instance(false, false, strings(&["VK_KHR_surface", "VK_KHR_xlib_surface"]), &vec![]).unwrap();
    assert_eq!(plan.extensions, strings(&["VK_KHR_surface", "VK_KHR_xlib_surface"]));
    assert!(plan.layers.is_empty());
    assert_eq!(plan.flags, 0);
    let plan = plan_instance(true, true, strings(&["VK_KHR_surface"]), &strings(&["VK_LAYER_KHRONOS_validation"])).unwrap();
    assert_eq!(
        plan.extensions,
        strings(&[
            "VK_KHR_surface",
            "VK_KHR_get_physical_device_properties2",
            "VK_KHR_portability_enumeration",
            "VK_EXT_debug_utils"
        ])
    );
    assert_eq!(plan.layers, strings(&["VK_LAYER_KHRONOS_validation"]));
    assert_eq!(plan.flags, INSTANCE_CREATE_ENUMERATE_PORTABILITY);
    assert_eq!(plan_instance(true, false, vec![], &vec![]), Err(SetupError::ValidationLayerMissing));
}

#[test]
fn logical_device_gets_one_queue_per_family() {
    let same = plan_logical_device(&QueueFamilyIndices { graphics: 1, present: 1 }, true, false);
    assert_eq!(same.queue_families, vec![1]);
    assert_eq!(same.layers, strings(&["VK_LAYER_KHRONOS_validation"]));
    assert_eq!(same.extensions, strings(&["VK_KHR_swapchain"]));
    let different = plan_logical_device(&QueueFamilyIndices { graphics: 0, present: 2 }, false, false);
    assert_eq!(different.queue_families, vec![0, 2]);
    assert!(different.layers.is_empty());
}

#[test]
fn portability_from_macos_loader_1_3_216() {
    assert!(needs_portability(true, ApiVersion { major: 1, minor: 3, patch: 216 }));
    assert!(needs_portability(true, ApiVersion { major: 1, minor: 4, patch: 0 }));
    assert!(!needs_portability(true, ApiVersion { major: 1, minor: 3, patch: 215 }));
    assert!(!needs_portability(true, ApiVersion { major: 1, minor: 2, patch: 300 }));
    assert!(!needs_portability(false, ApiVersion { major: 2, minor: 0, patch: 0 }));
}

#[test]
fn shader_bytecode_length_is_checked() {
    assert_eq!(ShaderCode::new(&[1, 2, 3]).err(), Some(ShaderError::InvalidLength(3)));
    assert_eq!(ShaderCode::new(&[]).err(), Some(ShaderError::InvalidLength(0)));
    assert_eq!(ShaderCode::new(&[0; 6]).err(), Some(ShaderError::InvalidLength(6)));
    let code = ShaderCode::new(&[3, 2, 35, 7, 0, 0, 1, 0]).unwrap();
    assert_eq!(code.byte_len(), 8);
    assert_eq!(code.bytecode().code_size(), 8);
    assert_eq!(code.bytecode().code(), &[u32::from_ne_bytes([3, 2, 35, 7]), u32::from_ne_bytes([0, 0, 1, 0])]);
}

#[test]
fn fixed_function_state() {
    let extent = Extent2D { width: 800, height: 600 };
    let state = pipeline_state(extent);
    assert_eq!(state.topology, vk::PrimitiveTopology::TRIANGLE_LIST.as_raw());
    assert_eq!(state.topology, TOPOLOGY_TRIANGLE_LIST);
    assert_eq!(POLYGON_MODE_FILL, vk::PolygonMode::FILL.as_raw());
    assert_eq!(CULL_MODE_BACK, vk::CullModeFlags::BACK.bits());
    assert_eq!(FRONT_FACE_CLOCKWISE, vk::FrontFace::CLOCKWISE.as_raw());
    assert_eq!(state.color_write_mask, vk::ColorComponentFlags::all().bits());
    assert_eq!(state.viewport, extent);
    assert_eq!(state.scissor, extent);
    assert!(!state.blend_enable && !state.primitive_restart);
    let pass = render_pass_state(50);
    assert_eq!(pass.format, 50);
    assert_eq!(pass.load_op, LOAD_OP_CLEAR);
    assert_eq!(LOAD_OP_CLEAR, vk::AttachmentLoadOp::CLEAR.as_raw());
    assert_eq!(LAYOUT_PRESENT_SRC, vk::ImageLayout::PRESENT_SRC_KHR.as_raw());
}

#[test]
fn one_framebuffer_and_one_draw_per_image() {
    let extent = Extent2D { width: 640, height: 480 };
    let specs = framebuffer_specs(&vec![7, 9], extent);
    assert_eq!(
        specs,
        vec![
            FramebufferSpec { attachment: 7, width: 640, height: 480, layers: 1 },
            FramebufferSpec { attachment: 9, width: 640, height: 480, layers: 1 },
        ]
    );
    assert!(framebuffer_specs(&vec![], extent).is_empty());
    assert_eq!(
        command_script(7, extent),
        vec![
            RecordCommand::Begin,
            RecordCommand::BeginRenderPass { framebuffer: 7, extent },
            RecordCommand::BindPipeline,
            RecordCommand::Draw { vertex_count: 3, instance_count: 1, first_vertex: 0, first_instance: 0 },
            RecordCommand::EndRenderPass,
            RecordCommand::End,
        ]
    );
}
