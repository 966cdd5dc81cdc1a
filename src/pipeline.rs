//! Shader bytecode, the fixed-function state of the single graphics
//! pipeline and its render pass, the framebuffers, and the commands that
//! each command buffer is recorded with once.
use vstd::prelude::*;

use vulkanalia::bytecode::{Bytecode, BytecodeError};

use crate::swapchain::Extent2D;

verus! {

#[verifier::external_type_specification]
#[verifier::external_body]
pub struct ExBytecode(Bytecode);

/// Why shader bytecode was refused.
#[derive(Debug, Copy, Clone, PartialEq, Eq, Structural)]
pub enum ShaderError {
    /// The blob is empty or its length, given here, is not a multiple of four bytes.
    InvalidLength(usize),
    /// No aligned buffer could be allocated for it.
    Alloc,
}

/// Relies on vulkanalia::bytecode::Bytecode::new, which refuses an empty
/// blob or one whose length is not a multiple of four with
/// `BytecodeError::Length(len)`, may fail to allocate with
/// `BytecodeError::Alloc`, and otherwise copies the blob into a 4-byte
/// aligned buffer.
#[verifier::external_body]
fn aligned_bytecode(bytes: &[u8]) -> (r: Result<Bytecode, ShaderError>)
    ensures
        (bytes@.len() == 0 || bytes@.len() % 4 != 0) <==> (r is Err && r->Err_0
            == ShaderError::InvalidLength(bytes@.len() as usize)),
        r is Err ==> r->Err_0 == ShaderError::InvalidLength(bytes@.len() as usize) || r->Err_0
            == ShaderError::Alloc,
{
    match Bytecode::new(bytes) {
        Ok(code) => Ok(code),
        Err(BytecodeError::Length(n)) => Err(ShaderError::InvalidLength(n)),
        Err(BytecodeError::Alloc) => Err(ShaderError::Alloc),
    }
}

/// A word-aligned copy of one shader stage's compiled bytecode.
pub struct ShaderCode {
    code: Bytecode,
    len: usize,
}

impl ShaderCode {
    /// Validates and copies a compiled blob. Only its length is checked here;
    /// any other malformation surfaces when the pipeline is created.
    pub fn new(bytes: &[u8]) -> (r: Result<ShaderCode, ShaderError>)
        ensures
            bytes@.len() == 0 || bytes@.len() % 4 != 0 ==> r is Err && r->Err_0
                == ShaderError::InvalidLength(bytes@.len() as usize),
            bytes@.len() > 0 && bytes@.len() % 4 == 0 ==> (r is Ok || (r is Err && r->Err_0
                == ShaderError::Alloc)),
            r is Ok ==> r->Ok_0.len() == bytes@.len(),
    {
        match aligned_bytecode(bytes) {
            Ok(code) => Ok(ShaderCode { code, len: bytes.len() }),
            Err(e) => Err(e),
        }
    }

    pub closed spec fn len(&self) -> nat {
        self.len as nat
    }

    /// Length of the bytecode in bytes.
    pub fn byte_len(&self) -> (r: usize)
        ensures
            r == self.len(),
    {
        self.len
    }

    /// The aligned buffer, to be handed to shader module creation.
    pub fn bytecode(&self) -> &Bytecode {
        &self.code
    }
}

/// Raw value of the triangle-list topology.
pub const TOPOLOGY_TRIANGLE_LIST: i32 = 3;

/// Raw value of the fill polygon mode.
pub const POLYGON_MODE_FILL: i32 = 0;

/// Raw flag of back-face culling.
pub const CULL_MODE_BACK: u32 = 2;

/// Raw value of the clockwise front face.
pub const FRONT_FACE_CLOCKWISE: i32 = 1;

/// Raw flag of one sample per pixel.
pub const SAMPLE_COUNT_1: u32 = 1;

/// Raw flags of all four color components.
pub const COLOR_COMPONENTS_ALL: u32 = 15;

/// Raw value of the clear load operation.
pub const LOAD_OP_CLEAR: i32 = 1;

/// Raw value of the store operation.
pub const STORE_OP_STORE: i32 = 0;

/// Raw value of the undefined image layout.
pub const LAYOUT_UNDEFINED: i32 = 0;

/// Raw value of the color-attachment image layout.
pub const LAYOUT_COLOR_ATTACHMENT_OPTIMAL: i32 = 2;

/// Raw value of the present-source image layout.
pub const LAYOUT_PRESENT_SRC: i32 = 1000001002;

/// The single color attachment of the render pass and its layouts.
#[derive(Debug, Copy, Clone, PartialEq, Eq, Structural)]
pub struct RenderPassState {
    pub format: i32,
    pub samples: u32,
    pub load_op: i32,
    pub store_op: i32,
    pub initial_layout: i32,
    pub subpass_layout: i32,
    pub final_layout: i32,
}

/// A render pass with one color attachment in the swapchain's format,
/// cleared on load, stored, and handed to presentation.
pub fn render_pass_state(format: i32) -> (r: RenderPassState)
    ensures
        r == (RenderPassState {
            format,
            samples: SAMPLE_COUNT_1,
            load_op: LOAD_OP_CLEAR,
            store_op: STORE_OP_STORE,
            initial_layout: LAYOUT_UNDEFINED,
            subpass_layout: LAYOUT_COLOR_ATTACHMENT_OPTIMAL,
            final_layout: LAYOUT_PRESENT_SRC,
        }),
{
    RenderPassState {
        format,
        samples: SAMPLE_COUNT_1,
        load_op: LOAD_OP_CLEAR,
        store_op: STORE_OP_STORE,
        initial_layout: LAYOUT_UNDEFINED,
        subpass_layout: LAYOUT_COLOR_ATTACHMENT_OPTIMAL,
        final_layout: LAYOUT_PRESENT_SRC,
    }
}

/// The fixed-function state of the graphics pipeline. The viewport spans
/// `viewport` from depth 0 to 1 and the line width is 1.
#[derive(Debug, Copy, Clone, PartialEq, Eq, Structural)]
pub struct PipelineState {
    pub topology: i32,
    pub primitive_restart: bool,
    pub viewport: Extent2D,
    pub scissor: Extent2D,
    pub polygon_mode: i32,
    pub cull_mode: u32,
    pub front_face: i32,
    pub samples: u32,
    pub blend_enable: bool,
    pub color_write_mask: u32,
}

/// Triangle lists without restart; one viewport and scissor covering the
/// swapchain extent; filled, back-face culled, clockwise front faces;
/// single-sampled; blending off, all components written.
pub fn pipeline_state(extent: Extent2D) -> (r: PipelineState)
    ensures
        r == (PipelineState {
            topology: TOPOLOGY_TRIANGLE_LIST,
            primitive_restart: false,
            viewport: extent,
            scissor: extent,
            polygon_mode: POLYGON_MODE_FILL,
            cull_mode: CULL_MODE_BACK,
            front_face: FRONT_FACE_CLOCKWISE,
            samples: SAMPLE_COUNT_1,
            blend_enable: false,
            color_write_mask: COLOR_COMPONENTS_ALL,
        }),
{
    PipelineState {
        topology: TOPOLOGY_TRIANGLE_LIST,
        primitive_restart: false,
        viewport: extent,
        scissor: extent,
        polygon_mode: POLYGON_MODE_FILL,
        cull_mode: CULL_MODE_BACK,
        front_face: FRONT_FACE_CLOCKWISE,
        samples: SAMPLE_COUNT_1,
        blend_enable: false,
        color_write_mask: COLOR_COMPONENTS_ALL,
    }
}

/// One framebuffer: an image view bound to the render pass.
#[derive(Debug, Copy, Clone, PartialEq, Eq, Structural)]
pub struct FramebufferSpec {
    pub attachment: u64,
    pub width: u32,
    pub height: u32,
    pub layers: u32,
}

/// One single-layer framebuffer per swapchain image view, sized to the extent.
pub fn framebuffer_specs(views: &Vec<u64>, extent: Extent2D) -> (r: Vec<FramebufferSpec>)
    ensures
        r@.len() == views@.len(),
        forall|i: int|
            0 <= i < views@.len() ==> #[trigger] r@[i] == (FramebufferSpec {
                attachment: views@[i],
                width: extent.width,
                height: extent.height,
                layers: 1,
            }),
{
    let mut r: Vec<FramebufferSpec> = Vec::new();
    let mut i: usize = 0;
    while i < views.len()
        invariant
            i <= views@.len(),
            r@.len() == i,
            forall|k: int|
                0 <= k < i ==> #[trigger] r@[k] == (FramebufferSpec {
                    attachment: views@[k],
                    width: extent.width,
                    height: extent.height,
                    layers: 1,
                }),
        decreases views@.len() - i,
    {
        r.push(FramebufferSpec { attachment: views[i], width: extent.width, height: extent.height, layers: 1 });
        i = i + 1;
    }
    r
}

/// A command recorded into a command buffer.
#[derive(Debug, Copy, Clone, PartialEq, Eq, Structural)]
pub enum RecordCommand {
    Begin,
    /// Clears to opaque black over the whole extent.
    BeginRenderPass { framebuffer: u64, extent: Extent2D },
    BindPipeline,
    Draw { vertex_count: u32, instance_count: u32, first_vertex: u32, first_instance: u32 },
    EndRenderPass,
    End,
}

pub open spec fn spec_command_script(framebuffer: u64, extent: Extent2D) -> Seq<RecordCommand> {
    seq![
        RecordCommand::Begin,
        RecordCommand::BeginRenderPass { framebuffer, extent },
        RecordCommand::BindPipeline,
        RecordCommand::Draw { vertex_count: 3, instance_count: 1, first_vertex: 0, first_instance: 0 },
        RecordCommand::EndRenderPass,
        RecordCommand::End,
    ]
}

/// What the command buffer of one swapchain image is recorded with: one
/// render pass drawing three shader-generated vertices, no buffers bound.
pub fn command_script(framebuffer: u64, extent: Extent2D) -> (r: Vec<RecordCommand>)
    ensures
        r@ == spec_command_script(framebuffer, extent),
{
    let r = vec![
        RecordCommand::Begin,
        RecordCommand::BeginRenderPass { framebuffer, extent },
        RecordCommand::BindPipeline,
        RecordCommand::Draw { vertex_count: 3, instance_count: 1, first_vertex: 0, first_instance: 0 },
        RecordCommand::EndRenderPass,
        RecordCommand::End,
    ];
    assert(r@ =~= spec_command_script(framebuffer, extent));
    r
}

} // verus!
