//! The commands recorded for a frame, and for the first layout transitions of
//! new images, with the image layouts they go through.
//!
//! The output image of a slot is `General` while the shader writes it,
//! `TransferSrc` only around the blit, and `General` again at the end; the
//! acquired swapchain image goes from `PresentSrc` to `TransferDst` for the
//! blit and back.
use vstd::prelude::*;

use crate::swapchain::Extent2D;

verus! {

#[derive(Debug, Clone, Copy, PartialEq, Eq, Structural)]
pub enum ImageLayout {
    Undefined,
    General,
    TransferSrc,
    TransferDst,
    PresentSrc,
}

#[derive(Debug, Clone, Copy, PartialEq, Eq, Structural)]
pub enum PipelineStage {
    TopOfPipe,
    Transfer,
    RayTracingShader,
}

#[derive(Debug, Clone, Copy, PartialEq, Eq, Structural)]
pub enum Access {
    NoAccess,
    TransferRead,
    TransferWrite,
    ShaderWrite,
}

/// An image the frame commands touch.
#[derive(Debug, Clone, Copy, PartialEq, Eq, Structural)]
pub enum ImageRef {
    /// The swapchain image with this index.
    Swapchain(u32),
    /// The output image of this frame slot.
    Output(u8),
}

/// A layout transition of one image, with the work it waits for and holds back.
#[derive(Debug, Clone, Copy, PartialEq, Eq, Structural)]
pub struct ImageBarrier {
    pub image: ImageRef,
    pub old_layout: ImageLayout,
    pub new_layout: ImageLayout,
    pub src_stage: PipelineStage,
    pub dst_stage: PipelineStage,
    pub src_access: Access,
    pub dst_access: Access,
}

#[derive(Debug, Clone, Copy, PartialEq, Eq, Structural)]
pub enum Command {
    Barrier(ImageBarrier),
    BindPipeline,
    /// Binds the descriptor set of this frame slot.
    BindDescriptorSet(u8),
    TraceRays { width: u32, height: u32 },
    /// Copies the whole extent of `src` into `dst`, nearest filtering.
    Blit { src: ImageRef, dst: ImageRef, width: u32, height: u32 },
}

/// Layouts of the slot's output image and of the acquired swapchain image.
pub struct FrameLayouts {
    pub output: ImageLayout,
    pub swapchain: ImageLayout,
}

pub open spec fn barrier(
    image: ImageRef,
    old_layout: ImageLayout,
    new_layout: ImageLayout,
    src_stage: PipelineStage,
    dst_stage: PipelineStage,
    src_access: Access,
    dst_access: Access,
) -> Command {
    Command::Barrier(
        ImageBarrier { image, old_layout, new_layout, src_stage, dst_stage, src_access, dst_access },
    )
}

/// The commands of one frame in slot `slot` that presents swapchain image `image_index`.
pub open spec fn frame_command_seq(slot: u8, image_index: u32, extent: Extent2D) -> Seq<Command> {
    let output = ImageRef::Output(slot);
    let target = ImageRef::Swapchain(image_index);
    seq![
        barrier(
            target,
            ImageLayout::PresentSrc,
            ImageLayout::TransferDst,
            PipelineStage::TopOfPipe,
            PipelineStage::Transfer,
            Access::NoAccess,
            Access::TransferWrite,
        ),
        Command::BindPipeline,
        Command::BindDescriptorSet(slot),
        Command::TraceRays { width: extent.width, height: extent.height },
        barrier(
            output,
            ImageLayout::General,
            ImageLayout::TransferSrc,
            PipelineStage::RayTracingShader,
            PipelineStage::Transfer,
            Access::ShaderWrite,
            Access::TransferRead,
        ),
        Command::Blit { src: output, dst: target, width: extent.width, height: extent.height },
        barrier(
            target,
            ImageLayout::TransferDst,
            ImageLayout::PresentSrc,
            PipelineStage::Transfer,
            PipelineStage::RayTracingShader,
            Access::TransferWrite,
            Access::NoAccess,
        ),
        barrier(
            output,
            ImageLayout::TransferSrc,
            ImageLayout::General,
            PipelineStage::Transfer,
            PipelineStage::RayTracingShader,
            Access::TransferRead,
            Access::ShaderWrite,
        ),
    ]
}

/// The layouts after `c`, or `None` when `c` finds an image in the wrong layout:
/// a barrier must start from the image's layout, the trace writes a `General`
/// output image, the blit reads a `TransferSrc` image into a `TransferDst` one.
pub open spec fn apply_command(l: FrameLayouts, c: Command, output: ImageRef, target: ImageRef) -> Option<
    FrameLayouts,
> {
    match c {
        Command::Barrier(b) => if b.image == output && b.old_layout == l.output {
            Some(FrameLayouts { output: b.new_layout, ..l })
        } else if b.image == target && b.old_layout == l.swapchain {
            Some(FrameLayouts { swapchain: b.new_layout, ..l })
        } else {
            None
        },
        Command::TraceRays { .. } => if l.output == ImageLayout::General {
            Some(l)
        } else {
            None
        },
        Command::Blit { src, dst, .. } => if src == output && dst == target && l.output
            == ImageLayout::TransferSrc && l.swapchain == ImageLayout::TransferDst {
            Some(l)
        } else {
            None
        },
        _ => Some(l),
    }
}

/// Runs the commands from layouts `l`; `None` when one of them is out of place.
pub open spec fn run_commands(l: FrameLayouts, cs: Seq<Command>, output: ImageRef, target: ImageRef) -> Option<
    FrameLayouts,
>
    decreases cs.len(),
{
    if cs.len() == 0 {
        Some(l)
    } else {
        match apply_command(l, cs[0], output, target) {
            Some(next) => run_commands(next, cs.drop_first(), output, target),
            None => None,
        }
    }
}

/// The steady state between frames: the output image ready for the shader,
/// the swapchain image ready to be presented.
pub open spec fn steady() -> FrameLayouts {
    FrameLayouts { output: ImageLayout::General, swapchain: ImageLayout::PresentSrc }
}

/// Every command of a frame finds its images in the layout it needs, and the
/// frame leaves both images in the steady state it found them in.
pub proof fn lemma_frame_commands_keep_layouts(slot: u8, image_index: u32, extent: Extent2D)
    ensures
        run_commands(
            steady(),
            frame_command_seq(slot, image_index, extent),
            ImageRef::Output(slot),
            ImageRef::Swapchain(image_index),
        ) == Some(steady()),
{
    let cs = frame_command_seq(slot, image_index, extent);
    let o = ImageRef::Output(slot);
    let t = ImageRef::Swapchain(image_index);
    let l1 = FrameLayouts { output: ImageLayout::General, swapchain: ImageLayout::TransferDst };
    let l2 = FrameLayouts { output: ImageLayout::TransferSrc, swapchain: ImageLayout::TransferDst };
    let l3 = FrameLayouts { output: ImageLayout::TransferSrc, swapchain: ImageLayout::PresentSrc };
    assert(run_commands(steady(), cs.subrange(8, 8), o, t) == Some(steady()));
    assert(cs.subrange(7, 8).drop_first() =~= cs.subrange(8, 8));
    assert(run_commands(l3, cs.subrange(7, 8), o, t) == Some(steady()));
    assert(cs.subrange(6, 8).drop_first() =~= cs.subrange(7, 8));
    assert(run_commands(l2, cs.subrange(6, 8), o, t) == Some(steady()));
    assert(cs.subrange(5, 8).drop_first() =~= cs.subrange(6, 8));
    assert(run_commands(l2, cs.subrange(5, 8), o, t) == Some(steady()));
    assert(cs.subrange(4, 8).drop_first() =~= cs.subrange(5, 8));
    assert(run_commands(l1, cs.subrange(4, 8), o, t) == Some(steady()));
    assert(cs.subrange(3, 8).drop_first() =~= cs.subrange(4, 8));
    assert(run_commands(l1, cs.subrange(3, 8), o, t) == Some(steady()));
    assert(cs.subrange(2, 8).drop_first() =~= cs.subrange(3, 8));
    assert(run_commands(l1, cs.subrange(2, 8), o, t) == Some(steady()));
    assert(cs.subrange(1, 8).drop_first() =~= cs.subrange(2, 8));
    assert(run_commands(l1, cs.subrange(1, 8), o, t) == Some(steady()));
    assert(cs.subrange(0, 8).drop_first() =~= cs.subrange(1, 8));
    assert(cs.subrange(0, 8) =~= cs);
}

fn make_barrier(
    image: ImageRef,
    old_layout: ImageLayout,
    new_layout: ImageLayout,
    src_stage: PipelineStage,
    dst_stage: PipelineStage,
    src_access: Access,
    dst_access: Access,
) -> (r: Command)
    ensures
        r == barrier(image, old_layout, new_layout, src_stage, dst_stage, src_access, dst_access),
{
    Command::Barrier(
        ImageBarrier { image, old_layout, new_layout, src_stage, dst_stage, src_access, dst_access },
    )
}

/// The commands to record for a frame in slot `slot` that renders into
/// swapchain image `image_index` of the given extent: trace into the slot's
/// output image, blit it into the swapchain image, restore both layouts.
pub fn frame_commands(slot: u8, image_index: u32, extent: Extent2D) -> (r: Vec<Command>)
    ensures
        r@ == frame_command_seq(slot, image_index, extent),
        run_commands(steady(), r@, ImageRef::Output(slot), ImageRef::Swapchain(image_index))
            == Some(steady()),
{
    let output = ImageRef::Output(slot);
    let target = ImageRef::Swapchain(image_index);
    let r = vec![
        make_barrier(
            target,
            ImageLayout::PresentSrc,
            ImageLayout::TransferDst,
            PipelineStage::TopOfPipe,
            PipelineStage::Transfer,
            Access::NoAccess,
            Access::TransferWrite,
        ),
        Command::BindPipeline,
        Command::BindDescriptorSet(slot),
        Command::TraceRays { width: extent.width, height: extent.height },
        make_barrier(
            output,
            ImageLayout::General,
            ImageLayout::TransferSrc,
            PipelineStage::RayTracingShader,
            PipelineStage::Transfer,
            Access::ShaderWrite,
            Access::TransferRead,
        ),
        Command::Blit { src: output, dst: target, width: extent.width, height: extent.height },
        make_barrier(
            target,
            ImageLayout::TransferDst,
            ImageLayout::PresentSrc,
            PipelineStage::Transfer,
            PipelineStage::RayTracingShader,
            Access::TransferWrite,
            Access::NoAccess,
        ),
        make_barrier(
            output,
            ImageLayout::TransferSrc,
            ImageLayout::General,
            PipelineStage::Transfer,
            PipelineStage::RayTracingShader,
            Access::TransferRead,
            Access::ShaderWrite,
        ),
    ];
    proof {
        assert(r@ =~= frame_command_seq(slot, image_index, extent));
        lemma_frame_commands_keep_layouts(slot, image_index, extent);
    }
    r
}

/// The one-time transition that makes a new output image writable by the shader.
pub fn output_image_init(slot: u8) -> (r: Command)
    ensures
        r == barrier(
            ImageRef::Output(slot),
            ImageLayout::Undefined,
            ImageLayout::General,
            PipelineStage::TopOfPipe,
            PipelineStage::RayTracingShader,
            Access::NoAccess,
            Access::ShaderWrite,
        ),
{
    make_barrier(
        ImageRef::Output(slot),
        ImageLayout::Undefined,
        ImageLayout::General,
        PipelineStage::TopOfPipe,
        PipelineStage::RayTracingShader,
        Access::NoAccess,
        Access::ShaderWrite,
    )
}

/// The one-time transitions that put every image of a new swapchain in the
/// layout the first frame's barrier starts from.
pub fn swapchain_images_init(image_count: u32) -> (r: Vec<Command>)
    ensures
        r.len() == image_count,
        forall|i: int|
            0 <= i < image_count ==> #[trigger] r@[i] == barrier(
                ImageRef::Swapchain(i as u32),
                ImageLayout::Undefined,
                ImageLayout::PresentSrc,
                PipelineStage::TopOfPipe,
                PipelineStage::RayTracingShader,
                Access::NoAccess,
                Access::ShaderWrite,
            ),
{
    let mut r: Vec<Command> = Vec::new();
    let mut i: u32 = 0;
    while i < image_count
        invariant
            i <= image_count,
            r.len() == i,
            forall|j: int|
                0 <= j < i ==> #[trigger] r@[j] == barrier(
                    ImageRef::Swapchain(j as u32),
                    ImageLayout::Undefined,
                    ImageLayout::PresentSrc,
                    PipelineStage::TopOfPipe,
                    PipelineStage::RayTracingShader,
                    Access::NoAccess,
                    Access::ShaderWrite,
                ),
        decreases image_count - i,
    {
        r.push(
            make_barrier(
                ImageRef::Swapchain(i),
                ImageLayout::Undefined,
                ImageLayout::PresentSrc,
                PipelineStage::TopOfPipe,
                PipelineStage::RayTracingShader,
                Access::NoAccess,
                Access::ShaderWrite,
            ),
        );
        i = i + 1;
    }
    r
}

} // verus!
