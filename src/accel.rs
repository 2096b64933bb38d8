//! Bottom- and top-level acceleration structures and the descriptor sets that
//! bind the top-level one for each frame slot.
//!
//! A top-level structure can only be described from a `Blas`, and a `Blas`
//! only comes out of `PendingBlas::complete` once the build fence has signaled.
use vstd::prelude::*;

use crate::frame::{max_frames, MAX_FRAMES_IN_FLIGHT};
use crate::mesh::Indices;
use crate::IntoBytes;

verus! {

#[derive(Debug, Clone, Copy, PartialEq, Eq, Structural)]
pub enum StructureLevel {
    BottomLevel,
    TopLevel,
}

#[derive(Debug, Clone, Copy, PartialEq, Eq, Structural)]
pub enum BuildError {
    /// The device reported a zero structure or scratch size.
    ZeroBuildSize(StructureLevel),
    /// No vertex, or fewer indices than one triangle.
    EmptyGeometry,
    /// The vertex or triangle count does not fit the device's 32-bit fields.
    GeometryTooLarge,
}

/// Buffer sizes the device asks for to build a structure.
#[derive(Debug, Clone, Copy, PartialEq, Eq, Structural)]
pub struct BuildSizes {
    pub structure_size: u64,
    pub scratch_size: u64,
}

/// Accepts the sizes reported by the device, which must both be non-zero.
pub fn check_build_sizes(level: StructureLevel, structure_size: u64, scratch_size: u64) -> (r:
    Result<BuildSizes, BuildError>)
    ensures
        r is Ok <==> structure_size > 0 && scratch_size > 0,
        r is Ok ==> r->Ok_0 == (BuildSizes { structure_size, scratch_size }),
        r is Err ==> r->Err_0 == BuildError::ZeroBuildSize(level),
{
    if structure_size == 0 || scratch_size == 0 {
        Err(BuildError::ZeroBuildSize(level))
    } else {
        Ok(BuildSizes { structure_size, scratch_size })
    }
}

#[derive(Debug, Clone, Copy, PartialEq, Eq, Structural)]
pub enum IndexType {
    Uint16,
    Uint32,
}

/// The triangle input of a bottom-level build.
#[derive(Debug, Clone, Copy, PartialEq, Eq, Structural)]
pub struct TriangleGeometry {
    pub vertex_stride: u64,
    /// Highest vertex index the indices may use.
    pub max_vertex: u32,
    pub index_type: IndexType,
    /// Whole triangles in the index data.
    pub primitive_count: u32,
}

pub open spec fn index_type_of(indices: Indices) -> IndexType {
    match indices {
        Indices::U16(_) => IndexType::Uint16,
        Indices::U32(_) => IndexType::Uint32,
    }
}

/// Describes indexed triangles over `vertex_count` vertices for a bottom-level build.
pub fn triangle_geometry(vertex_count: usize, vertex_stride: u64, indices: &Indices) -> (r: Result<
    TriangleGeometry,
    BuildError,
>)
    ensures
        (vertex_count == 0 || indices.spec_len() < 3) ==> r == Err::<TriangleGeometry, BuildError>(
            BuildError::EmptyGeometry,
        ),
        (vertex_count > 0 && indices.spec_len() >= 3) ==> (r is Ok <==> (vertex_count - 1
            <= u32::MAX && indices.spec_len() / 3 <= u32::MAX)),
        (vertex_count > 0 && indices.spec_len() >= 3 && r is Err) ==> r->Err_0
            == BuildError::GeometryTooLarge,
        r is Ok ==> r->Ok_0 == (TriangleGeometry {
            vertex_stride,
            max_vertex: (vertex_count - 1) as u32,
            index_type: index_type_of(*indices),
            primitive_count: (indices.spec_len() / 3) as u32,
        }),
{
    let index_count = indices.len();
    if vertex_count == 0 || index_count < 3 {
        return Err(BuildError::EmptyGeometry);
    }
    let max_vertex = vertex_count - 1;
    let triangles = index_count / 3;
    if max_vertex > u32::MAX as usize || triangles > u32::MAX as usize {
        return Err(BuildError::GeometryTooLarge);
    }
    let index_type = match indices {
        Indices::U16(_) => IndexType::Uint16,
        Indices::U32(_) => IndexType::Uint32,
    };
    Ok(TriangleGeometry {
        vertex_stride,
        max_vertex: max_vertex as u32,
        index_type,
        primitive_count: triangles as u32,
    })
}

/// A bottom-level structure whose build was submitted and not yet seen complete.
#[derive(Debug)]
pub struct PendingBlas {
    handle: u64,
    device_address: u64,
}

/// A bottom-level structure whose build fence has signaled.
#[derive(Debug)]
pub struct Blas {
    handle: u64,
    device_address: u64,
    build_completed: bool,
}

impl PendingBlas {
    pub closed spec fn spec_handle(&self) -> u64 {
        self.handle
    }

    pub closed spec fn spec_device_address(&self) -> u64 {
        self.device_address
    }

    /// Records a build submitted on the device for the structure `handle`.
    pub fn submitted(handle: u64, device_address: u64) -> (r: Self)
        ensures
            r.spec_handle() == handle,
            r.spec_device_address() == device_address,
    {
        PendingBlas { handle, device_address }
    }

    pub fn handle(&self) -> (r: u64)
        ensures
            r == self.spec_handle(),
    {
        self.handle
    }

    /// Turns the pending build into a usable structure once its fence has
    /// signaled; hands it back unchanged otherwise.
    pub fn complete(self, fence_signaled: bool) -> (r: Result<Blas, PendingBlas>)
        ensures
            r is Ok <==> fence_signaled,
            r is Ok ==> r->Ok_0.spec_handle() == self.spec_handle() && r->Ok_0.spec_device_address()
                == self.spec_device_address() && r->Ok_0.build_completed(),
            r is Err ==> r->Err_0 == self,
    {
        if fence_signaled {
            Ok(Blas { handle: self.handle, device_address: self.device_address, build_completed: true })
        } else {
            Err(self)
        }
    }
}

impl Blas {
    #[verifier::type_invariant]
    spec fn inv(self) -> bool {
        self.build_completed
    }

    /// The build fence of this structure was seen signaled.
    pub closed spec fn build_completed(&self) -> bool {
        self.build_completed
    }

    pub closed spec fn spec_handle(&self) -> u64 {
        self.handle
    }

    pub closed spec fn spec_device_address(&self) -> u64 {
        self.device_address
    }

    pub fn handle(&self) -> (r: u64)
        ensures
            r == self.spec_handle(),
    {
        self.handle
    }

    pub fn device_address(&self) -> (r: u64)
        ensures
            r == self.spec_device_address(),
    {
        self.device_address
    }
}

/// Bit of the instance flags that disables back-face culling.
pub const TRIANGLE_FACING_CULL_DISABLE: u8 = 1;

/// Bits of the IEEE-754 single-precision value 1.0.
pub const ONE_F32_BITS: u32 = 0x3f80_0000;

/// A 24-bit and an 8-bit field in one 32-bit word, the 8-bit one on top.
pub open spec fn packed_24_8(low_24: u32, high_8: u8) -> u32 {
    (low_24 & 0x00ff_ffff) | ((high_8 as u32) << 24u32)
}

pub fn pack_24_8(low_24: u32, high_8: u8) -> (r: u32)
    ensures
        r == packed_24_8(low_24, high_8),
{
    (low_24 & 0x00ff_ffff) | ((high_8 as u32) << 24u32)
}

pub open spec fn le_u32(x: u32) -> Seq<u8> {
    seq![
        (x & 0xff) as u8,
        ((x >> 8u32) & 0xff) as u8,
        ((x >> 16u32) & 0xff) as u8,
        ((x >> 24u32) & 0xff) as u8,
    ]
}

pub open spec fn le_u64(x: u64) -> Seq<u8> {
    le_u32((x & 0xffff_ffff) as u32) + le_u32((x >> 32u64) as u32)
}

/// Little-endian bytes of each word in turn.
pub open spec fn le_words(words: Seq<u32>) -> Seq<u8>
    decreases words.len(),
{
    if words.len() == 0 {
        Seq::empty()
    } else {
        le_words(words.drop_last()) + le_u32(words.last())
    }
}

/// Rows of the instance transform: identity rotation and scale, no translation.
pub open spec fn identity_transform() -> Seq<u32> {
    seq![
        ONE_F32_BITS, 0, 0, 0,
        0, ONE_F32_BITS, 0, 0,
        0, 0, ONE_F32_BITS, 0,
    ]
}

fn push_le_u32(out: &mut Vec<u8>, x: u32)
    ensures
        final(out)@ == old(out)@ + le_u32(x),
{
    out.push((x & 0xff) as u8);
    out.push(((x >> 8u32) & 0xff) as u8);
    out.push(((x >> 16u32) & 0xff) as u8);
    out.push(((x >> 24u32) & 0xff) as u8);
    assert(out@ =~= old(out)@ + le_u32(x));
}

/// The single instance of the top-level structure: the bottom-level one, untransformed.
#[derive(Debug, Clone, Copy, PartialEq, Eq, Structural)]
pub struct TlasInstance {
    blas_address: u64,
    custom_index_and_mask: u32,
    sbt_offset_and_flags: u32,
}

impl TlasInstance {
    pub closed spec fn spec_blas_address(&self) -> u64 {
        self.blas_address
    }

    pub closed spec fn spec_custom_index_and_mask(&self) -> u32 {
        self.custom_index_and_mask
    }

    pub closed spec fn spec_sbt_offset_and_flags(&self) -> u32 {
        self.sbt_offset_and_flags
    }

    /// The instance record as the device reads it: transform rows, the two
    /// packed words, then the bottom-level structure's device address.
    pub open spec fn record(&self) -> Seq<u8> {
        le_words(identity_transform()) + le_u32(self.spec_custom_index_and_mask()) + le_u32(
            self.spec_sbt_offset_and_flags(),
        ) + le_u64(self.spec_blas_address())
    }

    pub fn blas_address(&self) -> (r: u64)
        ensures
            r == self.spec_blas_address(),
    {
        self.blas_address
    }

    pub fn custom_index_and_mask(&self) -> (r: u32)
        ensures
            r == self.spec_custom_index_and_mask(),
    {
        self.custom_index_and_mask
    }

    pub fn sbt_offset_and_flags(&self) -> (r: u32)
        ensures
            r == self.spec_sbt_offset_and_flags(),
    {
        self.sbt_offset_and_flags
    }
}

/// Describes the top-level instance referencing `blas`: custom index 0, mask
/// 0xff, shader-binding-table offset 0, back-face culling disabled.
pub fn tlas_instance(blas: &Blas) -> (r: TlasInstance)
    ensures
        blas.build_completed(),
        r.spec_blas_address() == blas.spec_device_address(),
        r.spec_custom_index_and_mask() == packed_24_8(0, 0xff),
        r.spec_sbt_offset_and_flags() == packed_24_8(0, TRIANGLE_FACING_CULL_DISABLE),
{
    proof {
        use_type_invariant(blas);
    }
    TlasInstance {
        blas_address: blas.device_address,
        custom_index_and_mask: pack_24_8(0, 0xff),
        sbt_offset_and_flags: pack_24_8(0, TRIANGLE_FACING_CULL_DISABLE),
    }
}

impl IntoBytes for TlasInstance {
    fn to_bytes(&self) -> (r: Vec<u8>)
        ensures
            r@ == self.record(),
            r@.len() == 64,
    {
        let words: [u32; 12] = [
            ONE_F32_BITS, 0, 0, 0,
            0, ONE_F32_BITS, 0, 0,
            0, 0, ONE_F32_BITS, 0,
        ];
        let mut out: Vec<u8> = Vec::new();
        let mut i: usize = 0;
        while i < 12
            invariant
                i <= 12,
                words@ == identity_transform(),
                out@ == le_words(identity_transform().take(i as int)),
                out@.len() == 4 * i,
            decreases 12 - i,
        {
            proof {
                assert(identity_transform().take(i + 1).drop_last() =~= identity_transform().take(
                    i as int,
                ));
            }
            push_le_u32(&mut out, words[i]);
            i = i + 1;
        }
        proof {
            assert(identity_transform().take(12) =~= identity_transform());
        }
        push_le_u32(&mut out, self.custom_index_and_mask);
        push_le_u32(&mut out, self.sbt_offset_and_flags);
        push_le_u32(&mut out, (self.blas_address & 0xffff_ffff) as u32);
        push_le_u32(&mut out, (self.blas_address >> 32u64) as u32);
        assert(out@ =~= self.record());
        out
    }
}

/// What the descriptor set of one frame slot points at.
#[derive(Debug, Clone, Copy, PartialEq, Eq, Structural)]
pub struct FrameBinding {
    pub acceleration_structure: u64,
    pub output_view: u64,
    pub uniform_buffer: u64,
}

/// Slot `f` binds the top-level structure, output view `f` and uniform buffer `f`.
pub open spec fn bindings_for(tlas: u64, uniform_buffers: Seq<u64>, output_views: Seq<u64>) -> Seq<
    FrameBinding,
> {
    Seq::new(
        output_views.len(),
        |f: int|
            FrameBinding {
                acceleration_structure: tlas,
                output_view: output_views[f],
                uniform_buffer: uniform_buffers[f],
            },
    )
}

/// The per-slot descriptor sets of the ray-tracing pipeline.
#[derive(Debug)]
pub struct DescriptorSets {
    tlas: u64,
    bindings: Vec<FrameBinding>,
}

impl DescriptorSets {
    pub closed spec fn spec_tlas(&self) -> u64 {
        self.tlas
    }

    pub closed spec fn bindings(&self) -> Seq<FrameBinding> {
        self.bindings@
    }

    fn write_bindings(tlas: u64, uniform_buffers: &Vec<u64>, output_views: &Vec<u64>) -> (r: Vec<
        FrameBinding,
    >)
        requires
            uniform_buffers.len() == max_frames(),
            output_views.len() == max_frames(),
        ensures
            r@ == bindings_for(tlas, uniform_buffers@, output_views@),
    {
        let mut r: Vec<FrameBinding> = Vec::new();
        let mut f: usize = 0;
        while f < MAX_FRAMES_IN_FLIGHT as usize
            invariant
                f <= max_frames(),
                uniform_buffers.len() == max_frames(),
                output_views.len() == max_frames(),
                r@ == bindings_for(tlas, uniform_buffers@, output_views@).take(f as int),
            decreases max_frames() - f,
        {
            r.push(
                FrameBinding {
                    acceleration_structure: tlas,
                    output_view: output_views[f],
                    uniform_buffer: uniform_buffers[f],
                },
            );
            f = f + 1;
            assert(r@ =~= bindings_for(tlas, uniform_buffers@, output_views@).take(f as int));
        }
        assert(r@ =~= bindings_for(tlas, uniform_buffers@, output_views@));
        r
    }

    /// Descriptor sets for the top-level structure `tlas`, bound to each slot's
    /// uniform buffer and output view.
    pub fn new(tlas: u64, uniform_buffers: &Vec<u64>, output_views: &Vec<u64>) -> (r: Self)
        requires
            uniform_buffers.len() == max_frames(),
            output_views.len() == max_frames(),
        ensures
            r.spec_tlas() == tlas,
            r.bindings() == bindings_for(tlas, uniform_buffers@, output_views@),
    {
        DescriptorSets { tlas, bindings: Self::write_bindings(tlas, uniform_buffers, output_views) }
    }

    /// Points every slot's descriptor set at the given uniform buffers and
    /// output views; calling it again with the same arguments changes nothing.
    pub fn bind(&mut self, uniform_buffers: &Vec<u64>, output_views: &Vec<u64>)
        requires
            uniform_buffers.len() == max_frames(),
            output_views.len() == max_frames(),
        ensures
            final(self).spec_tlas() == old(self).spec_tlas(),
            final(self).bindings() == bindings_for(
                old(self).spec_tlas(),
                uniform_buffers@,
                output_views@,
            ),
    {
        self.bindings = Self::write_bindings(self.tlas, uniform_buffers, output_views);
    }

    pub fn tlas(&self) -> (r: u64)
        ensures
            r == self.spec_tlas(),
    {
        self.tlas
    }

    /// The binding of frame slot `slot`.
    pub fn binding(&self, slot: usize) -> (r: FrameBinding)
        requires
            slot < self.bindings().len(),
        ensures
            r == self.bindings()[slot as int],
    {
        self.bindings[slot]
    }

    pub fn len(&self) -> (r: usize)
        ensures
            r == self.bindings().len(),
    {
        self.bindings.len()
    }
}

/// Where the construction of the two structures stands.
#[derive(Debug, Clone, Copy, PartialEq, Eq, Structural)]
pub enum BuildPhase {
    Unbuilt,
    SizingBlas,
    BuildingBlas,
    AwaitingBlasFence,
    SizingTlas,
    BuildingTlas,
    AwaitingTlasFence,
    BindingDescriptors,
    Ready,
    Failed,
}

/// The outcome of the step the builder asked for last.
#[derive(Debug, Clone, Copy, PartialEq, Eq, Structural)]
pub enum BuildEvent {
    Start,
    /// The device's structure and scratch sizes for the bottom-level build.
    BlasSizes { structure_size: u64, scratch_size: u64 },
    /// The bottom-level build was recorded and submitted with the build fence.
    BlasSubmitted { handle: u64, device_address: u64 },
    /// The build fence signaled.
    FenceSignaled,
    /// The device's sizes for the top-level build.
    TlasSizes { structure_size: u64, scratch_size: u64 },
    /// The top-level build was recorded and submitted with the build fence.
    TlasSubmitted { handle: u64 },
    /// The per-slot descriptor sets were allocated and written.
    DescriptorsWritten,
}

/// The next thing the caller must do.
#[derive(Debug, Clone, Copy, PartialEq, Eq, Structural)]
pub enum BuildAction {
    /// Query the bottom-level build sizes for the mesh's triangles.
    QueryBlasSizes,
    /// Allocate the structure and scratch buffers, record and submit the build.
    BuildBlas(BuildSizes),
    /// Wait on the build fence.
    WaitForFence,
    /// Upload this instance and query the top-level build sizes for it.
    QueryTlasSizes(TlasInstance),
    BuildTlas(BuildSizes),
    /// Allocate and write the descriptor sets that bind this top-level structure.
    WriteDescriptorSets { tlas: u64 },
    /// Both structures are built; scratch and staging buffers may be freed.
    Done,
    Fail(BuildError),
    /// The event does not answer the step that was asked for; nothing changed.
    OutOfOrder,
}

/// Sequences the builds: the top-level structure is only described once the
/// bottom-level build's fence has signaled.
#[derive(Debug)]
pub struct AccelerationStructureBuilder {
    phase: BuildPhase,
    pending: Option<PendingBlas>,
    blas: Option<Blas>,
    tlas: u64,
}

impl AccelerationStructureBuilder {
    pub closed spec fn spec_phase(&self) -> BuildPhase {
        self.phase
    }

    /// The bottom-level structure, once its build fence has signaled.
    pub closed spec fn spec_blas(&self) -> Option<Blas> {
        self.blas
    }

    pub closed spec fn spec_tlas(&self) -> u64 {
        self.tlas
    }

    /// A bottom-level structure is held and its build fence was seen signaled.
    pub open spec fn blas_ready(&self) -> bool {
        self.spec_blas() is Some && self.spec_blas()->0.build_completed()
    }

    pub open spec fn blas_address(&self) -> u64 {
        self.spec_blas()->0.spec_device_address()
    }

    /// The bottom-level build waiting for its fence, if any.
    pub closed spec fn spec_pending(&self) -> Option<PendingBlas> {
        self.pending
    }

    pub closed spec fn wf(&self) -> bool {
        &&& (self.phase == BuildPhase::AwaitingBlasFence) == (self.pending is Some)
        &&& self.blas is Some ==> self.blas->0.build_completed()
        &&& match self.phase {
            BuildPhase::SizingTlas | BuildPhase::BuildingTlas | BuildPhase::AwaitingTlasFence
            | BuildPhase::BindingDescriptors | BuildPhase::Ready => self.blas is Some,
            _ => true,
        }
    }

    pub fn new() -> (r: Self)
        ensures
            r.wf(),
            r.spec_phase() == BuildPhase::Unbuilt,
            r.spec_blas() is None,
    {
        AccelerationStructureBuilder { phase: BuildPhase::Unbuilt, pending: None, blas: None, tlas: 0 }
    }

    /// The contract of `step`: `after` and `action` follow from `before` and `event`.
    pub open spec fn step_post(
        before: AccelerationStructureBuilder,
        event: BuildEvent,
        after: AccelerationStructureBuilder,
        action: BuildAction,
    ) -> bool {
        &&& action is QueryTlasSizes ==> after.blas_ready()
                && action->QueryTlasSizes_0.spec_blas_address() == after.blas_address()
                && action->QueryTlasSizes_0.spec_custom_index_and_mask() == packed_24_8(0, 0xff)
                && action->QueryTlasSizes_0.spec_sbt_offset_and_flags() == packed_24_8(
                0,
                TRIANGLE_FACING_CULL_DISABLE,
            )
        &&& action is BuildTlas ==> after.blas_ready()
        &&& action is OutOfOrder ==> after.spec_phase() == before.spec_phase()
        &&& match (before.spec_phase(), event) {
                (BuildPhase::Unbuilt, BuildEvent::Start) => action == BuildAction::QueryBlasSizes
                    && after.spec_phase() == BuildPhase::SizingBlas,
                (BuildPhase::SizingBlas, BuildEvent::BlasSizes { structure_size, scratch_size }) =>
                    if structure_size > 0 && scratch_size > 0 {
                    action == BuildAction::BuildBlas(BuildSizes { structure_size, scratch_size })
                        && after.spec_phase() == BuildPhase::BuildingBlas
                } else {
                    action == BuildAction::Fail(BuildError::ZeroBuildSize(StructureLevel::BottomLevel))
                        && after.spec_phase() == BuildPhase::Failed
                },
                (BuildPhase::BuildingBlas, BuildEvent::BlasSubmitted { handle, device_address }) =>
                    action == BuildAction::WaitForFence && after.spec_phase()
                    == BuildPhase::AwaitingBlasFence && after.spec_pending() is Some
                    && after.spec_pending()->0.spec_handle() == handle
                    && after.spec_pending()->0.spec_device_address() == device_address,
                (BuildPhase::AwaitingBlasFence, BuildEvent::FenceSignaled) => action is QueryTlasSizes
                    && after.spec_phase() == BuildPhase::SizingTlas && before.spec_pending() is Some
                    && after.spec_blas()->0.spec_handle() == before.spec_pending()->0.spec_handle()
                    && after.blas_address() == before.spec_pending()->0.spec_device_address(),
                (BuildPhase::SizingTlas, BuildEvent::TlasSizes { structure_size, scratch_size }) =>
                    if structure_size > 0 && scratch_size > 0 {
                    action == BuildAction::BuildTlas(BuildSizes { structure_size, scratch_size })
                        && after.spec_phase() == BuildPhase::BuildingTlas
                } else {
                    action == BuildAction::Fail(BuildError::ZeroBuildSize(StructureLevel::TopLevel))
                        && after.spec_phase() == BuildPhase::Failed
                },
                (BuildPhase::BuildingTlas, BuildEvent::TlasSubmitted { handle }) => action
                    == BuildAction::WaitForFence && after.spec_phase()
                    == BuildPhase::AwaitingTlasFence && after.spec_tlas() == handle,
                (BuildPhase::AwaitingTlasFence, BuildEvent::FenceSignaled) => action
                    == (BuildAction::WriteDescriptorSets { tlas: before.spec_tlas() })
                    && after.spec_phase() == BuildPhase::BindingDescriptors,
                (BuildPhase::BindingDescriptors, BuildEvent::DescriptorsWritten) => action
                    == BuildAction::Done && after.spec_phase() == BuildPhase::Ready,
                _ => action == BuildAction::OutOfOrder,
            }
    }

    /// Takes the outcome of the last step and returns the next step.
    pub fn step(&mut self, event: BuildEvent) -> (action: BuildAction)
        requires
            old(self).wf(),
        ensures
            final(self).wf(),
            Self::step_post(*old(self), event, *final(self), action),
    {
        match (self.phase, event) {
            (BuildPhase::Unbuilt, BuildEvent::Start) => {
                self.phase = BuildPhase::SizingBlas;
                BuildAction::QueryBlasSizes
            },
            (BuildPhase::SizingBlas, BuildEvent::BlasSizes { structure_size, scratch_size }) => {
                match check_build_sizes(StructureLevel::BottomLevel, structure_size, scratch_size) {
                    Ok(sizes) => {
                        self.phase = BuildPhase::BuildingBlas;
                        BuildAction::BuildBlas(sizes)
                    },
                    Err(e) => {
                        self.phase = BuildPhase::Failed;
                        BuildAction::Fail(e)
                    },
                }
            },
            (BuildPhase::BuildingBlas, BuildEvent::BlasSubmitted { handle, device_address }) => {
                self.pending = Some(PendingBlas::submitted(handle, device_address));
                self.phase = BuildPhase::AwaitingBlasFence;
                BuildAction::WaitForFence
            },
            (BuildPhase::AwaitingBlasFence, BuildEvent::FenceSignaled) => {
                let pending = self.pending.take();
                match pending {
                    Some(p) => match p.complete(true) {
                        Ok(blas) => {
                            let instance = tlas_instance(&blas);
                            self.blas = Some(blas);
                            self.phase = BuildPhase::SizingTlas;
                            BuildAction::QueryTlasSizes(instance)
                        },
                        Err(p) => {
                            self.pending = Some(p);
                            BuildAction::OutOfOrder
                        },
                    },
                    None => BuildAction::OutOfOrder,
                }
            },
            (BuildPhase::SizingTlas, BuildEvent::TlasSizes { structure_size, scratch_size }) => {
                match check_build_sizes(StructureLevel::TopLevel, structure_size, scratch_size) {
                    Ok(sizes) => {
                        self.phase = BuildPhase::BuildingTlas;
                        BuildAction::BuildTlas(sizes)
                    },
                    Err(e) => {
                        self.phase = BuildPhase::Failed;
                        BuildAction::Fail(e)
                    },
                }
            },
            (BuildPhase::BuildingTlas, BuildEvent::TlasSubmitted { handle }) => {
                self.tlas = handle;
                self.phase = BuildPhase::AwaitingTlasFence;
                BuildAction::WaitForFence
            },
            (BuildPhase::AwaitingTlasFence, BuildEvent::FenceSignaled) => {
                self.phase = BuildPhase::BindingDescriptors;
                BuildAction::WriteDescriptorSets { tlas: self.tlas }
            },
            (BuildPhase::BindingDescriptors, BuildEvent::DescriptorsWritten) => {
                self.phase = BuildPhase::Ready;
                BuildAction::Done
            },
            _ => BuildAction::OutOfOrder,
        }
    }

    pub fn phase(&self) -> (r: BuildPhase)
        ensures
            r == self.spec_phase(),
    {
        self.phase
    }

    /// The bottom-level structure, once built.
    pub fn blas(&self) -> (r: Option<&Blas>)
        ensures
            r == match self.spec_blas() {
                Some(b) => Some(&b),
                None => None::<&Blas>,
            },
    {
        match &self.blas {
            Some(b) => Some(b),
            None => None,
        }
    }

    /// Handle of the top-level structure, once its build was submitted.
    pub fn tlas(&self) -> (r: u64)
        ensures
            r == self.spec_tlas(),
    {
        self.tlas
    }
}

/// BLAS before TLAS: whatever state the builder is in and whatever event it
/// gets, it asks for a top-level instance or build only while it holds a
/// bottom-level structure whose build fence was seen signaled, and the
/// instance names that structure's address.
pub proof fn lemma_blas_before_tlas(
    before: AccelerationStructureBuilder,
    event: BuildEvent,
    after: AccelerationStructureBuilder,
    action: BuildAction,
)
    requires
        before.wf(),
        AccelerationStructureBuilder::step_post(before, event, after, action),
    ensures
        action is QueryTlasSizes ==> after.blas_ready() && action->QueryTlasSizes_0.spec_blas_address()
            == after.blas_address(),
        action is BuildTlas ==> after.blas_ready(),
        (action is QueryTlasSizes || action is BuildTlas) ==> before.spec_phase()
            == BuildPhase::AwaitingBlasFence || before.spec_phase() == BuildPhase::SizingTlas,
{
}

} // verus!
