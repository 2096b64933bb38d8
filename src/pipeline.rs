//! Shader binaries and the shader-binding table of the ray-tracing pipeline.
//!
//! The table holds three group handles (ray generation, miss, closest hit),
//! each at the start of its own slot of `group_alignment` bytes; the regions
//! handed to the trace call use that alignment as stride and size.
use vstd::prelude::*;

verus! {

/// First word of every SPIR-V module.
pub const SPIRV_MAGIC: u32 = 0x0723_0203;

/// Ray generation, miss and closest-hit groups.
pub const SHADER_GROUP_COUNT: u64 = 3;

/// Smallest slot the table gives a group handle.
pub const MIN_GROUP_ALIGNMENT: u32 = 64;

#[derive(Debug, Clone, Copy, PartialEq, Eq, Structural)]
pub enum ShaderError {
    /// The binary is not made of whole 32-bit words.
    SizeNotMultipleOfFour,
    /// The binary is empty or does not start with the SPIR-V magic number.
    BadMagic,
}

#[derive(Debug, Clone, Copy, PartialEq, Eq, Structural)]
pub enum PipelineError {
    /// The device reported a zero shader-group handle size.
    ZeroHandleSize,
    /// A handle does not fit in the slot its group gets in the table.
    HandleLargerThanSlot,
}

/// The word at position `i` of `bytes`, read little-endian.
pub open spec fn le_word_at(bytes: Seq<u8>, i: int) -> u32 {
    (bytes[4 * i] as u32) | ((bytes[4 * i + 1] as u32) << 8u32) | ((bytes[4 * i + 2] as u32)
        << 16u32) | ((bytes[4 * i + 3] as u32) << 24u32)
}

pub open spec fn le_words_of(bytes: Seq<u8>) -> Seq<u32> {
    Seq::new(bytes.len() / 4, |i: int| le_word_at(bytes, i))
}

/// Splits a shader binary into its little-endian words and checks the magic number.
pub fn parse_spirv(bytes: &Vec<u8>) -> (r: Result<Vec<u32>, ShaderError>)
    ensures
        bytes.len() % 4 != 0 ==> r == Err::<Vec<u32>, ShaderError>(
            ShaderError::SizeNotMultipleOfFour,
        ),
        bytes.len() % 4 == 0 && (bytes.len() == 0 || le_word_at(bytes@, 0) != SPIRV_MAGIC) ==> r
            == Err::<Vec<u32>, ShaderError>(ShaderError::BadMagic),
        bytes.len() % 4 == 0 && bytes.len() > 0 && le_word_at(bytes@, 0) == SPIRV_MAGIC ==> (r is Ok
            && r->Ok_0@ == le_words_of(bytes@)),
{
    if bytes.len() % 4 != 0 {
        return Err(ShaderError::SizeNotMultipleOfFour);
    }
    let n = bytes.len() / 4;
    let mut words: Vec<u32> = Vec::new();
    let mut i: usize = 0;
    while i < n
        invariant
            n == bytes.len() / 4,
            bytes.len() % 4 == 0,
            i <= n,
            words@ =~= le_words_of(bytes@).take(i as int),
        decreases n - i,
    {
        let b = 4 * i;
        let w = (bytes[b] as u32) | ((bytes[b + 1] as u32) << 8u32) | ((bytes[b + 2] as u32)
            << 16u32) | ((bytes[b + 3] as u32) << 24u32);
        words.push(w);
        i = i + 1;
    }
    if n == 0 || words[0] != SPIRV_MAGIC {
        return Err(ShaderError::BadMagic);
    }
    Ok(words)
}

/// Placement of the group handles in the table's buffer.
#[derive(Debug, Clone, Copy, PartialEq, Eq, Structural)]
pub struct SbtLayout {
    pub handle_size: u64,
    /// Bytes from one group's handle to the next.
    pub group_alignment: u64,
    pub total_size: u64,
}

pub open spec fn max_u32(a: u32, b: u32) -> u32 {
    if a >= b {
        a
    } else {
        b
    }
}

pub open spec fn group_alignment_for(handle_alignment: u32, base_alignment: u32) -> u32 {
    max_u32(max_u32(handle_alignment, base_alignment), MIN_GROUP_ALIGNMENT)
}

impl SbtLayout {
    pub open spec fn wf(&self) -> bool {
        &&& 0 < self.handle_size <= self.group_alignment <= u32::MAX
        &&& self.total_size == SHADER_GROUP_COUNT * self.group_alignment
    }
}

/// Lays out the table from the device's handle size and alignments.
pub fn sbt_layout(handle_size: u32, handle_alignment: u32, base_alignment: u32) -> (r: Result<
    SbtLayout,
    PipelineError,
>)
    ensures
        handle_size == 0 ==> r == Err::<SbtLayout, PipelineError>(PipelineError::ZeroHandleSize),
        handle_size > 0 && handle_size > group_alignment_for(handle_alignment, base_alignment) ==> r
            == Err::<SbtLayout, PipelineError>(PipelineError::HandleLargerThanSlot),
        handle_size > 0 && handle_size <= group_alignment_for(handle_alignment, base_alignment) ==> r
            == Ok::<SbtLayout, PipelineError>(
            SbtLayout {
                handle_size: handle_size as u64,
                group_alignment: group_alignment_for(handle_alignment, base_alignment) as u64,
                total_size: (SHADER_GROUP_COUNT * group_alignment_for(
                    handle_alignment,
                    base_alignment,
                )) as u64,
            },
        ),
        r is Ok ==> r->Ok_0.wf(),
{
    let a = if handle_alignment >= base_alignment {
        handle_alignment
    } else {
        base_alignment
    };
    let alignment = if a >= MIN_GROUP_ALIGNMENT {
        a
    } else {
        MIN_GROUP_ALIGNMENT
    };
    if handle_size == 0 {
        return Err(PipelineError::ZeroHandleSize);
    }
    if handle_size > alignment {
        return Err(PipelineError::HandleLargerThanSlot);
    }
    Ok(
        SbtLayout {
            handle_size: handle_size as u64,
            group_alignment: alignment as u64,
            total_size: SHADER_GROUP_COUNT * alignment as u64,
        },
    )
}

/// Byte `j` of the table: inside a group's slot, the group's handle, then zeros.
pub open spec fn sbt_byte(layout: SbtLayout, handles: Seq<u8>, j: int) -> u8 {
    let group = j / layout.group_alignment as int;
    let offset = j % layout.group_alignment as int;
    if offset < layout.handle_size {
        handles[group * layout.handle_size + offset]
    } else {
        0
    }
}

pub open spec fn sbt_bytes(layout: SbtLayout, handles: Seq<u8>) -> Seq<u8> {
    Seq::new(layout.total_size as nat, |j: int| sbt_byte(layout, handles, j))
}

proof fn lemma_handle_index(j: int, a: int, h: int)
    requires
        0 <= j < 3 * a,
        0 < h <= a,
        j % a < h,
    ensures
        0 <= (j / a) * h + j % a < 3 * h,
{
    assert(0 <= j / a < 3) by (nonlinear_arith)
        requires
            0 <= j < 3 * a,
            a > 0,
    ;
    assert(0 <= j % a) by (nonlinear_arith)
        requires
            a > 0,
    ;
    assert((j / a) * h <= 2 * h) by (nonlinear_arith)
        requires
            0 <= j / a <= 2,
            h > 0,
    ;
    assert((j / a) * h >= 0) by (nonlinear_arith)
        requires
            0 <= j / a,
            h > 0,
    ;
}

/// The contents of the table's buffer for the handles the device returned,
/// one group after the other.
pub fn sbt_contents(layout: &SbtLayout, handles: &Vec<u8>) -> (r: Vec<u8>)
    requires
        layout.wf(),
        handles.len() == SHADER_GROUP_COUNT * layout.handle_size,
    ensures
        r@ == sbt_bytes(*layout, handles@),
{
    let mut r: Vec<u8> = Vec::new();
    let mut j: u64 = 0;
    while j < layout.total_size
        invariant
            layout.wf(),
            handles.len() == SHADER_GROUP_COUNT * layout.handle_size,
            j <= layout.total_size,
            r@ =~= sbt_bytes(*layout, handles@).take(j as int),
        decreases layout.total_size - j,
    {
        let group = j / layout.group_alignment;
        let offset = j % layout.group_alignment;
        let b = if offset < layout.handle_size {
            proof {
                lemma_handle_index(
                    j as int,
                    layout.group_alignment as int,
                    layout.handle_size as int,
                );
            }
            handles[(group * layout.handle_size + offset) as usize]
        } else {
            0
        };
        r.push(b);
        j = j + 1;
    }
    r
}

/// A region of the table as the trace call takes it.
#[derive(Debug, Clone, Copy, PartialEq, Eq, Structural)]
pub struct SbtRegion {
    pub device_address: u64,
    pub stride: u64,
    pub size: u64,
}

#[derive(Debug, Clone, Copy, PartialEq, Eq, Structural)]
pub struct SbtRegions {
    pub raygen: SbtRegion,
    pub miss: SbtRegion,
    pub hit: SbtRegion,
}

/// The least multiple of `alignment` that is not below `address`.
pub open spec fn align_up(address: int, alignment: int) -> int {
    if address % alignment == 0 {
        address
    } else {
        address + (alignment - address % alignment)
    }
}

pub open spec fn region_at(base: int, group: int, layout: SbtLayout) -> SbtRegion {
    SbtRegion {
        device_address: (base + group * layout.group_alignment) as u64,
        stride: layout.group_alignment,
        size: layout.group_alignment,
    }
}

/// The three regions for a table whose buffer starts at `buffer_address`;
/// `None` when they would run past the end of the address space.
pub fn sbt_regions(layout: &SbtLayout, buffer_address: u64) -> (r: Option<SbtRegions>)
    requires
        layout.wf(),
    ensures
        align_up(buffer_address as int, layout.group_alignment as int) + layout.total_size
            <= u64::MAX ==> r == Some(
            SbtRegions {
                raygen: region_at(
                    align_up(buffer_address as int, layout.group_alignment as int),
                    0,
                    *layout,
                ),
                miss: region_at(
                    align_up(buffer_address as int, layout.group_alignment as int),
                    1,
                    *layout,
                ),
                hit: region_at(
                    align_up(buffer_address as int, layout.group_alignment as int),
                    2,
                    *layout,
                ),
            },
        ),
        align_up(buffer_address as int, layout.group_alignment as int) + layout.total_size
            > u64::MAX ==> r is None,
{
    let a = layout.group_alignment;
    let rem = buffer_address % a;
    let pad = if rem == 0 {
        0
    } else {
        a - rem
    };
    if buffer_address > u64::MAX - pad {
        return None;
    }
    let base = buffer_address + pad;
    if base > u64::MAX - layout.total_size {
        return None;
    }
    let region = |group: u64| -> (s: SbtRegion)
        requires
            group < 3,
            base + layout.total_size <= u64::MAX,
            layout.wf(),
        ensures
            s == region_at(base as int, group as int, *layout),
        {
            assert(group * a <= 2 * a) by (nonlinear_arith)
                requires
                    group < 3,
            ;
            SbtRegion { device_address: base + group * a, stride: a, size: a }
        };
    Some(SbtRegions { raygen: region(0), miss: region(1), hit: region(2) })
}

} // verus!
