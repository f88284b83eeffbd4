//! The vertex-attribute layout builder: from an ordered list of field
//! formats to the byte offsets and shader locations of a GPU vertex or
//! instance buffer, together with its stride.

use vstd::prelude::*;

verus! {

/// The on-buffer format of one vertex attribute, as the graphics backend
/// names them.
#[derive(Clone, Copy, Debug, PartialEq, Eq, Structural)]
pub enum VertexFormat {
    Float16x2,
    Float16x4,
    Float32,
    Float32x2,
    Float32x3,
    Float32x4,
    Float64,
    Float64x2,
    Float64x3,
    Float64x4,
    Sint16x2,
    Sint16x4,
    Sint32,
    Sint32x2,
    Sint32x3,
    Sint32x4,
    Sint8x2,
    Sint8x4,
    Snorm16x2,
    Snorm16x4,
    Snorm8x2,
    Snorm8x4,
    Uint16x2,
    Uint16x4,
    Uint32,
    Uint32x2,
    Uint32x3,
    Uint32x4,
    Uint8x2,
    Uint8x4,
    Unorm16x2,
    Unorm16x4,
    Unorm8x2,
    Unorm8x4,
}

/// The fixed byte size of each format: component size times component count.
pub open spec fn spec_format_size(f: VertexFormat) -> int {
    match f {
        VertexFormat::Float16x2 => 4,
        VertexFormat::Float16x4 => 8,
        VertexFormat::Float32 => 4,
        VertexFormat::Float32x2 => 8,
        VertexFormat::Float32x3 => 12,
        VertexFormat::Float32x4 => 16,
        VertexFormat::Float64 => 8,
        VertexFormat::Float64x2 => 16,
        VertexFormat::Float64x3 => 24,
        VertexFormat::Float64x4 => 32,
        VertexFormat::Sint16x2 => 4,
        VertexFormat::Sint16x4 => 8,
        VertexFormat::Sint32 => 4,
        VertexFormat::Sint32x2 => 8,
        VertexFormat::Sint32x3 => 12,
        VertexFormat::Sint32x4 => 16,
        VertexFormat::Sint8x2 => 2,
        VertexFormat::Sint8x4 => 4,
        VertexFormat::Snorm16x2 => 4,
        VertexFormat::Snorm16x4 => 8,
        VertexFormat::Snorm8x2 => 2,
        VertexFormat::Snorm8x4 => 4,
        VertexFormat::Uint16x2 => 4,
        VertexFormat::Uint16x4 => 8,
        VertexFormat::Uint32 => 4,
        VertexFormat::Uint32x2 => 8,
        VertexFormat::Uint32x3 => 12,
        VertexFormat::Uint32x4 => 16,
        VertexFormat::Uint8x2 => 2,
        VertexFormat::Uint8x4 => 4,
        VertexFormat::Unorm16x2 => 4,
        VertexFormat::Unorm16x4 => 8,
        VertexFormat::Unorm8x2 => 2,
        VertexFormat::Unorm8x4 => 4,
    }
}

/// Whether this crate's buffers may use the format.  The two half-float
/// formats are declared but deliberately unsupported: asking for one is a
/// configuration mistake at setup time, not a runtime condition.
pub open spec fn format_supported(f: VertexFormat) -> bool {
    !(f is Float16x2 || f is Float16x4)
}

/// Byte size of a supported vertex format.
pub fn vertex_format_size(format: VertexFormat) -> (n: usize)
    requires
        format_supported(format),
    ensures
        n == spec_format_size(format),
{
    match format {
        VertexFormat::Float32 => 4,
        VertexFormat::Float32x2 => 8,
        VertexFormat::Float32x3 => 12,
        VertexFormat::Float32x4 => 16,
        VertexFormat::Float64 => 8,
        VertexFormat::Float64x2 => 16,
        VertexFormat::Float64x3 => 24,
        VertexFormat::Float64x4 => 32,
        VertexFormat::Sint16x2 => 4,
        VertexFormat::Sint16x4 => 8,
        VertexFormat::Sint32 => 4,
        VertexFormat::Sint32x2 => 8,
        VertexFormat::Sint32x3 => 12,
        VertexFormat::Sint32x4 => 16,
        VertexFormat::Sint8x2 => 2,
        VertexFormat::Sint8x4 => 4,
        VertexFormat::Snorm16x2 => 4,
        VertexFormat::Snorm16x4 => 8,
        VertexFormat::Snorm8x2 => 2,
        VertexFormat::Snorm8x4 => 4,
        VertexFormat::Uint16x2 => 4,
        VertexFormat::Uint16x4 => 8,
        VertexFormat::Uint32 => 4,
        VertexFormat::Uint32x2 => 8,
        VertexFormat::Uint32x3 => 12,
        VertexFormat::Uint32x4 => 16,
        VertexFormat::Uint8x2 => 2,
        VertexFormat::Uint8x4 => 4,
        VertexFormat::Unorm16x2 => 4,
        VertexFormat::Unorm16x4 => 8,
        VertexFormat::Unorm8x2 => 2,
        VertexFormat::Unorm8x4 => 4,
        _ => unreached(),
    }
}

/// One attribute of a vertex-buffer layout: where its bytes start, which
/// shader location reads it, and how they are typed.
#[derive(Clone, Copy, Debug, PartialEq, Eq, Structural)]
pub struct VertexAttribute {
    pub offset: u64,
    pub shader_location: u32,
    pub format: VertexFormat,
}

/// Total byte size of a list of formats packed back to back.
pub open spec fn total_size(formats: Seq<VertexFormat>) -> int
    decreases formats.len(),
{
    if formats.len() == 0 {
        0
    } else {
        total_size(formats.drop_last()) + spec_format_size(formats.last())
    }
}

/// Byte offset of field `i`: the sizes of all fields before it, summed.
pub open spec fn offset_of(formats: Seq<VertexFormat>, i: int) -> int {
    total_size(formats.take(i))
}

/// Every format size is positive and at most 32 bytes.
pub proof fn lemma_format_size_bounds(f: VertexFormat)
    ensures
        0 < spec_format_size(f) <= 32,
{
}

/// Prefix sums of format sizes grow monotonically: a later field never
/// starts before an earlier one.
pub proof fn lemma_offsets_monotonic(formats: Seq<VertexFormat>, i: int, j: int)
    requires
        0 <= i <= j <= formats.len(),
    ensures
        offset_of(formats, i) <= offset_of(formats, j),
    decreases j - i,
{
    if i < j {
        lemma_offsets_monotonic(formats, i, j - 1);
        assert(formats.take(j).drop_last() =~= formats.take(j - 1));
        assert(total_size(formats.take(j)) == total_size(formats.take(j - 1))
            + spec_format_size(formats[j - 1]));
    }
}

/// The stride of the whole layout is the end of its last field: the sum of
/// all field sizes, with no gap and no tail padding.
pub proof fn lemma_stride_is_total(formats: Seq<VertexFormat>)
    ensures
        offset_of(formats, formats.len() as int) == total_size(formats),
{
    assert(formats.take(formats.len() as int) =~= formats);
}

/// The next field starts where the previous one ends.
pub proof fn lemma_offset_step(formats: Seq<VertexFormat>, i: int)
    requires
        0 <= i < formats.len(),
    ensures
        offset_of(formats, i + 1) == offset_of(formats, i) + spec_format_size(formats[i]),
{
    assert(formats.take(i + 1).drop_last() =~= formats.take(i));
    assert(formats.take(i + 1).last() == formats[i]);
}

/// The first field starts at the beginning of the record.
pub proof fn lemma_offset_zero(formats: Seq<VertexFormat>)
    ensures
        offset_of(formats, 0) == 0,
{
    assert(formats.take(0) =~= Seq::<VertexFormat>::empty());
}

/// Whether a buffer advances per vertex or per drawn instance.
#[derive(Clone, Copy, Debug, PartialEq, Eq, Structural)]
pub enum VertexStepMode {
    Vertex,
    Instance,
}

/// A complete vertex-buffer layout: the stride from one record to the next,
/// the step mode, and the attributes inside one record.
#[derive(Debug)]
pub struct VertexBufferLayout {
    pub array_stride: u64,
    pub step_mode: VertexStepMode,
    pub attributes: Vec<VertexAttribute>,
}

/// Derive the attribute list for an ordered sequence of field formats:
/// field `i` lands at shader location `base_location + i` and at the byte
/// offset where the preceding fields end.
pub fn build_attributes(base_location: u32, formats: &Vec<VertexFormat>) -> (attrs: Vec<
    VertexAttribute,
>)
    requires
        forall|i: int| 0 <= i < formats@.len() ==> format_supported(#[trigger] formats@[i]),
        base_location + formats@.len() <= 0x1_0000_0000,
        total_size(formats@) <= u64::MAX,
    ensures
        attrs@.len() == formats@.len(),
        forall|i: int| 0 <= i < formats@.len() ==> (#[trigger] attrs@[i]) == (VertexAttribute {
            offset: offset_of(formats@, i) as u64,
            shader_location: (base_location + i) as u32,
            format: formats@[i],
        }),
{
    let mut attrs: Vec<VertexAttribute> = Vec::new();
    let mut offset: u64 = 0;
    let mut i: usize = 0;
    while i < formats.len()
        invariant
            i <= formats@.len(),
            attrs@.len() == i,
            offset == offset_of(formats@, i as int),
            forall|k: int| 0 <= k < formats@.len() ==> format_supported(#[trigger] formats@[k]),
            base_location + formats@.len() <= 0x1_0000_0000,
            total_size(formats@) <= u64::MAX,
            forall|k: int| 0 <= k < i ==> (#[trigger] attrs@[k]) == (VertexAttribute {
                offset: offset_of(formats@, k) as u64,
                shader_location: (base_location + k) as u32,
                format: formats@[k],
            }),
        decreases formats@.len() - i,
    {
        let f = formats[i];
        attrs.push(VertexAttribute { offset, shader_location: base_location + i as u32, format: f });
        proof {
            assert(formats@.take(i + 1).drop_last() =~= formats@.take(i as int));
            assert(formats@.take(i + 1).last() == f);
            lemma_offsets_monotonic(formats@, i + 1, formats@.len() as int);
            lemma_stride_is_total(formats@);
            lemma_format_size_bounds(f);
        }
        offset = offset + vertex_format_size(f) as u64;
        i = i + 1;
    }
    attrs
}

/// Derive a whole buffer layout from an ordered sequence of field formats:
/// the attributes as `build_attributes` lays them out, and the stride as
/// the sum of all field sizes, with no tail padding.
pub fn build_layout(base_location: u32, step_mode: VertexStepMode, formats: &Vec<
    VertexFormat,
>) -> (l: VertexBufferLayout)
    requires
        forall|i: int| 0 <= i < formats@.len() ==> format_supported(#[trigger] formats@[i]),
        base_location + formats@.len() <= 0x1_0000_0000,
        total_size(formats@) <= u64::MAX,
    ensures
        l.step_mode == step_mode,
        l.array_stride == total_size(formats@),
        l.attributes@.len() == formats@.len(),
        forall|i: int| 0 <= i < formats@.len() ==> (#[trigger] l.attributes@[i]) == (VertexAttribute {
            offset: offset_of(formats@, i) as u64,
            shader_location: (base_location + i) as u32,
            format: formats@[i],
        }),
{
    let attributes = build_attributes(base_location, formats);
    proof {
        lemma_stride_is_total(formats@);
    }
    let array_stride: u64 = if formats.len() > 0 {
        let n: usize = formats.len();
        proof {
            lemma_offset_step(formats@, n - 1);
            lemma_format_size_bounds(formats@[n - 1]);
            lemma_offsets_monotonic(formats@, 0, n - 1);
            lemma_offset_zero(formats@);
        }
        attributes[n - 1].offset + vertex_format_size(formats[n - 1]) as u64
    } else {
        proof {
            lemma_offset_zero(formats@);
        }
        0
    };
    VertexBufferLayout { array_stride, step_mode, attributes }
}

} // verus!
