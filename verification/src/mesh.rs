//! The CPU-side mesh and the packers that turn it into GPU buffer bytes.

use crate::pipeline::{IndexFormat, PrimitiveTopology, VertexBufferDescriptor, VertexFormat};
use vstd::bytes::{
    spec_u16_to_le_bytes, spec_u32_to_le_bytes, u16_to_le_bytes, u32_to_le_bytes,
    lemma_auto_spec_u16_to_from_le_bytes, lemma_auto_spec_u32_to_from_le_bytes,
};
use vstd::prelude::*;

verus! {

/// The elements of one vertex attribute, tagged with their shape.  Every
/// element of one value shares the variant, so elements are homogeneous and
/// fixed-width.  Each 32-bit component is carried as the bit pattern of the
/// IEEE-754 float it stands for; this module never interprets the patterns, it
/// only lays their bytes out little-endian.
#[derive(Clone, Debug)]
pub enum VertexAttributeValues {
    Float(Vec<u32>),
    Float2(Vec<[u32; 2]>),
    Float3(Vec<[u32; 3]>),
    Float4(Vec<[u32; 4]>),
}

impl VertexAttributeValues {
    /// Number of elements, i.e. vertices covered by this attribute.
    pub open spec fn spec_len(&self) -> nat {
        match self {
            VertexAttributeValues::Float(values) => values@.len(),
            VertexAttributeValues::Float2(values) => values@.len(),
            VertexAttributeValues::Float3(values) => values@.len(),
            VertexAttributeValues::Float4(values) => values@.len(),
        }
    }

    /// Byte size of one element.
    pub open spec fn elem_size(&self) -> nat {
        self.format().size()
    }

    /// The format intrinsic to the stored variant.
    pub open spec fn format(&self) -> VertexFormat {
        match self {
            VertexAttributeValues::Float(_) => VertexFormat::Float,
            VertexAttributeValues::Float2(_) => VertexFormat::Float2,
            VertexAttributeValues::Float3(_) => VertexFormat::Float3,
            VertexAttributeValues::Float4(_) => VertexFormat::Float4,
        }
    }

    /// Little-endian bytes of element `i`.
    pub open spec fn elem_bytes(&self, i: int) -> Seq<u8> {
        match self {
            VertexAttributeValues::Float(values) => spec_u32_to_le_bytes(values@[i]),
            VertexAttributeValues::Float2(values) => spec_u32_to_le_bytes(values@[i][0])
                + spec_u32_to_le_bytes(values@[i][1]),
            VertexAttributeValues::Float3(values) => spec_u32_to_le_bytes(values@[i][0])
                + spec_u32_to_le_bytes(values@[i][1]) + spec_u32_to_le_bytes(values@[i][2]),
            VertexAttributeValues::Float4(values) => spec_u32_to_le_bytes(values@[i][0])
                + spec_u32_to_le_bytes(values@[i][1]) + spec_u32_to_le_bytes(values@[i][2])
                + spec_u32_to_le_bytes(values@[i][3]),
        }
    }

    /// Bytes of the first `k` elements, tightly packed in element order.
    pub open spec fn bytes_upto(&self, k: int) -> Seq<u8>
        decreases k,
    {
        if k <= 0 {
            Seq::empty()
        } else {
            self.bytes_upto(k - 1) + self.elem_bytes(k - 1)
        }
    }

    /// The tightly packed little-endian byte image of all elements:
    /// `spec_len() * elem_size()` bytes, element `i` at byte `elem_size() * i`.
    pub open spec fn bytes(&self) -> Seq<u8> {
        self.bytes_upto(self.spec_len() as int)
    }

    pub fn len(&self) -> (n: usize)
        ensures
            n == self.spec_len(),
    {
        match self {
            VertexAttributeValues::Float(values) => values.len(),
            VertexAttributeValues::Float2(values) => values.len(),
            VertexAttributeValues::Float3(values) => values.len(),
            VertexAttributeValues::Float4(values) => values.len(),
        }
    }

    /// The tightly packed byte image of the elements.
    pub fn get_bytes(&self) -> (b: Vec<u8>)
        ensures
            b@ == self.bytes(),
    {
        let mut out: Vec<u8> = Vec::new();
        match self {
            VertexAttributeValues::Float(values) => {
                let n = values.len();
                let mut i: usize = 0;
                while i < n
                    invariant
                        i <= n,
                        n == self.spec_len(),
                        self is Float,
                        values@ == self->Float_0@,
                        out@ == self.bytes_upto(i as int),
                    decreases n - i,
                {
                    let mut eb = u32_to_le_bytes(values[i]);
                    out.append(&mut eb);
                    i = i + 1;
                }
            },
            VertexAttributeValues::Float2(values) => {
                let n = values.len();
                let mut i: usize = 0;
                while i < n
                    invariant
                        i <= n,
                        n == self.spec_len(),
                        self is Float2,
                        values@ == self->Float2_0@,
                        out@ == self.bytes_upto(i as int),
                    decreases n - i,
                {
                    let e = values[i];
                    let mut eb = u32_to_le_bytes(e[0]);
                    out.append(&mut eb);
                    let mut eb = u32_to_le_bytes(e[1]);
                    out.append(&mut eb);
                    proof {
                        assert(out@ =~= self.bytes_upto(i + 1));
                    }
                    i = i + 1;
                }
            },
            VertexAttributeValues::Float3(values) => {
                let n = values.len();
                let mut i: usize = 0;
                while i < n
                    invariant
                        i <= n,
                        n == self.spec_len(),
                        self is Float3,
                        values@ == self->Float3_0@,
                        out@ == self.bytes_upto(i as int),
                    decreases n - i,
                {
                    let e = values[i];
                    let mut eb = u32_to_le_bytes(e[0]);
                    out.append(&mut eb);
                    let mut eb = u32_to_le_bytes(e[1]);
                    out.append(&mut eb);
                    let mut eb = u32_to_le_bytes(e[2]);
                    out.append(&mut eb);
                    proof {
                        assert(out@ =~= self.bytes_upto(i + 1));
                    }
                    i = i + 1;
                }
            },
            VertexAttributeValues::Float4(values) => {
                let n = values.len();
                let mut i: usize = 0;
                while i < n
                    invariant
                        i <= n,
                        n == self.spec_len(),
                        self is Float4,
                        values@ == self->Float4_0@,
                        out@ == self.bytes_upto(i as int),
                    decreases n - i,
                {
                    let e = values[i];
                    let mut eb = u32_to_le_bytes(e[0]);
                    out.append(&mut eb);
                    let mut eb = u32_to_le_bytes(e[1]);
                    out.append(&mut eb);
                    let mut eb = u32_to_le_bytes(e[2]);
                    out.append(&mut eb);
                    let mut eb = u32_to_le_bytes(e[3]);
                    out.append(&mut eb);
                    proof {
                        assert(out@ =~= self.bytes_upto(i + 1));
                    }
                    i = i + 1;
                }
            },
        }
        out
    }
}

/// Every element's byte image has the element size of the variant.
pub proof fn lemma_elem_bytes_len(v: &VertexAttributeValues, i: int)
    ensures
        v.elem_bytes(i).len() == v.elem_size(),
{
    lemma_auto_spec_u32_to_from_le_bytes();
}

/// The byte image of the first `k` elements is `elem_size * k` bytes long.
pub proof fn lemma_bytes_upto_len(v: &VertexAttributeValues, k: int)
    requires
        0 <= k,
    ensures
        v.bytes_upto(k).len() == v.elem_size() * k,
    decreases k,
{
    if k == 0 {
        assert(v.elem_size() * 0 == 0) by (nonlinear_arith);
    } else {
        lemma_bytes_upto_len(v, k - 1);
        lemma_elem_bytes_len(v, k - 1);
        assert(v.elem_size() * (k - 1) + v.elem_size() == v.elem_size() * k) by (nonlinear_arith);
    }
}

impl<'a> From<&'a VertexAttributeValues> for VertexFormat {
    /// The format intrinsic to the stored variant.
    fn from(values: &'a VertexAttributeValues) -> (r: VertexFormat) {
        match values {
            VertexAttributeValues::Float(_) => VertexFormat::Float,
            VertexAttributeValues::Float2(_) => VertexFormat::Float2,
            VertexAttributeValues::Float3(_) => VertexFormat::Float3,
            VertexAttributeValues::Float4(_) => VertexFormat::Float4,
        }
    }
}

impl<'a> vstd::std_specs::convert::FromSpecImpl<&'a VertexAttributeValues> for VertexFormat {
    open spec fn obeys_from_spec() -> bool {
        true
    }

    open spec fn from_spec(values: &'a VertexAttributeValues) -> VertexFormat {
        values.format()
    }
}

/// The whole byte image is `elem_size * spec_len` bytes long.
pub proof fn lemma_bytes_len(v: &VertexAttributeValues)
    ensures
        v.bytes().len() == v.elem_size() * v.spec_len(),
{
    lemma_bytes_upto_len(v, v.spec_len() as int);
}

/// A stable name paired with the per-vertex values it stands for.  Names are
/// compared by value; the first attribute with a given name wins a lookup.
#[derive(Debug)]
pub struct VertexAttribute {
    pub name: String,
    pub values: VertexAttributeValues,
}

impl VertexAttribute {
    pub fn position(positions: Vec<[u32; 3]>) -> (r: VertexAttribute)
        ensures
            r.name@ == "Vertex_Position"@,
            r.values == VertexAttributeValues::Float3(positions),
    {
        VertexAttribute {
            name: String::from_str("Vertex_Position"),
            values: VertexAttributeValues::Float3(positions),
        }
    }

    pub fn normal(normals: Vec<[u32; 3]>) -> (r: VertexAttribute)
        ensures
            r.name@ == "Vertex_Normal"@,
            r.values == VertexAttributeValues::Float3(normals),
    {
        VertexAttribute {
            name: String::from_str("Vertex_Normal"),
            values: VertexAttributeValues::Float3(normals),
        }
    }

    pub fn uv(uvs: Vec<[u32; 2]>) -> (r: VertexAttribute)
        ensures
            r.name@ == "Vertex_Uv"@,
            r.values == VertexAttributeValues::Float2(uvs),
    {
        VertexAttribute {
            name: String::from_str("Vertex_Uv"),
            values: VertexAttributeValues::Float2(uvs),
        }
    }
}

/// Why a mesh could not be packed against a vertex buffer descriptor.
#[derive(Debug)]
pub enum MeshToVertexBufferError {
    /// The descriptor references an attribute name the mesh does not contain.
    MissingVertexAttribute { attribute_name: String },
    /// Reserved: the descriptor slot's format differs from the format
    /// intrinsic to the mesh attribute.  The packer copies by the descriptor's
    /// element size without checking the attribute's own format, so this
    /// variant is part of the taxonomy but is never raised today.
    IncompatibleVertexAttributeFormat {
        attribute_name: String,
        descriptor_format: VertexFormat,
        mesh_format: VertexFormat,
    },
}

/// Index of the first attribute in `attrs` whose name equals `name`.
pub open spec fn spec_find_attribute(attrs: Seq<VertexAttribute>, name: Seq<char>) -> Option<int>
    decreases attrs.len(),
{
    if attrs.len() == 0 {
        None
    } else if attrs[0].name@ == name {
        Some(0int)
    } else {
        match spec_find_attribute(attrs.skip(1), name) {
            None => None,
            Some(j) => Some(j + 1),
        }
    }
}

/// `spec_find_attribute` returns the first match: a valid index whose name
/// matches, with no match before it; or `None` when no attribute matches.
pub proof fn lemma_find_attribute_first_match(attrs: Seq<VertexAttribute>, name: Seq<char>)
    ensures
        match spec_find_attribute(attrs, name) {
            Some(k) => 0 <= k < attrs.len() && attrs[k].name@ == name && (forall|j: int|
                0 <= j < k ==> #[trigger] attrs[j].name@ != name),
            None => forall|j: int| 0 <= j < attrs.len() ==> #[trigger] attrs[j].name@ != name,
        },
    decreases attrs.len(),
{
    if attrs.len() != 0 && attrs[0].name@ != name {
        let rest = attrs.skip(1);
        lemma_find_attribute_first_match(rest, name);
        match spec_find_attribute(attrs, name) {
            Some(k) => {
                assert(rest[k - 1] == attrs[k]);
                assert forall|j: int| 0 <= j < k implies #[trigger] attrs[j].name@ != name by {
                    if j > 0 {
                        assert(attrs[j] == rest[j - 1]);
                    }
                }
            },
            None => {
                assert forall|j: int| 0 <= j < attrs.len() implies #[trigger] attrs[j].name@
                    != name by {
                    if j > 0 {
                        assert(attrs[j] == rest[j - 1]);
                    }
                }
            },
        }
    }
}

/// The CPU-side geometry: a primitive topology, an ordered list of named
/// attributes, and an optional list of 32-bit vertex indices.
#[derive(Debug)]
pub struct Mesh {
    pub primitive_topology: PrimitiveTopology,
    pub attributes: Vec<VertexAttribute>,
    pub indices: Option<Vec<u32>>,
}

/// Little-endian bytes of one index under the requested width.  A 16-bit
/// width narrows the index as a cast would: the value is reduced mod 2^16.
pub open spec fn index_elem_bytes(i: u32, fmt: IndexFormat) -> Seq<u8> {
    match fmt {
        IndexFormat::Uint16 => spec_u16_to_le_bytes((i % 0x10000) as u16),
        IndexFormat::Uint32 => spec_u32_to_le_bytes(i),
    }
}

/// Bytes of the first `k` indices, tightly packed in order.
pub open spec fn index_bytes_upto(indices: Seq<u32>, fmt: IndexFormat, k: int) -> Seq<u8>
    decreases k,
{
    if k <= 0 {
        Seq::empty()
    } else {
        index_bytes_upto(indices, fmt, k - 1) + index_elem_bytes(indices[k - 1], fmt)
    }
}

/// The full index buffer image: every index serialized at the requested width.
pub open spec fn index_buffer_bytes(indices: Seq<u32>, fmt: IndexFormat) -> Seq<u8> {
    index_bytes_upto(indices, fmt, indices.len() as int)
}

/// Byte size of one index under `fmt`.
pub open spec fn index_elem_size(fmt: IndexFormat) -> nat {
    match fmt {
        IndexFormat::Uint16 => 2,
        IndexFormat::Uint32 => 4,
    }
}

/// The first `k` indices serialize to `k * index_elem_size(fmt)` bytes, and
/// index `i` occupies the `i`-th chunk of that size.
pub proof fn lemma_index_bytes_upto(indices: Seq<u32>, fmt: IndexFormat, k: int)
    requires
        0 <= k,
    ensures
        index_bytes_upto(indices, fmt, k).len() == index_elem_size(fmt) * k,
        forall|i: int|
            0 <= i < k ==> #[trigger] index_bytes_upto(indices, fmt, k).subrange(
                index_elem_size(fmt) * i,
                index_elem_size(fmt) * i + index_elem_size(fmt) as int,
            ) == index_elem_bytes(indices[i], fmt),
    decreases k,
{
    lemma_auto_spec_u16_to_from_le_bytes();
    lemma_auto_spec_u32_to_from_le_bytes();
    let es = index_elem_size(fmt) as int;
    if k == 0 {
    } else {
        lemma_index_bytes_upto(indices, fmt, k - 1);
        let prev = index_bytes_upto(indices, fmt, k - 1);
        let whole = index_bytes_upto(indices, fmt, k);
        assert(es * (k - 1) + es == es * k) by (nonlinear_arith);
        assert forall|i: int| 0 <= i < k implies #[trigger] whole.subrange(
            es * i,
            es * i + es,
        ) == index_elem_bytes(indices[i], fmt) by {
            assert(es * i >= 0 && es * i + es <= es * k) by (nonlinear_arith)
                requires 0 <= i < k && es > 0;
            if i < k - 1 {
                assert(es * i + es <= es * (k - 1)) by (nonlinear_arith)
                    requires i < k - 1 && es > 0;
                assert(whole.subrange(es * i, es * i + es) =~= prev.subrange(es * i, es * i + es));
            } else {
                assert(whole.subrange(es * i, es * i + es) =~= index_elem_bytes(indices[i], fmt));
            }
        }
    }
}

/// The packer's failure condition: the descriptor's `k`-th slot is the first
/// whose name the mesh lacks, and the error carries that name.
pub open spec fn missing_attribute_error(
    m: &Mesh,
    d: &VertexBufferDescriptor,
    attribute_name: Seq<char>,
) -> bool {
    exists|k: int|
        #![auto]
        {
            &&& 0 <= k < d.attributes@.len()
            &&& !m.has_attribute(d.attributes@[k].name@)
            &&& forall|j: int| 0 <= j < k ==> m.has_attribute(#[trigger] d.attributes@[j].name@)
            &&& attribute_name == d.attributes@[k].name@
        }
}

/// `n` zero bytes: the freshly allocated output buffer of the packer.
pub open spec fn zero_seq(n: nat) -> Seq<u8> {
    Seq::new(n, |i: int| 0u8)
}

/// `buf` with `data` written starting at byte `at`; all other bytes keep
/// their value.  Writes beyond the end of `buf` are clipped.
pub open spec fn write_at(buf: Seq<u8>, at: int, data: Seq<u8>) -> Seq<u8> {
    Seq::new(
        buf.len(),
        |j: int|
            if at <= j < at + data.len() {
                data[j - at]
            } else {
                buf[j]
            },
    )
}

/// How many elements one descriptor slot copies: one per vertex, except that
/// an attribute supplying fewer than `n` whole `size`-byte chunks copies only
/// the whole chunks it has, and one supplying more stops at the vertex count.
pub open spec fn spec_chunk_count(ab_len: nat, size: nat, n: nat) -> nat {
    if n <= ab_len / size {
        n
    } else {
        ab_len / size
    }
}

/// `buf` after copying, for each vertex `i` below `count`, the `i`-th
/// `size`-byte chunk of `abytes` to byte `stride * i + offset`.
pub open spec fn apply_attribute(
    buf: Seq<u8>,
    abytes: Seq<u8>,
    stride: int,
    offset: int,
    size: int,
    count: int,
) -> Seq<u8>
    decreases count,
{
    if count <= 0 {
        buf
    } else {
        write_at(
            apply_attribute(buf, abytes, stride, offset, size, count - 1),
            stride * (count - 1) + offset,
            abytes.subrange(size * (count - 1), size * (count - 1) + size),
        )
    }
}

/// Copying a slot's chunks never changes the buffer's length.
pub proof fn lemma_apply_attribute_len(
    buf: Seq<u8>,
    abytes: Seq<u8>,
    stride: int,
    offset: int,
    size: int,
    count: int,
)
    ensures
        apply_attribute(buf, abytes, stride, offset, size, count).len() == buf.len(),
    decreases count,
{
    if count > 0 {
        lemma_apply_attribute_len(buf, abytes, stride, offset, size, count - 1);
    }
}

/// After a slot's chunks are copied, chunk `i` stands at `stride * i + offset`.
pub proof fn lemma_apply_attribute_chunk(
    buf: Seq<u8>,
    abytes: Seq<u8>,
    stride: int,
    offset: int,
    size: int,
    count: int,
    i: int,
)
    requires
        0 < size,
        0 <= offset,
        offset + size <= stride,
        0 <= i < count,
        stride * count <= buf.len(),
        size * count <= abytes.len(),
    ensures
        apply_attribute(buf, abytes, stride, offset, size, count).subrange(
            stride * i + offset,
            stride * i + offset + size,
        ) == abytes.subrange(size * i, size * i + size),
    decreases count,
{
    let cur = apply_attribute(buf, abytes, stride, offset, size, count);
    let prev = apply_attribute(buf, abytes, stride, offset, size, count - 1);
    lemma_apply_attribute_len(buf, abytes, stride, offset, size, count);
    lemma_apply_attribute_len(buf, abytes, stride, offset, size, count - 1);
    assert(stride * i + stride <= stride * count) by (nonlinear_arith)
        requires
            i < count,
            0 < stride,
    ;
    assert(size * i + size <= size * count) by (nonlinear_arith)
        requires
            i < count,
            0 < size,
    ;
    if i == count - 1 {
        assert(cur.subrange(stride * i + offset, stride * i + offset + size) =~= abytes.subrange(
            size * i,
            size * i + size,
        ));
    } else {
        assert(stride * (count - 1) == stride * count - stride) by (nonlinear_arith);
        assert(size * (count - 1) == size * count - size) by (nonlinear_arith);
        lemma_apply_attribute_chunk(buf, abytes, stride, offset, size, count - 1, i);
        assert(stride * i + stride <= stride * (count - 1)) by (nonlinear_arith)
            requires
                i < count - 1,
                0 < stride,
        ;
        assert(cur.subrange(stride * i + offset, stride * i + offset + size) =~= prev.subrange(
            stride * i + offset,
            stride * i + offset + size,
        ));
    }
}

/// Copying a slot's chunks leaves every byte of a disjoint slot's region, in
/// any vertex record, as it was.
pub proof fn lemma_apply_attribute_preserves(
    buf: Seq<u8>,
    abytes: Seq<u8>,
    stride: int,
    offset: int,
    size: int,
    count: int,
    i: int,
    other_offset: int,
    other_size: int,
)
    requires
        0 < size,
        0 <= offset,
        offset + size <= stride,
        0 <= other_offset,
        0 <= other_size,
        other_offset + other_size <= stride,
        other_offset + other_size <= offset || offset + size <= other_offset,
        0 <= i,
        stride * i + other_offset + other_size <= buf.len(),
        size * count <= abytes.len(),
    ensures
        apply_attribute(buf, abytes, stride, offset, size, count).subrange(
            stride * i + other_offset,
            stride * i + other_offset + other_size,
        ) == buf.subrange(stride * i + other_offset, stride * i + other_offset + other_size),
    decreases count,
{
    if count > 0 {
        let j = count - 1;
        assert(size * j + size == size * count) by (nonlinear_arith)
            requires
                j == count - 1,
        ;
        assert(size * j >= 0) by (nonlinear_arith)
            requires
                0 <= j,
                0 < size,
        ;
        lemma_apply_attribute_preserves(
            buf,
            abytes,
            stride,
            offset,
            size,
            count - 1,
            i,
            other_offset,
            other_size,
        );
        let cur = apply_attribute(buf, abytes, stride, offset, size, count);
        let prev = apply_attribute(buf, abytes, stride, offset, size, count - 1);
        lemma_apply_attribute_len(buf, abytes, stride, offset, size, count - 1);
        assert(abytes.subrange(size * j, size * j + size).len() == size);
        if i < j {
            assert(stride * i + stride <= stride * j) by (nonlinear_arith)
                requires
                    i < j,
                    0 < stride,
            ;
        } else if j < i {
            assert(stride * j + stride <= stride * i) by (nonlinear_arith)
                requires
                    j < i,
                    0 < stride,
            ;
        }
        assert(cur == write_at(
            prev,
            stride * j + offset,
            abytes.subrange(size * j, size * j + size),
        ));
        let lo = stride * i + other_offset;
        let hi = stride * i + other_offset + other_size;
        assert(stride * i >= 0) by (nonlinear_arith)
            requires
                0 <= i,
                0 < stride,
        ;
        assert forall|m: int| lo <= m < hi implies cur[m] == prev[m] by {
            assert(other_offset + other_size <= stride);
            assert(offset + size <= stride);
        }
        assert(cur.subrange(lo, hi) =~= prev.subrange(lo, hi));
    }
}

/// Copies `src[src_at .. src_at + len]` into `dst` starting at `at`.
#[verifier::loop_isolation(false)]
fn copy_into(dst: &mut Vec<u8>, at: usize, src: &Vec<u8>, src_at: usize, len: usize)
    requires
        at + len <= old(dst)@.len(),
        src_at + len <= src@.len(),
    ensures
        final(dst)@ == write_at(old(dst)@, at as int, src@.subrange(src_at as int, src_at + len)),
{
    let dst_len = dst.len();
    let src_len = src.len();
    let mut j: usize = 0;
    while j < len
        invariant
            j <= len,
            dst_len == old(dst)@.len(),
            dst@ == write_at(old(dst)@, at as int, src@.subrange(src_at as int, src_at + j)),
        decreases len - j,
    {
        let b = src[src_at + j];
        dst[at + j] = b;
        proof {
            assert(dst@ =~= write_at(
                old(dst)@,
                at as int,
                src@.subrange(src_at as int, src_at + j + 1),
            ));
        }
        j = j + 1;
    }
    proof {
        assert(dst@ =~= write_at(old(dst)@, at as int, src@.subrange(src_at as int, src_at + len)));
    }
}

/// A vector of `n` zero bytes.
fn zero_vec(n: usize) -> (v: Vec<u8>)
    ensures
        v@ == zero_seq(n as nat),
{
    let mut v: Vec<u8> = Vec::new();
    let mut i: usize = 0;
    while i < n
        invariant
            i <= n,
            v@ == zero_seq(i as nat),
        decreases n - i,
    {
        v.push(0);
        proof {
            assert(v@ =~= zero_seq((i + 1) as nat));
        }
        i = i + 1;
    }
    v
}

impl Mesh {
    pub fn new(primitive_topology: PrimitiveTopology) -> (m: Mesh)
        ensures
            m.primitive_topology == primitive_topology,
            m.attributes@ == Seq::<VertexAttribute>::empty(),
            m.indices is None,
    {
        Mesh { primitive_topology, attributes: Vec::new(), indices: None }
    }

    /// The authoritative vertex count: the element count of the first
    /// attribute, or zero for a mesh without attributes.
    pub open spec fn spec_vertex_count(&self) -> nat {
        if self.attributes@.len() == 0 {
            0
        } else {
            self.attributes@[0].values.spec_len()
        }
    }

    /// First attribute with the given name, if any.
    fn find_attribute<'a>(&'a self, name: &String) -> (r: Option<&'a VertexAttribute>)
        ensures
            match r {
                Some(a) => {
                    let f = spec_find_attribute(self.attributes@, name@);
                    f is Some && a == &self.attributes@[f->0]
                },
                None => spec_find_attribute(self.attributes@, name@) is None,
            },
    {
        proof {
            lemma_find_attribute_first_match(self.attributes@, name@);
        }
        let n = self.attributes.len();
        let mut i: usize = 0;
        while i < n
            invariant
                i <= n,
                n == self.attributes@.len(),
                forall|j: int| 0 <= j < i ==> #[trigger] self.attributes@[j].name@ != name@,
            decreases n - i,
        {
            if self.attributes[i].name == *name {
                proof {
                    lemma_find_attribute_first_match(self.attributes@, name@);
                    let f = spec_find_attribute(self.attributes@, name@);
                    assert(f is Some);
                    assert(f->0 == i);
                }
                return Some(&self.attributes[i]);
            }
            i = i + 1;
        }
        None
    }

    /// Whether the mesh contains an attribute with this name.
    pub open spec fn has_attribute(&self, name: Seq<char>) -> bool {
        spec_find_attribute(self.attributes@, name) is Some
    }

    /// Whether the mesh contains every attribute name the descriptor references.
    pub open spec fn satisfies_descriptor(&self, d: &VertexBufferDescriptor) -> bool {
        forall|k: int|
            0 <= k < d.attributes@.len() ==> self.has_attribute(#[trigger] d.attributes@[k].name@)
    }

    /// The interleaved buffer after the first `k` descriptor slots have been
    /// filled, starting from an all-zero buffer of `stride * vertex_count`
    /// bytes.  A slot whose name the mesh lacks fills nothing (the packer
    /// fails instead of producing such a buffer).
    pub open spec fn pack_upto(&self, d: &VertexBufferDescriptor, k: int) -> Seq<u8>
        decreases k,
    {
        if k <= 0 {
            zero_seq((d.stride * self.spec_vertex_count()) as nat)
        } else {
            let prev = self.pack_upto(d, k - 1);
            let e = d.attributes@[k - 1];
            match spec_find_attribute(self.attributes@, e.name@) {
                None => prev,
                Some(a) => {
                    let ab = self.attributes@[a].values.bytes();
                    apply_attribute(
                        prev,
                        ab,
                        d.stride as int,
                        e.offset as int,
                        e.format.size() as int,
                        spec_chunk_count(
                            ab.len(),
                            e.format.size(),
                            self.spec_vertex_count(),
                        ) as int,
                    )
                },
            }
        }
    }

    /// The interleaved byte image of the whole mesh under descriptor `d`:
    /// every slot filled, in descriptor order, over a zeroed buffer.
    pub open spec fn packed_bytes(&self, d: &VertexBufferDescriptor) -> Seq<u8> {
        self.pack_upto(d, d.attributes@.len() as int)
    }

    /// Packs the mesh into the interleaved layout `vertex_buffer_descriptor`
    /// describes.  For each descriptor slot, in order, the first mesh
    /// attribute with the slot's name is chunked by the slot format's element
    /// size and chunk `i` is copied to byte `stride * i + offset`; a slot
    /// whose name the mesh lacks fails the whole pack with
    /// [`MeshToVertexBufferError::MissingVertexAttribute`], and no buffer is
    /// returned.  The descriptor owns the byte geometry: the attribute's own
    /// format is not consulted (see
    /// [`MeshToVertexBufferError::IncompatibleVertexAttributeFormat`]).  An
    /// attribute whose byte image yields under `vertex_count` whole chunks
    /// fills only the chunks it has; one yielding more stops at
    /// `vertex_count`, so a malformed mesh with unequal attribute lengths
    /// packs truncated rather than out of bounds.
    #[verifier::loop_isolation(false)]
    pub fn get_vertex_buffer_bytes(&self, vertex_buffer_descriptor: &VertexBufferDescriptor) -> (r:
        Result<Vec<u8>, MeshToVertexBufferError>)
        requires
            vertex_buffer_descriptor.wf(),
            vertex_buffer_descriptor.stride * self.spec_vertex_count() <= usize::MAX,
        ensures
            match r {
                Ok(bytes) => self.satisfies_descriptor(vertex_buffer_descriptor) && bytes@
                    == self.packed_bytes(vertex_buffer_descriptor),
                Err(e) => match e {
                    MeshToVertexBufferError::MissingVertexAttribute { attribute_name } => (
                    missing_attribute_error(self, vertex_buffer_descriptor, attribute_name@)),
                    _ => false,
                },
            },
    {
        let stride = vertex_buffer_descriptor.stride;
        let length = if self.attributes.len() == 0 {
            0
        } else {
            self.attributes[0].values.len()
        };
        let mut bytes = zero_vec(stride * length);
        let n_entries = vertex_buffer_descriptor.attributes.len();
        let mut k: usize = 0;
        while k < n_entries
            invariant
                k <= n_entries,
                bytes@ == self.pack_upto(vertex_buffer_descriptor, k as int),
                bytes@.len() == stride * length,
                forall|j: int|
                    0 <= j < k ==> self.has_attribute(
                        #[trigger] vertex_buffer_descriptor.attributes@[j].name@,
                    ),
            decreases n_entries - k,
        {
            let entry = &vertex_buffer_descriptor.attributes[k];
            match self.find_attribute(&entry.name) {
                None => {
                    return Err(
                        MeshToVertexBufferError::MissingVertexAttribute {
                            attribute_name: entry.name.clone(),
                        },
                    );
                },
                Some(mesh_attribute) => {
                    let attribute_bytes = mesh_attribute.values.get_bytes();
                    let attribute_size = entry.format.get_size();
                    let quot = attribute_bytes.len() / attribute_size;
                    let count = if length < quot {
                        length
                    } else {
                        quot
                    };
                    let ghost prev = bytes@;
                    let ghost ab = attribute_bytes@;
                    let mut i: usize = 0;
                    while i < count
                        invariant
                            i <= count,
                            attribute_bytes@ == ab,
                            bytes@ == apply_attribute(
                                prev,
                                ab,
                                stride as int,
                                entry.offset as int,
                                attribute_size as int,
                                i as int,
                            ),
                            bytes@.len() == stride * length,
                        decreases count - i,
                    {
                        proof {
                            assert(attribute_size * i + attribute_size <= attribute_size * quot)
                                by (nonlinear_arith)
                                requires
                                    i < count,
                                    count <= quot,
                                    attribute_size > 0,
                            ;
                            assert(attribute_size * quot <= ab.len()) by (nonlinear_arith)
                                requires
                                    quot == ab.len() as int / attribute_size as int,
                                    attribute_size > 0,
                            ;
                            assert(stride * i + entry.offset + attribute_size <= stride * length)
                                by (nonlinear_arith)
                                requires
                                    i < count,
                                    count <= length,
                                    entry.offset + attribute_size <= stride,
                            ;
                        }
                        copy_into(
                            &mut bytes,
                            stride * i + entry.offset,
                            &attribute_bytes,
                            attribute_size * i,
                            attribute_size,
                        );
                        i = i + 1;
                    }
                    proof {
                        assert(count as int == spec_chunk_count(
                            ab.len(),
                            entry.format.size(),
                            self.spec_vertex_count(),
                        ) as int);
                        assert(bytes@ == self.pack_upto(vertex_buffer_descriptor, k + 1));
                    }
                },
            }
            k = k + 1;
        }
        Ok(bytes)
    }

    /// Serializes the mesh's indices at the requested width; `None` exactly
    /// when the mesh has no indices (an unindexed mesh is not an empty one).
    /// A 16-bit width narrows each index with truncation, as a cast does.
    pub fn get_index_buffer_bytes(&self, index_format: IndexFormat) -> (r: Option<Vec<u8>>)
        ensures
            r is Some <==> self.indices is Some,
            r is Some ==> r->0@ == index_buffer_bytes(self.indices->0@, index_format),
    {
        match &self.indices {
            None => None,
            Some(indices) => {
                let n = indices.len();
                let mut out: Vec<u8> = Vec::new();
                let mut i: usize = 0;
                while i < n
                    invariant
                        i <= n,
                        n == indices@.len(),
                        out@ == index_bytes_upto(indices@, index_format, i as int),
                    decreases n - i,
                {
                    let idx = indices[i];
                    match index_format {
                        IndexFormat::Uint16 => {
                            let narrow: u16 = (idx % 0x10000) as u16;
                            let mut eb = u16_to_le_bytes(narrow);
                            out.append(&mut eb);
                        },
                        IndexFormat::Uint32 => {
                            let mut eb = u32_to_le_bytes(idx);
                            out.append(&mut eb);
                        },
                    }
                    i = i + 1;
                }
                Some(out)
            },
        }
    }
}

/// Filling any number of descriptor slots keeps the buffer at
/// `stride * vertex_count` bytes.
pub proof fn lemma_pack_upto_len(m: &Mesh, d: &VertexBufferDescriptor, k: int)
    requires
        0 <= k,
    ensures
        m.pack_upto(d, k).len() == d.stride * m.spec_vertex_count(),
    decreases k,
{
    if k > 0 {
        lemma_pack_upto_len(m, d, k - 1);
        let e = d.attributes@[k - 1];
        match spec_find_attribute(m.attributes@, e.name@) {
            None => {},
            Some(a) => {
                let ab = m.attributes@[a].values.bytes();
                lemma_apply_attribute_len(
                    m.pack_upto(d, k - 1),
                    ab,
                    d.stride as int,
                    e.offset as int,
                    e.format.size() as int,
                    spec_chunk_count(ab.len(), e.format.size(), m.spec_vertex_count()) as int,
                );
            },
        }
    }
}

/// Whether the descriptor's slots occupy pairwise disjoint byte ranges within
/// one vertex record.
pub open spec fn slots_disjoint(d: &VertexBufferDescriptor) -> bool {
    forall|k1: int, k2: int|
        0 <= k1 < k2 < d.attributes@.len() ==> {
            let a = #[trigger] d.attributes@[k1];
            let b = #[trigger] d.attributes@[k2];
            ||| a.offset + a.format.size() <= b.offset
            ||| b.offset + b.format.size() <= a.offset
        }
}

/// How many chunks slot `k` copies out of the attribute it matched; zero for
/// a slot whose name the mesh lacks.
pub open spec fn slot_chunk_count(m: &Mesh, d: &VertexBufferDescriptor, k: int) -> nat {
    match spec_find_attribute(m.attributes@, d.attributes@[k].name@) {
        None => 0,
        Some(a) => spec_chunk_count(
            m.attributes@[a].values.bytes().len(),
            d.attributes@[k].format.size(),
            m.spec_vertex_count(),
        ),
    }
}

/// Slots after `k` leave the bytes of slot `k`'s region, in every vertex
/// record, as the first `k + 1` slots left them.
proof fn lemma_pack_region_stable(m: &Mesh, d: &VertexBufferDescriptor, k: int, i: int, t: int)
    requires
        d.wf(),
        slots_disjoint(d),
        0 <= k < t <= d.attributes@.len(),
        0 <= i < m.spec_vertex_count(),
    ensures
        ({
            let e = d.attributes@[k];
            m.pack_upto(d, t).subrange(
                d.stride * i + e.offset,
                d.stride * i + e.offset + e.format.size(),
            ) == m.pack_upto(d, k + 1).subrange(
                d.stride * i + e.offset,
                d.stride * i + e.offset + e.format.size(),
            )
        }),
    decreases t,
{
    let e = d.attributes@[k];
    let stride = d.stride as int;
    let n = m.spec_vertex_count() as int;
    if t > k + 1 {
        lemma_pack_region_stable(m, d, k, i, t - 1);
        let e2 = d.attributes@[t - 1];
        match spec_find_attribute(m.attributes@, e2.name@) {
            None => {},
            Some(a2) => {
                let ab2 = m.attributes@[a2].values.bytes();
                let size2 = e2.format.size() as int;
                let count2 = spec_chunk_count(
                    ab2.len(),
                    e2.format.size(),
                    m.spec_vertex_count(),
                ) as int;
                lemma_pack_upto_len(m, d, t - 1);
                assert(stride * i + stride <= stride * n) by (nonlinear_arith)
                    requires
                        i < n,
                        0 < stride,
                ;
                assert(size2 * count2 <= ab2.len()) by (nonlinear_arith)
                    requires
                        0 < size2,
                        0 <= count2,
                        count2 <= ab2.len() as int / size2,
                ;
                lemma_apply_attribute_preserves(
                    m.pack_upto(d, t - 1),
                    ab2,
                    stride,
                    e2.offset as int,
                    size2,
                    count2,
                    i,
                    e.offset as int,
                    e.format.size() as int,
                );
            },
        }
    }
}

/// Law: the interleaving property.  Where the descriptor's slots do not
/// overlap, the packed buffer holds, for every slot `k` and every vertex `i`
/// the slot copies, exactly the `i`-th chunk of the matched attribute's bytes
/// at byte `stride * i + offset` — each attribute lands at its slot, one
/// vertex record at a time, untouched by the other slots.
pub proof fn lemma_packed_bytes_interleave(m: &Mesh, d: &VertexBufferDescriptor, k: int, i: int)
    requires
        d.wf(),
        slots_disjoint(d),
        0 <= k < d.attributes@.len(),
        spec_find_attribute(m.attributes@, d.attributes@[k].name@) is Some,
        0 <= i < slot_chunk_count(m, d, k),
    ensures
        ({
            let e = d.attributes@[k];
            let a = spec_find_attribute(m.attributes@, e.name@)->0;
            let ab = m.attributes@[a].values.bytes();
            m.packed_bytes(d).subrange(
                d.stride * i + e.offset,
                d.stride * i + e.offset + e.format.size(),
            ) == ab.subrange(e.format.size() * i, e.format.size() * i + e.format.size())
        }),
{
    let e = d.attributes@[k];
    let a = spec_find_attribute(m.attributes@, e.name@)->0;
    let ab = m.attributes@[a].values.bytes();
    let stride = d.stride as int;
    let size = e.format.size() as int;
    let n = m.spec_vertex_count() as int;
    let count = slot_chunk_count(m, d, k) as int;
    lemma_pack_region_stable(m, d, k, i, d.attributes@.len() as int);
    lemma_pack_upto_len(m, d, k);
    assert(stride * count <= stride * n) by (nonlinear_arith)
        requires
            count <= n,
            0 <= stride,
    ;
    assert(size * count <= ab.len()) by (nonlinear_arith)
        requires
            0 < size,
            0 <= count,
            count <= ab.len() as int / size,
    ;
    lemma_apply_attribute_chunk(m.pack_upto(d, k), ab, stride, e.offset as int, size, count, i);
}

/// Law: for every mesh and descriptor, the packed vertex buffer is exactly
/// `stride * vertex_count` bytes long.  Together with the `Ok` postcondition
/// of [`Mesh::get_vertex_buffer_bytes`], every successful pack returns a
/// buffer of exactly that size.
pub proof fn lemma_packed_bytes_len(m: &Mesh, d: &VertexBufferDescriptor)
    ensures
        m.packed_bytes(d).len() == d.stride * m.spec_vertex_count(),
{
    lemma_pack_upto_len(m, d, d.attributes@.len() as int);
}

} // verus!
