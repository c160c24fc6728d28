//! Records and the descriptors of their layout: which bytes of a record feed
//! which shader input, and the check that a descriptor says of a record what
//! the record's memory holds.

use crate::bytes::{lemma_native_bytes_subrange, native_bytes};
use vstd::prelude::*;

verus! {

/// The numeric format of one vertex attribute, and of one field of a record.
#[derive(Debug, Clone, Copy, PartialEq, Eq, Structural)]
pub enum VertexFormat {
    /// Two 32-bit floats.
    Float32x2,
    /// Three 32-bit floats.
    Float32x3,
    /// Four 32-bit floats.
    Float32x4,
}

/// How a vertex buffer advances: once per vertex or once per instance.
#[derive(Debug, Clone, Copy, PartialEq, Eq, Structural)]
pub enum InputStepMode {
    Vertex,
    Instance,
}

/// One shader input: its slot, where it starts in the record, and its format.
#[derive(Debug, Clone, Copy, PartialEq, Eq, Structural)]
pub struct VertexAttribute {
    pub format: VertexFormat,
    pub offset: u64,
    pub shader_location: u32,
}

/// The descriptor of one vertex buffer.
#[derive(Debug, PartialEq, Eq)]
pub struct VertexBufferLayout {
    /// The distance in bytes from one record to the next.
    pub array_stride: u64,
    pub step_mode: InputStepMode,
    /// The attributes, in the order of the record's fields.
    pub attributes: Vec<VertexAttribute>,
}

/// A descriptor as a mathematical value.
pub struct LayoutView {
    pub array_stride: u64,
    pub step_mode: InputStepMode,
    pub attributes: Seq<VertexAttribute>,
}

/// Why a descriptor does not describe a record.
#[derive(Debug, Clone, Copy, PartialEq, Eq, Structural)]
pub enum LayoutError {
    /// The descriptor steps per vertex where per instance is asked, or the
    /// other way round.
    StepMode,
    /// An attribute's slot is outside the range reserved for its step mode.
    SlotOutOfRange,
    /// Two attributes share a slot.
    SlotRepeated,
    /// The attributes are not the fields of the record, one for one and each
    /// in the format of its field.
    FormatMismatch,
    /// An attribute does not start where its field starts.
    OffsetMismatch,
    /// The stride is not the size of the record.
    StrideMismatch,
}

/// The last slot of the per-vertex attributes.
pub const LAST_VERTEX_SLOT: u32 = 9;

/// The first slot of the per-instance attributes.
pub const FIRST_INSTANCE_SLOT: u32 = 10;

/// The last slot of the per-instance attributes.
pub const LAST_INSTANCE_SLOT: u32 = 13;

/// A record that lies in memory as a fixed list of fields, each a vector of
/// two, three or four 32-bit floats, field after field with no padding
/// between them.
pub trait Packed {
    /// The fields of every record of this type, in the order in which they
    /// lie in memory.
    spec fn spec_fields() -> Seq<VertexFormat>;

    /// The words of this record, field after field.
    spec fn spec_words(&self) -> Seq<u32>;

    /// The words of a record fill its fields.
    proof fn lemma_words_fill_fields(&self)
        ensures
            4 * self.spec_words().len() == formats_size(Self::spec_fields()),
    ;

    /// The fields of a record, in memory order.
    fn fields() -> (fields: Vec<VertexFormat>)
        ensures
            fields@ == Self::spec_fields(),
    ;

    /// The size of a record in bytes.
    fn size() -> (bytes: usize)
        ensures
            bytes == formats_size(Self::spec_fields()),
    ;

    /// Appends the words of this record to `out`.
    fn append_words(&self, out: &mut Vec<u32>)
        ensures
            final(out)@ == old(out)@ + self.spec_words(),
    ;
}

/// Slots 0 to 9 are reserved for per-vertex attributes, slots 10 to 13 for
/// per-instance ones.
pub open spec fn slot_reserved(mode: InputStepMode, slot: u32) -> bool {
    match mode {
        InputStepMode::Vertex => slot <= LAST_VERTEX_SLOT,
        InputStepMode::Instance => FIRST_INSTANCE_SLOT <= slot <= LAST_INSTANCE_SLOT,
    }
}

/// The sum of the sizes of the formats, in bytes.
pub open spec fn formats_size(formats: Seq<VertexFormat>) -> nat
    decreases formats.len(),
{
    if formats.len() == 0 {
        0
    } else {
        formats_size(formats.drop_last()) + formats.last().spec_size()
    }
}

/// Where field `field` of a record with the given fields starts, in bytes
/// from the start of the record: after all the fields before it.
pub open spec fn field_offset(fields: Seq<VertexFormat>, field: int) -> nat {
    formats_size(fields.take(field))
}

/// The words of field `field` within the words of a record with the given
/// fields.
pub open spec fn field_words(fields: Seq<VertexFormat>, words: Seq<u32>, field: int) -> Seq<u32> {
    words.subrange(field_offset(fields, field) as int / 4, field_offset(fields, field + 1) as int / 4)
}

/// The words of a list of records, record after record.
pub open spec fn packed_words<R: Packed>(records: Seq<R>) -> Seq<u32>
    decreases records.len(),
{
    if records.len() == 0 {
        Seq::empty()
    } else {
        packed_words(records.drop_last()) + records.last().spec_words()
    }
}

impl VertexFormat {
    /// The size of one value of this format in bytes: four per component.
    pub open spec fn spec_size(self) -> nat {
        match self {
            VertexFormat::Float32x2 => 8,
            VertexFormat::Float32x3 => 12,
            VertexFormat::Float32x4 => 16,
        }
    }

    /// The size of one value of this format in bytes.
    pub fn size(&self) -> (bytes: u64)
        ensures
            bytes == self.spec_size(),
    {
        match self {
            VertexFormat::Float32x2 => 8,
            VertexFormat::Float32x3 => 12,
            VertexFormat::Float32x4 => 16,
        }
    }
}

impl LayoutView {
    /// The formats of the attributes, in their order.
    pub open spec fn formats(self) -> Seq<VertexFormat> {
        Seq::new(self.attributes.len(), |i: int| self.attributes[i].format)
    }

    /// Every attribute's slot is reserved for the descriptor's step mode.
    pub open spec fn slots_reserved(self) -> bool {
        forall|i: int|
            0 <= i < self.attributes.len() ==> slot_reserved(
                self.step_mode,
                #[trigger] self.attributes[i].shader_location,
            )
    }

    /// No two attributes share a slot.
    pub open spec fn slots_distinct(self) -> bool {
        forall|i: int, j: int|
            0 <= i < j < self.attributes.len() ==> #[trigger] self.attributes[i].shader_location
                != #[trigger] self.attributes[j].shader_location
    }

    /// The first attribute starts the record and every other one starts
    /// where the one before it ends.
    pub open spec fn packed(self) -> bool {
        forall|i: int|
            0 <= i < self.attributes.len() ==> (#[trigger] self.attributes[i]).offset
                == field_offset(self.formats(), i)
    }

    /// The descriptor steps as `mode` says and says of a record with the
    /// given fields what its memory holds: the slots are reserved for the
    /// step mode and differ, there is one attribute for each field, in the
    /// order and the formats of the fields, each attribute starts where its
    /// field starts, and the stride is the size of the record.
    pub open spec fn describes(self, mode: InputStepMode, fields: Seq<VertexFormat>) -> bool {
        &&& self.step_mode == mode
        &&& self.slots_reserved()
        &&& self.slots_distinct()
        &&& self.formats() == fields
        &&& self.packed()
        &&& self.array_stride == formats_size(fields)
    }

    /// What a check of the descriptor reports: the first of the six
    /// conditions of `describes` that fails, in their order there.
    pub open spec fn checked(self, mode: InputStepMode, fields: Seq<VertexFormat>) -> Result<
        (),
        LayoutError,
    > {
        if self.step_mode != mode {
            Err(LayoutError::StepMode)
        } else if !self.slots_reserved() {
            Err(LayoutError::SlotOutOfRange)
        } else if !self.slots_distinct() {
            Err(LayoutError::SlotRepeated)
        } else if self.formats() != fields {
            Err(LayoutError::FormatMismatch)
        } else if !self.packed() {
            Err(LayoutError::OffsetMismatch)
        } else if self.array_stride != formats_size(fields) {
            Err(LayoutError::StrideMismatch)
        } else {
            Ok(())
        }
    }
}

impl View for VertexBufferLayout {
    type V = LayoutView;

    open spec fn view(&self) -> LayoutView {
        LayoutView {
            array_stride: self.array_stride,
            step_mode: self.step_mode,
            attributes: self.attributes@,
        }
    }
}

/// A field ends where the next one starts, every field starts on a word, and
/// no field starts further in than sixteen bytes for each field before it.
pub proof fn lemma_field_offset_step(fields: Seq<VertexFormat>, field: int)
    requires
        0 <= field < fields.len(),
    ensures
        field_offset(fields, field + 1) == field_offset(fields, field) + fields[field].spec_size(),
        field_offset(fields, field) % 4 == 0,
        field_offset(fields, field) <= 16 * field,
        field_offset(fields, field + 1) <= formats_size(fields),
    decreases fields.len() - field,
{
    assert(fields.take(field + 1).drop_last() == fields.take(field));
    lemma_field_offset_words(fields, field);
    if field + 1 < fields.len() {
        lemma_field_offset_step(fields, field + 1);
    } else {
    }
}

/// Every field, and the end of the last one, lies on a word and no further
/// in than sixteen bytes for each field before it.
proof fn lemma_field_offset_words(fields: Seq<VertexFormat>, field: int)
    requires
        0 <= field <= fields.len(),
    ensures
        field_offset(fields, field) % 4 == 0,
        field_offset(fields, field) <= 16 * field,
    decreases field,
{
    if field > 0 {
        assert(fields.take(field).drop_last() == fields.take(field - 1));
        lemma_field_offset_words(fields, field - 1);
    }
}

/// Record `record` of a list lies in the list's words as far in as the
/// records before it take, and is as long as its fields are.
pub proof fn lemma_packed_record<R: Packed>(records: Seq<R>, record: int)
    requires
        0 <= record < records.len(),
    ensures
        4 * packed_words(records).len() == records.len() * formats_size(R::spec_fields()),
        formats_size(R::spec_fields()) % 4 == 0,
        packed_words(records).subrange(
            record * (formats_size(R::spec_fields()) as int / 4),
            (record + 1) * (formats_size(R::spec_fields()) as int / 4),
        ) == records[record].spec_words(),
    decreases records.len(),
{
    let size = formats_size(R::spec_fields()) as int;
    let width = size / 4;
    let before = records.drop_last();
    records.last().lemma_words_fill_fields();
    if before.len() > 0 {
        lemma_packed_record(before, 0);
    } else {
        assert(before.len() * size == 0) by (nonlinear_arith)
            requires
                before.len() == 0,
        ;
    }
    assert(records.len() * size == before.len() * size + size) by (nonlinear_arith)
        requires
            records.len() == before.len() + 1,
    ;
    assert(before.len() * size == 4 * (before.len() * width)) by (nonlinear_arith)
        requires
            size == 4 * width,
    ;
    assert(packed_words(before).len() == before.len() * width);
    if record == before.len() {
        assert((record + 1) * width == record * width + width) by (nonlinear_arith);
    } else {
        lemma_packed_record(before, record);
        assert((record + 1) * width == record * width + width) by (nonlinear_arith);
        assert((record + 1) * width <= before.len() * width) by (nonlinear_arith)
            requires
                record + 1 <= before.len(),
                width >= 0,
        ;
        assert(0 <= record * width) by (nonlinear_arith)
            requires
                record >= 0,
                width >= 0,
        ;
        assert(packed_words(records).subrange(record * width, (record + 1) * width)
            == packed_words(before).subrange(record * width, (record + 1) * width));
    }
}

/// What a descriptor promises of a buffer. Where a descriptor describes the
/// records of a buffer, the bytes that attribute `attribute` names in record
/// `record`, found `record` strides and the attribute's offset into the
/// buffer and as long as the attribute's format, are the bytes of the field
/// of that record that the attribute stands for.
pub proof fn lemma_attribute_is_field<R: Packed>(
    desc: LayoutView,
    mode: InputStepMode,
    records: Seq<R>,
    record: int,
    attribute: int,
)
    requires
        desc.describes(mode, R::spec_fields()),
        0 <= record < records.len(),
        0 <= attribute < desc.attributes.len(),
    ensures
        ({
            let start = record * desc.array_stride + desc.attributes[attribute].offset;
            let end = start + desc.attributes[attribute].format.spec_size();
            &&& 0 <= start <= end <= native_bytes(packed_words(records)).len()
            &&& native_bytes(packed_words(records)).subrange(start, end) == native_bytes(
                field_words(R::spec_fields(), records[record].spec_words(), attribute),
            )
        }),
{
    let fields = R::spec_fields();
    let size = formats_size(fields) as int;
    let width = size / 4;
    let words = packed_words(records);
    let own = records[record].spec_words();
    lemma_packed_record(records, record);
    records[record].lemma_words_fill_fields();
    lemma_field_offset_step(fields, attribute);
    if attribute + 1 < fields.len() {
        lemma_field_offset_step(fields, attribute + 1);
    } else {
        lemma_field_offset_words(fields, attribute + 1);
    }
    let from = field_offset(fields, attribute) as int / 4;
    let to = field_offset(fields, attribute + 1) as int / 4;
    assert(0 <= record * width) by (nonlinear_arith)
        requires
            record >= 0,
            width >= 0,
    ;
    assert((record + 1) * width == record * width + width) by (nonlinear_arith);
    assert((record + 1) * width <= records.len() * width) by (nonlinear_arith)
        requires
            record + 1 <= records.len(),
            width >= 0,
    ;
    assert(records.len() * size == 4 * (records.len() * width)) by (nonlinear_arith)
        requires
            size == 4 * width,
    ;
    assert(words.len() == records.len() * width);
    assert(record * size == 4 * (record * width)) by (nonlinear_arith)
        requires
            size == 4 * width,
    ;
    assert(words.subrange(record * width + from, record * width + to) == own.subrange(from, to));
    lemma_native_bytes_subrange(words, record * width + from, record * width + to);
}

/// Packs a list of records into one run of words, record after record.
pub fn pack<R: Packed>(records: &Vec<R>) -> (words: Vec<u32>)
    ensures
        words@ == packed_words(records@),
{
    let mut words: Vec<u32> = Vec::new();
    let mut i: usize = 0;
    while i < records.len()
        invariant
            i <= records.len(),
            words@ == packed_words(records@.take(i as int)),
        decreases records.len() - i,
    {
        assert(records@.take(i + 1).drop_last() == records@.take(i as int));
        records[i].append_words(&mut words);
        i = i + 1;
    }
    assert(records@.take(records.len() as int) == records@);
    words
}

impl VertexBufferLayout {
    fn slots_are_reserved(&self) -> (ok: bool)
        ensures
            ok == self@.slots_reserved(),
    {
        let mut i: usize = 0;
        while i < self.attributes.len()
            invariant
                i <= self.attributes.len(),
                forall|k: int|
                    0 <= k < i ==> slot_reserved(
                        self.step_mode,
                        #[trigger] self.attributes@[k].shader_location,
                    ),
            decreases self.attributes.len() - i,
        {
            let slot: u32 = self.attributes[i].shader_location;
            let reserved: bool = match self.step_mode {
                InputStepMode::Vertex => slot <= LAST_VERTEX_SLOT,
                InputStepMode::Instance => FIRST_INSTANCE_SLOT <= slot && slot
                    <= LAST_INSTANCE_SLOT,
            };
            if !reserved {
                return false;
            }
            i = i + 1;
        }
        true
    }

    fn slots_are_distinct(&self) -> (ok: bool)
        ensures
            ok == self@.slots_distinct(),
    {
        let mut j: usize = 0;
        while j < self.attributes.len()
            invariant
                j <= self.attributes.len(),
                forall|a: int, b: int|
                    0 <= a < b < j ==> #[trigger] self.attributes@[a].shader_location
                        != #[trigger] self.attributes@[b].shader_location,
            decreases self.attributes.len() - j,
        {
            let mut i: usize = 0;
            while i < j
                invariant
                    i <= j < self.attributes.len(),
                    forall|a: int|
                        0 <= a < i ==> #[trigger] self.attributes@[a].shader_location
                            != self.attributes@[j as int].shader_location,
                decreases j - i,
            {
                if self.attributes[i].shader_location == self.attributes[j].shader_location {
                    return false;
                }
                i = i + 1;
            }
            j = j + 1;
        }
        true
    }

    fn formats_are(&self, fields: &[VertexFormat]) -> (ok: bool)
        ensures
            ok == (self@.formats() == fields@),
    {
        if self.attributes.len() != fields.len() {
            return false;
        }
        let mut i: usize = 0;
        while i < self.attributes.len()
            invariant
                i <= self.attributes.len(),
                self.attributes.len() == fields.len(),
                forall|k: int| 0 <= k < i ==> self@.formats()[k] == #[trigger] fields@[k],
            decreases self.attributes.len() - i,
        {
            if self.attributes[i].format != fields[i] {
                return false;
            }
            i = i + 1;
        }
        assert(self@.formats() =~= fields@);
        true
    }

    /// Whether the attributes lie back to back from offset zero, and the
    /// number of bytes they take together (kept only when they do).
    fn packed_size(&self) -> (r: Option<u128>)
        ensures
            r is Some <==> self@.packed(),
            r matches Some(size) ==> size == formats_size(self@.formats()),
    {
        let mut end: u128 = 0;
        let mut i: usize = 0;
        while i < self.attributes.len()
            invariant
                i <= self.attributes.len(),
                end == field_offset(self@.formats(), i as int),
                end <= 16 * i,
                forall|k: int|
                    0 <= k < i ==> (#[trigger] self.attributes@[k]).offset == field_offset(
                        self@.formats(),
                        k,
                    ),
            decreases self.attributes.len() - i,
        {
            let attribute = self.attributes[i];
            if attribute.offset as u128 != end {
                return None;
            }
            proof {
                lemma_field_offset_step(self@.formats(), i as int);
            }
            end = end + attribute.format.size() as u128;
            i = i + 1;
        }
        assert(self@.formats().take(self.attributes.len() as int) == self@.formats());
        Some(end)
    }

    /// Checks that this descriptor steps as `mode` says and describes a
    /// record with the given fields. The conditions are tested in the order
    /// of `LayoutView::describes`, and the first that fails is reported.
    pub fn check(&self, mode: InputStepMode, fields: &[VertexFormat]) -> (r: Result<
        (),
        LayoutError,
    >)
        ensures
            r == self@.checked(mode, fields@),
            r is Ok <==> self@.describes(mode, fields@),
    {
        if self.step_mode != mode {
            return Err(LayoutError::StepMode);
        }
        if !self.slots_are_reserved() {
            return Err(LayoutError::SlotOutOfRange);
        }
        if !self.slots_are_distinct() {
            return Err(LayoutError::SlotRepeated);
        }
        if !self.formats_are(fields) {
            return Err(LayoutError::FormatMismatch);
        }
        match self.packed_size() {
            None => Err(LayoutError::OffsetMismatch),
            Some(size) => {
                if self.array_stride as u128 == size {
                    Ok(())
                } else {
                    Err(LayoutError::StrideMismatch)
                }
            },
        }
    }
}

} // verus!
