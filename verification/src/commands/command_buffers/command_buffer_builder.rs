use vstd::prelude::*;

verus! {

/// The kind of pipeline a binding applies to.
#[derive(Debug, Clone, Copy, PartialEq, Eq, Hash, Structural)]
pub enum PipelineBindPoint {
    Graphics,
    Compute,
}

impl PipelineBindPoint {
    /// The raw `VkPipelineBindPoint`.
    pub open spec fn spec_raw(self) -> i32 {
        match self {
            PipelineBindPoint::Graphics => 0i32,
            PipelineBindPoint::Compute => 1i32,
        }
    }

    /// The raw `VkPipelineBindPoint`.
    pub fn as_raw(self) -> (r: i32)
        ensures
            r == self.spec_raw(),
    {
        match self {
            PipelineBindPoint::Graphics => 0,
            PipelineBindPoint::Compute => 1,
        }
    }

    /// The bind point of a raw `VkPipelineBindPoint`; only graphics (`0`) and
    /// compute (`1`) are bind points here.
    pub fn from_raw(raw: i32) -> (r: Self)
        requires
            raw == 0 || raw == 1,
        ensures
            raw == 0 ==> r == PipelineBindPoint::Graphics,
            raw == 1 ==> r == PipelineBindPoint::Compute,
    {
        if raw == 0 {
            PipelineBindPoint::Graphics
        } else {
            PipelineBindPoint::Compute
        }
    }
}

/// The width of the indices of an index buffer.
#[derive(Debug, Clone, Copy, PartialEq, Eq, Hash, Structural)]
pub enum IndexType {
    U16,
    U32,
}

impl IndexType {
    /// The raw `VkIndexType`.
    pub open spec fn spec_raw(self) -> i32 {
        match self {
            IndexType::U16 => 0i32,
            IndexType::U32 => 1i32,
        }
    }

    /// The raw `VkIndexType`.
    pub fn as_raw(self) -> (r: i32)
        ensures
            r == self.spec_raw(),
    {
        match self {
            IndexType::U16 => 0,
            IndexType::U32 => 1,
        }
    }

    /// The index type of a raw `VkIndexType`; only 16-bit (`0`) and 32-bit (`1`)
    /// indices are index types here.
    pub fn from_raw(raw: i32) -> (r: Self)
        requires
            raw == 0 || raw == 1,
        ensures
            raw == 0 ==> r == IndexType::U16,
            raw == 1 ==> r == IndexType::U32,
    {
        if raw == 0 {
            IndexType::U16
        } else {
            IndexType::U32
        }
    }
}

/// A bind point read back from its raw value is the same bind point.
pub proof fn lemma_bind_point_raw_round_trip(p: PipelineBindPoint)
    ensures
        p.spec_raw() == 0 || p.spec_raw() == 1,
        p.spec_raw() == 0 ==> p == PipelineBindPoint::Graphics,
        p.spec_raw() == 1 ==> p == PipelineBindPoint::Compute,
{
}

/// An index type read back from its raw value is the same index type.
pub proof fn lemma_index_type_raw_round_trip(t: IndexType)
    ensures
        t.spec_raw() == 0 || t.spec_raw() == 1,
        t.spec_raw() == 0 ==> t == IndexType::U16,
        t.spec_raw() == 1 ==> t == IndexType::U32,
{
}

} // verus!
