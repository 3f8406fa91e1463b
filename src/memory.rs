use vstd::prelude::*;

verus! {

/// The largest number of memory types a physical device reports.
pub const MAX_MEMORY_TYPES: usize = 32;

/// The `DEVICE_LOCAL` memory property bit.
pub const MEMORY_PROPERTY_DEVICE_LOCAL: u32 = 1;

/// One entry of a physical device's memory-type table.
#[derive(Clone, Copy, Debug, PartialEq, Eq, Structural)]
pub struct MemoryType {
    pub property_flags: u32,
    pub heap_index: u32,
}

/// What an image or buffer needs from its backing memory.
#[derive(Clone, Copy, Debug, PartialEq, Eq, Structural)]
pub struct MemoryRequirements {
    pub size: u64,
    pub alignment: u64,
    pub memory_type_bits: u32,
}

/// A physical device's memory-type table, in the device's order.
#[derive(Debug)]
pub struct MemoryProperties {
    pub memory_types: Vec<MemoryType>,
}

impl MemoryProperties {
    pub open spec fn wf(&self) -> bool {
        self.memory_types@.len() <= MAX_MEMORY_TYPES
    }
}

/// Memory type `i` of `types` is allowed by the bitmask and offers every
/// required property.
pub open spec fn memory_type_acceptable(
    types: Seq<MemoryType>,
    type_bits: u32,
    required_flags: u32,
    i: int,
) -> bool {
    &&& 0 <= i < types.len()
    &&& i < 32
    &&& type_bits & (1u32 << (i as u32)) != 0
    &&& types[i].property_flags & required_flags == required_flags
}

/// `r` is the first acceptable memory type, or `None` when there is none.
pub open spec fn is_memory_type_selection(
    types: Seq<MemoryType>,
    type_bits: u32,
    required_flags: u32,
    r: Option<u32>,
) -> bool {
    match r {
        Some(i) => {
            &&& memory_type_acceptable(types, type_bits, required_flags, i as int)
            &&& forall|j: int|
                0 <= j < i ==> !#[trigger] memory_type_acceptable(
                    types,
                    type_bits,
                    required_flags,
                    j,
                )
        },
        None => forall|j: int|
            0 <= j < types.len() ==> !#[trigger] memory_type_acceptable(
                types,
                type_bits,
                required_flags,
                j,
            ),
    }
}

/// The index of the first memory type whose bit is set in
/// `memory_requirements.memory_type_bits` and whose properties include all of
/// `required_flags`, or `None` if the table has no such type.
pub fn select_memory_type(
    memory_properties: &MemoryProperties,
    memory_requirements: MemoryRequirements,
    required_flags: u32,
) -> (r: Option<u32>)
    requires
        memory_properties.wf(),
    ensures
        is_memory_type_selection(
            memory_properties.memory_types@,
            memory_requirements.memory_type_bits,
            required_flags,
            r,
        ),
{
    let types = &memory_properties.memory_types;
    let bits = memory_requirements.memory_type_bits;
    let mut index: usize = 0;
    while index < types.len()
        invariant
            types == &memory_properties.memory_types,
            bits == memory_requirements.memory_type_bits,
            types@.len() <= MAX_MEMORY_TYPES,
            index <= types@.len(),
            forall|j: int|
                0 <= j < index ==> !#[trigger] memory_type_acceptable(
                    types@,
                    bits,
                    required_flags,
                    j,
                ),
        decreases types@.len() - index,
    {
        let flags = types[index].property_flags;
        let shift = index as u32;
        if bits & (1u32 << shift) != 0 && flags & required_flags == required_flags {
            assert(memory_type_acceptable(types@, bits, required_flags, shift as int));
            assert(shift as int == index as int);
            return Some(shift);
        }
        index = index + 1;
    }
    None
}

/// Memory-type selection is a function of its inputs: any two results that meet
/// the contract of `select_memory_type` for the same table, bitmask and flags are
/// equal, and the result is `None` exactly when no memory type has its bit set
/// in the bitmask and all the required flags.
pub proof fn lemma_memory_type_selection_deterministic(
    types: Seq<MemoryType>,
    type_bits: u32,
    required_flags: u32,
    r1: Option<u32>,
    r2: Option<u32>,
)
    requires
        is_memory_type_selection(types, type_bits, required_flags, r1),
        is_memory_type_selection(types, type_bits, required_flags, r2),
    ensures
        r1 == r2,
        r1 is None <==> forall|j: int|
            0 <= j < types.len() ==> !#[trigger] memory_type_acceptable(
                types,
                type_bits,
                required_flags,
                j,
            ),
{
    match (r1, r2) {
        (Some(a), Some(b)) => {
            if a < b {
                assert(!memory_type_acceptable(types, type_bits, required_flags, a as int));
            } else if b < a {
                assert(!memory_type_acceptable(types, type_bits, required_flags, b as int));
            }
        },
        (Some(a), None) => {
            assert(memory_type_acceptable(types, type_bits, required_flags, a as int));
        },
        (None, Some(b)) => {
            assert(memory_type_acceptable(types, type_bits, required_flags, b as int));
        },
        (None, None) => {},
    }
    if let Some(a) = r1 {
        assert(memory_type_acceptable(types, type_bits, required_flags, a as int));
    }
}

} // verus!
