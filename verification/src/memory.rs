use vstd::prelude::*;

verus! {

/// Number of memory types a physical device can report (`VK_MAX_MEMORY_TYPES`).
pub const MAX_MEMORY_TYPES: usize = 32;

/// `VK_MEMORY_PROPERTY_DEVICE_LOCAL_BIT`.
pub const MEMORY_PROPERTY_DEVICE_LOCAL: u32 = 0x1;

/// `VK_MEMORY_PROPERTY_HOST_VISIBLE_BIT`.
pub const MEMORY_PROPERTY_HOST_VISIBLE: u32 = 0x2;

/// `VK_MEMORY_PROPERTY_HOST_COHERENT_BIT`.
pub const MEMORY_PROPERTY_HOST_COHERENT: u32 = 0x4;

/// Memory that the host can map and write without explicit flushes; index
/// buffers are filled through such memory.
pub const INDEX_BUFFER_MEMORY_PROPERTIES: u32 = MEMORY_PROPERTY_HOST_VISIBLE
    | MEMORY_PROPERTY_HOST_COHERENT;

/// What a resource asks of the memory that backs it.
#[derive(Clone, Copy)]
pub struct MemoryRequirements {
    pub size: u64,
    pub alignment: u64,
    /// Bit `i` is set when memory type `i` may back the resource.
    pub memory_type_bits: u32,
}

/// One memory type of a physical device.
#[derive(Clone, Copy)]
pub struct MemoryType {
    pub property_flags: u32,
    pub heap_index: u32,
}

/// The memory types that a physical device reports; only the first
/// `memory_type_count` entries are meaningful.
#[derive(Clone, Copy)]
pub struct MemoryProperties {
    pub memory_type_count: u32,
    pub memory_types: [MemoryType; 32],
}

/// What is handed to the device to allocate memory for a resource.
#[derive(Clone, Copy)]
pub struct MemoryAllocation {
    pub allocation_size: u64,
    pub memory_type_index: u32,
}

/// Bit `i` of `bits` is set.
pub open spec fn bit_is_set(bits: u32, i: int) -> bool {
    0 <= i < 32 && (bits >> (i as u32)) & 1u32 == 1u32
}

/// Every flag of `required` is among `flags`.
pub open spec fn flags_contain(flags: u32, required: u32) -> bool {
    flags & required == required
}

/// Memory type `i` is one the device reports, the resource accepts it, and
/// it has every property in `required`.
pub open spec fn is_suitable(
    requirements: MemoryRequirements,
    properties: MemoryProperties,
    required: u32,
    i: int,
) -> bool {
    &&& 0 <= i < properties.memory_type_count
    &&& i < MAX_MEMORY_TYPES
    &&& bit_is_set(requirements.memory_type_bits, i)
    &&& flags_contain(properties.memory_types@[i].property_flags, required)
}

/// `i` is the lowest suitable memory type.
pub open spec fn is_first_suitable(
    requirements: MemoryRequirements,
    properties: MemoryProperties,
    required: u32,
    i: int,
) -> bool {
    &&& is_suitable(requirements, properties, required, i)
    &&& forall|j: int| 0 <= j < i ==> !is_suitable(requirements, properties, required, j)
}

/// Some memory type is suitable.
pub open spec fn has_suitable(
    requirements: MemoryRequirements,
    properties: MemoryProperties,
    required: u32,
) -> bool {
    exists|i: int| is_suitable(requirements, properties, required, i)
}

/// There is at most one lowest suitable memory type, so every function that
/// picks one picks the same.
pub proof fn lemma_first_suitable_unique(
    requirements: MemoryRequirements,
    properties: MemoryProperties,
    required: u32,
    i: int,
    j: int,
)
    requires
        is_first_suitable(requirements, properties, required, i),
        is_first_suitable(requirements, properties, required, j),
    ensures
        i == j,
{
}

proof fn lemma_contain_gives_bits(flags: u32, required: u32)
    requires
        flags & required == required,
    ensures
        forall|b: u32|
            b < 32 && #[trigger] ((required >> b) & 1u32) == 1u32 ==> (flags >> b) & 1u32 == 1u32,
{
    assert(forall|b: u32|
        b < 32 && #[trigger] ((required >> b) & 1u32) == 1u32 ==> (flags >> b) & 1u32 == 1u32)
        by (bit_vector)
        requires
            flags & required == required,
    ;
}

proof fn lemma_bits_give_contain(flags: u32, required: u32)
    requires
        forall|b: u32|
            b < 32 && #[trigger] ((required >> b) & 1u32) == 1u32 ==> (flags >> b) & 1u32 == 1u32,
    ensures
        flags & required == required,
{
    assert((required >> 0u32) & 1u32 == 1u32 ==> (flags >> 0u32) & 1u32 == 1u32);
    assert((required >> 1u32) & 1u32 == 1u32 ==> (flags >> 1u32) & 1u32 == 1u32);
    assert((required >> 2u32) & 1u32 == 1u32 ==> (flags >> 2u32) & 1u32 == 1u32);
    assert((required >> 3u32) & 1u32 == 1u32 ==> (flags >> 3u32) & 1u32 == 1u32);
    assert((required >> 4u32) & 1u32 == 1u32 ==> (flags >> 4u32) & 1u32 == 1u32);
    assert((required >> 5u32) & 1u32 == 1u32 ==> (flags >> 5u32) & 1u32 == 1u32);
    assert((required >> 6u32) & 1u32 == 1u32 ==> (flags >> 6u32) & 1u32 == 1u32);
    assert((required >> 7u32) & 1u32 == 1u32 ==> (flags >> 7u32) & 1u32 == 1u32);
    assert((required >> 8u32) & 1u32 == 1u32 ==> (flags >> 8u32) & 1u32 == 1u32);
    assert((required >> 9u32) & 1u32 == 1u32 ==> (flags >> 9u32) & 1u32 == 1u32);
    assert((required >> 10u32) & 1u32 == 1u32 ==> (flags >> 10u32) & 1u32 == 1u32);
    assert((required >> 11u32) & 1u32 == 1u32 ==> (flags >> 11u32) & 1u32 == 1u32);
    assert((required >> 12u32) & 1u32 == 1u32 ==> (flags >> 12u32) & 1u32 == 1u32);
    assert((required >> 13u32) & 1u32 == 1u32 ==> (flags >> 13u32) & 1u32 == 1u32);
    assert((required >> 14u32) & 1u32 == 1u32 ==> (flags >> 14u32) & 1u32 == 1u32);
    assert((required >> 15u32) & 1u32 == 1u32 ==> (flags >> 15u32) & 1u32 == 1u32);
    assert((required >> 16u32) & 1u32 == 1u32 ==> (flags >> 16u32) & 1u32 == 1u32);
    assert((required >> 17u32) & 1u32 == 1u32 ==> (flags >> 17u32) & 1u32 == 1u32);
    assert((required >> 18u32) & 1u32 == 1u32 ==> (flags >> 18u32) & 1u32 == 1u32);
    assert((required >> 19u32) & 1u32 == 1u32 ==> (flags >> 19u32) & 1u32 == 1u32);
    assert((required >> 20u32) & 1u32 == 1u32 ==> (flags >> 20u32) & 1u32 == 1u32);
    assert((required >> 21u32) & 1u32 == 1u32 ==> (flags >> 21u32) & 1u32 == 1u32);
    assert((required >> 22u32) & 1u32 == 1u32 ==> (flags >> 22u32) & 1u32 == 1u32);
    assert((required >> 23u32) & 1u32 == 1u32 ==> (flags >> 23u32) & 1u32 == 1u32);
    assert((required >> 24u32) & 1u32 == 1u32 ==> (flags >> 24u32) & 1u32 == 1u32);
    assert((required >> 25u32) & 1u32 == 1u32 ==> (flags >> 25u32) & 1u32 == 1u32);
    assert((required >> 26u32) & 1u32 == 1u32 ==> (flags >> 26u32) & 1u32 == 1u32);
    assert((required >> 27u32) & 1u32 == 1u32 ==> (flags >> 27u32) & 1u32 == 1u32);
    assert((required >> 28u32) & 1u32 == 1u32 ==> (flags >> 28u32) & 1u32 == 1u32);
    assert((required >> 29u32) & 1u32 == 1u32 ==> (flags >> 29u32) & 1u32 == 1u32);
    assert((required >> 30u32) & 1u32 == 1u32 ==> (flags >> 30u32) & 1u32 == 1u32);
    assert((required >> 31u32) & 1u32 == 1u32 ==> (flags >> 31u32) & 1u32 == 1u32);
    assert(flags & required == required) by (bit_vector)
        requires
            (required >> 0u32) & 1u32 == 1u32 ==> (flags >> 0u32) & 1u32 == 1u32,
            (required >> 1u32) & 1u32 == 1u32 ==> (flags >> 1u32) & 1u32 == 1u32,
            (required >> 2u32) & 1u32 == 1u32 ==> (flags >> 2u32) & 1u32 == 1u32,
            (required >> 3u32) & 1u32 == 1u32 ==> (flags >> 3u32) & 1u32 == 1u32,
            (required >> 4u32) & 1u32 == 1u32 ==> (flags >> 4u32) & 1u32 == 1u32,
            (required >> 5u32) & 1u32 == 1u32 ==> (flags >> 5u32) & 1u32 == 1u32,
            (required >> 6u32) & 1u32 == 1u32 ==> (flags >> 6u32) & 1u32 == 1u32,
            (required >> 7u32) & 1u32 == 1u32 ==> (flags >> 7u32) & 1u32 == 1u32,
            (required >> 8u32) & 1u32 == 1u32 ==> (flags >> 8u32) & 1u32 == 1u32,
            (required >> 9u32) & 1u32 == 1u32 ==> (flags >> 9u32) & 1u32 == 1u32,
            (required >> 10u32) & 1u32 == 1u32 ==> (flags >> 10u32) & 1u32 == 1u32,
            (required >> 11u32) & 1u32 == 1u32 ==> (flags >> 11u32) & 1u32 == 1u32,
            (required >> 12u32) & 1u32 == 1u32 ==> (flags >> 12u32) & 1u32 == 1u32,
            (required >> 13u32) & 1u32 == 1u32 ==> (flags >> 13u32) & 1u32 == 1u32,
            (required >> 14u32) & 1u32 == 1u32 ==> (flags >> 14u32) & 1u32 == 1u32,
            (required >> 15u32) & 1u32 == 1u32 ==> (flags >> 15u32) & 1u32 == 1u32,
            (required >> 16u32) & 1u32 == 1u32 ==> (flags >> 16u32) & 1u32 == 1u32,
            (required >> 17u32) & 1u32 == 1u32 ==> (flags >> 17u32) & 1u32 == 1u32,
            (required >> 18u32) & 1u32 == 1u32 ==> (flags >> 18u32) & 1u32 == 1u32,
            (required >> 19u32) & 1u32 == 1u32 ==> (flags >> 19u32) & 1u32 == 1u32,
            (required >> 20u32) & 1u32 == 1u32 ==> (flags >> 20u32) & 1u32 == 1u32,
            (required >> 21u32) & 1u32 == 1u32 ==> (flags >> 21u32) & 1u32 == 1u32,
            (required >> 22u32) & 1u32 == 1u32 ==> (flags >> 22u32) & 1u32 == 1u32,
            (required >> 23u32) & 1u32 == 1u32 ==> (flags >> 23u32) & 1u32 == 1u32,
            (required >> 24u32) & 1u32 == 1u32 ==> (flags >> 24u32) & 1u32 == 1u32,
            (required >> 25u32) & 1u32 == 1u32 ==> (flags >> 25u32) & 1u32 == 1u32,
            (required >> 26u32) & 1u32 == 1u32 ==> (flags >> 26u32) & 1u32 == 1u32,
            (required >> 27u32) & 1u32 == 1u32 ==> (flags >> 27u32) & 1u32 == 1u32,
            (required >> 28u32) & 1u32 == 1u32 ==> (flags >> 28u32) & 1u32 == 1u32,
            (required >> 29u32) & 1u32 == 1u32 ==> (flags >> 29u32) & 1u32 == 1u32,
            (required >> 30u32) & 1u32 == 1u32 ==> (flags >> 30u32) & 1u32 == 1u32,
            (required >> 31u32) & 1u32 == 1u32 ==> (flags >> 31u32) & 1u32 == 1u32,
    ;
}

/// A memory type is suitable exactly when the device reports it, bit `i` of
/// the resource's mask is set, and every bit set in `required` is also set in
/// the type's property flags.
pub proof fn lemma_suitable_bitwise(
    requirements: MemoryRequirements,
    properties: MemoryProperties,
    required: u32,
    i: int,
)
    ensures
        is_suitable(requirements, properties, required, i) <==> {
            &&& 0 <= i < properties.memory_type_count
            &&& i < 32
            &&& (requirements.memory_type_bits >> (i as u32)) & 1u32 == 1u32
            &&& forall|b: u32|
                b < 32 && #[trigger] ((required >> b) & 1u32) == 1u32
                    ==> (properties.memory_types@[i].property_flags >> b) & 1u32 == 1u32
        },
{
    if 0 <= i < 32 {
        let flags = properties.memory_types@[i].property_flags;
        if flags & required == required {
            lemma_contain_gives_bits(flags, required);
        }
        if forall|b: u32|
            b < 32 && #[trigger] ((required >> b) & 1u32) == 1u32 ==> (flags >> b) & 1u32 == 1u32 {
            lemma_bits_give_contain(flags, required);
        }
    }
}

proof fn lemma_none_suitable_below(
    requirements: MemoryRequirements,
    properties: MemoryProperties,
    required: u32,
    k: int,
)
    requires
        forall|j: int| 0 <= j < k ==> !is_suitable(requirements, properties, required, j),
    ensures
        forall|j: int|
            #![trigger (requirements.memory_type_bits >> (j as u32))]
            0 <= j < k && j < properties.memory_type_count && j < 32
                && (requirements.memory_type_bits >> (j as u32)) & 1u32 == 1u32
                ==> exists|b: u32|
                b < 32 && #[trigger] ((required >> b) & 1u32) == 1u32
                    && (properties.memory_types@[j].property_flags >> b) & 1u32 == 0u32,
{
    assert forall|j: int|
        #![trigger (requirements.memory_type_bits >> (j as u32))]
        0 <= j < k && j < properties.memory_type_count && j < 32
            && (requirements.memory_type_bits >> (j as u32)) & 1u32 == 1u32 implies exists|b: u32|
        b < 32 && #[trigger] ((required >> b) & 1u32) == 1u32
            && (properties.memory_types@[j].property_flags >> b) & 1u32 == 0u32 by {
        lemma_suitable_bitwise(requirements, properties, required, j);
        let flags = properties.memory_types@[j].property_flags;
        assert(!(forall|b: u32|
            b < 32 && #[trigger] ((required >> b) & 1u32) == 1u32 ==> (flags >> b) & 1u32 == 1u32));
        let b = choose|b: u32|
            !(b < 32 && #[trigger] ((required >> b) & 1u32) == 1u32 ==> (flags >> b) & 1u32 == 1u32);
        assert((flags >> b) & 1u32 != 1u32 ==> (flags >> b) & 1u32 == 0u32) by (bit_vector);
        assert(b < 32 && ((required >> b) & 1u32) == 1u32 && (flags >> b) & 1u32 == 0u32);
    }
}

/// Calls `ash::vk::MemoryPropertyFlags::contains` on the raw flag values. The
/// contract states what ash's source computes: `self & other == other`.
#[verifier::external_body]
fn memory_flags_contain(flags: u32, required: u32) -> (r: bool)
    ensures
        r == flags_contain(flags, required),
{
    ash::vk::MemoryPropertyFlags::from_raw(flags).contains(
        ash::vk::MemoryPropertyFlags::from_raw(required),
    )
}

/// Tests bit `i` of `bits` the way the memory type mask is read.
fn type_bit_set(bits: u32, i: u32) -> (r: bool)
    requires
        i < 32,
    ensures
        r == bit_is_set(bits, i as int),
{
    let r = bits & (1u32 << i) != 0;
    assert(r == ((bits >> i) & 1u32 == 1u32)) by (bit_vector)
        requires
            i < 32,
            r == (bits & (1u32 << i) != 0),
    ;
    r
}

/// The lowest memory type that the resource accepts and that has every
/// property in `required_properties`, or `None` where there is none.
pub fn search_memory_type(
    requirements: MemoryRequirements,
    mem_properties: MemoryProperties,
    required_properties: u32,
) -> (r: Option<u32>)
    ensures
        match r {
            Some(i) => is_first_suitable(
                requirements,
                mem_properties,
                required_properties,
                i as int,
            ),
            None => !has_suitable(requirements, mem_properties, required_properties),
        },
        r matches Some(i) ==> i < mem_properties.memory_type_count && i < 32,
        r matches Some(i) ==> (requirements.memory_type_bits >> i) & 1u32 == 1u32,
        r matches Some(i) ==> mem_properties.memory_types@[i as int].property_flags
            & required_properties == required_properties,
        r matches Some(i) ==> forall|b: u32|
            b < 32 && #[trigger] ((required_properties >> b) & 1u32) == 1u32
                ==> (mem_properties.memory_types@[i as int].property_flags >> b) & 1u32 == 1u32,
        forall|j: int|
            #![trigger (requirements.memory_type_bits >> (j as u32))]
            0 <= j < mem_properties.memory_type_count && j < 32 && (r matches Some(i) ==> j < i)
                && (requirements.memory_type_bits >> (j as u32)) & 1u32 == 1u32
                ==> exists|b: u32|
                b < 32 && #[trigger] ((required_properties >> b) & 1u32) == 1u32
                    && (mem_properties.memory_types@[j].property_flags >> b) & 1u32 == 0u32,
{
    let mut i: u32 = 0;
    while i < mem_properties.memory_type_count && i < 32
        invariant
            i <= 32,
            forall|j: int|
                0 <= j < i ==> !is_suitable(
                    requirements,
                    mem_properties,
                    required_properties,
                    j,
                ),
        decreases 32 - i,
    {
        if type_bit_set(requirements.memory_type_bits, i) && memory_flags_contain(
            mem_properties.memory_types[i as usize].property_flags,
            required_properties,
        ) {
            proof {
                lemma_suitable_bitwise(requirements, mem_properties, required_properties, i as int);
                lemma_none_suitable_below(
                    requirements,
                    mem_properties,
                    required_properties,
                    i as int,
                );
            }
            return Some(i);
        }
        i = i + 1;
    }
    proof {
        lemma_none_suitable_below(requirements, mem_properties, required_properties, i as int);
    }
    None
}

/// The lowest memory type that the resource accepts and that has every
/// property in `required_properties`. Some such type must exist.
pub fn find_memory_type(
    requirements: MemoryRequirements,
    mem_properties: MemoryProperties,
    required_properties: u32,
) -> (index: u32)
    requires
        has_suitable(requirements, mem_properties, required_properties),
    ensures
        is_first_suitable(requirements, mem_properties, required_properties, index as int),
        index < mem_properties.memory_type_count,
        bit_is_set(requirements.memory_type_bits, index as int),
        flags_contain(mem_properties.memory_types@[index as int].property_flags, required_properties),
        index < mem_properties.memory_type_count,
        index < 32,
        (requirements.memory_type_bits >> (index as u32)) & 1u32 == 1u32,
        mem_properties.memory_types@[index as int].property_flags & required_properties == required_properties,
        forall|b: u32|
            b < 32 && #[trigger] ((required_properties >> b) & 1u32) == 1u32
                ==> (mem_properties.memory_types@[index as int].property_flags >> b) & 1u32 == 1u32,
        forall|j: int|
            #![trigger (requirements.memory_type_bits >> (j as u32))]
            0 <= j < index && (requirements.memory_type_bits >> (j as u32)) & 1u32 == 1u32
                ==> exists|b: u32|
                b < 32 && #[trigger] ((required_properties >> b) & 1u32) == 1u32
                    && (mem_properties.memory_types@[j].property_flags >> b) & 1u32 == 0u32,
{
    match search_memory_type(requirements, mem_properties, required_properties) {
        Some(i) => i,
        None => 0,
    }
}

/// The allocation that backs a resource: its whole required size, in the
/// lowest suitable memory type. Some such type must exist.
pub fn memory_allocation(
    requirements: MemoryRequirements,
    mem_properties: MemoryProperties,
    required_properties: u32,
) -> (allocation: MemoryAllocation)
    requires
        has_suitable(requirements, mem_properties, required_properties),
    ensures
        allocation.allocation_size == requirements.size,
        is_first_suitable(
            requirements,
            mem_properties,
            required_properties,
            allocation.memory_type_index as int,
        ),
        allocation.memory_type_index < mem_properties.memory_type_count,
        allocation.memory_type_index < 32,
        (requirements.memory_type_bits >> (allocation.memory_type_index as u32)) & 1u32 == 1u32,
        mem_properties.memory_types@[allocation.memory_type_index as int].property_flags & required_properties == required_properties,
        forall|b: u32|
            b < 32 && #[trigger] ((required_properties >> b) & 1u32) == 1u32
                ==> (mem_properties.memory_types@[allocation.memory_type_index as int].property_flags >> b) & 1u32 == 1u32,
        forall|j: int|
            #![trigger (requirements.memory_type_bits >> (j as u32))]
            0 <= j < allocation.memory_type_index && (requirements.memory_type_bits >> (j as u32)) & 1u32 == 1u32
                ==> exists|b: u32|
                b < 32 && #[trigger] ((required_properties >> b) & 1u32) == 1u32
                    && (mem_properties.memory_types@[j].property_flags >> b) & 1u32 == 0u32,
{
    let index = find_memory_type(requirements, mem_properties, required_properties);
    MemoryAllocation { allocation_size: requirements.size, memory_type_index: index }
}

/// The allocation that backs an index buffer: host-visible, host-coherent
/// memory. Some such type must exist.
pub fn index_buffer_allocation(
    requirements: MemoryRequirements,
    mem_properties: MemoryProperties,
) -> (allocation: MemoryAllocation)
    requires
        has_suitable(requirements, mem_properties, INDEX_BUFFER_MEMORY_PROPERTIES),
    ensures
        allocation.allocation_size == requirements.size,
        is_first_suitable(
            requirements,
            mem_properties,
            INDEX_BUFFER_MEMORY_PROPERTIES,
            allocation.memory_type_index as int,
        ),
        allocation.memory_type_index < mem_properties.memory_type_count,
        allocation.memory_type_index < 32,
        (requirements.memory_type_bits >> (allocation.memory_type_index as u32)) & 1u32 == 1u32,
        mem_properties.memory_types@[allocation.memory_type_index as int].property_flags & INDEX_BUFFER_MEMORY_PROPERTIES == INDEX_BUFFER_MEMORY_PROPERTIES,
        forall|b: u32|
            b < 32 && #[trigger] ((INDEX_BUFFER_MEMORY_PROPERTIES >> b) & 1u32) == 1u32
                ==> (mem_properties.memory_types@[allocation.memory_type_index as int].property_flags >> b) & 1u32 == 1u32,
        forall|j: int|
            #![trigger (requirements.memory_type_bits >> (j as u32))]
            0 <= j < allocation.memory_type_index && (requirements.memory_type_bits >> (j as u32)) & 1u32 == 1u32
                ==> exists|b: u32|
                b < 32 && #[trigger] ((INDEX_BUFFER_MEMORY_PROPERTIES >> b) & 1u32) == 1u32
                    && (mem_properties.memory_types@[j].property_flags >> b) & 1u32 == 0u32,
{
    memory_allocation(requirements, mem_properties, INDEX_BUFFER_MEMORY_PROPERTIES)
}

} // verus!
