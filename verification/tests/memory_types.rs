use vkjam::memory::{
    find_memory_type, index_buffer_allocation, memory_allocation, search_memory_type,
    MemoryProperties, MemoryRequirements, MemoryType, INDEX_BUFFER_MEMORY_PROPERTIES,
    MEMORY_PROPERTY_DEVICE_LOCAL, MEMORY_PROPERTY_HOST_COHERENT, MEMORY_PROPERTY_HOST_VISIBLE,
};

fn properties(flags: &[u32]) -> MemoryProperties {
    let mut memory_types = [MemoryType { property_flags: 0, heap_index: 0 }; 32];
    for (i, f) in flags.iter().enumerate() {
        memory_types[i] = MemoryType { property_flags: *f, heap_index: i as u32 };
    }
    MemoryProperties { memory_type_count: flags.len() as u32, memory_types }
}

fn requirements(bits: u32) -> MemoryRequirements {
    MemoryRequirements { size: 4096, alignment: 256, memory_type_bits: bits }
}

#[test]
fn index_buffer_flags_are_host_visible_and_coherent() {
    assert_eq!(INDEX_BUFFER_MEMORY_PROPERTIES, 0x6);
    assert_eq!(MEMORY_PROPERTY_HOST_VISIBLE | MEMORY_PROPERTY_HOST_COHERENT, 0x6);
}

#[test]
fn first_allowed_type_with_all_flags_is_chosen() {
    let props = properties(&[0x1, 0x6, 0x7, 0x6]);
    // Type 1 is not allowed by the mask; type 2 is the first allowed one with 0x6.
    let req = requirements(0b1101);
    assert_eq!(find_memory_type(req, props, INDEX_BUFFER_MEMORY_PROPERTIES), 2);
    assert_eq!(search_memory_type(req, props, INDEX_BUFFER_MEMORY_PROPERTIES), Some(2));
}

#[test]
fn partial_flags_do_not_count() {
    // Type 0 has only HOST_VISIBLE: it must not be taken for HOST_VISIBLE | HOST_COHERENT.
    let props = properties(&[0x2, 0x4, 0xE]);
    let req = requirements(0b111);
    assert_eq!(search_memory_type(req, props, INDEX_BUFFER_MEMORY_PROPERTIES), Some(2));
}

#[test]
fn no_flags_required_takes_first_allowed_type() {
    let props = properties(&[0x1, 0x2, 0x4]);
    assert_eq!(search_memory_type(requirements(0b100), props, 0), Some(2));
    assert_eq!(find_memory_type(requirements(0b110), props, 0), 1);
}

#[test]
fn types_beyond_the_count_are_ignored() {
    let mut props = properties(&[0x1, 0x1]);
    props.memory_types[2] = MemoryType { property_flags: 0x6, heap_index: 0 };
    assert_eq!(search_memory_type(requirements(u32::MAX), props, 0x6), None);
}

#[test]
fn no_suitable_type_gives_none() {
    let props = properties(&[0x1, 0x6]);
    assert_eq!(search_memory_type(requirements(0b01), props, 0x6), None);
    assert_eq!(search_memory_type(requirements(0), props, 0), None);
}

#[test]
fn highest_memory_type_is_reachable() {
    let flags = [0x1u32; 32];
    let mut props = properties(&flags);
    props.memory_types[31] = MemoryType { property_flags: MEMORY_PROPERTY_DEVICE_LOCAL | 0x6, heap_index: 1 };
    assert_eq!(search_memory_type(requirements(1 << 31), props, 0x6), Some(31));
    assert_eq!(search_memory_type(requirements(u32::MAX), props, 0x7), Some(31));
}

#[test]
fn allocation_takes_the_whole_size() {
    let props = properties(&[0x1, 0x6]);
    let req = MemoryRequirements { size: 12345, alignment: 64, memory_type_bits: 0b11 };
    let a = memory_allocation(req, props, MEMORY_PROPERTY_DEVICE_LOCAL);
    assert_eq!(a.allocation_size, 12345);
    assert_eq!(a.memory_type_index, 0);
    let b = index_buffer_allocation(req, props);
    assert_eq!(b.allocation_size, 12345);
    assert_eq!(b.memory_type_index, 1);
}
