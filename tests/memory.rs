use ng_render::memory::{select_memory_type, MemoryProperties, MemoryRequirements, MemoryType, MEMORY_PROPERTY_DEVICE_LOCAL};

fn table(flags: &[u32]) -> MemoryProperties {
    MemoryProperties {
        memory_types: flags.iter().map(|&f| MemoryType { property_flags: f, heap_index: 0 }).collect(),
    }
}

fn req(bits: u32) -> MemoryRequirements {
    MemoryRequirements { size: 65536, alignment: 256, memory_type_bits: bits }
}

#[test]
fn selects_first_type_with_bit_and_flags() {
    // host-visible (0x2 | 0x4), device-local (0x1), device-local + host-visible
    let props = table(&[0x6, 0x1, 0x7]);
    assert_eq!(select_memory_type(&props, req(0b111), MEMORY_PROPERTY_DEVICE_LOCAL), Some(1));
    assert_eq!(select_memory_type(&props, req(0b101), MEMORY_PROPERTY_DEVICE_LOCAL), Some(2));
    assert_eq!(select_memory_type(&props, req(0b111), 0x2), Some(0));
    assert_eq!(select_memory_type(&props, req(0b111), 0), Some(0));
}

#[test]
fn selection_is_none_without_acceptable_type() {
    let props = table(&[0x6, 0x1, 0x7]);
    assert_eq!(select_memory_type(&props, req(0b001), MEMORY_PROPERTY_DEVICE_LOCAL), None);
    assert_eq!(select_memory_type(&props, req(0), 0), None);
    assert_eq!(select_memory_type(&table(&[]), req(u32::MAX), 0), None);
    assert_eq!(select_memory_type(&props, req(0b1000), 0), None);
}

#[test]
fn selection_is_deterministic() {
    let props = table(&[0x6, 0x1, 0x7, 0x1]);
    let first = select_memory_type(&props, req(0b1100), MEMORY_PROPERTY_DEVICE_LOCAL);
    for _ in 0..5 {
        assert_eq!(select_memory_type(&props, req(0b1100), MEMORY_PROPERTY_DEVICE_LOCAL), first);
    }
    assert_eq!(first, Some(2));
}

#[test]
fn selection_reaches_the_last_of_thirty_two_types() {
    let mut flags = vec![0u32; 32];
    flags[31] = MEMORY_PROPERTY_DEVICE_LOCAL;
    let props = table(&flags);
    assert_eq!(select_memory_type(&props, req(u32::MAX), MEMORY_PROPERTY_DEVICE_LOCAL), Some(31));
    assert_eq!(select_memory_type(&props, req(0x7fff_ffff), MEMORY_PROPERTY_DEVICE_LOCAL), None);
}
