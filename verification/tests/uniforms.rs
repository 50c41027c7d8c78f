use shader_chain::common::{FilterMode, WrapMode};
use shader_chain::error::FilterChainError;
use shader_chain::samplers::SamplerSet;
use shader_chain::uniforms::{ring_slot, MemberOffset, UniformStorage, RING};

#[test]
fn storage_starts_zeroed() {
    let storage = UniformStorage::new(8, 4);
    assert_eq!(storage.ubo_slice(), &[0u8; 8]);
    assert_eq!(storage.push_slice(), &[0u8; 4]);
}

#[test]
fn words_are_written_least_significant_byte_first() {
    let mut storage = UniformStorage::new(12, 8);
    assert_eq!(storage.bind_scalar(MemberOffset::Ubo(4), 0x1122_3344), Ok(()));
    assert_eq!(storage.ubo_slice(), &[0, 0, 0, 0, 0x44, 0x33, 0x22, 0x11, 0, 0, 0, 0]);
    assert_eq!(storage.push_slice(), &[0u8; 8]);
    assert_eq!(storage.bind_scalar(MemberOffset::PushConstant(1), 0xAABB_CCDD), Ok(()));
    assert_eq!(storage.push_slice(), &[0, 0xDD, 0xCC, 0xBB, 0xAA, 0, 0, 0]);
    assert_eq!(storage.ubo_slice(), &[0, 0, 0, 0, 0x44, 0x33, 0x22, 0x11, 0, 0, 0, 0]);
}

#[test]
fn writes_agree_with_native_little_endian() {
    let mut storage = UniformStorage::new(64, 16);
    let matrix: [u32; 16] = core::array::from_fn(|i| (i as f32 * 1.5 - 3.0).to_bits());
    assert_eq!(storage.bind_mat4(MemberOffset::Ubo(0), &matrix), Ok(()));
    let expected: Vec<u8> = matrix.iter().flat_map(|word| word.to_le_bytes()).collect();
    assert_eq!(storage.ubo_slice(), expected.as_slice());
    let vector = [1.0f32.to_bits(), 2.0f32.to_bits(), 0.5f32.to_bits(), 0.25f32.to_bits()];
    assert_eq!(storage.bind_vec4(MemberOffset::PushConstant(0), &vector), Ok(()));
    let expected: Vec<u8> = vector.iter().flat_map(|word| word.to_le_bytes()).collect();
    assert_eq!(storage.push_slice(), expected.as_slice());
}

#[test]
fn writes_outside_the_block_are_refused_and_change_nothing() {
    let mut storage = UniformStorage::new(16, 4);
    assert_eq!(storage.bind_scalar(MemberOffset::Ubo(12), 7), Ok(()));
    let before: Vec<u8> = storage.ubo_slice().to_vec();
    assert_eq!(storage.bind_scalar(MemberOffset::Ubo(13), 9), Err(FilterChainError::UniformOffsetOutOfRange));
    assert_eq!(storage.bind_scalar(MemberOffset::Ubo(16), 9), Err(FilterChainError::UniformOffsetOutOfRange));
    assert_eq!(
        storage.bind_scalar(MemberOffset::Ubo(usize::MAX), 9),
        Err(FilterChainError::UniformOffsetOutOfRange)
    );
    assert_eq!(
        storage.bind_vec4(MemberOffset::Ubo(4), &[1, 2, 3, 4]),
        Err(FilterChainError::UniformOffsetOutOfRange)
    );
    assert_eq!(
        storage.bind_mat4(MemberOffset::PushConstant(0), &[0; 16]),
        Err(FilterChainError::UniformOffsetOutOfRange)
    );
    assert_eq!(
        storage.bind_scalar(MemberOffset::PushConstant(1), 1),
        Err(FilterChainError::UniformOffsetOutOfRange)
    );
    assert_eq!(storage.ubo_slice(), before.as_slice());
    assert_eq!(storage.push_slice(), &[0u8; 4]);
    assert_eq!(storage.bind_vec4(MemberOffset::Ubo(0), &[1, 2, 3, 4]), Ok(()));
    assert_eq!(storage.write_words(MemberOffset::Ubo(16), &[]), Ok(()));
    assert_eq!(storage.write_words(MemberOffset::Ubo(17), &[]), Err(FilterChainError::UniformOffsetOutOfRange));
}

#[test]
fn a_storage_without_blocks_takes_nothing() {
    let mut storage = UniformStorage::new(0, 0);
    assert_eq!(storage.bind_scalar(MemberOffset::Ubo(0), 1), Err(FilterChainError::UniformOffsetOutOfRange));
    assert_eq!(
        storage.bind_scalar(MemberOffset::PushConstant(0), 1),
        Err(FilterChainError::UniformOffsetOutOfRange)
    );
}

#[test]
fn ring_slots_cycle_through_the_ring() {
    assert_eq!(RING, 16);
    assert_eq!(ring_slot(0), 0);
    assert_eq!(ring_slot(15), 15);
    assert_eq!(ring_slot(16), 0);
    assert_eq!(ring_slot(u64::MAX), 15);
    for count in 0..100u64 {
        for gap in 1..16u64 {
            assert_ne!(ring_slot(count), ring_slot(count + gap));
        }
    }
}

#[test]
fn samplers_are_cached_by_state() {
    let mut set = SamplerSet::new();
    assert_eq!(set.get(WrapMode::Repeat, FilterMode::Linear, FilterMode::Nearest), None);
    assert_eq!(set.insert(WrapMode::Repeat, FilterMode::Linear, FilterMode::Nearest, 11), 11);
    assert_eq!(set.get(WrapMode::Repeat, FilterMode::Linear, FilterMode::Nearest), Some(11));
    assert_eq!(set.insert(WrapMode::Repeat, FilterMode::Linear, FilterMode::Nearest, 12), 11);
    assert_eq!(set.get(WrapMode::Repeat, FilterMode::Linear, FilterMode::Nearest), Some(11));
    assert_eq!(set.get(WrapMode::Repeat, FilterMode::Nearest, FilterMode::Linear), None);
    let wraps = [
        WrapMode::ClampToBorder,
        WrapMode::ClampToEdge,
        WrapMode::Repeat,
        WrapMode::MirroredRepeat,
        WrapMode::MirroredClamp,
    ];
    let filters = [FilterMode::Linear, FilterMode::Nearest];
    let mut next = 100;
    let mut fresh = SamplerSet::new();
    for wrap in wraps {
        for min in filters {
            for mip in filters {
                assert_eq!(fresh.insert(wrap, min, mip, next), next);
                next += 1;
            }
        }
    }
    let mut expected = 100;
    for wrap in wraps {
        for min in filters {
            for mip in filters {
                assert_eq!(fresh.get(wrap, min, mip), Some(expected));
                expected += 1;
            }
        }
    }
}

#[test]
fn every_error_has_its_message() {
    assert_eq!(FilterChainError::ShaderReflectError.message(), "shader reflect error");
    assert_eq!(FilterChainError::LutLoadError.message(), "lut loading error");
    assert_eq!(FilterChainError::FramebufferInit(0x8CDD).message(), "framebuffer init error");
    assert_eq!(FilterChainError::UniformOffsetOutOfRange.message(), "uniform offset out of range");
    assert_eq!(FilterChainError::AllocationMismatch.message(), "allocations do not answer the requests");
}
