use raytracer::budget::{check_memory_budget, required_bytes, GpuError, MemoryInfo};
use raytracer::budget::{MAX_MEMORY_BYTES, MAX_MEMORY_MB};

#[test]
fn guard_rejects_huge_frame_before_the_device() {
    // A 100000 x 100000 frame with an empty scene: the two pixel transfer
    // buffers alone need 100000 * 100000 * 16 * 2 bytes, far over the
    // ceiling, and the error carries the exact requirement including the
    // two uniform buffers (48 + 64 bytes).
    match check_memory_budget(100_000, 100_000, 0, 0, 0) {
        Err(GpuError::OutOfMemory { requested_bytes }) => {
            assert_eq!(requested_bytes, 320_000_000_112);
            let requested_mb = requested_bytes as f64 / (1024.0 * 1024.0);
            assert!(requested_mb > 305_175.78 && requested_mb < 305_175.79);
        }
        other => panic!("expected the out-of-memory error, got {:?}", discriminant_name(&other)),
    }
}

#[test]
fn guard_admits_exactly_at_the_ceiling() {
    // 112 uniform bytes plus 134_217_721 lights at 16 bytes each is exactly
    // the 2048 MiB ceiling: still admitted.
    assert_eq!(MAX_MEMORY_BYTES, MAX_MEMORY_MB * 1024 * 1024);
    match check_memory_budget(0, 0, 0, 0, 134_217_721) {
        Ok(bytes) => assert_eq!(bytes, 2_147_483_648),
        other => panic!("expected admission, got {:?}", discriminant_name(&other)),
    }
}

#[test]
fn guard_rejects_one_light_over_the_ceiling() {
    match check_memory_budget(0, 0, 0, 0, 134_217_722) {
        Err(GpuError::OutOfMemory { requested_bytes }) => {
            assert_eq!(requested_bytes, 2_147_483_664);
        }
        other => panic!("expected the out-of-memory error, got {:?}", discriminant_name(&other)),
    }
}

#[test]
fn requirement_counts_every_buffer() {
    // 800 x 600 pixels, 4 spheres, 1 plane, 2 lights:
    // 2 * 800*600*16 + 48 + 64 + 4*48 + 64 + 2*16 = 15_360_400.
    assert_eq!(required_bytes(800, 600, 4, 1, 2), 15_360_400);
}

#[test]
fn requirement_of_an_empty_render_is_the_uniforms() {
    assert_eq!(required_bytes(0, 0, 0, 0, 0), 112);
}

#[test]
fn statistics_keep_the_latest_and_the_peak() {
    let mut info = MemoryInfo::new();
    assert_eq!(info.total_allocated_bytes, 0);
    assert_eq!(info.peak_allocated_bytes, 0);
    info.record(1_000_000);
    assert_eq!(info.total_allocated_bytes, 1_000_000);
    assert_eq!(info.peak_allocated_bytes, 1_000_000);
    info.record(400_000);
    assert_eq!(info.total_allocated_bytes, 400_000);
    assert_eq!(info.peak_allocated_bytes, 1_000_000);
    info.record(2_000_000);
    assert_eq!(info.total_allocated_bytes, 2_000_000);
    assert_eq!(info.peak_allocated_bytes, 2_000_000);
}

fn discriminant_name(result: &Result<u64, GpuError>) -> &'static str {
    match result {
        Ok(_) => "Ok",
        Err(GpuError::NoAdapter) => "NoAdapter",
        Err(GpuError::DeviceRequest(_)) => "DeviceRequest",
        Err(GpuError::OutOfMemory { .. }) => "OutOfMemory",
    }
}
