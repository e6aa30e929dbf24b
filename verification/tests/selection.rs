//! Queue-family, heap and memory-type selection, creation parameters, and
//! session memory planning.
use vulkan_video::resources::{BufferInfo, Extent3D, ImageInfo, MemoryRequirements};
use vulkan_video::video::plan_video_session_memory;
use vulkan_video::{HeapInfos, MemoryTypeIndex, QueueFamilyInfos};

#[test]
fn queue_families_pick_the_first_matching_family() {
    // Family 0: graphics only; family 1: compute; family 2: video decode;
    // family 3: compute again.
    let flags = vec![0x1, 0x2 | 0x1, 0x20, 0x2];
    let infos = QueueFamilyInfos::new(&flags);
    assert_eq!(infos.any_compute(), Some(1));
    assert_eq!(infos.any_decode(), Some(2));
    assert_eq!(infos.available(), &[1, 2]);

    let none = QueueFamilyInfos::new(&vec![0x1, 0x1]);
    assert_eq!(none.any_compute(), None);
    assert_eq!(none.any_decode(), None);
    assert_eq!(none.available(), &[] as &[u32]);
}

#[test]
fn heaps_pick_the_first_matching_memory_type() {
    // Type 0: device-local; type 1: device-local and host-visible;
    // type 2: host-visible.
    let heaps = HeapInfos::new(vec![0x1, 0x3, 0x2]);
    assert_eq!(heaps.any_device_local().map(|m| m.index()), Some(0));
    assert_eq!(heaps.any_host_visible().map(|m| m.index()), Some(1));

    let none = HeapInfos::new(vec![0x4]);
    assert!(none.any_host_visible().is_none());
    assert!(none.any_device_local().is_none());
}

#[test]
fn any_heap_takes_the_lowest_set_bit() {
    let req = MemoryRequirements::new(4096, 256, 0b1100);
    assert_eq!(req.size(), 4096);
    assert_eq!(req.alignment(), 256);
    assert_eq!(req.any_heap().index(), 2);
    let empty = MemoryRequirements::new(0, 0, 0);
    assert_eq!(empty.any_heap().index(), 32);
    assert_eq!(MemoryTypeIndex::new(5).index(), 5);
}

#[test]
fn session_memory_plan_mirrors_the_requirements() {
    let requirements = vec![
        MemoryRequirements::new(1024, 16, 0b10),
        MemoryRequirements::new(2048, 32, 0b101),
    ];
    let plan = plan_video_session_memory(&requirements);
    assert_eq!(plan.len(), 2);
    assert_eq!(plan[0].memory_bind_index, 0);
    assert_eq!(plan[0].size, 1024);
    assert_eq!(plan[0].memory_type_index, 1);
    assert_eq!(plan[1].memory_bind_index, 1);
    assert_eq!(plan[1].size, 2048);
    assert_eq!(plan[1].memory_type_index, 0);
}

#[test]
fn buffer_info_builder_sets_each_field() {
    let info = BufferInfo::new();
    assert_eq!(info.size, 0);
    assert_eq!(info.alignment, None);
    assert_eq!(info.offset, None);
    let info = BufferInfo::new().size(1024).alignment(0).offset(2048);
    assert_eq!(info.size, 1024);
    assert_eq!(info.alignment, Some(0));
    assert_eq!(info.offset, Some(2048));
}

#[test]
fn image_info_builder_sets_each_field() {
    let info = ImageInfo::new()
        .format(23)
        .samples(1)
        .usage(0x3)
        .mip_levels(1)
        .array_layers(1)
        .image_type(1)
        .tiling(0)
        .layout(0)
        .extent(Extent3D { width: 512, height: 512, depth: 1 });
    assert_eq!(info.format, 23);
    assert_eq!(info.samples, 1);
    assert_eq!(info.usage, 0x3);
    assert_eq!(info.mip_levels, 1);
    assert_eq!(info.array_layers, 1);
    assert_eq!(info.image_type, 1);
    assert_eq!(info.tiling, 0);
    assert_eq!(info.get_extent(), Extent3D { width: 512, height: 512, depth: 1 });
}
