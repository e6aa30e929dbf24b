//! The resource ownership graph: destruction in dependency order, one-time
//! image binding, bindings as ownership edges.
use vulkan_video::resources::{ResourceGraph, ResourceKind};
use vulkan_video::Variant;

fn chain() -> (ResourceGraph, usize, usize, usize, usize) {
    let mut g = ResourceGraph::new();
    let instance = g.create(ResourceKind::Instance, vec![]);
    let device = g.create(ResourceKind::Device, vec![instance]);
    let allocation = g.create(ResourceKind::Allocation, vec![device]);
    let buffer = g.create(ResourceKind::Buffer, vec![allocation, device]);
    (g, instance, device, allocation, buffer)
}

#[test]
fn releasing_device_keeps_it_while_buffer_is_held() {
    // Releasing a Device handle while a Buffer created from it is still
    // held must not destroy the Device's native object.
    let (mut g, instance, device, allocation, buffer) = chain();
    let dead = g.release(device);
    assert!(dead.is_empty());
    assert_eq!(g.handle_count(device), 0);
    assert!(g.is_alive(buffer));
    assert!(g.is_alive(device));
    assert!(g.is_alive(instance));

    // Destruction happens only once the Buffer (and the Allocation holding
    // the Device too) are released as well.
    let dead = g.release(buffer);
    assert_eq!(dead, vec![buffer]);
    assert!(g.is_alive(device), "allocation still depends on the device");
    let dead = g.release(allocation);
    assert_eq!(dead, vec![allocation, device]);
    assert!(!g.is_alive(device), "last owner released: device destroyed");
    assert!(g.is_alive(instance), "instance handle still held");
    let dead = g.release(instance);
    assert_eq!(dead, vec![instance]);
    assert!(!g.is_alive(instance));
}

#[test]
fn release_cascades_through_the_chain() {
    let (mut g, instance, device, allocation, buffer) = chain();
    // Release the intermediate handles first: each node stays alive
    // because a dependent still holds it.
    g.release(instance);
    g.release(device);
    g.release(allocation);
    assert!(g.is_alive(instance));
    assert!(g.is_alive(device));
    assert!(g.is_alive(allocation));
    assert!(g.is_alive(buffer));
    // Releasing the last handle to the buffer destroys the whole chain,
    // dependents reported before what they depend on.
    let dead = g.release(buffer);
    assert_eq!(dead, vec![buffer, allocation, device, instance]);
    assert!(!g.is_alive(buffer));
    assert!(!g.is_alive(allocation));
    assert!(!g.is_alive(device));
    assert!(!g.is_alive(instance));
}

#[test]
fn cloned_handles_keep_a_node_alive() {
    let mut g = ResourceGraph::new();
    let instance = g.create(ResourceKind::Instance, vec![]);
    g.clone_handle(instance);
    assert_eq!(g.handle_count(instance), 2);
    let dead = g.release(instance);
    assert!(dead.is_empty());
    assert!(g.is_alive(instance));
    g.release(instance);
    assert!(!g.is_alive(instance));
}

#[test]
fn binding_twice_fails_and_keeps_the_original_binding() {
    // Binding an already-bound image fails with "already bound" and leaves
    // the original binding intact.
    let mut g = ResourceGraph::new();
    let instance = g.create(ResourceKind::Instance, vec![]);
    let device = g.create(ResourceKind::Device, vec![instance]);
    let image = g.create(ResourceKind::Image, vec![device]);
    let allocation_a = g.create(ResourceKind::Allocation, vec![device]);
    let allocation_b = g.create(ResourceKind::Allocation, vec![device]);

    assert_eq!(g.bound_allocation(image), None);
    g.bind_image(image, allocation_a).unwrap();
    assert_eq!(g.bound_allocation(image), Some(allocation_a));

    let err = g.bind_image(image, allocation_b).unwrap_err();
    assert_eq!(err.variant(), Variant::ImageAlreadyBound);
    assert_eq!(g.bound_allocation(image), Some(allocation_a));
}

#[test]
fn binding_keeps_the_allocation_alive() {
    // The binding is an ownership edge: the allocation's memory outlives
    // the bound image, even when the allocation was created after it.
    let mut g = ResourceGraph::new();
    let instance = g.create(ResourceKind::Instance, vec![]);
    let device = g.create(ResourceKind::Device, vec![instance]);
    let image = g.create(ResourceKind::Image, vec![device]);
    let allocation = g.create(ResourceKind::Allocation, vec![device]);
    g.bind_image(image, allocation).unwrap();

    // Release the allocation's own handle: the bound image keeps it alive.
    let dead = g.release(allocation);
    assert!(dead.is_empty());
    assert!(g.is_alive(allocation));
    assert!(g.is_alive(image));

    // Releasing the image destroys both. The report lists dead nodes in
    // descending node order; the driver layer destroys by kind phase, so
    // the image's native object still goes before the memory is freed.
    let dead = g.release(image);
    assert_eq!(dead, vec![allocation, image]);
    assert!(!g.is_alive(image));
    assert!(!g.is_alive(allocation));
}
