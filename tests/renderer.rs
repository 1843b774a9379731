use interlumen::renderer::{MarchStep, Probe, Renderer};

#[test]
fn probe_within_threshold_hits() {
    assert_eq!(Renderer::march_step(0, 80, Probe::Within), MarchStep::Hit);
    assert_eq!(Renderer::march_step(79, 80, Probe::Within), MarchStep::Hit);
}

#[test]
fn probe_beyond_max_distance_misses() {
    assert_eq!(Renderer::march_step(0, 80, Probe::Beyond), MarchStep::Miss);
}

#[test]
fn probe_in_between_advances_until_budget_is_spent() {
    assert_eq!(Renderer::march_step(0, 80, Probe::Between), MarchStep::Advance);
    assert_eq!(Renderer::march_step(78, 80, Probe::Between), MarchStep::Advance);
    assert_eq!(Renderer::march_step(79, 80, Probe::Between), MarchStep::Miss);
}

#[test]
fn march_far_from_every_object_never_hits() {
    let max = 10usize;
    let mut i = 0usize;
    let mut last = MarchStep::Advance;
    while i < max && last == MarchStep::Advance {
        last = Renderer::march_step(i, max, Probe::Beyond);
        i += 1;
    }
    assert_eq!(last, MarchStep::Miss);
    assert_eq!(i, 1);
}

#[test]
fn missing_material_falls_back() {
    let table = vec![10u32, 20, 30];
    let fallback = 99u32;
    assert_eq!(*Renderer::resolve_material(&table, 1, &fallback), 20);
    assert_eq!(*Renderer::resolve_material(&table, 3, &fallback), 99);
    let empty: Vec<u32> = Vec::new();
    assert_eq!(*Renderer::resolve_material(&empty, 0, &fallback), 99);
}
