use bokeh_creator::noise_source;
use libnoise::{Generator, Source};

fn probes() -> Vec<[f64; 2]> {
    vec![
        [0.2, 0.5],
        [-3.75, 12.125],
        [17.0, -0.013],
        [101.3, 99.9],
        [0.0, 0.0],
    ]
}

#[test]
fn source_is_the_simplex_noise_of_its_seed() {
    let source = noise_source(30);
    let expected = Source::<2>::simplex(30u64);
    for point in probes() {
        assert_eq!(source.sample(point), expected.sample(point));
    }
}

#[test]
fn negative_seed_gives_the_source_of_seed_zero() {
    let source = noise_source(-12);
    let expected = Source::<2>::simplex(0u64);
    for point in probes() {
        assert_eq!(source.sample(point), expected.sample(point));
    }
}

#[test]
fn same_seed_same_noise() {
    let first = noise_source(7);
    let second = noise_source(7);
    for point in probes() {
        assert_eq!(first.sample(point), second.sample(point));
    }
}

#[test]
fn seeds_are_told_apart() {
    let first = noise_source(0);
    let second = noise_source(30);
    assert!(probes()
        .into_iter()
        .any(|point| first.sample(point) != second.sample(point)));
}
