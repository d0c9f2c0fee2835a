use ronin::mipgen::{generate_mipmaps, mip_level_count, BlitPass, MipView};

#[test]
fn square_power_of_two_chain_halves_each_level() {
    let chain = generate_mipmaps(256, 256, 9);
    assert_eq!(chain.views.len(), 9);
    for (i, v) in chain.views.iter().enumerate() {
        assert_eq!(v.level as usize, i);
        assert_eq!(v.width, 256 >> i);
        assert_eq!(v.height, 256 >> i);
    }
    assert_eq!(chain.views[8], MipView { level: 8, width: 1, height: 1 });
    assert_eq!(chain.passes.len(), 8);
    for (i, p) in chain.passes.iter().enumerate() {
        assert_eq!(
            *p,
            BlitPass { source_level: i as u32, target_level: i as u32 + 1, vertex_count: 4, instance_count: 1 }
        );
    }
}

#[test]
fn chain_stops_at_one_texel() {
    let chain = generate_mipmaps(4, 4, 5);
    let widths: Vec<u32> = chain.views.iter().map(|v| v.width).collect();
    assert_eq!(widths, vec![4, 2, 1, 1, 1]);
}

#[test]
fn empty_and_single_level_chains() {
    let none = generate_mipmaps(64, 64, 0);
    assert!(none.views.is_empty());
    assert!(none.passes.is_empty());
    let one = generate_mipmaps(64, 32, 1);
    assert_eq!(one.views, vec![MipView { level: 0, width: 64, height: 32 }]);
    assert!(one.passes.is_empty());
}

#[test]
fn rectangular_chain_clamps_each_side() {
    let chain = generate_mipmaps(8, 2, 4);
    let sizes: Vec<(u32, u32)> = chain.views.iter().map(|v| (v.width, v.height)).collect();
    assert_eq!(sizes, vec![(8, 2), (4, 1), (2, 1), (1, 1)]);
}

#[test]
fn level_counts() {
    assert_eq!(mip_level_count(256, 256), 8);
    assert_eq!(mip_level_count(300, 300), 8);
    assert_eq!(mip_level_count(512, 256), 1);
    assert_eq!(mip_level_count(2, 2), 1);
    assert_eq!(mip_level_count(1, 1), 1);
    assert_eq!(mip_level_count(0, 0), 1);
    assert_eq!(mip_level_count(u32::MAX, u32::MAX), 31);
}
