use arm_viz::texture::random_color;

#[test]
fn random_color_has_zero_alpha() {
    for _ in 0..16 {
        let c = random_color();
        assert_eq!(c[3], 0);
    }
}
