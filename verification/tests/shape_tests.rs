use orbit_sandbox::math::{div_trunc64, isqrt64, V3};
use orbit_sandbox::quat::{quat_identity, quat_renormalize, rotate_vec, Quat, QNORM, QS, QTOL};
use orbit_sandbox::square::Square;
use orbit_sandbox::texture::{upload_plan, ImageFormat, TextureLoadBuilder, TextureLoadOptions};
use orbit_sandbox::textured_square::TexturedSquare;
use orbit_sandbox::triangle::{Tri1, Tri2};

#[test]
fn the_square_has_its_four_corners_and_six_indices() {
    let s = Square::new();
    assert_eq!(s.vertices.len(), 4);
    assert_eq!(s.vertices[0].pos, V3 { x: -500_000, y: -500_000, z: 0 });
    assert_eq!((s.vertices[0].color.r, s.vertices[0].color.g), (255, 0));
    assert_eq!(s.vertices[3].pos, V3 { x: -500_000, y: 500_000, z: 0 });
    assert_eq!(s.indices, vec![0, 1, 2, 2, 3, 0]);
    assert_eq!(s.index_count(), 6);
}

#[test]
fn the_triangles_have_their_exact_vertices() {
    let t1 = Tri1::new();
    assert_eq!(t1.vertex_count(), 3);
    assert_eq!(t1.vertices[1].pos, V3 { x: -1_000_000, y: -500_000, z: 0 });
    assert_eq!((t1.vertices[2].color.b, t1.vertices[2].color.a), (255, 255));

    let t2 = Tri2::new();
    assert_eq!(t2.vertex_count(), 3);
    assert_eq!(t2.vertices[0].pos, V3 { x: 1_000_000, y: -500_000, z: 0 });
    let c = t2.vertices[1].color;
    assert_eq!((c.r, c.g, c.b, c.a), (255, 102, 178, 255));
}

#[test]
fn the_textured_square_flips_its_texture_coordinates() {
    let s = TexturedSquare::new();
    assert_eq!((s.vertices[0].tex.u, s.vertices[0].tex.v), (1, 1));
    assert_eq!((s.vertices[2].tex.u, s.vertices[2].tex.v), (0, 0));
    assert_eq!(s.index_count(), 6);
    assert_eq!(s.position, V3 { x: 0, y: 0, z: 0 });
}

#[test]
fn the_textured_square_drifts_diagonally() {
    let mut s = TexturedSquare::new();
    s.update();
    assert_eq!(s.position, V3 { x: 10_000, y: 10_000, z: 0 });
    s.update();
    assert_eq!(s.position, V3 { x: 20_000, y: 20_000, z: 0 });
}

#[test]
fn load_options_carry_format_and_mipmap_choice() {
    let o = TextureLoadOptions::from_res_rgb("textures/test.png");
    assert_eq!(o.resource_name, "textures/test.png");
    assert_eq!(o.format, ImageFormat::Rgb);
    assert!(!o.gen_mipmaps);

    let o2 = TextureLoadOptions::from_res_rgba("textures/alpha.png");
    assert_eq!(o2.format, ImageFormat::Rgba);

    let b = TextureLoadBuilder::from_res_rgb("textures/test.png").with_gen_mipmaps();
    assert!(b.options.gen_mipmaps);
    assert_eq!(b.options.format, ImageFormat::Rgb);
}

#[test]
fn upload_plans_clamp_levels_exactly_when_mipmaps_are_off() {
    let o = TextureLoadOptions::from_res_rgb("textures/test.png");
    let p = upload_plan(&o, 256, 128);
    assert!(p.clamp_levels);
    assert!(!p.gen_mipmaps);
    assert_eq!((p.width, p.height), (256, 128));

    let b = TextureLoadBuilder::from_res_rgba("textures/test.png").with_gen_mipmaps();
    let p2 = upload_plan(&b.options, 64, 64);
    assert!(p2.gen_mipmaps);
    assert!(!p2.clamp_levels);
    assert_eq!(p2.format, ImageFormat::Rgba);
}

#[test]
fn truncating_division_rounds_toward_zero() {
    assert_eq!(div_trunc64(7, 2), 3);
    assert_eq!(div_trunc64(-7, 2), -3);
    assert_eq!(div_trunc64(-1, 3), 0);
}

#[test]
fn integer_square_roots_are_floors() {
    assert_eq!(isqrt64(0), 0);
    assert_eq!(isqrt64(15), 3);
    assert_eq!(isqrt64(16), 4);
    assert_eq!(isqrt64(u64::MAX), 4_294_967_295);
}

#[test]
fn renormalizing_the_identity_is_the_identity() {
    let q = quat_identity();
    assert_eq!(quat_renormalize(&q), Some(q));
}

#[test]
fn rotating_a_vector_by_the_identity_returns_it() {
    let q = quat_identity();
    let v = V3 { x: 123_456, y: -9, z: 4_000_000 };
    assert_eq!(rotate_vec(&q, &v), v);
}

#[test]
fn a_quarter_turn_about_y_swaps_x_and_z() {
    // (cos 45, 0, sin 45, 0) scaled: w == y gives a 90 degree yaw, whose
    // conjugation maps (x, y, z) to (z, y, -x) exactly.
    let q = Quat { w: 46_341, x: 0, y: 46_341, z: 0 };
    let v = V3 { x: 1_000_000, y: 5, z: 2_000_000 };
    let r = rotate_vec(&q, &v);
    assert_eq!(r, V3 { x: 2_000_000, y: 5, z: -1_000_000 });
}

#[test]
fn degenerate_quaternions_are_rejected_by_renormalization() {
    let q = Quat { w: 1, x: 0, y: 0, z: 0 };
    assert_eq!(quat_renormalize(&q), None);
}

#[test]
fn nondegenerate_quaternions_always_renormalize() {
    // Drifted well away from unit length, but far from degenerate: the
    // rescaled result must come back within tolerance.
    let q = Quat { w: 70_000, x: 300, y: -200, z: 5 };
    let r = quat_renormalize(&q).expect("nondegenerate input");
    let n = r.w * r.w + r.x * r.x + r.y * r.y + r.z * r.z;
    assert!(QNORM - QTOL <= n && n <= QNORM + QTOL);
}

#[test]
fn the_identity_quaternion_is_exactly_unit() {
    let q = quat_identity();
    assert_eq!(q.w, QS);
    assert_eq!(q.w * q.w + q.x * q.x + q.y * q.y + q.z * q.z, QS * QS);
}
