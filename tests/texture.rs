use voxel_raytracer::color::Color;
use voxel_raytracer::depth::{depth_exhausted, next_depth, MAX_DEPTH};
use voxel_raytracer::skybox::{Face, Skybox};
use voxel_raytracer::texture::Texture;

fn two_by_two() -> Texture {
    let bytes: Vec<u8> = vec![
        1, 2, 3, 255, 4, 5, 6, 255, //
        7, 8, 9, 0, 10, 11, 12, 128,
    ];
    Texture::from_rgba(2, 2, &bytes).unwrap()
}

fn solid(c: Color) -> Texture {
    Texture::from_rgba(1, 1, &vec![c.r, c.g, c.b, 255]).unwrap()
}

#[test]
fn rgba_bytes_decode_row_major_without_alpha() {
    let t = two_by_two();
    assert_eq!(t.width, 2);
    assert_eq!(t.height, 2);
    assert_eq!(
        t.texels,
        vec![
            Color::new(1, 2, 3),
            Color::new(4, 5, 6),
            Color::new(7, 8, 9),
            Color::new(10, 11, 12)
        ]
    );
    assert_eq!(t.texel(1, 0), Color::new(4, 5, 6));
    assert_eq!(t.texel(0, 1), Color::new(7, 8, 9));
}

#[test]
fn rgba_bytes_of_wrong_length_are_refused() {
    assert!(Texture::from_rgba(2, 2, &vec![0; 15]).is_none());
    assert!(Texture::from_rgba(2, 2, &vec![0; 17]).is_none());
    assert!(Texture::from_rgba(0, 2, &vec![]).is_none());
    assert!(Texture::from_rgba(2, 0, &vec![]).is_none());
    assert!(Texture::from_rgba(u32::MAX, u32::MAX, &vec![0; 4]).is_none());
}

#[test]
fn texel_coordinates_clamp_to_last_row_and_column() {
    let t = two_by_two();
    assert_eq!(t.texel_clamped(0, 0), Color::new(1, 2, 3));
    assert_eq!(t.texel_clamped(5, 0), Color::new(4, 5, 6));
    assert_eq!(t.texel_clamped(0, 9), Color::new(7, 8, 9));
    assert_eq!(t.texel_clamped(u32::MAX, u32::MAX), Color::new(10, 11, 12));
}

#[test]
fn each_face_samples_its_own_texture() {
    let sky = Skybox::new(
        solid(Color::new(1, 0, 0)),
        solid(Color::new(2, 0, 0)),
        solid(Color::new(3, 0, 0)),
        solid(Color::new(4, 0, 0)),
        solid(Color::new(5, 0, 0)),
        two_by_two(),
    );
    assert_eq!(sky.sample_face(Face::Right, 0, 0).r, 1);
    assert_eq!(sky.sample_face(Face::Left, 7, 7).r, 2);
    assert_eq!(sky.sample_face(Face::Top, 0, 0).r, 3);
    assert_eq!(sky.sample_face(Face::Bottom, 0, 0).r, 4);
    assert_eq!(sky.sample_face(Face::Front, 0, 0).r, 5);
    assert_eq!(sky.sample_face(Face::Back, 1, 3), Color::new(10, 11, 12));
    assert_eq!(sky.face(Face::Back).width, 2);
}

#[test]
fn recursion_stops_past_third_level() {
    assert_eq!(MAX_DEPTH, 3);
    assert!(!depth_exhausted(0));
    assert!(!depth_exhausted(3));
    assert!(depth_exhausted(4));
    assert!(depth_exhausted(u32::MAX));
    assert_eq!(next_depth(3), 4);
    assert_eq!(next_depth(0), 1);
}
