use glsample::axis::Axis;
use glsample::cone::{Cone, ConeCorner, ConeNormal, ConePoint};
use glsample::demo::SceneItem;
use glsample::id_to_enum;
use glsample::material::{ActiveFace, FACE_BACK, FACE_FRONT};
use glsample::mesh::{Quad, Triangle};
use glsample::ocean::{Ocean, WaveCorner, OFFSET_RANGE, WATER_SIZE};
use glsample::propeller::Propeller;
use glsample::ship::Ship;
use glsample::torus::{RingCorner, Torus};

fn ring(major: u32, minor: u32) -> RingCorner {
    RingCorner { major, minor }
}

fn expected_quad(a: u32, i: u32) -> Quad<RingCorner> {
    Quad { a: ring(a, i + 1), b: ring(a, i), c: ring(a + 1, i), d: ring(a + 1, i + 1) }
}

fn counting_offsets() -> Vec<u32> {
    (0..400u32).map(|k| k * 1000).collect()
}

#[test]
fn default_torus_has_sixteen_by_six_quads() {
    let torus = Torus::new();
    assert_eq!(torus.major_radius, 3000);
    assert_eq!(torus.minor_radius, 1000);
    let quads = torus.quads();
    assert_eq!(quads.len(), 16 * 6);
    assert_eq!(quads[0], expected_quad(0, 0));
    assert_eq!(quads[7], expected_quad(1, 1));
    assert_eq!(quads[95], expected_quad(15, 5));
    for a in 0..16u32 {
        for i in 0..6u32 {
            assert_eq!(quads[(a * 6 + i) as usize], expected_quad(a, i));
        }
    }
}

#[test]
fn torus_quad_count_is_product_of_segments() {
    for (m, n) in [(0, 5), (5, 0), (0, 0), (3, 4), (7, 2)] {
        let torus = Torus { major_radius: 2000, major_segments: m, minor_radius: 500, minor_segments: n };
        assert_eq!(torus.quads().len(), (m * n) as usize);
    }
}

#[test]
fn single_major_segment_gives_one_ring() {
    let torus = Torus { major_radius: 3000, major_segments: 1, minor_radius: 1000, minor_segments: 6 };
    let quads = torus.quads();
    assert_eq!(quads.len(), 6);
    for i in 0..6u32 {
        assert_eq!(quads[i as usize], expected_quad(0, i));
    }
}

#[test]
fn single_minor_segment_gives_one_ring() {
    let torus = Torus { major_radius: 3000, major_segments: 16, minor_radius: 1000, minor_segments: 1 };
    let quads = torus.quads();
    assert_eq!(quads.len(), 16);
    for a in 0..16u32 {
        assert_eq!(quads[a as usize], expected_quad(a, 0));
    }
}

#[test]
fn single_step_both_ways_gives_one_quad() {
    let torus = Torus { major_radius: 3000, major_segments: 1, minor_radius: 1000, minor_segments: 1 };
    assert_eq!(torus.quads(), vec![expected_quad(0, 0)]);
}

#[test]
fn torus_does_not_animate() {
    let mut torus = Torus::new();
    torus.anim(123_456);
    assert_eq!(torus, Torus::new());
}

#[test]
fn default_cone_has_side_and_base_per_segment() {
    let cone = Cone::new();
    assert_eq!((cone.height, cone.radius, cone.segments), (1000, 500, 8));
    let tris = cone.triangles();
    assert_eq!(tris.len(), 16);
    let down = |point| ConeCorner { point, normal: ConeNormal::Down };
    for i in 0..8u32 {
        let step = 2 * i as u64;
        assert_eq!(
            tris[2 * i as usize],
            Triangle {
                a: ConeCorner { point: ConePoint::Apex, normal: ConeNormal::Slant(step + 1) },
                b: ConeCorner { point: ConePoint::Rim(i), normal: ConeNormal::Slant(step) },
                c: ConeCorner { point: ConePoint::Rim(i + 1), normal: ConeNormal::Slant(step + 2) },
            }
        );
        assert_eq!(
            tris[2 * i as usize + 1],
            Triangle { a: down(ConePoint::Center), b: down(ConePoint::Rim(i + 1)), c: down(ConePoint::Rim(i)) }
        );
    }
}

#[test]
fn cone_without_segments_is_empty() {
    let cone = Cone { height: 1000, radius: 500, segments: 0 };
    assert!(cone.triangles().is_empty());
}

#[test]
fn ocean_rejects_a_grid_of_the_wrong_size() {
    assert!(Ocean::from_offsets(vec![0; 399]).is_none());
    assert!(Ocean::from_offsets(vec![0; 401]).is_none());
    assert!(Ocean::from_offsets(Vec::new()).is_none());
}

#[test]
fn ocean_rejects_offsets_out_of_range() {
    let mut offsets = vec![0; 400];
    offsets[399] = OFFSET_RANGE;
    assert!(Ocean::from_offsets(offsets.clone()).is_none());
    offsets[399] = OFFSET_RANGE - 1;
    assert!(Ocean::from_offsets(offsets).is_some());
}

#[test]
fn ocean_phase_is_time_plus_offset() {
    let mut ocean = Ocean::from_offsets(counting_offsets()).unwrap();
    assert_eq!(ocean.time(), 0);
    assert_eq!(ocean.phase(0, 0), 0);
    assert_eq!(ocean.phase(1, 2), 22_000);
    ocean.animate(1_000_000);
    assert_eq!(ocean.time(), 1_000_000);
    for r in 0..WATER_SIZE {
        for c in 0..WATER_SIZE {
            let offset = ((r * WATER_SIZE + c) * 1000) as u64;
            assert_eq!(ocean.phase(r, c), 2000 + offset);
        }
    }
    ocean.animate(750);
    assert_eq!(ocean.phase(0, 0), 2001);
}

#[test]
fn ocean_quads_cover_the_grid_with_phases() {
    let mut ocean = Ocean::from_offsets(counting_offsets()).unwrap();
    ocean.animate(500_000);
    let quads = ocean.quads();
    assert_eq!(quads.len(), 19 * 19);
    let corner = |row: u32, col: u32| WaveCorner {
        row,
        col,
        phase: 1000 + (row as u64 * 20 + col as u64) * 1000,
    };
    assert_eq!(quads[0], Quad { a: corner(0, 0), b: corner(0, 1), c: corner(1, 1), d: corner(1, 0) });
    assert_eq!(
        quads[19 * 3 + 4],
        Quad { a: corner(3, 4), b: corner(3, 5), c: corner(4, 5), d: corner(4, 4) }
    );
    assert_eq!(
        quads[360],
        Quad { a: corner(18, 18), b: corner(18, 19), c: corner(19, 19), d: corner(19, 18) }
    );
}

#[test]
fn random_ocean_offsets_stay_in_range() {
    let ocean = Ocean::new();
    assert_eq!(ocean.time(), 0);
    assert!(!ocean.morph_on());
    assert!(!ocean.texture_on());
    assert_eq!(ocean.texture(), 0);
    let mut all_equal = true;
    for r in 0..WATER_SIZE {
        for c in 0..WATER_SIZE {
            assert!(ocean.phase(r, c) < OFFSET_RANGE as u64);
            all_equal = all_equal && ocean.phase(r, c) == ocean.phase(0, 0);
        }
    }
    assert!(!all_equal);
}

#[test]
fn ocean_clock_stops_at_its_largest_value() {
    let mut ocean = Ocean::from_offsets(vec![0; 400]).unwrap();
    ocean.animate(u64::MAX - 10);
    ocean.animate(u64::MAX);
    assert_eq!(ocean.time(), u64::MAX);
    assert_eq!(ocean.phase(0, 0), u64::MAX / 500);
}

#[test]
fn ocean_toggles_flip_their_flag_only() {
    let mut ocean = Ocean::from_offsets(vec![7; 400]).unwrap();
    ocean.toggle_morph();
    assert!(ocean.morph_on());
    assert!(!ocean.texture_on());
    ocean.toggle_texture();
    assert!(ocean.texture_on());
    ocean.toggle_morph();
    assert!(!ocean.morph_on());
    ocean.set_texture(12);
    assert_eq!(ocean.texture(), 12);
    assert_eq!(ocean.phase(5, 5), 7);
}

#[test]
fn light_ids_map_to_consecutive_enums() {
    assert_eq!(id_to_enum(0), 0x4000);
    assert_eq!(id_to_enum(3), 0x4003);
    assert_eq!(id_to_enum(7), 0x4007);
}

#[test]
fn active_face_selects_faces() {
    assert_eq!(ActiveFace::Front.faces(), vec![FACE_FRONT]);
    assert_eq!(ActiveFace::Back.faces(), vec![FACE_BACK]);
    assert_eq!(ActiveFace::FrontAndBack.faces(), vec![0x0404, 0x0405]);
}

#[test]
fn cached_meshes_start_without_a_display_list() {
    let mut axis = Axis::new();
    let mut ship = Ship::new();
    let mut propeller = Propeller::new();
    assert_eq!((axis.display_list(), ship.display_list(), propeller.display_list()), (0, 0, 0));
    axis.set_display_list(3);
    ship.set_display_list(4);
    propeller.set_display_list(5);
    axis.anim(1000);
    assert_eq!((axis.display_list(), ship.display_list(), propeller.display_list()), (3, 4, 5));
}
