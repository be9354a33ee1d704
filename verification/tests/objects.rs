use raytracer3::color::Color;
use raytracer3::materials::{Bsdf, Emission, Transmission};
use raytracer3::objects::list::List;
use raytracer3::objects::plane::Plane;
use raytracer3::objects::sphere::Sphere;
use raytracer3::objects::{Crossing, HitInfo, Interval, Object};
use raytracer3::scalar::Scalar;
use raytracer3::vector::Vec3;

fn s(x: f32) -> Scalar {
    Scalar::from_bits(x.to_bits())
}

fn f(x: Scalar) -> f32 {
    f32::from_bits(x.to_bits())
}

fn v(a: [f32; 3]) -> Vec3 {
    Vec3::from_bits([a[0].to_bits(), a[1].to_bits(), a[2].to_bits()])
}

fn a(v: Vec3) -> [f32; 3] {
    let b = v.to_bits();
    [f32::from_bits(b[0]), f32::from_bits(b[1]), f32::from_bits(b[2])]
}

fn dot(p: [f32; 3], q: [f32; 3]) -> f32 {
    let mut acc = 0.0;
    for i in 0..3 {
        acc += p[i] * q[i];
    }
    acc
}

fn sub(p: [f32; 3], q: [f32; 3]) -> [f32; 3] {
    [p[0] - q[0], p[1] - q[1], p[2] - q[2]]
}

fn unit(p: [f32; 3]) -> [f32; 3] {
    let k = 1.0 / dot(p, p).sqrt();
    [p[0] * k, p[1] * k, p[2] * k]
}

fn at(origin: [f32; 3], direction: [f32; 3], t: f32) -> [f32; 3] {
    [direction[0] * t + origin[0], direction[1] * t + origin[1], direction[2] * t + origin[2]]
}

fn material(tag: f32) -> Bsdf {
    Bsdf {
        base_color: Color(v([tag, tag, tag])),
        metallic: s(0.0),
        roughness: s(0.5),
        ior: s(1.5),
        transmission: Transmission { weight: s(0.0) },
        emission: Emission { color: Color(v([0.0, 0.0, 0.0])), strength: s(0.0) },
    }
}

fn crossing(center: [f32; 3], origin: [f32; 3], direction: [f32; 3], t: f32) -> Crossing {
    let normal = unit(sub(at(origin, direction, t), center));
    Crossing { distance: s(t), normal: v(normal), facing: s(dot(direction, normal)) }
}

/// Solves the quadratic of a ray against a sphere, as the renderer does.
fn solve<'a>(
    center: [f32; 3],
    radius: f32,
    origin: [f32; 3],
    direction: [f32; 3],
    bsdf: &'a Bsdf,
) -> Sphere<'a> {
    let oc = sub(center, origin);
    let a = dot(direction, direction);
    let h = dot(direction, oc);
    let c = dot(oc, oc) - radius * radius;
    let d = h * h - a * c;
    let sqrt_d = d.sqrt();
    Sphere::new(
        s(d),
        crossing(center, origin, direction, (h - sqrt_d) / a),
        crossing(center, origin, direction, (h + sqrt_d) / a),
        bsdf,
    )
}

fn meet<'a>(
    normal: [f32; 3],
    point: [f32; 3],
    origin: [f32; 3],
    direction: [f32; 3],
    bsdf: &'a Bsdf,
) -> Plane<'a> {
    let d = dot(normal, direction);
    let t = dot(sub(point, origin), normal) / d;
    let against = [-normal[0], -normal[1], -normal[2]];
    Plane::new(s(d), s(t), v(normal), s(dot(direction, against)), bsdf)
}

fn reach() -> Interval {
    Interval::new(s(0.0001), s(f32::INFINITY))
}

#[test]
fn interval_leaves_out_both_ends() {
    let range = Interval::new(s(1.0), s(2.0));
    assert!(!range.contains(s(1.0)));
    assert!(range.contains(s(1.5)));
    assert!(range.contains(f32_next(1.0)));
    assert!(!range.contains(s(2.0)));
    assert!(!range.contains(s(0.5)));
    assert!(!range.contains(s(2.5)));
    assert!(!range.contains(s(f32::NAN)));
    assert!(!Interval::new(s(2.0), s(1.0)).contains(s(1.5)));
    assert!(!Interval::new(s(f32::NAN), s(2.0)).contains(s(1.5)));
    assert!(Interval::new(s(0.0001), s(f32::INFINITY)).contains(s(f32::MAX)));
    assert!(!Interval::new(s(0.0001), s(f32::INFINITY)).contains(s(f32::INFINITY)));
}

fn f32_next(x: f32) -> Scalar {
    Scalar::from_bits(x.to_bits() + 1)
}

#[test]
fn correct_normal_keeps_a_normal_that_faces_the_ray() {
    let m = material(0.1);
    let hit = HitInfo { distance: s(3.0), normal: v([0.0, 0.0, 1.0]), front_face: false, bsdf: &m };
    let r = hit.correct_normal(s(-0.25));
    assert!(r.front_face);
    assert_eq!(r.normal, v([0.0, 0.0, 1.0]));
    assert_eq!(r.distance, s(3.0));
    assert_eq!(*r.bsdf, m);
}

#[test]
fn correct_normal_turns_a_normal_that_runs_with_the_ray() {
    let m = material(0.1);
    let hit = HitInfo { distance: s(3.0), normal: v([0.0, 0.6, 0.8]), front_face: true, bsdf: &m };
    let r = hit.correct_normal(s(0.25));
    assert!(!r.front_face);
    assert_eq!(a(r.normal), [-0.0, -0.6, -0.8]);
    assert_eq!(r.normal.to_bits()[0], (-0.0f32).to_bits());
    assert_eq!(r.distance, s(3.0));
}

#[test]
fn correct_normal_turns_on_zero_and_on_nan() {
    let m = material(0.1);
    let hit = HitInfo { distance: s(1.0), normal: v([1.0, 0.0, 0.0]), front_face: false, bsdf: &m };
    assert!(!hit.correct_normal(s(0.0)).front_face);
    assert_eq!(a(hit.correct_normal(s(0.0)).normal)[0], -1.0);
    assert!(!hit.correct_normal(s(-0.0)).front_face);
    assert!(!hit.correct_normal(s(f32::NAN)).front_face);
    assert_eq!(a(hit.correct_normal(s(f32::NAN)).normal)[0], -1.0);
    assert!(hit.correct_normal(s(-f32::MIN_POSITIVE)).front_face);
}

#[test]
fn sphere_round_trip() {
    let m = material(0.3);
    let center = [1.0f32, 2.0, -7.0];
    let radius = 1.5f32;
    let origin = [0.0f32, 0.0, 0.0];
    let direction = unit(sub(center, origin));
    let sphere = solve(center, radius, origin, direction, &m);
    let hit = sphere.hit(reach()).expect("a ray aimed at the centre hits");
    let expected = dot(sub(origin, center), sub(origin, center)).sqrt() - radius;
    assert!((f(hit.distance) - expected).abs() < 1.0e-4);
    let point = at(origin, direction, f(hit.distance));
    let outward = unit(sub(point, center));
    let n = a(hit.normal);
    for i in 0..3 {
        assert!((n[i] - outward[i]).abs() < 1.0e-6);
    }
    assert!(hit.front_face);
    assert!(dot(direction, n) <= 0.0);
    assert_eq!(*hit.bsdf, m);
}

#[test]
fn sphere_seen_from_inside_is_hit_at_the_larger_root() {
    let m = material(0.3);
    let center = [0.0f32, 0.0, 0.0];
    let direction = [0.0f32, 0.0, -1.0];
    let sphere = solve(center, 2.0, [0.0, 0.0, 0.5], direction, &m);
    let hit = sphere.hit(reach()).expect("a ray inside a sphere hits its wall");
    assert_eq!(f(hit.distance), 2.5);
    assert!(!hit.front_face);
    assert_eq!(a(hit.normal), [-0.0, -0.0, 1.0]);
    assert!(dot(direction, a(hit.normal)) <= 0.0);
}

#[test]
fn sphere_tangent_ray_hits_once() {
    let m = material(0.3);
    let sphere = solve([0.0, 1.0, -5.0], 1.0, [0.0, 0.0, 0.0], [0.0, 0.0, -1.0], &m);
    assert_eq!(f(sphere.discriminant), 0.0);
    let hit = sphere.hit(reach()).expect("a tangent ray hits");
    assert_eq!(f(hit.distance), 5.0);
    // The ray grazes the surface: its direction is at a right angle to the
    // normal, which is no front face, so the normal is turned.
    assert!(!hit.front_face);
    assert_eq!(a(hit.normal), [-0.0, 1.0, -0.0]);
}

#[test]
fn sphere_missed_or_behind_or_beyond() {
    let m = material(0.3);
    let missed = solve([0.0, 3.0, -5.0], 1.0, [0.0, 0.0, 0.0], [0.0, 0.0, -1.0], &m);
    assert!(f(missed.discriminant) < 0.0);
    assert!(missed.hit(reach()).is_none());
    let behind = solve([0.0, 0.0, 5.0], 1.0, [0.0, 0.0, 0.0], [0.0, 0.0, -1.0], &m);
    assert!(behind.hit(reach()).is_none());
    let ahead = solve([0.0, 0.0, -5.0], 1.0, [0.0, 0.0, 0.0], [0.0, 0.0, -1.0], &m);
    assert_eq!(f(ahead.hit(reach()).unwrap().distance), 4.0);
    assert!(ahead.hit(Interval::new(s(0.0001), s(4.0))).is_none());
    assert_eq!(f(ahead.hit(Interval::new(s(4.0), s(100.0))).unwrap().distance), 6.0);
    assert!(ahead.hit(Interval::new(s(4.0), s(6.0))).is_none());
    assert!(ahead.hit(Interval::new(s(6.0), s(100.0))).is_none());
}

#[test]
fn sphere_takes_the_smaller_root_whichever_comes_first() {
    let m = material(0.3);
    let near = Crossing { distance: s(2.0), normal: v([1.0, 0.0, 0.0]), facing: s(-1.0) };
    let far = Crossing { distance: s(5.0), normal: v([0.0, 1.0, 0.0]), facing: s(1.0) };
    let one = Sphere::new(s(1.0), near, far, &m);
    let other = Sphere::new(s(1.0), far, near, &m);
    assert_eq!(f(one.hit(reach()).unwrap().distance), 2.0);
    assert_eq!(f(other.hit(reach()).unwrap().distance), 2.0);
    assert_eq!(a(other.hit(reach()).unwrap().normal), [1.0, 0.0, 0.0]);
    let clipped = Interval::new(s(3.0), s(10.0));
    assert_eq!(f(other.hit(clipped).unwrap().distance), 5.0);
    assert_eq!(a(other.hit(clipped).unwrap().normal), [-0.0, -1.0, -0.0]);
}

#[test]
fn sphere_with_roots_that_are_no_numbers_is_missed() {
    let m = material(0.3);
    let nan = Crossing { distance: s(f32::NAN), normal: v([1.0, 0.0, 0.0]), facing: s(-1.0) };
    let sphere = Sphere::new(s(1.0), nan, nan, &m);
    assert!(sphere.hit(reach()).is_none());
    let good = Crossing { distance: s(2.0), normal: v([1.0, 0.0, 0.0]), facing: s(-1.0) };
    assert!(Sphere::new(s(f32::NAN), good, good, &m).hit(reach()).is_none());
    assert_eq!(f(Sphere::new(s(1.0), nan, good, &m).hit(reach()).unwrap().distance), 2.0);
    assert_eq!(f(Sphere::new(s(-0.0), good, good, &m).hit(reach()).unwrap().distance), 2.0);
}

#[test]
fn plane_is_hit_by_a_ray_that_runs_along_its_normal() {
    let m = material(0.7);
    let direction = unit([0.0, -1.0, -1.0]);
    let plane = meet([0.0, -1.0, 0.0], [0.0, -0.5, -1.0], [0.0, 0.0, 0.0], direction, &m);
    let hit = plane.hit(reach()).expect("the ray runs down to the floor");
    assert!((f(hit.distance) - 0.5 * 2.0f32.sqrt()).abs() < 1.0e-6);
    assert_eq!(a(hit.normal), [-0.0, 1.0, -0.0]);
    assert!(hit.front_face);
    assert!(dot(direction, a(hit.normal)) <= 0.0);
    assert_eq!(*hit.bsdf, m);
}

#[test]
fn plane_is_missed_when_nearly_parallel_or_out_of_range() {
    let m = material(0.7);
    let up = meet([0.0, -1.0, 0.0], [0.0, -0.5, -1.0], [0.0, 0.0, 0.0], [0.0, 1.0, 0.0], &m);
    assert!(f(up.denominator) < 0.0);
    assert!(up.hit(reach()).is_none());
    let level = meet([0.0, -1.0, 0.0], [0.0, -0.5, -1.0], [0.0, 0.0, 0.0], [0.0, 0.0, -1.0], &m);
    assert!(level.hit(reach()).is_none());
    let at_limit = Plane::new(s(0.0001), s(1.0), v([0.0, -1.0, 0.0]), s(-0.0001), &m);
    assert!(at_limit.hit(reach()).is_none());
    let above_limit =
        Plane::new(Scalar::from_bits(0.0001f32.to_bits() + 1), s(1.0), v([0.0, -1.0, 0.0]), s(-0.0001), &m);
    assert!(above_limit.hit(reach()).is_some());
    let down = meet([0.0, -1.0, 0.0], [0.0, -0.5, -1.0], [0.0, 0.0, 0.0], [0.0, -1.0, 0.0], &m);
    assert_eq!(f(down.hit(reach()).unwrap().distance), 0.5);
    assert!(down.hit(Interval::new(s(0.0001), s(0.5))).is_none());
    assert!(down.hit(Interval::new(s(0.5), s(10.0))).is_none());
    let nan = Plane::new(s(f32::NAN), s(f32::NAN), v([0.0, -1.0, 0.0]), s(f32::NAN), &m);
    assert!(nan.hit(reach()).is_none());
}

#[test]
fn parallel_limit_is_one_ten_thousandth() {
    assert_eq!(raytracer3::objects::plane::PARALLEL_LIMIT_BITS, 0.0001f32.to_bits());
}

#[test]
fn list_returns_the_nearest_hit() {
    let near = material(0.1);
    let middle = material(0.2);
    let far = material(0.3);
    let floor = material(0.4);
    let origin = [0.0f32, 0.0, 0.0];
    let direction = [0.0f32, 0.0, -1.0];
    let objects = vec![
        Object::Sphere(solve([0.0, 0.0, -9.0], 1.0, origin, direction, &far)),
        Object::Sphere(solve([0.0, 0.0, -3.0], 1.0, origin, direction, &near)),
        Object::Plane(meet([0.0, 0.0, -1.0], [0.0, 0.0, -20.0], origin, direction, &floor)),
        Object::Sphere(solve([0.0, 0.0, -6.0], 1.0, origin, direction, &middle)),
        Object::Sphere(solve([0.0, 5.0, -6.0], 1.0, origin, direction, &middle)),
    ];
    let list = List { objects: objects.clone() };
    let hit = list.hit(reach()).expect("the ray hits");
    assert_eq!(f(hit.distance), 2.0);
    assert_eq!(*hit.bsdf, near);
    for object in objects.iter() {
        if let Some(single) = object.hit(reach()) {
            assert!(f(hit.distance) <= f(single.distance));
        }
    }
    let beyond = list.hit(Interval::new(s(2.0), s(f32::INFINITY))).unwrap();
    assert_eq!(f(beyond.distance), 4.0);
    assert_eq!(*beyond.bsdf, near);
    let later = list.hit(Interval::new(s(4.0), s(f32::INFINITY))).unwrap();
    assert_eq!(f(later.distance), 5.0);
    assert_eq!(*later.bsdf, middle);
    let last = list.hit(Interval::new(s(10.0), s(f32::INFINITY))).unwrap();
    assert_eq!(f(last.distance), 20.0);
    assert_eq!(*last.bsdf, floor);
    assert!(list.hit(Interval::new(s(20.0), s(f32::INFINITY))).is_none());
}

#[test]
fn list_keeps_the_first_of_two_hits_at_one_distance() {
    let first = material(0.1);
    let second = material(0.2);
    let origin = [0.0f32, 0.0, 0.0];
    let direction = [0.0f32, 0.0, -1.0];
    let list = List {
        objects: vec![
            Object::Sphere(solve([0.0, 0.0, -3.0], 1.0, origin, direction, &first)),
            Object::Sphere(solve([0.0, 0.0, -3.0], 1.0, origin, direction, &second)),
        ],
    };
    assert_eq!(*list.hit(reach()).unwrap().bsdf, first);
}

#[test]
fn list_without_primitives_or_hits_has_no_hit() {
    let m = material(0.1);
    assert!(List { objects: vec![] }.hit(reach()).is_none());
    let list = List {
        objects: vec![Object::Sphere(solve(
            [0.0, 3.0, -5.0],
            1.0,
            [0.0, 0.0, 0.0],
            [0.0, 0.0, -1.0],
            &m,
        ))],
    };
    assert!(list.hit(reach()).is_none());
}

#[test]
fn normals_of_returned_hits_face_the_ray() {
    let m = material(0.5);
    let origin = [0.3f32, -0.2, 0.1];
    let mut state: u32 = 12345;
    let mut next = move || {
        state = state.wrapping_mul(1664525).wrapping_add(1013904223);
        (state >> 8) as f32 / (1u32 << 24) as f32 * 2.0 - 1.0
    };
    let mut hits = 0;
    for _ in 0..500 {
        let direction = unit([next(), next(), next()]);
        let list = List {
            objects: vec![
                Object::Sphere(solve([0.0, 0.0, 0.0], 2.0, origin, direction, &m)),
                Object::Sphere(solve([1.0, 1.0, -1.0], 0.5, origin, direction, &m)),
                Object::Plane(meet([0.0, -1.0, 0.0], [0.0, -1.0, 0.0], origin, direction, &m)),
            ],
        };
        if let Some(hit) = list.hit(reach()) {
            hits += 1;
            assert!(dot(direction, a(hit.normal)) <= 0.0);
            assert!(f(hit.distance) > 0.0001);
        }
    }
    assert_eq!(hits, 500);
}
