use cgmath::{InnerSpace, Matrix4, Point3, Rad, Vector3, Vector4};
use first_person_camera::camera::direction_from_trig;
use first_person_camera::fixed::FX_ONE;
use first_person_camera::{FirstPersonCamera, Vec3};

fn to_f32(v: i64) -> f32 {
    v as f32 / FX_ONE as f32
}

fn to_fx(v: f32) -> i64 {
    (v * FX_ONE as f32).round() as i64
}

#[test]
fn view_projection_centers_a_point_straight_ahead() {
    // A camera at the origin facing +Z, with a square aspect, a right-angle
    // field of view and clip distances 0.1 and 100, must map the world point
    // (0, 0, 1) to a clip-space point on the view axis: x and y near zero,
    // w positive.
    let cam = FirstPersonCamera::new(Vec3::new(0, 0, 0), 0, 0);
    let yaw = to_f32(cam.yaw());
    let pitch = to_f32(cam.pitch());
    let dir = direction_from_trig(
        to_fx(yaw.sin()),
        to_fx(yaw.cos()),
        to_fx(pitch.sin()),
        to_fx(pitch.cos()),
    );
    let position = Vector3::new(
        to_f32(cam.get_position().x),
        to_f32(cam.get_position().y),
        to_f32(cam.get_position().z),
    );
    let direction = Vector3::new(to_f32(dir.x), to_f32(dir.y), to_f32(dir.z));
    assert_eq!(direction, Vector3::new(0.0, 0.0, 1.0));

    let view = Matrix4::look_at_rh(
        Point3::new(position.x, position.y, position.z),
        Point3::new(
            position.x + direction.x,
            position.y + direction.y,
            position.z + direction.z,
        ),
        Vector3::unit_y(),
    );
    let projection = cgmath::perspective(Rad(std::f32::consts::PI / 2.0), 1.0, 0.1, 100.0);
    let clip = projection * view * Vector4::new(0.0, 0.0, 1.0, 1.0);
    assert!(clip.x.abs() < 1e-5);
    assert!(clip.y.abs() < 1e-5);
    assert!(clip.w > 0.0);
}

#[test]
fn direction_through_the_camera_is_nearly_unit_length() {
    // The fixed-point direction built from rounded sines and cosines stays a
    // unit vector up to the quantisation of the scalars.
    let angles: [(f32, f32); 5] = [
        (0.0, 0.0),
        (0.7, 0.3),
        (-2.4, 1.2),
        (12.5, -1.5),
        (-0.1, -0.9),
    ];
    for (yaw, pitch) in angles {
        let d = direction_from_trig(
            to_fx(yaw.sin()),
            to_fx(yaw.cos()),
            to_fx(pitch.sin()),
            to_fx(pitch.cos()),
        );
        let v = Vector3::new(to_f32(d.x), to_f32(d.y), to_f32(d.z));
        assert!((v.magnitude() - 1.0).abs() < 5e-5, "yaw {yaw} pitch {pitch}");
    }
}
