use quad_render::Mat4;
use quad_render::Rat;
use quad_render::identity_matrix;
use quad_render::multiply_matrix4;
use quad_render::rect_transform;
use quad_render::scale_matrix;
use quad_render::translation_matrix;

#[test]
fn translation_matrix_sets_translation_row() {
    let t = translation_matrix(Rat::new(1, 2), Rat::new(-1, 4), Rat::whole(0));
    assert_eq!(t.den, 8);
    assert_eq!(t.m, [8, 0, 0, 0, 0, 8, 0, 0, 0, 0, 8, 0, 4, -2, 0, 8]);
}

#[test]
fn scale_matrix_sets_diagonal() {
    let s = scale_matrix(Rat::new(3, 2), Rat::whole(2), Rat::whole(0));
    assert_eq!(s.den, 2);
    assert_eq!(s.m, [3, 0, 0, 0, 0, 4, 0, 0, 0, 0, 0, 0, 0, 0, 0, 2]);
}

#[test]
fn multiply_matrix4_matches_row_column_formula() {
    let a = Mat4 {
        m: [1, 2, 3, 4, 5, 6, 7, 8, 9, 10, 11, 12, 13, 14, 15, 16],
        den: 2,
    };
    let b = Mat4 {
        m: [16, 15, 14, 13, 12, 11, 10, 9, 8, 7, 6, 5, 4, 3, 2, 1],
        den: 3,
    };
    let r = multiply_matrix4(a, b);
    assert_eq!(r.den, 6);
    for i in 0..4 {
        for j in 0..4 {
            let mut expect: i64 = 0;
            for k in 0..4 {
                expect += a.m[4 * i + k] * b.m[4 * k + j];
            }
            assert_eq!(r.m[4 * i + j], expect);
        }
    }
}

#[test]
fn multiply_by_identity_returns_matrix_unchanged() {
    let a = Mat4 {
        m: [7, -3, 0, 2, 1, 9, -8, 4, 0, 0, 5, 6, -13, 21, 0, 11],
        den: 40,
    };
    let r = multiply_matrix4(a, identity_matrix());
    assert_eq!(r.m, a.m);
    assert_eq!(r.den, a.den);
}

#[test]
fn rect_transform_exact_entries() {
    let (left, right, bottom, top) = (0i64, 250i64, 0i64, 250i64);
    let (w, h) = (800i64, 600i64);
    let r = rect_transform(left, right, bottom, top, w, h);
    let d = w * h;
    assert_eq!(r.den, d * d);
    let mut expect = [0i64; 16];
    expect[0] = 2 * (right - left) * h * d;
    expect[5] = 2 * (top - bottom) * w * d;
    expect[12] = (2 * left - w) * h * d;
    expect[13] = (2 * bottom - h) * w * d;
    expect[15] = d * d;
    assert_eq!(r.m, expect);
}

#[test]
fn rect_transform_maps_unit_quad_corners() {
    let (left, right, bottom, top) = (250i64, 750i64, 250i64, 750i64);
    let (w, h) = (1024i64, 768i64);
    let r = rect_transform(left, right, bottom, top, w, h);
    let den = r.den as f64;
    let x0 = r.m[12] as f64 / den;
    let y0 = r.m[13] as f64 / den;
    let x1 = (r.m[0] + r.m[12]) as f64 / den;
    let y1 = (r.m[5] + r.m[13]) as f64 / den;
    let eps = 1e-12;
    assert!((x0 - (2.0 * left as f64 / w as f64 - 1.0)).abs() < eps);
    assert!((y0 - (2.0 * bottom as f64 / h as f64 - 1.0)).abs() < eps);
    assert!((x1 - (2.0 * right as f64 / w as f64 - 1.0)).abs() < eps);
    assert!((y1 - (2.0 * top as f64 / h as f64 - 1.0)).abs() < eps);
}
