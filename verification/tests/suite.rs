use ray_tracer_challenge::{float_eq, Canvas, Color, Matrix, Num, Point, Vector};

/// Double-precision scalar for exercising the kernel.
#[derive(Clone, Copy, Debug, Default, PartialEq, PartialOrd)]
struct R64(f64);

impl Num for R64 {
    fn add(self, rhs: Self) -> Self {
        R64(self.0 + rhs.0)
    }

    fn sub(self, rhs: Self) -> Self {
        R64(self.0 - rhs.0)
    }

    fn mul(self, rhs: Self) -> Self {
        R64(self.0 * rhs.0)
    }

    fn div(self, rhs: Self) -> Self {
        R64(self.0 / rhs.0)
    }

    fn neg(self) -> Self {
        R64(-self.0)
    }

    fn abs(self) -> Self {
        R64(self.0.abs())
    }

    fn sqrt(self) -> Self {
        R64(self.0.sqrt())
    }

    fn le(self, rhs: Self) -> bool {
        self.0 <= rhs.0
    }

    fn zero() -> Self {
        R64(0.0)
    }

    fn one() -> Self {
        R64(1.0)
    }

    fn epsilon() -> Self {
        R64(1.0e-5)
    }

    fn to_byte(self) -> u8 {
        (self.0 * 255.0).round() as u8
    }

    // The remaining items of `Num` are ghost: they exist for verification
    // only and are never called at run time.

    fn spec_add(self, _: Self) -> Self {
        unreachable!()
    }

    fn spec_sub(self, _: Self) -> Self {
        unreachable!()
    }

    fn spec_mul(self, _: Self) -> Self {
        unreachable!()
    }

    fn spec_div(self, _: Self) -> Self {
        unreachable!()
    }

    fn spec_neg(self) -> Self {
        unreachable!()
    }

    fn spec_abs(self) -> Self {
        unreachable!()
    }

    fn spec_sqrt(self) -> Self {
        unreachable!()
    }

    fn spec_le(self, _: Self) -> bool {
        unreachable!()
    }

    fn spec_zero() -> Self {
        unreachable!()
    }

    fn spec_one() -> Self {
        unreachable!()
    }

    fn spec_epsilon() -> Self {
        unreachable!()
    }

    fn spec_to_byte(self) -> u8 {
        unreachable!()
    }

    fn law_add_zero(_: Self) {
        unreachable!()
    }

    fn law_mul_one(_: Self) {
        unreachable!()
    }

    fn law_mul_zero(_: Self) {
        unreachable!()
    }

    fn law_mul_comm(_: Self, _: Self) {
        unreachable!()
    }

    fn law_sub_self(_: Self) {
        unreachable!()
    }

    fn law_neg_sub(_: Self, _: Self) {
        unreachable!()
    }

    fn law_abs_zero() {
        unreachable!()
    }

    fn law_eps_nonneg() {
        unreachable!()
    }

    fn law_le_total(_: Self, _: Self) {
        unreachable!()
    }

    fn law_zero_le_one() {
        unreachable!()
    }
}

fn v(x: f64, y: f64, z: f64) -> Vector<R64> {
    Vector::new(R64(x), R64(y), R64(z))
}

fn p(x: f64, y: f64, z: f64) -> Point<R64> {
    Point::new(R64(x), R64(y), R64(z))
}

fn c(r: f64, g: f64, b: f64) -> Color<R64> {
    Color::new(R64(r), R64(g), R64(b))
}

fn m16(e: [f64; 16]) -> Matrix<R64> {
    Matrix::new(e.map(R64))
}

fn a9(e: [f64; 9]) -> [R64; 9] {
    e.map(R64)
}

fn a4(e: [f64; 4]) -> [R64; 4] {
    e.map(R64)
}

// scalar comparison

#[test]
fn float_eq_pass() {
    assert!(float_eq(R64(1.0), R64(1.000_001)));
}

#[test]
fn float_eq_fail() {
    assert!(!float_eq(R64(1.0), R64(1.000_02)));
}

#[test]
fn float_eq_boundary() {
    assert!(float_eq(R64(0.0), R64(1.0e-5)));
    assert!(!float_eq(R64(0.0), R64(1.1e-5)));
    assert!(float_eq(R64(3.0), R64(3.0)));
}

// Vector

#[test]
fn vector_new() {
    let vector = v(4.3, -4.2, 3.1);
    assert!(float_eq(vector.x, R64(4.3)));
    assert!(float_eq(vector.y, R64(-4.2)));
    assert!(float_eq(vector.z, R64(3.1)));
}

#[test]
fn from() {
    let vector: Vector<R64> = (R64(1.), R64(2.), R64(3.)).into();
    assert!(float_eq(vector.x, R64(1.)));
    assert!(float_eq(vector.y, R64(2.)));
    assert!(float_eq(vector.z, R64(3.)));
}

#[test]
fn vector_partial_eq() {
    let p1 = v(1., 2., 3.);
    let p2 = v(1.000_001, 2.000_001, 3.000_001);
    assert_eq!(p1, p2)
}

#[test]
fn vector_add() {
    let vector = v(1., 2., 3.);
    let result = v(2., 4., 6.);
    assert_eq!(vector.add(vector), result);
}

#[test]
fn vector_add_assign() {
    let mut vector = v(1., 2., 3.);
    let result = v(2., 4., 6.);
    let rhs = vector;
    vector.add_assign(rhs);
    assert_eq!(vector, result);
}

#[test]
fn vector_sub() {
    let vector1 = v(2., 4., 6.);
    let vector2 = v(1., 2., 3.);
    let result = v(1., 2., 3.);
    assert_eq!(vector1.sub(vector2), result);
}

#[test]
fn vector_sub_assign() {
    let mut vector1 = v(2., 4., 6.);
    let vector2 = v(1., 2., 3.);
    let result = v(1., 2., 3.);
    vector1.sub_assign(vector2);
    assert_eq!(vector1, result);
}

#[test]
fn neg() {
    let vector = v(1., 2., 3.);
    let result = v(-1., -2., -3.);
    assert_eq!(vector.neg(), result);
}

#[test]
fn vector_mul_scalar() {
    let vector = v(1., 2., 3.);
    let scalar = R64(2.);
    let result = v(2., 4., 6.);
    assert_eq!(vector.scale(scalar), result);
}

#[test]
fn mul_assign_scalar() {
    let mut vector = v(1., 2., 3.);
    let scalar = R64(2.);
    let result = v(2., 4., 6.);
    vector.scale_assign(scalar);
    assert_eq!(vector, result);
}

#[test]
fn div_scalar() {
    let vector = v(2., 4., 6.);
    let scalar = R64(2.);
    let result = v(1., 2., 3.);
    assert_eq!(vector.div(scalar), result);
}

#[test]
fn div_assign_scalar() {
    let mut vector = v(2., 4., 6.);
    let scalar = R64(2.);
    let result = v(1., 2., 3.);
    vector.div_assign(scalar);
    assert_eq!(vector, result);
}

#[test]
fn len() {
    let vector = v(1., 0., 0.);
    assert!(float_eq(vector.len(), R64(1.)));
    let vector = v(0., 1., 0.);
    assert!(float_eq(vector.len(), R64(1.)));
    let vector = v(0., 0., 1.);
    assert!(float_eq(vector.len(), R64(1.)));
    let vector = v(1., 2., 3.);
    assert!(float_eq(vector.len(), R64(14f64.sqrt())));
    let vector = v(-1., -2., -3.);
    assert!(float_eq(vector.len(), R64(14f64.sqrt())));
}

#[test]
fn normalization() {
    let mut vector = v(2., 0., 0.);
    let result = v(1., 0., 0.);
    assert_eq!(vector.normalized(), result);
    vector.normalize();
    assert_eq!(vector, result);
    assert!(float_eq(vector.len(), R64(1.)));

    let mut vector = v(0., 2., 0.);
    let result = v(0., 1., 0.);
    assert_eq!(vector.normalized(), result);
    vector.normalize();
    assert_eq!(vector, result);
    assert!(float_eq(vector.len(), R64(1.)));

    let mut vector = v(0., 0., 2.);
    let result = v(0., 0., 1.);
    assert_eq!(vector.normalized(), result);
    vector.normalize();
    assert_eq!(vector, result);
    assert!(float_eq(vector.len(), R64(1.)));

    let mut vector = v(1., 2., 3.);
    let result = v(1. / 14f64.sqrt(), 2. / 14f64.sqrt(), 3. / 14f64.sqrt());
    assert_eq!(vector.normalized(), result);
    vector.normalize();
    assert_eq!(vector, result);
    assert!(float_eq(vector.len(), R64(1.)));
}

#[test]
fn dot() {
    let v1 = v(1., 2., 3.);
    let v2 = v(2., 3., 4.);
    assert!(float_eq(v1.dot(v2), R64(20.)))
}

#[test]
fn cross() {
    let v1 = v(1., 2., 3.);
    let v2 = v(2., 3., 4.);
    let result = v(-1., 2., -1.);
    assert_eq!(v1.cross(v2), result);
    assert_eq!(v2.cross(v1), result.neg());
    let x = v(1., 0., 0.);
    let y = v(0., 1., 0.);
    let z = v(0., 0., 1.);
    assert_eq!(x.cross(y), z);
    assert_eq!(y.cross(z), x);
    assert_eq!(z.cross(x), y);
}

#[test]
fn cross_anticommutes() {
    let pairs = [
        (v(1., 2., 3.), v(2., 3., 4.)),
        (v(-1.5, 0., 7.25), v(0.5, -2., 3.)),
        (v(0., 0., 0.), v(4., 5., 6.)),
    ];
    for (a, b) in pairs {
        assert_eq!(a.cross(b), b.cross(a).neg());
    }
}

// Point

#[test]
fn point_new() {
    let point = p(1., 2., 3.);
    assert!(float_eq(point.x, R64(1.)));
    assert!(float_eq(point.y, R64(2.)));
    assert!(float_eq(point.z, R64(3.)));
}

#[test]
fn point_partial_eq() {
    let p1 = p(1., 2., 3.);
    let p2 = p(1.000_001, 2.000_001, 3.000_001);
    assert_eq!(p1, p2)
}

#[test]
fn add_vector() {
    let point = p(1., 2., 3.);
    let vector = v(1., 2., 3.);
    let result = p(2., 4., 6.);
    assert_eq!(point.add(vector), result);
}

#[test]
fn add_assign_vector() {
    let mut point = p(1., 2., 3.);
    let vector = v(1., 2., 3.);
    let result = p(2., 4., 6.);
    point.add_assign(vector);
    assert_eq!(point, result);
}

#[test]
fn point_sub() {
    let point1 = p(2., 4., 6.);
    let point2 = p(1., 2., 3.);
    let result = v(1., 2., 3.);
    assert_eq!(point1.sub(point2), result)
}

#[test]
fn sub_assign_vector() {
    let mut point = p(2., 4., 6.);
    let vector = v(1., 2., 3.);
    let result = p(1., 2., 3.);
    point.sub_assign(vector);
    assert_eq!(point, result);
}

#[test]
fn sub_vector() {
    let point = p(2., 4., 6.);
    let vector = v(1., 2., 3.);
    let result = p(1., 2., 3.);
    assert_eq!(point.sub_vector(vector), result)
}

// Color

#[test]
fn color_new() {
    let color = c(-0.5, 0.4, 1.7);
    assert!(float_eq(color.r, R64(-0.5)));
    assert!(float_eq(color.g, R64(0.4)));
    assert!(float_eq(color.b, R64(1.7)));
}

#[test]
fn color_eq() {
    let color1 = c(1., 2., 3.);
    let color2 = c(1.000_001, 2.000_001, 3.000_001);
    assert_eq!(color1, color2);
}

#[test]
fn color_add() {
    let color1 = c(1., 2., 3.);
    let color2 = c(2., 3., 4.);
    let result = c(3., 5., 7.);
    assert_eq!(color1.add(color2), result);
}

#[test]
fn color_add_assign() {
    let mut color1 = c(1., 2., 3.);
    let color2 = c(2., 3., 4.);
    let result = c(3., 5., 7.);
    color1.add_assign(color2);
    assert_eq!(color1, result);
}

#[test]
fn color_sub() {
    let color1 = c(2., 4., 6.);
    let color2 = c(1., 2., 3.);
    let result = c(1., 2., 3.);
    assert_eq!(color1.sub(color2), result);
}

#[test]
fn color_sub_assign() {
    let mut color1 = c(2., 4., 6.);
    let color2 = c(1., 2., 3.);
    let result = c(1., 2., 3.);
    color1.sub_assign(color2);
    assert_eq!(color1, result);
}

#[test]
fn color_mul_scalar() {
    let color = c(1., 2., 3.);
    let scalar = R64(2.);
    let result = c(2., 4., 6.);
    assert_eq!(color.scale(scalar), result);
}

#[test]
fn mul_scalar_assign() {
    let mut color = c(1., 2., 3.);
    let scalar = R64(2.);
    let result = c(2., 4., 6.);
    color.scale_assign(scalar);
    assert_eq!(color, result);
}

#[test]
fn color_hadamard() {
    let color1 = c(1., 0.2, 0.4);
    let color2 = c(0.9, 1., 0.1);
    let result = c(0.9, 0.2, 0.04);
    assert_eq!(color1.hadamard(color2), result);
}

#[test]
fn color_as_bytes() {
    assert_eq!(c(1.5, 0.5, 0.0).as_bytes(), (255, 128, 0));
    assert_eq!(c(-0.5, 0.0, 1.0).as_bytes(), (0, 0, 255));
    assert_eq!(c(0.2, 0.4, 0.6).as_bytes(), (51, 102, 153));
}

// Matrix

#[test]
fn matrix_new() {
    let matrix = m16([
        1., 2., 3., 4., 5.5, 6.5, 7.5, 8.5, 9., 10., 11., 12., 13.5, 14.5, 15.5, 16.5,
    ]);
    assert!(float_eq(*matrix.get(0, 0), R64(1.)));
    assert!(float_eq(*matrix.get(0, 1), R64(2.)));
    assert!(float_eq(*matrix.get(0, 2), R64(3.)));
    assert!(float_eq(*matrix.get(0, 3), R64(4.)));
    assert!(float_eq(*matrix.get(1, 0), R64(5.5)));
    assert!(float_eq(*matrix.get(1, 1), R64(6.5)));
    assert!(float_eq(*matrix.get(1, 2), R64(7.5)));
    assert!(float_eq(*matrix.get(1, 3), R64(8.5)));
    assert!(float_eq(*matrix.get(2, 0), R64(9.)));
    assert!(float_eq(*matrix.get(2, 1), R64(10.)));
    assert!(float_eq(*matrix.get(2, 2), R64(11.)));
    assert!(float_eq(*matrix.get(2, 3), R64(12.)));
    assert!(float_eq(*matrix.get(3, 0), R64(13.5)));
    assert!(float_eq(*matrix.get(3, 1), R64(14.5)));
    assert!(float_eq(*matrix.get(3, 2), R64(15.5)));
    assert!(float_eq(*matrix.get(3, 3), R64(16.5)));
}

#[test]
fn matrix_eq() {
    let a = m16([
        1., 2., 3., 4., 5., 6., 7., 8., 9., 8., 7., 6., 5., 4., 3., 2.,
    ]);
    let b = m16([
        1., 2., 3., 4., 5., 6., 7., 8., 9., 8., 7., 6., 5., 4., 3., 2.,
    ]);
    let c = m16([
        2., 3., 4., 5., 6., 7., 8., 9., 8., 7., 6., 5., 4., 3., 2., 1.,
    ]);
    assert_eq!(a, b);
    assert_ne!(a, c);
}

#[test]
fn mul() {
    let a = m16([
        1., 2., 3., 4., 5., 6., 7., 8., 9., 8., 7., 6., 5., 4., 3., 2.,
    ]);
    let b = m16([
        -2., 1., 2., 3., 3., 2., 1., -1., 4., 3., 6., 5., 1., 2., 7., 8.,
    ]);
    let c = m16([
        20., 22., 50., 48., 44., 54., 114., 108., 40., 58., 110., 102., 16., 26., 46., 42.,
    ]);
    assert_eq!(a.mul(b), c);
}

#[test]
fn mul_vector() {
    let a = m16([
        1., 2., 3., 4., 2., 4., 4., 2., 8., 6., 4., 1., 0., 0., 0., 1.,
    ]);
    let vec = v(1., 2., 3.);
    let result = v(14., 22., 32.);
    assert_eq!(a.mul_vector(vec), result);
}

#[test]
fn mul_point() {
    let a = m16([
        1., 2., 3., 4., 2., 4., 4., 2., 8., 6., 4., 1., 0., 0., 0., 1.,
    ]);
    let point = p(1., 2., 3.);
    let result = p(18., 24., 33.);
    assert_eq!(a.mul_point(point), result);
}

#[test]
fn identity() {
    let a = m16([
        0., 1., 2., 4., 1., 2., 4., 8., 2., 4., 8., 16., 4., 8., 16., 32.,
    ]);
    assert_eq!(a.mul(Matrix::identity()), a);
}

#[test]
fn identity_both_sides() {
    let a = m16([
        0.5, -1., 2., 4., 1., 2.25, 4., -8., 2., 4., 8., 16., 4., 8., -16., 32.,
    ]);
    assert_eq!(a.mul(Matrix::identity()), a);
    assert_eq!(Matrix::identity().mul(a), a);
}

#[test]
fn transpose() {
    let a = m16([
        0., 9., 3., 0., 9., 8., 0., 8., 1., 8., 5., 3., 0., 0., 5., 8.,
    ]);
    let t = m16([
        0., 9., 1., 0., 9., 8., 8., 0., 3., 0., 5., 5., 0., 8., 3., 8.,
    ]);
    assert_eq!(a.transpose(), t);
}

#[test]
fn det2() {
    let matrix = a4([1., 5., -3., 2.]);
    assert!(float_eq(
        ray_tracer_challenge::matrix::det2(matrix),
        R64(17.)
    ));
}

#[test]
fn submat3() {
    let matrix = a9([1., 5., 0., -3., 2., 7., 0., 6., -3.]);
    let result = a4([-3., 2., 0., 6.]);
    assert_eq!(ray_tracer_challenge::matrix::submat3(matrix, 0, 2), result);
}

#[test]
fn submat4() {
    let matrix = m16([
        -6., 1., 1., 6., -8., 5., 8., 6., -1., 0., 8., 2., -7., 1., -1., 1.,
    ]);
    let elements = [
        *matrix.get(0, 0),
        *matrix.get(0, 1),
        *matrix.get(0, 2),
        *matrix.get(0, 3),
        *matrix.get(1, 0),
        *matrix.get(1, 1),
        *matrix.get(1, 2),
        *matrix.get(1, 3),
        *matrix.get(2, 0),
        *matrix.get(2, 1),
        *matrix.get(2, 2),
        *matrix.get(2, 3),
        *matrix.get(3, 0),
        *matrix.get(3, 1),
        *matrix.get(3, 2),
        *matrix.get(3, 3),
    ];
    let result = a9([-6., 1., 6., -8., 8., 6., -7., -1., 1.]);
    assert_eq!(
        ray_tracer_challenge::matrix::submat4(elements, 2, 1),
        result
    );
}

#[test]
fn minor3() {
    let matrix = a9([3., 5., 0., 2., -1., -7., 6., -1., 5.]);
    assert!(float_eq(
        ray_tracer_challenge::matrix::minor3(matrix, 1, 0),
        R64(25.)
    ));
}

#[test]
fn cofactor3() {
    let matrix = a9([3., 5., 0., 2., -1., -7., 6., -1., 5.]);
    assert!(float_eq(
        ray_tracer_challenge::matrix::cofactor3(matrix, 0, 0),
        R64(-12.)
    ));
    assert!(float_eq(
        ray_tracer_challenge::matrix::cofactor3(matrix, 1, 0),
        R64(-25.)
    ));
}

#[test]
fn cofactor4() {
    let elements = [
        -2., -8., 3., 5., -3., 1., 7., 3., 1., 2., -9., 6., -6., 7., 7., -9.,
    ]
    .map(R64);
    assert!(float_eq(
        ray_tracer_challenge::matrix::cofactor4(elements, 0, 0),
        R64(690.)
    ));
    assert!(float_eq(
        ray_tracer_challenge::matrix::cofactor4(elements, 0, 1),
        R64(447.)
    ));
    assert!(float_eq(
        ray_tracer_challenge::matrix::cofactor4(elements, 0, 2),
        R64(210.)
    ));
    assert!(float_eq(
        ray_tracer_challenge::matrix::cofactor4(elements, 0, 3),
        R64(51.)
    ));
}

#[test]
fn det3() {
    let matrix = a9([1., 2., 6., -5., 8., -4., 2., 6., 4.]);
    assert!(float_eq(
        ray_tracer_challenge::matrix::det3(matrix),
        R64(-196.)
    ));
}

#[test]
fn det4() {
    let matrix = m16([
        -2., -8., 3., 5., -3., 1., 7., 3., 1., 2., -9., 6., -6., 7., 7., -9.,
    ]);
    assert!(float_eq(matrix.determinant(), R64(-4071.)))
}

#[test]
fn is_invertible() {
    let matrix = m16([
        6., 4., 4., 4., 5., 5., 7., 6., 4., -9., 3., -7., 9., 1., 7., -6.,
    ]);
    assert!(float_eq(matrix.determinant(), R64(-2120.)));
    assert!(matrix.is_invertible());
    let matrix = m16([
        -4., 2., -2., -3., 9., 6., 2., 6., 0., -5., 1., -5., 0., 0., 0., 0.,
    ]);
    assert!(!matrix.is_invertible());
}

#[test]
fn invert() {
    let matrix = m16([
        -5., 2., 6., -8., 1., -5., 1., 8., 7., 7., -6., -7., 1., -3., 7., 4.,
    ]);
    let inverse = m16([
        0.21805, 0.45113, 0.24060, -0.04511, -0.80827, -1.45677, -0.44361, 0.52068, -0.07895,
        -0.22368, -0.05263, 0.19737, -0.52256, -0.81391, -0.30075, 0.30639,
    ]);
    assert_eq!(matrix.inverse(), inverse);

    let matrix = m16([
        8., -5., 9., 2., 7., 5., 6., 1., -6., 0., 9., 6., -3., 0., -9., -4.,
    ]);
    let inverse = m16([
        -0.15385, -0.15385, -0.28205, -0.53846, -0.07692, 0.12308, 0.02564, 0.03077, 0.35897,
        0.35897, 0.43590, 0.92308, -0.69231, -0.69231, -0.76923, -1.92308,
    ]);
    assert_eq!(matrix.inverse(), inverse);

    let matrix = m16([
        9., 3., 0., 9., -5., -2., -6., -3., -4., 9., 6., 4., -7., 6., 6., 2.,
    ]);
    let inverse = m16([
        -0.04074, -0.07778, 0.14444, -0.22222, -0.07778, 0.03333, 0.36667, -0.33333, -0.02901,
        -0.14630, -0.10926, 0.12963, 0.17778, 0.06667, -0.26667, 0.33333,
    ]);
    assert_eq!(matrix.inverse(), inverse);
}

#[test]
fn inverse_mul() {
    let a = m16([
        3., -9., 7., 3., 3., -8., 2., -9., -4., 4., 4., 1., -6., 5., -1., 1.,
    ]);
    let i = a.inverse();
    let identity = Matrix::identity();
    assert_eq!(a.mul(i), identity);
}

#[test]
fn inverse_mul_both_sides() {
    let a = m16([
        -5., 2., 6., -8., 1., -5., 1., 8., 7., 7., -6., -7., 1., -3., 7., 4.,
    ]);
    assert!(a.is_invertible());
    let i = a.inverse();
    let identity = Matrix::identity();
    assert_eq!(a.mul(i), identity);
    assert_eq!(i.mul(a), identity);
}

#[test]
fn inverse_product_mul() {
    let a = m16([
        3., -9., 7., 3., 3., -8., 2., -9., -4., 4., 4., 1., -6., 5., -1., 1.,
    ]);
    let b = m16([
        8., 2., 2., 2., 3., -1., 7., 0., 7., 0., 5., 4., 6., -2., 0., 5.,
    ]);
    let c = a.mul(b);
    assert_eq!(c.mul(b.inverse()), a);
}

#[test]
fn inverse_reverse_order() {
    let a = m16([
        3., -9., 7., 3., 3., -8., 2., -9., -4., 4., 4., 1., -6., 5., -1., 1.,
    ]);
    let b = m16([
        8., 2., 2., 2., 3., -1., 7., 0., 7., 0., 5., 4., 6., -2., 0., 5.,
    ]);
    assert_eq!(a.mul(b).inverse(), b.inverse().mul(a.inverse()));
}

#[test]
fn invert_identity() {
    let identity: Matrix<R64> = Matrix::identity();
    assert_eq!(identity.inverse(), identity);
}

#[test]
fn transpose_inverse() {
    let matrix = m16([
        -5., 2., 6., -8., 1., -5., 1., 8., 7., 7., -6., -7., 1., -3., 7., 4.,
    ]);
    let inverse = matrix.inverse();
    let left = inverse.transpose();
    let transpose = matrix.transpose();
    let right = transpose.inverse();
    assert_eq!(left, right);
}

#[test]
fn translation_ignored_for_vector() {
    let translated = m16([
        1., 0., 0., 5., 0., 1., 0., -3., 0., 0., 1., 2., 0., 0., 0., 1.,
    ]);
    let vector = v(-3., 4., 7.);
    assert_eq!(translated.mul_vector(vector), vector);
    let linear = m16([
        2., 0., 0., 99., 0., 3., 0., -42., 0., 0., 4., 7., 0., 0., 0., 1.,
    ]);
    let stripped = m16([
        2., 0., 0., 0., 0., 3., 0., 0., 0., 0., 4., 0., 0., 0., 0., 0.,
    ]);
    assert_eq!(linear.mul_vector(vector), stripped.mul_vector(vector));
}

// Canvas

#[test]
fn canvas_new() {
    let canvas: Canvas<R64> = Canvas::new(10, 20);
    assert_eq!(canvas.width(), 10);
    assert_eq!(canvas.height(), 20);
    assert!(canvas.pixels().iter().all(|p| *p == c(0., 0., 0.)))
}

#[test]
fn pixel() {
    let mut canvas = Canvas::new(10, 20);
    let red = c(1., 0., 0.);
    assert!(canvas.set(2, 3, red));
    assert_eq!(*canvas.get(2, 3).unwrap(), red);
}

#[test]
fn canvas_with_color() {
    let fill = c(0.1, 0.2, 0.3);
    let canvas = Canvas::with_color(4, 5, fill);
    assert_eq!(canvas.width(), 4);
    assert_eq!(canvas.height(), 5);
    assert!(canvas.pixels().iter().all(|p| *p == fill))
}

#[test]
fn canvas_out_of_bounds() {
    let mut canvas = Canvas::new(3, 2);
    assert!(canvas.get(3, 0).is_none());
    assert!(canvas.get(0, 2).is_none());
    assert!(canvas.get(3, 2).is_none());
    assert!(!canvas.set(7, 0, c(1., 1., 1.)));
    assert!(canvas.pixels().iter().all(|p| *p == c(0., 0., 0.)))
}

#[test]
fn ppm1() {
    let mut canvas = Canvas::new(5, 3);
    let c1 = c(1.5, 0., 0.);
    let c2 = c(0., 0.5, 0.);
    let c3 = c(-0.5, 0., 1.);
    assert!(canvas.set(0, 0, c1));
    assert!(canvas.set(2, 1, c2));
    assert!(canvas.set(4, 2, c3));
    let expected = "P3\n5 3\n255\n\
                    255 0 0 0 0 0 0 0 0 0 0 0 0 0 0\n\
                    0 0 0 0 0 0 0 128 0 0 0 0 0 0 0\n\
                    0 0 0 0 0 0 0 0 0 0 0 0 0 0 255\n";
    assert_eq!(canvas.ppm(), expected);
}

#[test]
fn ppm2() {
    let mut canvas = Canvas::new(10, 2);
    let color = c(1., 0.8, 0.6);
    for y in 0..2 {
        for x in 0..10 {
            assert!(canvas.set(x, y, color));
        }
    }
    let expected = "P3\n10 2\n255\n\
                    255 204 153 255 204 153 255 204 153 255 204 153 255 204 153 255 204\n\
                    153 255 204 153 255 204 153 255 204 153 255 204 153\n\
                    255 204 153 255 204 153 255 204 153 255 204 153 255 204 153 255 204\n\
                    153 255 204 153 255 204 153 255 204 153 255 204 153\n";
    assert_eq!(canvas.ppm(), expected);
}

#[test]
fn ppm_lines_stay_short() {
    let mut canvas = Canvas::new(23, 4);
    for y in 0..4 {
        for x in 0..23 {
            let shade = (x as f64) / 22.0;
            assert!(canvas.set(x, y, c(shade, 1.0 - shade, 0.5)));
        }
    }
    let text = canvas.ppm();
    assert!(text.starts_with("P3\n23 4\n255\n"));
    assert!(text.ends_with('\n'));
    for line in text.lines() {
        assert!(line.len() < 70);
    }
}
