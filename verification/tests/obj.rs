use tinyrenderer::decimal::{read_number, read_triple, scaled, Number};
use tinyrenderer::fixed::{Fixed, SCALE};
use tinyrenderer::obj::{line_kind, parse_obj, read_face, read_index, read_list, LineKind, ObjError};
use tinyrenderer::types::{ObjFace, Vec3Df};

fn fx(v: f64) -> Fixed {
    Fixed::from_raw((v * SCALE as f64).floor() as i64)
}

fn number(text: &str) -> Option<(i64, usize)> {
    read_number(text.as_bytes(), 0).map(|n: Number| (n.value.raw, n.end))
}

fn whole(i: i64) -> i64 {
    i * SCALE
}

#[test]
fn whole_numbers() {
    assert_eq!(number("0"), Some((0, 1)));
    assert_eq!(number("12"), Some((whole(12), 2)));
    assert_eq!(number("-12"), Some((whole(-12), 3)));
    assert_eq!(number("+7 rest"), Some((whole(7), 2)));
    assert_eq!(number("007"), Some((whole(7), 3)));
    assert_eq!(number("3."), Some((whole(3), 2)));
}

#[test]
fn fractions_drop_what_lies_beyond_the_last_bit() {
    assert_eq!(number("0.5"), Some((SCALE / 2, 3)));
    assert_eq!(number(".25"), Some((SCALE / 4, 3)));
    assert_eq!(number("-0.75"), Some((-3 * SCALE / 4, 5)));
    assert_eq!(number("0.1"), Some((429496729, 3)));
    assert_eq!(number("-0.1"), Some((-429496729, 4)));
    assert_eq!(number("1.000000"), Some((whole(1), 8)));
    assert_eq!(number("0.0000000001"), Some((0, 12)));
    assert_eq!(number("0.00000000025"), Some((1, 13)));
    assert_eq!(number("-0.532"), Some((-(fx(0.532).raw), 6)));
}

#[test]
fn exponents() {
    assert_eq!(number("1e2"), Some((whole(100), 3)));
    assert_eq!(number("1.5E+2"), Some((whole(150), 6)));
    assert_eq!(number("25e-2"), Some((SCALE / 4, 5)));
    assert_eq!(number("-2.5e-1x"), Some((-SCALE / 4, 7)));
    assert_eq!(number("1e0"), Some((whole(1), 3)));
    assert_eq!(number("0e99999999999999999999"), Some((0, 22)));
    assert_eq!(number("1e-99999999999999999999"), Some((0, 23)));
}

#[test]
fn large_numbers_saturate() {
    assert_eq!(number("2147483647"), Some((whole(2147483647), 10)));
    assert_eq!(number("2147483648"), Some((i64::MAX, 10)));
    assert_eq!(number("-2147483648"), Some((-i64::MAX, 11)));
    assert_eq!(number("1e30"), Some((i64::MAX, 4)));
    assert_eq!(number("1e99999"), Some((i64::MAX, 7)));
    assert_eq!(number("123456789012345678901234567890"), Some((i64::MAX, 30)));
}

#[test]
fn only_eighteen_digits_count() {
    // the digits after the eighteenth are dropped
    assert_eq!(
        number("0.1234567890123456789").map(|n| n.0),
        number("0.123456789012345678").map(|n| n.0)
    );
    assert_eq!(number("0.1234567890123456789").map(|n| n.1), Some(21));
    assert_eq!(
        number("0.00000000000000000000000000000000005e35").map(|n| n.0),
        Some(whole(5))
    );
    assert_eq!(number("100000000000000000000e-20"), Some((whole(1), 25)));
    assert_eq!(number("100000000000000000009e-20"), Some((whole(1), 25)));
}

#[test]
fn what_is_no_number() {
    assert_eq!(number(""), None);
    assert_eq!(number("abc"), None);
    assert_eq!(number("-"), None);
    assert_eq!(number("."), None);
    assert_eq!(number("-.e5"), None);
    assert_eq!(number("nan"), None);
    assert_eq!(number("inf"), None);
    // an exponent without digits spoils the number
    assert_eq!(number("1e"), None);
    assert_eq!(number("1e+"), None);
    assert_eq!(number("1.5e-x"), None);
    // what follows a number is left alone
    assert_eq!(number("1.5x"), Some((3 * SCALE / 2, 3)));
    assert_eq!(number("1.5.5"), Some((3 * SCALE / 2, 3)));
}

#[test]
fn scaling_by_powers_of_ten() {
    assert_eq!(scaled(0, 5), 0);
    assert_eq!(scaled(0, -5), 0);
    assert_eq!(scaled(3, 0), 3 * SCALE);
    assert_eq!(scaled(3, 2), 300 * SCALE);
    assert_eq!(scaled(125, -3), SCALE / 8);
    assert_eq!(scaled(1, -10), 0);
    assert_eq!(scaled(3, -10), 1);
    assert_eq!(scaled(1, 10), i64::MAX);
    let exact = (999_999_999_999_999_999u128 << 32) / 1_000_000_000;
    assert_eq!(scaled(999_999_999_999_999_999, -9) as u128, exact);
    assert_eq!(scaled(999_999_999_999_999_999, -9), 999_999_999 * SCALE + 4294967291);
}

#[test]
fn triples() {
    let t = |s: &str, at: usize| read_triple(s.as_bytes(), at);
    assert_eq!(
        t("v 1 2.5 -3", 1),
        Some((Fixed::from_int(1), fx(2.5), Fixed::from_int(-3)))
    );
    assert_eq!(
        t("vt  0.5\t0.25   0.000 and more", 2),
        Some((fx(0.5), fx(0.25), Fixed::from_int(0)))
    );
    assert_eq!(t("v 1 2", 1), None);
    assert_eq!(t("v 1,2,3", 1), None);
    assert_eq!(t("v 1 2 x", 1), None);
    assert_eq!(t("v", 1), None);
    assert_eq!(t("v 1 2 3e", 1), None);
}

#[test]
fn indices_and_lists() {
    assert_eq!(read_index(b"123/", 0), Some((123, 3)));
    assert_eq!(read_index(b"/123", 0), None);
    assert_eq!(read_index(b"x12", 1), Some((12, 3)));
    assert_eq!(read_index(b"", 0), None);
    assert_eq!(read_index(b"1234567890123456789012", 0), None);
    assert_eq!(read_list(b"1/2/3 4", 0), (vec![1, 2, 3], 5));
    assert_eq!(read_list(b"1/2/3/4/5", 0), (vec![1, 2, 3, 4, 5], 9));
    assert_eq!(read_list(b"1//3", 0), (vec![1], 1));
    assert_eq!(read_list(b"1/2/", 0), (vec![1, 2], 3));
    assert_eq!(read_list(b"x", 0), (vec![], 0));
    assert_eq!(read_list(b"17", 0), (vec![17], 2));
}

#[test]
fn kinds_of_lines() {
    assert_eq!(line_kind(b"v 1 2 3"), LineKind::Vertex);
    assert_eq!(line_kind(b"vt 1 2 3"), LineKind::Texture);
    assert_eq!(line_kind(b"vn 1 2 3"), LineKind::Normal);
    assert_eq!(line_kind(b"f 1/1/1 2/2/2 3/3/3"), LineKind::Face);
    assert_eq!(line_kind(b"# v 1 2 3"), LineKind::Other);
    assert_eq!(line_kind(b"v\t1 2 3"), LineKind::Other);
    assert_eq!(line_kind(b" v 1 2 3"), LineKind::Other);
    assert_eq!(line_kind(b"vp 1 2 3"), LineKind::Other);
    assert_eq!(line_kind(b"g head"), LineKind::Other);
    assert_eq!(line_kind(b""), LineKind::Other);
    assert_eq!(line_kind(b"f"), LineKind::Other);
}

fn p(i: i32) -> Vec3Df {
    Vec3Df::from_ints(i, i, i)
}

#[test]
fn faces_name_what_was_given() {
    let vertices = vec![p(1), p(2), p(3), p(4)];
    let textures = vec![p(10), p(20)];
    let normals = vec![p(100)];
    let face = read_face(b"f 4/1/1  2/2/1\t1/1/1 trailing", &vertices, &textures, &normals).unwrap();
    assert_eq!(face.vertices, [p(4), p(2), p(1)]);
    assert_eq!(face.texture_vertices, [p(10), p(20), p(10)]);
    assert_eq!(face.normals, [p(100), p(100), p(100)]);
    let bad = |line: &[u8]| read_face(line, &vertices, &textures, &normals).is_none();
    assert!(bad(b"f 5/1/1 2/2/1 1/1/1"));
    assert!(bad(b"f 0/1/1 2/2/1 1/1/1"));
    assert!(bad(b"f 1/3/1 2/2/1 1/1/1"));
    assert!(bad(b"f 1/1/2 2/2/1 1/1/1"));
    assert!(bad(b"f 1/1/1 2/2/1"));
    assert!(bad(b"f 1 2 3"));
    assert!(bad(b"f 1//1 2//1 3//1"));
    assert!(bad(b"f 1/1 2/2 3/1"));
    assert!(bad(b"f -1/1/1 2/2/1 1/1/1"));
    assert!(bad(b"f"));
}

const CUBE_CORNER: &str = "\
# a corner of a cube
v 0 0 0
v 1 0 0
v 0 1 0
v 0 0 1.5e0
vt 0.0 0.0 0.0
vt 1.0 0.0 0.0
vt 0.0 1.0 0.0
vn 0 0 -1
vn 0 -1 0
g corner
s 1
f 1/1/1 3/3/1 2/2/1
f 1/1/2 2/2/2 4/3/2
";

#[test]
fn a_small_mesh() {
    let faces = parse_obj(CUBE_CORNER.as_bytes()).unwrap();
    assert_eq!(faces.len(), 2);
    let z = Fixed::from_int(0);
    let o = Fixed::from_int(1);
    assert_eq!(
        faces[0].vertices,
        [Vec3Df::new(z, z, z), Vec3Df::new(z, o, z), Vec3Df::new(o, z, z)]
    );
    assert_eq!(
        faces[0].texture_vertices,
        [Vec3Df::new(z, z, z), Vec3Df::new(z, o, z), Vec3Df::new(o, z, z)]
    );
    assert_eq!(faces[0].normals, [Vec3Df::from_ints(0, 0, -1); 3]);
    assert_eq!(faces[1].vertices[2], Vec3Df::new(z, z, fx(1.5)));
    assert_eq!(faces[1].normals, [Vec3Df::from_ints(0, -1, 0); 3]);
}

#[test]
fn line_endings_and_unreadable_lines() {
    let text = "v 0 0 0\r\nv 1 0 0\r\nv oops\nv 0 1 0\r\nvt 0.5 0.5\nvt 0.5 0.5 0\nvn 0 0 1\r\n\r\n\nf 1/1/1 2/1/1 3/1/1";
    let faces = parse_obj(text.as_bytes()).unwrap();
    assert_eq!(faces.len(), 1);
    assert_eq!(faces[0].vertices[1], Vec3Df::from_ints(1, 0, 0));
    assert_eq!(faces[0].vertices[2], Vec3Df::from_ints(0, 1, 0));
    assert_eq!(faces[0].texture_vertices[0], Vec3Df::new(fx(0.5), fx(0.5), fx(0.0)));
    assert_eq!(parse_obj(b"").unwrap().len(), 0);
    assert_eq!(parse_obj(b"\n\n\n").unwrap().len(), 0);
    assert_eq!(parse_obj(b"v 1 2 3").unwrap().len(), 0);
}

#[test]
fn a_face_may_only_name_what_stands_before_it() {
    let early = "v 0 0 0\nvt 0 0 0\nvn 0 0 1\nf 1/1/1 2/1/1 3/1/1\nv 1 0 0\nv 0 1 0\n";
    assert_eq!(parse_obj(early.as_bytes()).err(), Some(ObjError::Face { line: 4 }));
    let missing = "f 1/1/1 1/1/1 1/1/1\n";
    assert_eq!(parse_obj(missing.as_bytes()).err(), Some(ObjError::Face { line: 1 }));
    let no_normals = "v 0 0 0\nvt 0 0 0\n\nf 1/1 1/1 1/1\n";
    assert_eq!(parse_obj(no_normals.as_bytes()).err(), Some(ObjError::Face { line: 4 }));
    let fine = "v 0 0 0\nvt 0 0 0\nvn 0 0 1\nf 1/1/1 1/1/1 1/1/1\n";
    let faces: Vec<ObjFace> = parse_obj(fine.as_bytes()).unwrap();
    assert_eq!(faces.len(), 1);
}
