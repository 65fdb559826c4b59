use rectangulo::area::{get_area_v1, get_area_v2, get_area_v3};
use rectangulo::Rectangulo;

#[test]
fn area_from_two_sides() {
    assert_eq!(get_area_v1(10, 20), 200);
    assert_eq!(get_area_v1(10, 10), 100);
    assert_eq!(get_area_v1(0, 20), 0);
    assert_eq!(get_area_v1(20, 0), 0);
    assert_eq!(get_area_v1(7, 1), 7);
}

#[test]
fn area_from_two_sides_beyond_thirty_two_bits() {
    assert_eq!(get_area_v1(65_536, 65_536), 4_294_967_296);
    assert_eq!(get_area_v1(u32::MAX, 2), 8_589_934_590);
    assert_eq!(get_area_v1(u32::MAX, u32::MAX), 18_446_744_065_119_617_025);
}

#[test]
fn area_from_a_pair() {
    assert_eq!(get_area_v2((10, 20)), 200);
    assert_eq!(get_area_v2((20, 10)), 200);
    assert_eq!(get_area_v2((0, 0)), 0);
    assert_eq!(get_area_v2((3, 1)), 3);
}

#[test]
fn area_from_a_pair_beyond_thirty_two_bits() {
    assert_eq!(get_area_v2((65_536, 65_536)), 4_294_967_296);
    assert_eq!(get_area_v2((u32::MAX, u32::MAX)), 18_446_744_065_119_617_025);
}

#[test]
fn area_from_a_borrowed_rectangle() {
    let rect = Rectangulo { base: 10, altura: 20 };
    assert_eq!(get_area_v3(&rect), 200);
    assert_eq!(rect, Rectangulo { base: 10, altura: 20 });
    assert_eq!(get_area_v3(&Rectangulo { base: 0, altura: 20 }), 0);
    assert_eq!(get_area_v3(&Rectangulo::square(4)), 16);
}

#[test]
fn area_from_a_borrowed_rectangle_beyond_thirty_two_bits() {
    let rect = Rectangulo { base: u32::MAX, altura: u32::MAX };
    assert_eq!(get_area_v3(&rect), 18_446_744_065_119_617_025);
}

#[test]
fn all_forms_of_area_agree() {
    let sides = [(0, 0), (0, 5), (1, 1), (10, 20), (2, 2), (65_535, 65_537), (u32::MAX, 3)];
    for (base, altura) in sides {
        let rect = Rectangulo { base, altura };
        let area = rect.get_area();
        assert_eq!(get_area_v1(base, altura), area);
        assert_eq!(get_area_v2((base, altura)), area);
        assert_eq!(get_area_v3(&rect), area);
    }
}
