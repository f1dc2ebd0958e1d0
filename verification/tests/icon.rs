use probe_rs_ui::icon::icon_rgba;
use probe_rs_ui::icon::ICON_SIZE;

fn px(v: &[u8], x: usize, y: usize) -> [u8; 4] {
    let i = (y * ICON_SIZE + x) * 4;
    [v[i], v[i + 1], v[i + 2], v[i + 3]]
}

#[test]
fn icon_is_a_chip_with_pins() {
    let v = icon_rgba();
    assert_eq!(v.len(), 64 * 64 * 4);
    assert_eq!(px(&v, 0, 0), [0, 0, 0, 0]);
    assert_eq!(px(&v, 18, 18), [0x1f, 0x6f, 0xc3, 255]);
    assert_eq!(px(&v, 31, 32), [0x2e, 0xa0, 0x43, 255]);
    assert_eq!(px(&v, 23, 12), [0xd4, 0xaf, 0x37, 255]);
    assert_eq!(px(&v, 26, 12), [0, 0, 0, 0]);
    assert_eq!(px(&v, 28, 50), [0xd4, 0xaf, 0x37, 255]);
    assert_eq!(px(&v, 12, 38), [0xd4, 0xaf, 0x37, 255]);
    assert_eq!(px(&v, 51, 33), [0xd4, 0xaf, 0x37, 255]);
    assert_eq!(px(&v, 46, 46), [0, 0, 0, 0]);
}
