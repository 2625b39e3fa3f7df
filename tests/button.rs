use tomatina::button::{color_report, config_report, Color};

#[test]
fn color_report_carries_the_color() {
    assert_eq!(color_report(&Color(10, 20, 30)), vec![1, 10, 20, 30]);
}

#[test]
fn config_report_lays_out_colors_and_keys() {
    let report = config_report(&Color(255, 0, 0), &Color(255, 255, 255));
    let mut expected = vec![0u8; 64];
    expected[0] = 0x50;
    expected[1] = 0xdd;
    expected[2] = 2;
    expected[4] = 255;
    expected[7] = 255;
    expected[8] = 255;
    expected[9] = 255;
    expected[10] = 0x70;
    expected[11] = 0x72;
    expected[12] = 0x73;
    expected[13] = 0x17;
    expected[34] = 0x70;
    expected[35] = 0x72;
    expected[36] = 0x73;
    expected[37] = 0x18;
    assert_eq!(report, expected);
}
