use sienna::stages::{hue_band, HueBand};

#[test]
fn bands_begin_and_end_where_they_should() {
    assert_eq!(hue_band(0), HueBand::Red);
    assert_eq!(hue_band(30), HueBand::Red);
    assert_eq!(hue_band(31), HueBand::Orange);
    assert_eq!(hue_band(60), HueBand::Orange);
    assert_eq!(hue_band(61), HueBand::Yellow);
    assert_eq!(hue_band(120), HueBand::Yellow);
    assert_eq!(hue_band(121), HueBand::Green);
    assert_eq!(hue_band(180), HueBand::Green);
    assert_eq!(hue_band(181), HueBand::Cyan);
    assert_eq!(hue_band(240), HueBand::Cyan);
    assert_eq!(hue_band(241), HueBand::Blue);
    assert_eq!(hue_band(300), HueBand::Blue);
    assert_eq!(hue_band(301), HueBand::Magenta);
    assert_eq!(hue_band(359), HueBand::Magenta);
    assert_eq!(hue_band(360), HueBand::Magenta);
}

#[test]
fn angles_off_the_circle_are_magenta() {
    assert_eq!(hue_band(-1), HueBand::Magenta);
    assert_eq!(hue_band(361), HueBand::Magenta);
    assert_eq!(hue_band(i32::MIN), HueBand::Magenta);
    assert_eq!(hue_band(i32::MAX), HueBand::Magenta);
}

#[test]
fn every_angle_of_the_circle_has_one_of_seven_bands() {
    let mut counts = [0usize; 7];
    for degrees in 0..360 {
        let slot = match hue_band(degrees) {
            HueBand::Red => 0,
            HueBand::Orange => 1,
            HueBand::Yellow => 2,
            HueBand::Green => 3,
            HueBand::Cyan => 4,
            HueBand::Blue => 5,
            HueBand::Magenta => 6,
        };
        counts[slot] += 1;
    }
    assert_eq!(counts, [31, 30, 60, 60, 60, 60, 59]);
}
