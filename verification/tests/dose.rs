use gmc_logger::dose::{scaled, to_dose_rate, DoseRate, CALIBRATION_TENTHS, UNITS_PER_WHOLE};
use gmc_logger::reading::CountReading;

fn as_float(dose: DoseRate) -> f32 {
    dose.ten_thousandths as f32 / UNITS_PER_WHOLE as f32
}

#[test]
fn zero_counts_give_zero_dose() {
    let dose = to_dose_rate(CountReading { cpm: 0 });
    assert_eq!(dose, DoseRate { ten_thousandths: 0 });
    assert_eq!(as_float(dose), 0.0);
    assert_eq!(dose.to_text(), "0");
}

#[test]
fn thousand_counts_give_six_and_a_half() {
    let dose = to_dose_rate(CountReading { cpm: 1000 });
    assert_eq!(dose, DoseRate { ten_thousandths: 65000 });
    assert_eq!(as_float(dose), 6.5);
    assert_eq!(dose.to_text(), "6.5");
}

#[test]
fn two_hundred_counts_give_one_point_three() {
    let dose = to_dose_rate(CountReading { cpm: 200 });
    assert_eq!(dose, DoseRate { ten_thousandths: 13000 });
    assert_eq!(as_float(dose), 1.3);
    assert_eq!(dose.to_text(), "1.3");
}

#[test]
fn ten_counts_give_sixty_five_thousandths() {
    let dose = to_dose_rate(CountReading { cpm: 10 });
    assert_eq!(dose.ten_thousandths, 650);
    assert_eq!(dose.to_text(), "0.065");
    assert_eq!(dose.whole(), 0);
    assert_eq!(dose.fraction(), 650);
}

#[test]
fn largest_count_converts_without_loss() {
    let dose = to_dose_rate(CountReading { cpm: 65535 });
    assert_eq!(dose.ten_thousandths, 4259775);
    assert_eq!(dose.to_text(), "425.9775");
    assert_eq!(dose.whole(), 425);
    assert_eq!(dose.fraction(), 9775);
}

#[test]
fn numerals_drop_trailing_zeros_only() {
    assert_eq!(DoseRate { ten_thousandths: 1 }.to_text(), "0.0001");
    assert_eq!(DoseRate { ten_thousandths: 10 }.to_text(), "0.001");
    assert_eq!(DoseRate { ten_thousandths: 100 }.to_text(), "0.01");
    assert_eq!(DoseRate { ten_thousandths: 1000 }.to_text(), "0.1");
    assert_eq!(DoseRate { ten_thousandths: 10000 }.to_text(), "1");
    assert_eq!(DoseRate { ten_thousandths: 10001 }.to_text(), "1.0001");
    assert_eq!(DoseRate { ten_thousandths: 10100 }.to_text(), "1.01");
    assert_eq!(DoseRate { ten_thousandths: 1002000 }.to_text(), "100.2");
    assert_eq!(DoseRate { ten_thousandths: 130000 }.to_text(), "13");
    assert_eq!(DoseRate { ten_thousandths: 4294967295 }.to_text(), "429496.7295");
}

#[test]
fn numeral_is_that_of_the_single_precision_dose_for_every_count() {
    for cpm in 0..=65535u16 {
        let float_dose: f32 = (cpm as f32) * 6.5 / 1000.0;
        let exact = to_dose_rate(CountReading { cpm });
        assert_eq!(exact.ten_thousandths, cpm as u32 * 65);
        assert_eq!(exact.to_text(), format!("{}", float_dose), "count {}", cpm);
    }
}

#[test]
fn calibration_factor_is_six_and_a_half() {
    assert_eq!(CALIBRATION_TENTHS, 65);
    assert_eq!(UNITS_PER_WHOLE, 10000);
}

#[test]
fn other_factors_scale_the_same_way() {
    assert_eq!(scaled(CountReading { cpm: 1000 }, 10).to_text(), "1");
    assert_eq!(scaled(CountReading { cpm: 1000 }, 0).to_text(), "0");
    assert_eq!(scaled(CountReading { cpm: 3 }, 57).to_text(), "0.0171");
    assert_eq!(
        scaled(CountReading { cpm: 65535 }, 65535),
        DoseRate { ten_thousandths: 4294836225 }
    );
    assert_eq!(scaled(CountReading { cpm: 200 }, 65), to_dose_rate(CountReading { cpm: 200 }));
}
