use modsurfer::risk::{RiskBounds, RiskLevel};
use modsurfer::score::{score, Scaling};

#[test]
fn scores_fall_into_levels_by_the_standard_bounds() {
    let bounds = RiskBounds::default();
    assert_eq!(bounds, RiskBounds { low: 2500, medium: 50000, high: u32::MAX });
    assert!(bounds.is_ordered());
    assert_eq!(RiskLevel::classify(0, &bounds), RiskLevel::Low);
    assert_eq!(RiskLevel::classify(2500, &bounds), RiskLevel::Low);
    assert_eq!(RiskLevel::classify(2501, &bounds), RiskLevel::Medium);
    assert_eq!(RiskLevel::classify(50000, &bounds), RiskLevel::Medium);
    assert_eq!(RiskLevel::classify(50001, &bounds), RiskLevel::High);
    assert_eq!(RiskLevel::classify(u32::MAX, &bounds), RiskLevel::High);
    assert_eq!(RiskLevel::from(2500), RiskLevel::Low);
    assert_eq!(RiskLevel::from(2501), RiskLevel::Medium);
    assert_eq!(RiskLevel::from(50001), RiskLevel::High);
}

#[test]
fn levels_have_their_bounds() {
    let bounds = RiskBounds::default();
    assert_eq!(RiskLevel::Low.max(&bounds), 2500);
    assert_eq!(RiskLevel::Medium.max(&bounds), 50000);
    assert_eq!(RiskLevel::High.max(&bounds), u32::MAX);
    let bounds = RiskBounds { low: 1, medium: 2, high: 3 };
    assert_eq!(RiskLevel::Low.max(&bounds), 1);
    assert_eq!(RiskLevel::Medium.max(&bounds), 2);
    assert_eq!(RiskLevel::High.max(&bounds), 3);
    assert_eq!(RiskLevel::classify(2, &bounds), RiskLevel::Medium);
    assert_eq!(RiskLevel::classify(3, &bounds), RiskLevel::High);
}

#[test]
fn a_higher_score_never_has_a_lower_level() {
    assert!(RiskLevel::Low < RiskLevel::Medium);
    assert!(RiskLevel::Medium < RiskLevel::High);
    let bounds = RiskBounds::default();
    let scores = [0u32, 1, 2499, 2500, 2501, 49999, 50000, 50001, 1 << 20, u32::MAX];
    for i in 0..scores.len() {
        for j in i..scores.len() {
            assert!(
                RiskLevel::classify(scores[i], &bounds) <= RiskLevel::classify(scores[j], &bounds)
            );
        }
    }
}

#[test]
fn levels_are_written_in_lower_case() {
    assert_eq!(RiskLevel::Low.to_string(), "low");
    assert_eq!(RiskLevel::Medium.to_string(), "medium");
    assert_eq!(RiskLevel::High.as_str(), "high");
}

#[test]
fn bounds_are_read_from_settings() {
    assert_eq!(RiskBounds::from_settings(None, None, None), Some(RiskBounds::default()));
    assert_eq!(
        RiskBounds::from_settings(Some("10"), None, Some("+30")),
        Some(RiskBounds { low: 10, medium: 50000, high: 30 })
    );
    assert_eq!(
        RiskBounds::from_settings(None, Some("4294967295"), None),
        Some(RiskBounds { low: 2500, medium: u32::MAX, high: u32::MAX })
    );
    assert_eq!(RiskBounds::from_settings(Some("ten"), None, None), None);
    assert_eq!(RiskBounds::from_settings(None, Some("-1"), None), None);
    assert_eq!(RiskBounds::from_settings(None, None, Some("4294967296")), None);
    assert_eq!(RiskBounds::from_settings(None, None, Some("")), None);
    assert_eq!(
        RiskBounds::with_overrides(Some(1), None, None),
        RiskBounds { low: 1, medium: 50000, high: u32::MAX }
    );
    assert!(!RiskBounds { low: 5, medium: 5, high: 6 }.is_ordered());
}

#[test]
fn ratio_counts_how_often_the_limit_fits() {
    assert_eq!(score(0, 10, Scaling::Ratio), 0);
    assert_eq!(score(9, 10, Scaling::Ratio), 0);
    assert_eq!(score(10, 10, Scaling::Ratio), 1);
    assert_eq!(score(2_000_000, 1_048_576, Scaling::Ratio), 1);
    assert_eq!(score(99, 10, Scaling::Ratio), 9);
    assert_eq!(score(100, 10, Scaling::Ratio), 10);
    assert_eq!(score(u64::MAX, 1, Scaling::Ratio), 10);
    assert_eq!(score(7, 0, Scaling::Ratio), 7);
    assert_eq!(score(70, 0, Scaling::Ratio), 10);
}

#[test]
fn overage_counts_tenths_of_the_limit_rounded_up() {
    assert_eq!(score(5, 5, Scaling::Overage), 0);
    assert_eq!(score(4, 5, Scaling::Overage), 0);
    assert_eq!(score(6, 5, Scaling::Overage), 2);
    assert_eq!(score(4, 3, Scaling::Overage), 4);
    assert_eq!(score(101, 100, Scaling::Overage), 1);
    assert_eq!(score(111, 100, Scaling::Overage), 2);
    assert_eq!(score(200, 100, Scaling::Overage), 10);
    assert_eq!(score(1000, 100, Scaling::Overage), 10);
    assert_eq!(score(1, 0, Scaling::Overage), 10);
    assert_eq!(score(0, 0, Scaling::Overage), 0);
    assert_eq!(score(u64::MAX, u64::MAX - 1, Scaling::Overage), 1);
    assert_eq!(score(u64::MAX, 0, Scaling::Overage), 10);
}
