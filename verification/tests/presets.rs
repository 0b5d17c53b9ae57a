use ut::precision::Precision;
use ut::preset::Preset;
use ut::provider::{Date, DateTimeProvider, FixedProvider};

#[test]
fn presets_resolve_to_the_neighbouring_days() {
    let provider = FixedProvider::new(Date { days: 19000 }, 3600);
    assert_eq!(Preset::Today.as_date(&provider), Date { days: 19000 });
    assert_eq!(Preset::Tomorrow.as_date(&provider), Date { days: 19001 });
    assert_eq!(Preset::Yesterday.as_date(&provider), Date { days: 18999 });
}

#[test]
fn presets_work_at_and_before_the_epoch() {
    let provider = FixedProvider::new(Date { days: 0 }, 0);
    assert_eq!(Preset::Tomorrow.as_date(&provider), Date { days: 1 });
    assert_eq!(Preset::Yesterday.as_date(&provider), Date { days: -1 });
}

#[test]
fn the_provider_reports_its_own_timezone() {
    let provider = FixedProvider::new(Date { days: 42 }, -18000);
    assert_eq!(provider.timezone(), -18000);
    assert_eq!(provider.today(), Date { days: 42 });
    assert_eq!(provider.tomorrow(), Date { days: 43 });
    assert_eq!(provider.yesterday(), Date { days: 41 });
}

#[test]
fn preferred_formats_are_fixed_per_precision() {
    assert_eq!(Precision::Second.preferred_format(), "%Y-%m-%d %H:%M:%S");
    assert_eq!(Precision::Millisecond.preferred_format(), "%Y-%m-%d %H:%M:%S%.3f");
    assert_eq!(Precision::Microsecond.preferred_format(), "%Y-%m-%d %H:%M:%S%.6f");
    assert_eq!(Precision::Nanosecond.preferred_format(), "%Y-%m-%d %H:%M:%S%.9f");
}
