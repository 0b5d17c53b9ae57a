use ut::find::{find_by_name, find_by_name_opt, FindByName, FindError};
use ut::precision::{Precision, PrecisionError};
use ut::preset::{Preset, PresetError};
use ut::validate::IntoValidationError;

#[test]
fn finds_each_precision_name() {
    assert_eq!(Precision::find_by_name("second"), Ok(Precision::Second));
    assert_eq!(Precision::find_by_name("millisecond"), Ok(Precision::Millisecond));
    assert_eq!(Precision::find_by_name("microsecond"), Ok(Precision::Microsecond));
    assert_eq!(Precision::find_by_name("nanosecond"), Ok(Precision::Nanosecond));
}

#[test]
fn finds_each_preset_name() {
    assert_eq!(Preset::find_by_name("today"), Ok(Preset::Today));
    assert_eq!(Preset::find_by_name("tomorrow"), Ok(Preset::Tomorrow));
    assert_eq!(Preset::find_by_name("yesterday"), Ok(Preset::Yesterday));
}

#[test]
fn find_agrees_with_find_opt() {
    for name in ["second", "millisecond", "microsecond", "nanosecond"] {
        let direct: Precision = find_by_name(name).unwrap();
        let opt: Precision = find_by_name_opt(Some(name)).unwrap().unwrap();
        assert_eq!(direct, opt);
    }
    for name in ["today", "tomorrow", "yesterday"] {
        let direct: Preset = find_by_name(name).unwrap();
        let opt: Preset = find_by_name_opt(Some(name)).unwrap().unwrap();
        assert_eq!(direct, opt);
    }
}

#[test]
fn find_opt_none_is_ok_none() {
    assert_eq!(Precision::find_by_name_opt(None), Ok(None));
    assert_eq!(Preset::find_by_name_opt(None), Ok(None));
    let generic: Result<Option<Precision>, FindError> = find_by_name_opt(None);
    assert_eq!(generic, Ok(None));
}

#[test]
fn unknown_precision_name_is_not_found() {
    assert_eq!(
        Precision::find_by_name("decade"),
        Err(PrecisionError::WrongName(FindError::NotFound(String::from("decade"))))
    );
    assert_eq!(
        Precision::find_by_name("Second"),
        Err(PrecisionError::WrongName(FindError::NotFound(String::from("Second"))))
    );
    assert_eq!(
        Precision::find_by_name(""),
        Err(PrecisionError::WrongName(FindError::NotFound(String::from(""))))
    );
}

#[test]
fn unknown_preset_name_is_not_found() {
    assert_eq!(
        Preset::find_by_name("noon"),
        Err(PresetError::WrongName(FindError::NotFound(String::from("noon"))))
    );
}

#[test]
fn precision_error_message_lists_every_name() {
    let err = Precision::find_by_name("decade").unwrap_err();
    assert_eq!(
        err.into_validation_error(),
        "Wrong precision. error:not found: decade. \
         possible names: [second, millisecond, microsecond, nanosecond]"
    );
}

#[test]
fn preset_error_message_lists_every_name() {
    let err = Preset::find_by_name("noon").unwrap_err();
    assert_eq!(
        err.into_validation_error(),
        "Wrong preset. error:not found: noon. possible names: [today, tomorrow, yesterday]"
    );
}

#[test]
fn preset_error_from_find_error() {
    let fe = FindError::NotFound(String::from("noon"));
    assert_eq!(PresetError::from(fe.clone()), PresetError::WrongName(fe));
}

#[test]
fn possible_values_and_names_are_in_order() {
    assert_eq!(
        Precision::possible_values(),
        vec![
            Precision::Second,
            Precision::Millisecond,
            Precision::Microsecond,
            Precision::Nanosecond,
        ]
    );
    assert_eq!(
        Preset::possible_values(),
        vec![Preset::Today, Preset::Tomorrow, Preset::Yesterday]
    );
    assert_eq!(
        Precision::possible_names(),
        vec!["second", "millisecond", "microsecond", "nanosecond"]
    );
    assert_eq!(Preset::possible_names(), vec!["today", "tomorrow", "yesterday"]);
}
