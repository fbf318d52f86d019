use tailor::connection::TailorConnection;
use tailor::profile::{
    Color, ColorProfile, FanProfilePoint, FanSetting, FullProfileInfo, ProfileInfo,
};
use tailor::store::ProfileError;

fn info(fan: &str, keyboard: &str) -> ProfileInfo {
    ProfileInfo { fan: fan.to_owned(), keyboard: keyboard.to_owned() }
}

fn red() -> ColorProfile {
    ColorProfile::Single(Color { r: 255, g: 0, b: 0 })
}

fn curve() -> Vec<FanProfilePoint> {
    vec![FanProfilePoint { temp: 30, fan: 20 }, FanProfilePoint { temp: 70, fan: 100 }]
}

fn service() -> TailorConnection {
    let mut connection = TailorConnection::new("work");
    connection.add_fan_profile("x", &curve()).unwrap();
    connection.add_fan_profile("silent", &vec![]).unwrap();
    connection.add_keyboard_profile("red", &red()).unwrap();
    connection.add_global_profile("work", &info("x", "red")).unwrap();
    connection.add_global_profile("night", &info("silent", "red")).unwrap();
    connection
}

#[test]
fn new_service_holds_nothing() {
    let connection = TailorConnection::new("default");
    assert_eq!(connection.get_active_global_profile_name().unwrap(), "default");
    assert!(connection.list_global_profiles().unwrap().is_empty());
    assert!(connection.list_fan_profiles().unwrap().is_empty());
    assert!(connection.list_keyboard_profiles().unwrap().is_empty());
    assert_eq!(*connection.applied_keyboard(), ColorProfile::Off);
    assert_eq!(*connection.applied_fan(), FanSetting::Profile(vec![]));
}

#[test]
fn fan_rename_rewrites_the_references() {
    let mut connection = service();
    assert_eq!(
        connection.rename_fan_profile("x", "y"),
        Ok(vec!["y".to_owned(), "silent".to_owned()])
    );
    assert_eq!(connection.get_global_profile("work").unwrap(), info("y", "red"));
    assert_eq!(connection.get_global_profile("night").unwrap(), info("silent", "red"));
    assert_eq!(connection.get_fan_profile("y").unwrap(), curve());
    assert_eq!(connection.get_fan_profile("x"), Err(ProfileError::NotFound));
}

#[test]
fn fan_rename_there_and_back_is_identity() {
    let mut connection = service();
    connection.rename_fan_profile("x", "y").unwrap();
    assert_eq!(connection.get_global_profile("work").unwrap().fan, "y");
    connection.rename_fan_profile("y", "x").unwrap();
    assert_eq!(connection.get_global_profile("work").unwrap(), info("x", "red"));
    assert_eq!(connection.get_global_profile("night").unwrap(), info("silent", "red"));
    assert_eq!(connection.get_fan_profile("x").unwrap(), curve());
    assert_eq!(
        connection.list_fan_profiles().unwrap(),
        vec!["x".to_owned(), "silent".to_owned()]
    );
}

#[test]
fn keyboard_rename_rewrites_every_reference() {
    let mut connection = service();
    connection.rename_keyboard_profile("red", "crimson").unwrap();
    assert_eq!(connection.get_global_profile("work").unwrap(), info("x", "crimson"));
    assert_eq!(connection.get_global_profile("night").unwrap(), info("silent", "crimson"));
    connection.rename_keyboard_profile("crimson", "red").unwrap();
    assert_eq!(connection.get_global_profile("work").unwrap(), info("x", "red"));
    assert_eq!(connection.get_global_profile("night").unwrap(), info("silent", "red"));
}

#[test]
fn fan_rename_leaves_keyboard_references_of_the_same_name() {
    let mut connection = service();
    connection.add_keyboard_profile("x", &red()).unwrap();
    connection.add_global_profile("twin", &info("x", "x")).unwrap();
    connection.rename_fan_profile("x", "y").unwrap();
    assert_eq!(connection.get_global_profile("twin").unwrap(), info("y", "x"));
}

#[test]
fn refused_rename_changes_nothing() {
    let mut connection = service();
    assert_eq!(connection.rename_fan_profile("x", "silent"), Err(ProfileError::Conflict));
    assert_eq!(connection.rename_fan_profile("absent", "y"), Err(ProfileError::NotFound));
    assert_eq!(connection.get_global_profile("work").unwrap(), info("x", "red"));
    assert_eq!(connection.get_fan_profile("x").unwrap(), curve());
    assert_eq!(connection.get_fan_profile("silent").unwrap(), vec![]);
}

#[test]
fn dangling_reference_is_adopted_by_a_rename() {
    let mut connection = service();
    connection.add_global_profile("stray", &info("y", "red")).unwrap();
    connection.rename_fan_profile("x", "y").unwrap();
    connection.rename_fan_profile("y", "x").unwrap();
    assert_eq!(connection.get_global_profile("work").unwrap(), info("x", "red"));
    assert_eq!(connection.get_global_profile("stray").unwrap(), info("x", "red"));
}

#[test]
fn global_rename_conflict_leaves_both_profiles() {
    let mut connection = service();
    assert_eq!(connection.rename_global_profile("work", "night"), Err(ProfileError::Conflict));
    assert_eq!(connection.get_global_profile("work").unwrap(), info("x", "red"));
    assert_eq!(connection.get_global_profile("night").unwrap(), info("silent", "red"));
    assert_eq!(connection.get_active_global_profile_name().unwrap(), "work");
    assert_eq!(
        connection.list_global_profiles().unwrap(),
        vec!["work".to_owned(), "night".to_owned()]
    );
}

#[test]
fn active_name_follows_a_rename_of_the_active_profile() {
    let mut connection = service();
    assert_eq!(
        connection.rename_global_profile("work", "office"),
        Ok(vec!["office".to_owned(), "night".to_owned()])
    );
    assert_eq!(connection.get_active_global_profile_name().unwrap(), "office");
    connection.rename_global_profile("night", "late").unwrap();
    assert_eq!(connection.get_active_global_profile_name().unwrap(), "office");
}

#[test]
fn set_active_needs_a_stored_profile() {
    let mut connection = service();
    assert_eq!(
        connection.set_active_global_profile_name("absent"),
        Err(ProfileError::NotFound)
    );
    assert_eq!(connection.set_active_global_profile_name(""), Err(ProfileError::NotFound));
    assert_eq!(connection.get_active_global_profile_name().unwrap(), "work");
    assert_eq!(connection.set_active_global_profile_name("night"), Ok(()));
    assert_eq!(connection.get_active_global_profile_name().unwrap(), "night");
}

#[test]
fn reload_applies_what_the_active_profile_names() {
    let mut connection = service();
    assert_eq!(connection.reload(), Ok(()));
    assert_eq!(*connection.applied_keyboard(), red());
    assert_eq!(*connection.applied_fan(), FanSetting::Profile(curve()));
    connection.set_active_global_profile_name("night").unwrap();
    connection.reload().unwrap();
    assert_eq!(*connection.applied_fan(), FanSetting::Profile(vec![]));
}

#[test]
fn reload_after_a_rename_sees_the_new_names() {
    let mut connection = service();
    connection.rename_fan_profile("x", "y").unwrap();
    connection.rename_keyboard_profile("red", "crimson").unwrap();
    connection.reload().unwrap();
    assert_eq!(*connection.applied_keyboard(), red());
    assert_eq!(*connection.applied_fan(), FanSetting::Profile(curve()));
}

#[test]
fn override_holds_until_reload() {
    let mut connection = service();
    connection.reload().unwrap();
    assert_eq!(connection.override_fan_speed(80), Ok(()));
    assert_eq!(connection.override_keyboard_color(&Color { r: 1, g: 2, b: 3 }), Ok(()));
    assert_eq!(*connection.applied_fan(), FanSetting::Speed(80));
    assert_eq!(*connection.applied_keyboard(), ColorProfile::Single(Color { r: 1, g: 2, b: 3 }));
    assert_eq!(connection.get_fan_profile("x").unwrap(), curve());
    connection.reload().unwrap();
    assert_eq!(*connection.applied_fan(), FanSetting::Profile(curve()));
    assert_eq!(*connection.applied_keyboard(), red());
}

#[test]
fn removed_profile_leaves_a_reference_that_stands_for_the_default() {
    let mut connection = service();
    assert_eq!(connection.remove_fan_profile("x"), Ok(()));
    assert_eq!(connection.remove_keyboard_profile("red"), Ok(()));
    assert_eq!(connection.get_global_profile("work").unwrap(), info("x", "red"));
    connection.reload().unwrap();
    assert_eq!(*connection.applied_keyboard(), ColorProfile::Off);
    assert_eq!(*connection.applied_fan(), FanSetting::Profile(vec![]));
}

#[test]
fn removed_active_profile_stands_for_the_default() {
    let mut connection = service();
    assert_eq!(connection.remove_global_profile("work"), Ok(()));
    assert_eq!(connection.get_active_global_profile_name().unwrap(), "work");
    connection.reload().unwrap();
    assert_eq!(*connection.applied_keyboard(), ColorProfile::Off);
    assert_eq!(*connection.applied_fan(), FanSetting::Profile(vec![]));
}

#[test]
fn copy_is_get_then_add() {
    let mut connection = service();
    assert_eq!(connection.copy_fan_profile("x", "silent"), Ok(()));
    assert_eq!(connection.get_fan_profile("silent").unwrap(), curve());
    assert_eq!(connection.copy_fan_profile("absent", "z"), Err(ProfileError::NotFound));
    assert_eq!(connection.get_fan_profile("z"), Err(ProfileError::NotFound));
    assert_eq!(connection.copy_keyboard_profile("red", "red2"), Ok(()));
    assert_eq!(connection.get_keyboard_profile("red2").unwrap(), red());
    assert_eq!(connection.copy_keyboard_profile("absent", "z"), Err(ProfileError::NotFound));
    assert_eq!(connection.copy_global_profile("work", "work2"), Ok(()));
    assert_eq!(connection.get_global_profile("work2").unwrap(), info("x", "red"));
    assert_eq!(connection.copy_global_profile("absent", "z"), Err(ProfileError::NotFound));
}

#[test]
fn full_listing_pairs_names_with_profiles() {
    let connection = service();
    assert_eq!(
        connection.list_full_global_profiles(),
        vec![
            FullProfileInfo { name: "work".to_owned(), data: info("x", "red") },
            FullProfileInfo { name: "night".to_owned(), data: info("silent", "red") },
        ]
    );
}

#[test]
fn get_of_absent_profiles_is_not_found() {
    let connection = service();
    assert_eq!(connection.get_fan_profile("absent"), Err(ProfileError::NotFound));
    assert_eq!(connection.get_keyboard_profile("absent"), Err(ProfileError::NotFound));
    assert_eq!(connection.get_global_profile("absent"), Err(ProfileError::NotFound));
}
