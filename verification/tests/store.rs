use tailor::store::{ProfileError, ProfileStore};

fn sample() -> ProfileStore<Vec<u8>> {
    let mut store = ProfileStore::new();
    store.add_profile("quiet", vec![1, 2]);
    store.add_profile("loud", vec![9]);
    store
}

#[test]
fn new_store_is_empty() {
    let store: ProfileStore<Vec<u8>> = ProfileStore::new();
    assert!(store.list_profiles().is_empty());
    assert!(!store.contains("quiet"));
    assert_eq!(store.get_profile("quiet"), Err(ProfileError::NotFound));
}

#[test]
fn add_then_get_returns_the_data() {
    let store = sample();
    assert_eq!(store.get_profile("quiet"), Ok(&vec![1, 2]));
    assert_eq!(store.get_profile("loud"), Ok(&vec![9]));
    assert!(store.contains("quiet"));
}

#[test]
fn add_twice_is_add_once() {
    let mut store = sample();
    store.add_profile("quiet", vec![1, 2]);
    assert_eq!(store.get_profile("quiet"), Ok(&vec![1, 2]));
    assert_eq!(store.list_profiles(), vec!["quiet".to_owned(), "loud".to_owned()]);
}

#[test]
fn add_overwrites_and_does_not_merge() {
    let mut store = sample();
    store.add_profile("quiet", vec![7]);
    assert_eq!(store.get_profile("quiet"), Ok(&vec![7]));
    assert_eq!(store.get_profile("loud"), Ok(&vec![9]));
    assert_eq!(store.list_profiles().len(), 2);
}

#[test]
fn names_are_case_sensitive() {
    let mut store = sample();
    assert_eq!(store.get_profile("Quiet"), Err(ProfileError::NotFound));
    store.add_profile("Quiet", vec![3]);
    assert_eq!(store.get_profile("quiet"), Ok(&vec![1, 2]));
    assert_eq!(store.get_profile("Quiet"), Ok(&vec![3]));
}

#[test]
fn empty_name_is_never_found() {
    let mut store = sample();
    assert!(!store.contains(""));
    assert_eq!(store.get_profile(""), Err(ProfileError::NotFound));
    assert_eq!(store.remove_profile(""), Err(ProfileError::NotFound));
    assert_eq!(store.rename_profile("", "other"), Err(ProfileError::NotFound));
}

#[test]
fn list_keeps_the_order_of_arrival() {
    let mut store = sample();
    store.add_profile("middle", vec![]);
    assert_eq!(
        store.list_profiles(),
        vec!["quiet".to_owned(), "loud".to_owned(), "middle".to_owned()]
    );
    assert_eq!(store.list_profiles(), store.list_profiles());
}

#[test]
fn remove_then_get_is_not_found() {
    let mut store = sample();
    assert_eq!(store.remove_profile("quiet"), Ok(()));
    assert_eq!(store.get_profile("quiet"), Err(ProfileError::NotFound));
    assert_eq!(store.list_profiles(), vec!["loud".to_owned()]);
    assert_eq!(store.get_profile("loud"), Ok(&vec![9]));
}

#[test]
fn remove_of_an_absent_name_is_not_found() {
    let mut store = sample();
    assert_eq!(store.remove_profile("absent"), Err(ProfileError::NotFound));
    assert_eq!(store.list_profiles().len(), 2);
    assert_eq!(store.remove_profile("quiet"), Ok(()));
    assert_eq!(store.remove_profile("quiet"), Err(ProfileError::NotFound));
}

#[test]
fn rename_moves_the_data_and_keeps_the_place() {
    let mut store = sample();
    assert_eq!(
        store.rename_profile("quiet", "silent"),
        Ok(vec!["silent".to_owned(), "loud".to_owned()])
    );
    assert_eq!(store.get_profile("silent"), Ok(&vec![1, 2]));
    assert_eq!(store.get_profile("quiet"), Err(ProfileError::NotFound));
}

#[test]
fn rename_twice_is_not_found() {
    let mut store = sample();
    assert!(store.rename_profile("quiet", "silent").is_ok());
    assert_eq!(store.rename_profile("quiet", "silent"), Err(ProfileError::NotFound));
    assert_eq!(store.remove_profile("quiet"), Err(ProfileError::NotFound));
}

#[test]
fn rename_onto_a_taken_name_is_a_conflict() {
    let mut store = sample();
    assert_eq!(store.rename_profile("quiet", "loud"), Err(ProfileError::Conflict));
    assert_eq!(store.get_profile("quiet"), Ok(&vec![1, 2]));
    assert_eq!(store.get_profile("loud"), Ok(&vec![9]));
    assert_eq!(store.list_profiles(), vec!["quiet".to_owned(), "loud".to_owned()]);
}

#[test]
fn rename_onto_itself_is_a_conflict() {
    let mut store = sample();
    assert_eq!(store.rename_profile("quiet", "quiet"), Err(ProfileError::Conflict));
    assert_eq!(store.get_profile("quiet"), Ok(&vec![1, 2]));
}

#[test]
fn rename_of_an_absent_name_onto_a_taken_one_is_not_found() {
    let mut store = sample();
    assert_eq!(store.rename_profile("absent", "loud"), Err(ProfileError::NotFound));
    assert_eq!(store.rename_profile("absent", "fresh"), Err(ProfileError::NotFound));
    assert_eq!(store.list_profiles().len(), 2);
}

#[test]
fn rename_there_and_back_restores_the_store() {
    let mut store = sample();
    assert!(store.rename_profile("quiet", "silent").is_ok());
    assert_eq!(
        store.rename_profile("silent", "quiet"),
        Ok(vec!["quiet".to_owned(), "loud".to_owned()])
    );
    assert_eq!(store.get_profile("quiet"), Ok(&vec![1, 2]));
}
