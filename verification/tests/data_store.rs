use spotify_api::data_manager::{DataManager, DataStore};
use spotify_api::model::album::FullAlbum;
use std::cell::RefCell;
use std::rc::Rc;

#[test]
fn read_after_write() {
    let mut store: DataStore<u32, fn(&u32)> = DataStore::new();
    assert_eq!(store.read("a"), None);
    store.write("a", 1);
    store.write("b", 2);
    assert_eq!(store.read("a"), Some(1));
    store.write("a", 3);
    assert_eq!(store.read("a"), Some(3));
    assert_eq!(store.read("b"), Some(2));
    assert_eq!(store.read("c"), None);
}

#[test]
fn subscribers_see_each_write_of_their_key() {
    let seen: Rc<RefCell<Vec<String>>> = Rc::new(RefCell::new(Vec::new()));
    let mut store: DataStore<String, Box<dyn Fn(&String)>> = DataStore::new();
    let s1 = seen.clone();
    store.subscribe("k", Box::new(move |v: &String| s1.borrow_mut().push(format!("first {}", v))));
    let s2 = seen.clone();
    store.subscribe("k", Box::new(move |v: &String| s2.borrow_mut().push(format!("second {}", v))));
    let s3 = seen.clone();
    store.subscribe("other", Box::new(move |v: &String| s3.borrow_mut().push(format!("other {}", v))));
    store.write("k", "x".to_string());
    assert_eq!(*seen.borrow(), vec!["first x".to_string(), "second x".to_string()]);
    assert_eq!(store.read("k"), Some("x".to_string()));
    // a subscription changes nothing that is stored
    let s4 = seen.clone();
    store.subscribe("k", Box::new(move |v: &String| s4.borrow_mut().push(format!("third {}", v))));
    assert_eq!(store.read("k"), Some("x".to_string()));
    store.write("k", "y".to_string());
    assert_eq!(seen.borrow().len(), 5);
    assert_eq!(seen.borrow()[4], "third y");
}

#[test]
fn data_manager_starts_empty() {
    let m: DataManager<fn(&Vec<FullAlbum>), fn(&FullAlbum)> = DataManager::new();
    assert!(m.album_lists.read("library").is_none());
    assert!(m.albums.read("any").is_none());
}
