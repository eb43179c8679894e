use stegrust::entry::Entry;

#[test]
fn new_entry_has_no_id() {
    let e = Entry::new("github".to_string(), "stego.png".to_string());
    assert_eq!(e.id(), None);
    assert_eq!(e.name(), "github");
    assert_eq!(e.filename(), "stego.png");
}

#[test]
fn set_id_keeps_the_rest() {
    let mut e = Entry::new("github".to_string(), "stego.png".to_string());
    e.set_id(Some(7));
    assert_eq!(e.id(), Some(7));
    assert_eq!(e.name(), "github");
    assert_eq!(e.filename(), "stego.png");
    e.set_id(None);
    assert_eq!(e.id(), None);
}
