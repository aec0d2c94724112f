use msggram::contacts::{home_page, ContactList};

#[test]
fn empty_contacts_render_nothing() {
    let list = ContactList::new();
    assert!(list.is_empty());
    assert_eq!(list.buttons(), "");
    assert_eq!(home_page("<div>Contacts</div>", &list), "<div></div>");
}

#[test]
fn contacts_render_buttons_in_order() {
    let mut list = ContactList::new();
    list.insert(1, String::from("alice"));
    list.insert(0x67e5504410b1426f9247bb680e5fe0c8, String::from("bob"));
    assert_eq!(list.len(), 2);
    assert_eq!(
        list.buttons(),
        "<button class='user' data-user-id='00000000-0000-0000-0000-000000000001'>alice</button>\
         <button class='user' data-user-id='67e55044-10b1-426f-9247-bb680e5fe0c8'>bob</button>"
    );
}

#[test]
fn inserting_a_known_id_replaces_its_nickname() {
    let mut list = ContactList::new();
    list.insert(5, String::from("old"));
    list.insert(6, String::from("other"));
    list.insert(5, String::from("new"));
    assert_eq!(list.len(), 2);
    assert_eq!(
        home_page("Contacts", &list),
        "<button class='user' data-user-id='00000000-0000-0000-0000-000000000005'>new</button>\
         <button class='user' data-user-id='00000000-0000-0000-0000-000000000006'>other</button>"
    );
}
