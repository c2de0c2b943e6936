use cantdrown::{
    contains_text, drown, find_text, push_decimal, queued_message, role_change,
    role_change_message, same_text, RoleChange,
};

#[test]
fn drown_answers_with_a_refusal() {
    let replies = ["I can't", "Impossible", "I tried, but it didn't work", "Is this Worms?"];
    for _ in 0..20 {
        let r = drown();
        assert!(replies.contains(&r.as_str()));
    }
}

#[test]
fn asking_for_a_role_toggles_it() {
    assert_eq!(role_change(true), RoleChange::Remove);
    assert_eq!(role_change(false), RoleChange::Add);
}

#[test]
fn role_messages_mention_member() {
    assert_eq!(
        role_change_message(1234, "gamer", RoleChange::Add),
        "<@1234>: You now have the \"gamer\" role"
    );
    assert_eq!(
        role_change_message(0, "gamer", RoleChange::Remove),
        "<@0>: You no longer have the \"gamer\" role"
    );
}

#[test]
fn queue_messages() {
    assert_eq!(queued_message(0, "x"), None);
    assert_eq!(queued_message(1, "Song").as_deref(), Some("Added song to queue: Song"));
    assert_eq!(queued_message(12, "Song").as_deref(), Some("Added 12 songs to the queue"));
}

#[test]
fn decimal_digits() {
    let mut s = String::from("n=");
    push_decimal(&mut s, 0);
    assert_eq!(s, "n=0");
    let mut t = String::new();
    push_decimal(&mut t, u64::MAX as u128);
    assert_eq!(t, "18446744073709551615");
}

#[test]
fn text_search() {
    assert_eq!(find_text("abcabc", "ca"), Some(2));
    assert_eq!(find_text("abc", ""), Some(0));
    assert_eq!(find_text("ab", "abc"), None);
    assert_eq!(find_text("héllo wörld", "wö"), Some(6));
    assert!(contains_text("https://www.dropbox.com/x", "dropbox.com"));
    assert!(!contains_text("https://example.com", "dropbox.com"));
    assert!(same_text("doom", "doom"));
    assert!(!same_text("doom", "doom2"));
}
