use actix_practice::messages::{sign_message, sign_redirect, UserMessage, UserState, UserTemplate};
use actix_practice::statics::{
    has_parent_dir, page_not_found, static_file_path, template_dir, template_file,
};

#[test]
fn refuses_parent_components() {
    for p in ["..", "../etc/passwd", "a/../b", "a/..", "./.."] {
        assert!(has_parent_dir(p), "{}", p);
        assert!(static_file_path(p).is_err());
    }
    for p in ["", "a", "..a", "a..", "a/..b/c", ".../x", "a/./b", "homepage.html"] {
        assert!(!has_parent_dir(p), "{}", p);
    }
}

#[test]
fn joins_like_path_join() {
    let dir = template_dir();
    for p in ["homepage.html", "css/site.css", "", "/etc/hosts"] {
        let expected = std::path::PathBuf::from(&dir).join(p);
        let got = static_file_path(p).ok().unwrap();
        assert_eq!(std::path::PathBuf::from(got), expected);
    }
    assert_eq!(template_file("dir", "signup.html"), "dir/signup.html");
    assert_eq!(page_not_found("x.html"), "404 - Page x.html not found");
}

#[test]
fn redirect_encodes_name_and_message() {
    assert_eq!(sign_redirect("Nikan", "hi"), "/success?name=Nikan&message=hi");
    assert_eq!(
        sign_redirect("John Doe", "a&b=c é"),
        "/success?name=John%20Doe&message=a%26b%3Dc%20%C3%A9"
    );
    assert_eq!(sign_redirect("a-b_c.d~", ""), "/success?name=a-b_c.d~&message=");
}

#[test]
fn board_keeps_messages_in_order() {
    let mut state = UserState::new();
    let url = sign_message(&mut state, "ann".to_string(), "hello there".to_string());
    assert_eq!(url, "/success?name=ann&message=hello%20there");
    state.push(UserMessage::new("bob".to_string(), "second".to_string()));
    let template = UserTemplate::new(&state);
    let shown: Vec<String> = template.messages().iter().map(|m| m.describe()).collect();
    assert_eq!(shown, vec!["ann : hello there", "bob : second"]);
    assert_eq!(template.messages()[1].username(), "bob");
    assert_eq!(template.messages()[1].message(), "second");
}
