use actix_practice::pages::{manual_page, welcome_page, AdvancedInfo, Info, UserBase};
use actix_practice::simple::{
    values_page, JsonData, JsonUserData, PayloadBuffer, UserAppState, UserDataBase, UserInfo,
    MAX_SIZE,
};
use actix_practice::users::{load_users, AppState, BasicDataJson, UsersDataBase};

#[test]
fn user_data_counts_page_loads() {
    let mut data = load_users();
    assert_eq!(data.post_user("alice".to_string()), "alice");
    assert_eq!(data.post_user("bob".to_string()), "bob");
    assert_eq!(data.users_page(), "current users : alice bob\nthis page loaded 1 time !");
    assert_eq!(data.users_page(), "current users : alice bob\nthis page loaded 2 time !");
    assert_eq!(data.counter(), 2);
}

#[test]
fn users_database_lists_users() {
    let mut db = UsersDataBase::new();
    assert_eq!(db.users_page(), "[]\nthis page loaded 1 time!");
    assert_eq!(db.post_user("nikan".to_string()), "User added");
    assert_eq!(db.post_user("parsa".to_string()), "User added");
    assert_eq!(db.users_page(), "[nikan , parsa]\nthis page loaded 2 time!");
}

#[test]
fn app_state_echoes_and_reports() {
    let mut state = AppState::new();
    let reply = state.echo_json(
        "nikan".to_string(),
        "login".to_string(),
        BasicDataJson { name: "n".to_string(), req: "r".to_string() },
    );
    assert_eq!(reply, "user : nikan with request [ login ]\njson info : n , r");
    state.echo_json(
        "b".to_string(),
        "c".to_string(),
        BasicDataJson { name: "d".to_string(), req: "e".to_string() },
    );
    assert_eq!(
        state.report(),
        "Whole requsts that we got : user nikan , request : login , name : n , req : r\nuser b , request : c , name : d , req : e\n"
    );
    assert_eq!(AppState::new().report(), "Whole requsts that we got : ");
}

#[test]
fn greeting_pages() {
    assert_eq!(welcome_page("IW-WEB"), "Welcome to IW-WEB");
    assert_eq!(manual_page("IW-WEB"), "Welcome to the IW-WEB !");
    let info = Info { name: "nikan".to_string(), lastname: "sadeghi".to_string() };
    assert_eq!(info.greeting(), "Welcome nikan sadeghi!");
    let adv = AdvancedInfo { name: "nikan".to_string(), lastname: "sadeghi".to_string() };
    assert_eq!(adv.greeting(), "Customer info nikan sadeghi!");
    assert_eq!(UserBase::with_default_users().users_page(), "Nikan Parsa Shahab");
}

#[test]
fn json_users_are_stored_in_order() {
    let mut state = UserAppState::new();
    let data = JsonData { key: "k".to_string(), value: "v".to_string() };
    assert_eq!(data.describe(), "Requset with key value of : k : v");
    assert_eq!(state.set_user_json("u".to_string(), "p".to_string(), data), "User added !");
    let entry = &state.users()[0];
    assert_eq!(entry.user, "u");
    assert_eq!(entry.value, "v");
    assert_eq!(entry.describe(), "Requset with key value of : k : v from user u : p");
    let copy = UserAppState::from_entries(vec![JsonUserData {
        user: "a".into(),
        password: "b".into(),
        key: "c".into(),
        value: "d".into(),
    }]);
    assert_eq!(copy.users().len(), 1);
}

#[test]
fn query_users_listing_and_greeting() {
    let mut db = UserDataBase::new();
    assert_eq!(db.listing(), "");
    assert_eq!(
        db.set_user(UserInfo { name: "a".to_string(), password: "1".to_string() }),
        "User added to the database !"
    );
    db.set_user(UserInfo { name: "b".to_string(), password: "2".to_string() });
    assert_eq!(db.listing(), "a : 1\nb : 2");
    assert_eq!(
        db.greeting_page("nikan", "sadeghi"),
        "hey nikan sadeghi\nUser : a with password : 1\nUser : b with password : 2\n"
    );
}

#[test]
fn payload_buffer_refuses_overflow() {
    let mut buf = PayloadBuffer::new();
    assert!(buf.push_chunk(&[1, 2, 3]).is_ok());
    let big = vec![0u8; MAX_SIZE - 3];
    assert!(buf.push_chunk(&big).is_ok());
    assert_eq!(buf.contents().len(), MAX_SIZE);
    assert!(buf.push_chunk(&[9]).is_err());
    assert_eq!(buf.contents().len(), MAX_SIZE);
    assert_eq!(&buf.contents()[..3], &[1, 2, 3]);
    assert!(buf.push_chunk(&[]).is_ok());
}

#[test]
fn values_page_shows_path_numbers() {
    assert_eq!(values_page("1", "2", "+3", "255"), "Values 1 2 3 255");
}
