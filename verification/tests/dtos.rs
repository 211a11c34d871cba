use secure_share::dtos::{
    FileUploadDto, FilterUserDto, LoginUserDto, NamedUpdateDto, RegisterUserDto, RequestQueryDto,
    UserReceiveFileDto, UserSendFileDto,
};
use secure_share::handler::file_query::{get_user_shared_files, paging};
use secure_share::handler::user::{get_me, search_by_email};
use secure_share::models::{ReceiveFileDetails, SendFileDetails, User};
use secure_share::time::Timestamp;

fn user() -> User {
    User {
        id: 0xa1a2a3a4b1b2c1c2d1d2d3d4d5d6d7d8,
        email: "ann@example.com".to_string(),
        name: "Ann Example".to_string(),
        password: "$hash".to_string(),
        public_key: Some("cGVt".to_string()),
        created_at: Some(Timestamp::new(5)),
        updated_at: Some(Timestamp::new(6)),
    }
}

#[test]
fn filter_user_shows_everything_but_the_password() {
    let shown = FilterUserDto::filter_user(&user());
    assert_eq!(shown.id, "a1a2a3a4-b1b2-c1c2-d1d2-d3d4d5d6d7d8");
    assert_eq!(shown.name, "Ann Example");
    assert_eq!(shown.email, "ann@example.com");
    assert_eq!(shown.public_key, Some("cGVt".to_string()));
    assert_eq!(shown.created_at, Timestamp::new(5));
    assert_eq!(shown.updated_at, Timestamp::new(6));
    let body = get_me(&user());
    assert_eq!(body.status, "successful");
    assert_eq!(body.data.user.id, "a1a2a3a4-b1b2-c1c2-d1d2-d3d4d5d6d7d8");
}

#[test]
fn identifiers_are_written_as_hyphenated_lower_case_hex() {
    let text = |id: u128| {
        FilterUserDto::filter_user(&User { id, ..user() }).id
    };
    assert_eq!(text(0), "00000000-0000-0000-0000-000000000000");
    assert_eq!(text(1), "00000000-0000-0000-0000-000000000001");
    assert_eq!(text(u128::MAX), "ffffffff-ffff-ffff-ffff-ffffffffffff");
    assert_eq!(
        text(0x0123456789abcdef_fedcba9876543210),
        "01234567-89ab-cdef-fedc-ba9876543210"
    );
}

#[test]
fn sent_files_are_shown_in_their_order() {
    let rows = vec![
        SendFileDetails {
            file_id: 1,
            file_name: "a".to_string(),
            recipient_email: "x@example.com".to_string(),
            expiration_date: Some(Timestamp::new(10)),
            created_at: Some(Timestamp::new(1)),
        },
        SendFileDetails {
            file_id: 2,
            file_name: "b".to_string(),
            recipient_email: "y@example.com".to_string(),
            expiration_date: Some(Timestamp::new(20)),
            created_at: Some(Timestamp::new(2)),
        },
    ];
    let one = UserSendFileDto::filter_send_user_file(&rows[1]);
    assert_eq!(one.file_id, "00000000-0000-0000-0000-000000000002");
    assert_eq!(one.file_name, "b");
    assert_eq!(one.recipient_email, "y@example.com");
    assert_eq!(one.expiration_date, Timestamp::new(20));
    assert_eq!(one.created_at, Timestamp::new(2));
    let all = UserSendFileDto::filter_send_user_files(&rows);
    assert_eq!(all.len(), 2);
    assert_eq!(all[0].file_name, "a");
    assert_eq!(all[1].file_name, "b");
    assert!(UserSendFileDto::filter_send_user_files(&[]).is_empty());
    let body = get_user_shared_files(&rows, 17);
    assert_eq!(body.status, "successful");
    assert_eq!(body.results, 17);
    assert_eq!(body.files.len(), 2);
    assert_eq!(body.files[1].recipient_email, "y@example.com");
}

#[test]
fn received_files_are_shown_in_their_order() {
    let rows = vec![
        ReceiveFileDetails {
            file_id: 3,
            file_name: "c".to_string(),
            sender_email: "s@example.com".to_string(),
            expiration_date: Some(Timestamp::new(30)),
            created_at: Some(Timestamp::new(3)),
        },
        ReceiveFileDetails {
            file_id: 4,
            file_name: "d".to_string(),
            sender_email: "t@example.com".to_string(),
            expiration_date: Some(Timestamp::new(40)),
            created_at: Some(Timestamp::new(4)),
        },
    ];
    let one = UserReceiveFileDto::filter_receive_user_file(&rows[0]);
    assert_eq!(one.file_id, "00000000-0000-0000-0000-000000000003");
    assert_eq!(one.sender_email, "s@example.com");
    assert_eq!(one.expiration_date, Timestamp::new(30));
    let all = UserReceiveFileDto::filter_receive_user_files(&rows);
    assert_eq!(all.len(), 2);
    assert_eq!(all[1].file_name, "d");
    assert_eq!(all[1].created_at, Timestamp::new(4));
    let made = UserReceiveFileDto::new(
        "id".to_string(),
        "n".to_string(),
        "e".to_string(),
        Timestamp::new(1),
        Timestamp::new(2),
    );
    assert_eq!(made.file_id, "id");
    assert_eq!(made.file_name, "n");
    assert_eq!(made.sender_email, "e");
    assert_eq!(made.expiration_date, Timestamp::new(1));
    assert_eq!(made.created_at, Timestamp::new(2));
}

#[test]
fn paging_defaults_to_the_first_page_of_ten() {
    assert_eq!(paging(&RequestQueryDto { page: None, limit: None }), (1, 10));
    assert_eq!(paging(&RequestQueryDto { page: Some(3), limit: Some(50) }), (3, 50));
    assert_eq!(paging(&RequestQueryDto { page: Some(4_294_967_297), limit: None }), (1, 10));
    assert_eq!(paging(&RequestQueryDto::default()), (1, 10));
}

#[test]
fn search_pattern_wraps_the_query_in_percent_signs() {
    assert_eq!(search_by_email("ann"), "%ann%");
    assert_eq!(search_by_email(""), "%%");
}

#[test]
fn request_bodies_start_empty() {
    assert_eq!(RegisterUserDto::default().password_confirm, "");
    assert_eq!(LoginUserDto::default().email, "");
    assert_eq!(NamedUpdateDto::default().name, "");
    assert_eq!(FileUploadDto::default().expiration_date, "");
}
