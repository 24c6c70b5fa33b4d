use aegis_backend::codec::base64_decode;
use aegis_backend::error::{bad_request, AppError};
use aegis_backend::primitives::{Timestamp, Uuid};
use aegis_backend::query::{like_pattern, paginate, Pagination, QueryBuilder, SqlValue};
use aegis_backend::structs::{
    to_public_face, User, UserListResponse, UserResponse, UserRole, UserStatus,
};
use aegis_backend::text::{
    chars_of, contains, decimal_string, ends_with, parse_i64, precedes, replace, starts_with,
    str_eq, string_of, to_ascii_upper, to_hex_lower,
};

fn someone() -> User {
    User {
        id: Uuid(12),
        email: "s@iitmandi.ac.in".to_string(),
        google_id: "g".to_string(),
        role: UserRole::Authority,
        status: UserStatus::Inactive,
        first_name: "S".to_string(),
        last_name: "T".to_string(),
        profile_picture: Some("pic".to_string()),
        roll_number: Some("B21".to_string()),
        batch_year: Some(2021),
        program: None,
        department: Some("EE".to_string()),
        employee_id: None,
        designation: None,
        last_login_at: Some(Timestamp(8)),
        created_at: Timestamp(1),
        updated_at: Timestamp(2),
    }
}

#[test]
fn uuid_text_is_hyphenated_lower_hex() {
    assert_eq!(
        Uuid(0xa1a2a3a4b1b2c1c2d1d2d3d4d5d6d7d8).to_text(),
        "a1a2a3a4-b1b2-c1c2-d1d2-d3d4d5d6d7d8"
    );
    assert_eq!(Uuid(0).to_text(), "00000000-0000-0000-0000-000000000000");
    assert_eq!(Uuid(u128::MAX).to_text(), "ffffffff-ffff-ffff-ffff-ffffffffffff");
}

#[test]
fn fresh_uuids_are_version_four() {
    let a = Uuid::new_v4();
    let b = Uuid::new_v4();
    assert_ne!(a, b);
    for id in [a, b] {
        assert_eq!((id.0 >> 76) & 0xf, 4);
        assert_eq!((id.0 >> 62) & 0x3, 2);
        assert_eq!(id.to_text().as_bytes()[14], b'4');
    }
}

#[test]
fn error_statuses_and_bodies() {
    assert_eq!(AppError::Unauthorized.into_response(), (401, "Unauthorized".to_string()));
    assert_eq!(AppError::Forbidden.into_response(), (403, "Forbidden".to_string()));
    assert_eq!(AppError::NotFound.into_response(), (404, "Not Found".to_string()));
    assert_eq!(AppError::BadRequest("why".to_string()).into_response(), (400, "why".to_string()));
    assert_eq!(
        AppError::InternalServerError("upload".to_string()).into_response(),
        (500, "upload".to_string())
    );
    assert_eq!(
        AppError::Internal("db down".to_string()).into_response(),
        (500, "Internal Server Error: db down".to_string())
    );
    assert_eq!(
        AppError::HttpError(502, "gateway".to_string()).into_response(),
        (502, "Error: gateway".to_string())
    );
    assert_eq!(bad_request("no"), AppError::BadRequest("no".to_string()));
}

#[test]
fn public_faces() {
    let face = UserResponse::from(someone());
    assert_eq!(
        face,
        UserResponse {
            id: Uuid(12),
            email: "s@iitmandi.ac.in".to_string(),
            role: UserRole::Authority,
            first_name: "S".to_string(),
            last_name: "T".to_string(),
            profile_picture: Some("pic".to_string()),
            department: Some("EE".to_string()),
        }
    );
    assert_eq!(to_public_face(Some(someone())), Some(face));
    assert_eq!(to_public_face(None), None);
    let row = UserListResponse::from(someone());
    assert_eq!(row.status, UserStatus::Inactive);
    assert_eq!(row.last_login_at, Some(Timestamp(8)));
    assert_eq!(row.created_at, Timestamp(1));
    assert_eq!(UserRole::Admin.as_str(), "admin");
    assert_eq!(UserRole::Student.as_str(), "student");
}

#[test]
fn pagination_formula() {
    assert_eq!(paginate(None, None, 20, 100), Pagination { page: 1, limit: 20, offset: 0 });
    assert_eq!(paginate(Some(3), Some(25), 20, 100), Pagination { page: 3, limit: 25, offset: 50 });
    assert_eq!(paginate(Some(0), Some(0), 20, 100), Pagination { page: 1, limit: 1, offset: 0 });
    assert_eq!(paginate(Some(2), Some(101), 20, 100), Pagination { page: 2, limit: 100, offset: 100 });
    assert_eq!(paginate(Some(2), None, 700, 500), Pagination { page: 2, limit: 500, offset: 500 });
    assert_eq!(
        paginate(Some(i64::MAX), Some(2), 20, 100),
        Pagination { page: i64::MAX, limit: 2, offset: i64::MAX }
    );
    assert_eq!(
        paginate(Some(i64::MAX), Some(1), 20, 100),
        Pagination { page: i64::MAX, limit: 1, offset: i64::MAX - 1 }
    );
}

#[test]
fn builder_numbers_its_placeholders() {
    let mut b = QueryBuilder::new("SELECT 1 WHERE a = ");
    b.push_bind(SqlValue::Int(1));
    b.push_clause(" AND b = ", Some(SqlValue::Text("x".to_string())));
    b.push_clause(" AND c = ", None);
    for _ in 0..9 {
        b.push_sql(" OR d = ");
        b.push_bind(SqlValue::Id(Uuid(4)));
    }
    b.push_search(" AND (e LIKE ", &vec![")"], &Some("50%".to_string()));
    b.push_search(" AND (f LIKE ", &vec![")"], &None);
    b.push_window(" ORDER BY a LIMIT ", 5, 10);
    let q = b.finish();
    assert!(q.text.starts_with("SELECT 1 WHERE a = $1 AND b = $2 OR d = $3 OR d = $4"));
    assert!(q.text.ends_with(" OR d = $11 AND (e LIKE $12) ORDER BY a LIMIT $13 OFFSET $14"));
    assert_eq!(q.params.len(), 14);
    assert_eq!(q.params[11], SqlValue::Text("%50%%".to_string()));
    assert_eq!(like_pattern(""), "%%");
}

#[test]
fn text_searching() {
    assert!(ends_with("a@iitmandi.ac.in", "@iitmandi.ac.in"));
    assert!(!ends_with("iitmandi.ac.in", "@iitmandi.ac.in"));
    assert!(ends_with("abc", ""));
    assert!(starts_with("data:x", "data:"));
    assert!(!starts_with("dat", "data:"));
    assert!(contains("xlocalhosty", "localhost"));
    assert!(contains("abc", ""));
    assert!(!contains("", "a"));
    assert!(str_eq("photos", "photos"));
    assert!(!str_eq("photos", "photo"));
    assert!(!str_eq("photos", "photoz"));
    assert!(precedes(&chars_of("folder"), &chars_of("public_id")));
    assert!(precedes(&chars_of("timestamp"), &chars_of("transformation")));
    assert!(precedes(&chars_of("ab"), &chars_of("abc")));
    assert!(!precedes(&chars_of("abc"), &chars_of("abc")));
    assert!(!precedes(&chars_of("b"), &chars_of("abc")));
    assert_eq!(string_of(&chars_of("héllo")), "héllo");
}

#[test]
fn text_replacing() {
    assert_eq!(replace("a; Secure; b; Secure", "; Secure", ""), "a; b");
    assert_eq!(replace("aaaa", "aa", "b"), "bb");
    assert_eq!(replace("aaa", "aa", "b"), "ba");
    assert_eq!(replace("abc", "", "x"), "abc");
    assert_eq!(replace("", "a", "x"), "");
    assert_eq!(replace("abc", "abcd", "x"), "abc");
}

#[test]
fn numbers_and_digits() {
    assert_eq!(decimal_string(0), "0");
    assert_eq!(decimal_string(7), "7");
    assert_eq!(decimal_string(1700000000), "1700000000");
    assert_eq!(decimal_string(-45), "-45");
    assert_eq!(decimal_string(i64::MAX), "9223372036854775807");
    assert_eq!(decimal_string(i64::MIN), "-9223372036854775808");
    assert_eq!(to_hex_lower(&vec![0x00, 0x0f, 0xa5, 0xff]), "000fa5ff");
    assert_eq!(to_hex_lower(&vec![]), "");
    assert_eq!(to_ascii_upper('a'), 'A');
    assert_eq!(to_ascii_upper('z'), 'Z');
    assert_eq!(to_ascii_upper('5'), '5');
    assert_eq!(to_ascii_upper('-'), '-');
    assert_eq!(to_ascii_upper('é'), 'é');
}

#[test]
fn base64_decoding() {
    assert_eq!(base64_decode("aGVsbG8gd29ybGR+"), Ok(b"hello world~".to_vec()));
    assert_eq!(base64_decode(""), Ok(vec![]));
    assert!(base64_decode("a").is_err());
    assert!(base64_decode("aGk").is_err());
}

#[test]
fn integers_are_parsed_as_the_standard_library_parses_them() {
    assert_eq!(parse_i64("250"), Some(250));
    assert_eq!(parse_i64("+7"), Some(7));
    assert_eq!(parse_i64("-45"), Some(-45));
    assert_eq!(parse_i64("-0"), Some(0));
    assert_eq!(parse_i64("0007"), Some(7));
    assert_eq!(parse_i64("9223372036854775807"), Some(i64::MAX));
    assert_eq!(parse_i64("-9223372036854775808"), Some(i64::MIN));
    assert_eq!(parse_i64("9223372036854775808"), None);
    assert_eq!(parse_i64("-9223372036854775809"), None);
    assert_eq!(parse_i64(""), None);
    assert_eq!(parse_i64("-"), None);
    assert_eq!(parse_i64("+"), None);
    assert_eq!(parse_i64("4 0"), None);
    assert_eq!(parse_i64(" 40"), None);
    assert_eq!(parse_i64("--4"), None);
    assert_eq!(parse_i64("4-"), None);
    assert_eq!(parse_i64("many"), None);
    for text in [
        "0", "1", "-1", "+0", "00000000000000000000000000000000000000001",
        "99999999999999999999999999999999999999999999", "-99999999999999999999999999999",
        "18446744073709551616", "9223372036854775806", "-9223372036854775807", "12a", "a12",
        "1_000", "0x10", "1.5", "+-1", "\u{ff11}", "\u{0661}", "7\n",
    ] {
        assert_eq!(parse_i64(text), text.parse::<i64>().ok(), "on {:?}", text);
    }
}
