use wallet_live::assets::{find_asset, updated_asset};
use wallet_live::error::AppError;
use wallet_live::pages::{decimal, index, IndexResponse, INDEX_HEAD, INDEX_MIDDLE, INDEX_TAIL};
use wallet_live::user::User;

#[test]
fn status_codes_and_messages() {
    let cases: Vec<(AppError, u16, &str)> = vec![
        (AppError::MissingAuthorization, 400, "Missing authorization header"),
        (AppError::InvalidCredentials, 401, "Invalid credentials"),
        (AppError::AssetDoesNotExist, 404, "Asset does not exist"),
        (AppError::UserDoesNotExist, 404, "User dows not exist"),
        (AppError::UsernameTaken, 400, "This username is already registered"),
    ];
    for (e, code, msg) in cases {
        let (status, body) = e.error_response();
        assert_eq!(status, code);
        assert_eq!(body.error, msg);
    }
    let db = AppError::Database(sqlx::Error::RowNotFound);
    assert_eq!(db.status_code(), 500);
    assert_eq!(db.message(), sqlx::Error::RowNotFound.to_string());
}

#[test]
fn decimal_matches_to_string() {
    for n in [0i64, 7, 10, 42, -1, -42, 1234567890, i64::MAX, i64::MIN] {
        assert_eq!(decimal(n), n.to_string());
    }
}

#[test]
fn index_page_or_login() {
    let u = User::new(17, "zoe".to_string());
    match index(Some(&u)) {
        IndexResponse::Page(html) => {
            assert_eq!(html, format!("{}zoe{}17{}", INDEX_HEAD, INDEX_MIDDLE, INDEX_TAIL));
            assert!(html.contains("Welcome, zoe!"));
            assert!(html.contains("<strong class=\"text-cyan-400\">17</strong>"));
            assert!(html.contains("body { font-family: 'Inter', sans-serif;"));
        },
        IndexResponse::Redirect(_) => panic!("signed-in user is redirected"),
    }
    match index(None) {
        IndexResponse::Redirect(to) => assert_eq!(to, "/login"),
        IndexResponse::Page(_) => panic!("anonymous user gets a page"),
    }
}

#[test]
fn find_asset_by_id() {
    assert_eq!(find_asset(&[3, 5, 5, 9], 5).unwrap(), 1);
    assert_eq!(find_asset(&[3, 5, 9], 9).unwrap(), 2);
    assert!(matches!(find_asset(&[3, 5], 4), Err(AppError::AssetDoesNotExist)));
    assert!(matches!(find_asset(&[], 4), Err(AppError::AssetDoesNotExist)));
}

#[test]
fn update_outcomes() {
    assert_eq!(updated_asset(Ok(Some("asset"))).unwrap(), "asset");
    assert!(matches!(updated_asset::<u8>(Ok(None)), Err(AppError::AssetDoesNotExist)));
    assert!(matches!(
        updated_asset::<u8>(Err(sqlx::Error::RowNotFound)),
        Err(AppError::Database(_))
    ));
}
