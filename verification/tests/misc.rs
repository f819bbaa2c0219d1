use wikijs::asset::{asset_download, asset_list, asset_upload, upload_folder_field, AssetError, AssetKind, HttpResponse};
use wikijs::common::Response;
use wikijs::contribute::Contributor;
use wikijs::{add, asset_url, bearer_authorization, graphql_url, upload_url};

#[test]
fn adds() {
    assert_eq!(add(2, 2), 4);
}

#[test]
fn endpoints() {
    assert_eq!(graphql_url("http://localhost"), "http://localhost/graphql");
    assert_eq!(upload_url("http://localhost"), "http://localhost/u");
    assert_eq!(asset_url("http://localhost", "img/a.png"), "http://localhost/img/a.png");
    assert_eq!(bearer_authorization("abc"), "Bearer abc");
    assert_eq!(upload_folder_field(12), "{\"folderId\":12}");
    assert_eq!(upload_folder_field(-3), "{\"folderId\":-3}");
}

#[test]
fn asset_list_empty() {
    let response = Response {
        data: Some(wikijs::asset::asset_list::ResponseData {
            assets: Some(wikijs::asset::asset_list::Assets { list: Some(Vec::new()) }),
        }),
        errors: None,
    };
    let result = asset_list(Ok(response));
    assert!(result.is_ok());
    assert_eq!(result.unwrap().len(), 0);
}

#[test]
fn asset_kind_names() {
    assert_eq!(AssetKind::ALL.to_string(), "ALL");
    assert_eq!(AssetKind::IMAGE.to_string(), "IMAGE");
}

#[test]
fn asset_transfers() {
    let ok = asset_download(Ok(HttpResponse { status: 200, body: vec![1, 2, 3] }));
    assert_eq!(ok, Ok(vec![1, 2, 3]));
    let missing = asset_download(Ok(HttpResponse { status: 404, body: Vec::new() }));
    assert_eq!(missing, Err(AssetError::UnknownError));
    assert_eq!(asset_upload(Ok(204)), Ok(()));
    assert_eq!(asset_upload(Ok(500)), Err(AssetError::UnknownError));
    assert_eq!(
        asset_upload(Err("timeout".to_string())),
        Err(AssetError::UnknownErrorMessage { message: "timeout".to_string() })
    );
}

fn contributor(n: usize) -> Contributor {
    Contributor {
        id: n.to_string(),
        source: "github".to_string(),
        name: format!("c{}", n),
        joined: "2020-01-01".to_string(),
        website: None,
        twitter: None,
        avatar: None,
    }
}

#[test]
fn contributor_list() {
    let list: Vec<Option<Contributor>> = (0..201).map(|n| Some(contributor(n))).collect();
    let response = Response {
        data: Some(wikijs::contribute::contributor_list::ResponseData {
            contribute: Some(wikijs::contribute::contributor_list::Contribute { contributors: Some(list) }),
        }),
        errors: None,
    };
    let result = wikijs::contribute::contributor_list(Ok(response));
    assert!(result.is_ok());
    assert!(result.unwrap().len() > 200);
}
