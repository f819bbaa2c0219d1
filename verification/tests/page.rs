use wikijs::common::{ExceptionCode, Response, ResponseError, ResponseStatus};
use wikijs::page::{
    page_delete, page_get, page_get_by_path, page_list, page_render, page_tag_list, page_tree_get,
    PageError, PageTreeItem,
};

fn error_with_code(code: i64) -> Option<Vec<ResponseError>> {
    Some(vec![ResponseError {
        message: "error".to_string(),
        exception_code: ExceptionCode::Integer(code),
    }])
}

fn tree_item(id: i64, path: &str, is_folder: bool, page_id: Option<i64>) -> PageTreeItem {
    PageTreeItem {
        id,
        path: path.to_string(),
        depth: 1,
        title: path.to_string(),
        is_private: false,
        is_folder,
        private_ns: None,
        parent: Some(0),
        page_id,
        locale: "en".to_string(),
    }
}

#[test]
fn page_tree_empty() {
    let response = Response {
        data: Some(wikijs::page::page_tree::ResponseData {
            pages: Some(wikijs::page::page_tree::Pages { tree: Some(Vec::new()) }),
        }),
        errors: None,
    };
    let result = page_tree_get(Ok(response));
    assert!(result.is_ok());
    assert_eq!(result.unwrap().len(), 0);
}

#[test]
fn page_tree_drops_absent_items() {
    let response = Response {
        data: Some(wikijs::page::page_tree::ResponseData {
            pages: Some(wikijs::page::page_tree::Pages {
                tree: Some(vec![
                    Some(tree_item(1, "a", true, None)),
                    None,
                    Some(tree_item(2, "a/b", false, Some(7))),
                ]),
            }),
        }),
        errors: None,
    };
    let items = page_tree_get(Ok(response)).unwrap();
    assert_eq!(items.len(), 2);
    assert_eq!(items[0].id, 1);
    assert_eq!(items[1].id, 2);
}

#[test]
fn page_get_nonexistent() {
    let response: Response<wikijs::page::page_get::ResponseData> = Response {
        data: Some(wikijs::page::page_get::ResponseData {
            pages: Some(wikijs::page::page_get::Pages { single: None }),
        }),
        errors: error_with_code(6003),
    };
    let result = page_get(Ok(response));
    assert!(result.is_err());
    assert_eq!(result.unwrap_err() == PageError::PageNotFound, true);
}

#[test]
fn page_get_by_path_nonexistent() {
    let response: Response<wikijs::page::page_get_by_path::ResponseData> = Response {
        data: None,
        errors: error_with_code(6003),
    };
    let result = page_get_by_path(Ok(response));
    assert!(result.is_err());
    assert_eq!(result.unwrap_err() == PageError::PageNotFound, true);
}

#[test]
fn page_list_empty() {
    let response = Response {
        data: Some(wikijs::page::page_list::ResponseData {
            pages: Some(wikijs::page::page_list::Pages { list: Vec::new() }),
        }),
        errors: None,
    };
    let result = page_list(Ok(response));
    assert!(result.is_ok());
    assert_eq!(result.unwrap().len(), 0);
}

#[test]
fn page_tag_list_empty() {
    let response = Response {
        data: Some(wikijs::page::page_tag_list::ResponseData {
            pages: Some(wikijs::page::page_tag_list::Pages { tags: Vec::new() }),
        }),
        errors: None,
    };
    let result = page_tag_list(Ok(response));
    assert!(result.is_ok());
    assert_eq!(result.unwrap().len(), 0);
}

fn failed_status(code: i64, message: Option<&str>) -> ResponseStatus {
    ResponseStatus {
        succeeded: false,
        error_code: code,
        slug: "error".to_string(),
        message: message.map(|m| m.to_string()),
    }
}

#[test]
fn page_delete_nonexistent() {
    let response = Response {
        data: Some(wikijs::page::page_delete::ResponseData {
            pages: Some(wikijs::page::page_delete::Pages {
                delete: Some(wikijs::page::page_delete::Delete {
                    response_result: Some(failed_status(6003, Some("This page does not exist."))),
                }),
            }),
        }),
        errors: None,
    };
    let result = page_delete(Ok(response));
    assert!(result.is_err());
    assert_eq!(result.unwrap_err() == PageError::PageNotFound, true);
}

#[test]
fn page_render_nonexistent() {
    let response = Response {
        data: Some(wikijs::page::page_render::ResponseData {
            pages: Some(wikijs::page::page_render::Pages {
                render: Some(wikijs::page::page_render::Render {
                    response_result: Some(failed_status(6003, None)),
                }),
            }),
        }),
        errors: None,
    };
    let result = page_render(Ok(response));
    assert!(result.is_err());
    assert_eq!(result.unwrap_err() == PageError::PageNotFound, true);
}

#[test]
fn page_delete_succeeds() {
    let mut status = failed_status(0, None);
    status.succeeded = true;
    let response = Response {
        data: Some(wikijs::page::page_delete::ResponseData {
            pages: Some(wikijs::page::page_delete::Pages {
                delete: Some(wikijs::page::page_delete::Delete { response_result: Some(status) }),
            }),
        }),
        errors: None,
    };
    assert!(page_delete(Ok(response)).is_ok());
}

#[test]
fn page_transport_error_keeps_message() {
    let result = page_get(Err("connection refused".to_string()));
    assert_eq!(
        result.unwrap_err(),
        PageError::UnknownErrorMessage { message: "connection refused".to_string() }
    );
}

#[test]
fn page_error_without_code_keeps_message() {
    let response: Response<wikijs::page::page_get::ResponseData> = Response {
        data: None,
        errors: Some(vec![ResponseError {
            message: "Forbidden".to_string(),
            exception_code: ExceptionCode::Absent,
        }]),
    };
    assert_eq!(
        page_get(Ok(response)).unwrap_err(),
        PageError::UnknownErrorMessage { message: "Forbidden".to_string() }
    );
}

#[test]
fn page_answer_without_data_or_errors_is_unknown() {
    let response: Response<wikijs::page::page_get::ResponseData> = Response { data: None, errors: None };
    assert_eq!(page_get(Ok(response)).unwrap_err(), PageError::UnknownError);
}

#[test]
fn page_convert_unknown_code_keeps_server_message() {
    let response = Response {
        data: Some(wikijs::page::page_convert::ResponseData {
            pages: Some(wikijs::page::page_convert::Pages {
                convert: Some(wikijs::page::page_convert::Convert {
                    response_result: Some(failed_status(9999, Some("odd"))),
                }),
            }),
        }),
        errors: None,
    };
    assert_eq!(
        wikijs::page::page_convert(Ok(response)).unwrap_err(),
        PageError::UnknownErrorCode { code: 9999, message: "odd".to_string() }
    );
}

#[test]
fn page_convert_known_code_ignores_server_message() {
    let response = Response {
        data: Some(wikijs::page::page_convert::ResponseData {
            pages: Some(wikijs::page::page_convert::Pages {
                convert: Some(wikijs::page::page_convert::Convert {
                    response_result: Some(failed_status(6009, Some("no"))),
                }),
            }),
        }),
        errors: None,
    };
    assert_eq!(
        wikijs::page::page_convert(Ok(response)).unwrap_err(),
        PageError::PageUpdateForbidden
    );
}

fn sample_page() -> wikijs::page::Page {
    wikijs::page::Page {
        id: 5,
        path: "docs/intro".to_string(),
        hash: "abc".to_string(),
        title: "Intro".to_string(),
        description: "first steps".to_string(),
        is_private: false,
        is_published: true,
        private_ns: None,
        publish_start_date: "".to_string(),
        publish_end_date: "".to_string(),
        tags: vec![
            Some(wikijs::page::PageTag {
                id: 1,
                tag: "guide".to_string(),
                title: None,
                created_at: "2023-01-01T00:00:00Z".to_string(),
                updated_at: "2023-01-01T00:00:00Z".to_string(),
            }),
            None,
        ],
        content: "# Intro".to_string(),
        toc: None,
        render: None,
        content_type: "markdown".to_string(),
        created_at: "2023-01-01T00:00:00Z".to_string(),
        updated_at: "2023-01-02T00:00:00Z".to_string(),
        editor: "markdown".to_string(),
        locale: "en".to_string(),
        script_css: Some("body {}".to_string()),
        script_js: None,
        author_id: 1,
        author_name: "Admin".to_string(),
        author_email: "admin@example.com".to_string(),
        creator_id: 1,
        creator_name: "Admin".to_string(),
        creator_email: "admin@example.com".to_string(),
    }
}

#[test]
fn page_update_keeps_what_it_does_not_name() {
    let variables = wikijs::page::page_update_variables(
        5,
        Some("new content".to_string()),
        None,
        None,
        Some(true),
        None,
        None,
        None,
        None,
        None,
        None,
        Some("alert(1)".to_string()),
        None,
        None,
        sample_page(),
    );
    assert_eq!(variables.id, 5);
    assert_eq!(variables.content, Some("new content".to_string()));
    assert_eq!(variables.description, Some("first steps".to_string()));
    assert_eq!(variables.editor, Some("markdown".to_string()));
    assert_eq!(variables.is_private, Some(true));
    assert_eq!(variables.is_published, Some(true));
    assert_eq!(variables.path, Some("docs/intro".to_string()));
    assert_eq!(variables.script_css, Some("body {}".to_string()));
    assert_eq!(variables.script_js, Some("alert(1)".to_string()));
    assert_eq!(variables.tags, Some(vec![Some("guide".to_string()), None]));
    assert_eq!(variables.title, Some("Intro".to_string()));
}

#[test]
fn page_update_replaces_tags() {
    let variables = wikijs::page::page_update_variables(
        5, None, None, None, None, None, None, None, None, None, None, None,
        Some(Vec::new()), None, sample_page(),
    );
    assert_eq!(variables.tags, Some(Vec::new()));
    assert_eq!(variables.content, Some("# Intro".to_string()));
    assert_eq!(variables.script_js, None);
}

#[test]
fn list_all_pages_empty() {
    let response = Response {
        data: Some(wikijs::page::page_list::ResponseData {
            pages: Some(wikijs::page::page_list::Pages { list: Vec::new() }),
        }),
        errors: None,
    };
    assert_eq!(page_list(Ok(response)).unwrap().len(), 0);
}

#[test]
fn list_all_page_tags_empty() {
    let response = Response {
        data: Some(wikijs::page::page_tag_list::ResponseData {
            pages: Some(wikijs::page::page_tag_list::Pages { tags: Vec::new() }),
        }),
        errors: None,
    };
    assert_eq!(page_tag_list(Ok(response)).unwrap().len(), 0);
}

fn succeeded_status() -> ResponseStatus {
    ResponseStatus { succeeded: true, error_code: 0, slug: "success".to_string(), message: None }
}

#[test]
fn page_create_get_delete() {
    let created = Response {
        data: Some(wikijs::page::page_create::ResponseData {
            pages: Some(wikijs::page::page_create::PageCreatePages {
                create: Some(wikijs::page::page_create::Create {
                    response_result: succeeded_status(),
                    page: None,
                }),
            }),
        }),
        errors: None,
    };
    let result = wikijs::page::page_create(Ok(created));
    assert!(result.is_ok());
    let found = Response {
        data: Some(wikijs::page::page_get_by_path::ResponseData {
            pages: Some(wikijs::page::page_get_by_path::Pages { single_by_path: Some(sample_page()) }),
        }),
        errors: None,
    };
    let result2 = page_get_by_path(Ok(found));
    assert!(result2.is_ok());
    let id = result2.unwrap().id;
    assert_eq!(id, 5);
    let deleted = Response {
        data: Some(wikijs::page::page_delete::ResponseData {
            pages: Some(wikijs::page::page_delete::Pages {
                delete: Some(wikijs::page::page_delete::Delete { response_result: Some(succeeded_status()) }),
            }),
        }),
        errors: None,
    };
    let result3 = page_delete(Ok(deleted));
    assert!(result3.is_ok());
    let missing = Response::<wikijs::page::page_get::ResponseData> {
        data: Some(wikijs::page::page_get::ResponseData {
            pages: Some(wikijs::page::page_get::Pages { single: None }),
        }),
        errors: error_with_code(6003),
    };
    let result4 = page_get(Ok(missing));
    assert!(result4.is_err());
}

#[test]
fn answers_hold_their_payload_or_not() {
    let empty: Option<wikijs::page::page_get::ResponseData> = None;
    assert!(!wikijs::page::page_get::has_payload(&empty));
    let no_pages = Some(wikijs::page::page_get::ResponseData { pages: None });
    assert!(!wikijs::page::page_get::has_payload(&no_pages));
    let no_page = Some(wikijs::page::page_get::ResponseData {
        pages: Some(wikijs::page::page_get::Pages { single: None }),
    });
    assert!(!wikijs::page::page_get::has_payload(&no_page));
    let found = Some(wikijs::page::page_get::ResponseData {
        pages: Some(wikijs::page::page_get::Pages { single: Some(sample_page()) }),
    });
    assert!(wikijs::page::page_get::has_payload(&found));
}
