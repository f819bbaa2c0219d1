//! Pages, their tags, history and tree.

pub mod page_cache_flush;
pub mod page_conflict_check;
pub mod page_conflict_latest;
pub mod page_convert;
pub mod page_create;
pub mod page_delete;
pub mod page_get;
pub mod page_get_by_path;
pub mod page_get_minimal;
pub mod page_get_updated_at;
pub mod page_history_get;
pub mod page_history_purge;
pub mod page_link_get;
pub mod page_list;
pub mod page_migrate_to_locale;
pub mod page_move;
pub mod page_render;
pub mod page_restore;
pub mod page_search;
pub mod page_tag_delete;
pub mod page_tag_list;
pub mod page_tag_update;
pub mod page_tree;
pub mod page_tree_rebuild;
pub mod page_update;
pub mod page_version_get;

use vstd::prelude::*;

use crate::common::{ApiErrorView, Boolean, Date, Int, KnownErrorCodes, Response, UnknownError, classify_response_error, classify_response_status_error, decimal, first_error_code_readable, flatten, flatten_seq, int_to_string, spec_classify_response_error, spec_classify_response_status_error, spec_error_of_code, unknown_code_message};

verus! {

/// The errors of the endpoints of this module, named after the Wiki.js
/// error codes they stand for.
#[derive(Debug, PartialEq)]
pub enum PageError {
    PageGenericError,
    PageDuplicateCreate,
    PageNotFound,
    PageEmptyContent,
    PageIllegalPath,
    PagePathCollision,
    PageMoveForbidden,
    PageCreateForbidden,
    PageUpdateForbidden,
    PageDeleteForbidden,
    PageRestoreForbidden,
    PageHistoryForbidden,
    PageViewForbidden,
    UnknownErrorCode { code: i64, message: String },
    UnknownErrorMessage { message: String },
    UnknownError,
}

impl View for PageError {
    type V = ApiErrorView;

    open spec fn view(&self) -> ApiErrorView {
        match self {
            PageError::PageGenericError => ApiErrorView::Known(6001),
            PageError::PageDuplicateCreate => ApiErrorView::Known(6002),
            PageError::PageNotFound => ApiErrorView::Known(6003),
            PageError::PageEmptyContent => ApiErrorView::Known(6004),
            PageError::PageIllegalPath => ApiErrorView::Known(6005),
            PageError::PagePathCollision => ApiErrorView::Known(6006),
            PageError::PageMoveForbidden => ApiErrorView::Known(6007),
            PageError::PageCreateForbidden => ApiErrorView::Known(6008),
            PageError::PageUpdateForbidden => ApiErrorView::Known(6009),
            PageError::PageDeleteForbidden => ApiErrorView::Known(6010),
            PageError::PageRestoreForbidden => ApiErrorView::Known(6011),
            PageError::PageHistoryForbidden => ApiErrorView::Known(6012),
            PageError::PageViewForbidden => ApiErrorView::Known(6013),
            PageError::UnknownErrorCode { code, message } => ApiErrorView::UnknownCode(*code, message@),
            PageError::UnknownErrorMessage { message } => ApiErrorView::UnknownMessage(message@),
            PageError::UnknownError => ApiErrorView::Unknown,
        }
    }
}

impl PageError {
    /// The text that describes the error.
    pub open spec fn spec_to_string(&self) -> Seq<char> {
        match self {
            PageError::PageGenericError => "An unexpected error occurred during a page operation."@,
            PageError::PageDuplicateCreate => "Cannot create this page because an entry already exists at the same path."@,
            PageError::PageNotFound => "This page does not exist."@,
            PageError::PageEmptyContent => "Page content cannot be empty."@,
            PageError::PageIllegalPath => "Page path cannot contains illegal characters."@,
            PageError::PagePathCollision => "Destination page path already exists."@,
            PageError::PageMoveForbidden => "You are not authorized to move this page."@,
            PageError::PageCreateForbidden => "You are not authorized to create this page."@,
            PageError::PageUpdateForbidden => "You are not authorized to update this page."@,
            PageError::PageDeleteForbidden => "You are not authorized to delete this page."@,
            PageError::PageRestoreForbidden => "You are not authorized to restore this page version."@,
            PageError::PageHistoryForbidden => "You are not authorized to view the history of this page."@,
            PageError::PageViewForbidden => "You are not authorized to view this page."@,
            PageError::UnknownErrorCode { code, message } => "Unknown response error code: "@ + decimal(*code as int) + ": "@ + message@,
            PageError::UnknownErrorMessage { message } => "Unknown response error: "@ + message@,
            PageError::UnknownError => "Unknown response error."@,
        }
    }

    /// The text that describes the error.
    pub fn to_string(&self) -> (text: String)
        ensures
            text@ == self.spec_to_string(),
    {
        match self {
            PageError::PageGenericError => String::from_str("An unexpected error occurred during a page operation."),
            PageError::PageDuplicateCreate => String::from_str("Cannot create this page because an entry already exists at the same path."),
            PageError::PageNotFound => String::from_str("This page does not exist."),
            PageError::PageEmptyContent => String::from_str("Page content cannot be empty."),
            PageError::PageIllegalPath => String::from_str("Page path cannot contains illegal characters."),
            PageError::PagePathCollision => String::from_str("Destination page path already exists."),
            PageError::PageMoveForbidden => String::from_str("You are not authorized to move this page."),
            PageError::PageCreateForbidden => String::from_str("You are not authorized to create this page."),
            PageError::PageUpdateForbidden => String::from_str("You are not authorized to update this page."),
            PageError::PageDeleteForbidden => String::from_str("You are not authorized to delete this page."),
            PageError::PageRestoreForbidden => String::from_str("You are not authorized to restore this page version."),
            PageError::PageHistoryForbidden => String::from_str("You are not authorized to view the history of this page."),
            PageError::PageViewForbidden => String::from_str("You are not authorized to view this page."),
            PageError::UnknownErrorCode { code, message } => {
                let mut text = String::from_str("Unknown response error code: ");
                text.append(int_to_string(*code).as_str());
                text.append(": ");
                text.append(message.as_str());
                text
            },
            PageError::UnknownErrorMessage { message } => {
                let mut text = String::from_str("Unknown response error: ");
                text.append(message.as_str());
                text
            },
            PageError::UnknownError => String::from_str("Unknown response error."),
        }
    }
}

impl UnknownError for PageError {
    open spec fn spec_is_named_code(code: i64) -> bool {
        6001 <= code <= 6013
    }

    fn unknown_error_code(code: i64, message: String) -> (err: Self) {
        PageError::UnknownErrorCode { code, message }
    }

    fn unknown_error_message(message: String) -> (err: Self) {
        PageError::UnknownErrorMessage { message }
    }

    fn unknown_error() -> (err: Self) {
        PageError::UnknownError
    }

    fn from_error_code(code: i64) -> (err: Self) {
        match code {
            6001 => PageError::PageGenericError,
            6002 => PageError::PageDuplicateCreate,
            6003 => PageError::PageNotFound,
            6004 => PageError::PageEmptyContent,
            6005 => PageError::PageIllegalPath,
            6006 => PageError::PagePathCollision,
            6007 => PageError::PageMoveForbidden,
            6008 => PageError::PageCreateForbidden,
            6009 => PageError::PageUpdateForbidden,
            6010 => PageError::PageDeleteForbidden,
            6011 => PageError::PageRestoreForbidden,
            6012 => PageError::PageHistoryForbidden,
            6013 => PageError::PageViewForbidden,
            _ => {
                let message = String::from_str("Unknown error");
                PageError::UnknownErrorCode { code, message }
            },
        }
    }
}

impl From<i64> for PageError {
    /// The error of a Wiki.js error code: its own variant where the type
    /// names the code, else an unknown-code error.
    fn from(code: i64) -> (err: Self)
        ensures
            err@ == spec_error_of_code::<PageError>(code),
    {
        PageError::from_error_code(code)
    }
}

/// `from` is specified by its own `ensures`, over the error's view: an
/// unknown-code error holds a `String`, which no spec function builds, so the
/// generic specification of `From` is not claimed.
impl vstd::std_specs::convert::FromSpecImpl<i64> for PageError {
    open spec fn obeys_from_spec() -> bool {
        false
    }

    open spec fn from_spec(code: i64) -> Self {
        PageError::UnknownError
    }
}

impl KnownErrorCodes for PageError {
    open spec fn spec_known_error_codes() -> Seq<i64> {
        seq![6001, 6002, 6003, 6004, 6005, 6006, 6007, 6008, 6009, 6010, 6011, 6012, 6013]
    }

    open spec fn spec_is_known_error_code(code: i64) -> bool {
        6001 <= code <= 6013
    }

    fn known_error_codes() -> (codes: Vec<i64>) {
        let codes = vec![6001, 6002, 6003, 6004, 6005, 6006, 6007, 6008, 6009, 6010, 6011, 6012, 6013];
        proof {
            assert(codes@ =~= Self::spec_known_error_codes());
        }
        codes
    }

    fn is_known_error_code(code: i64) -> (known: bool) {
        6001 <= code && code <= 6013
    }
}

/// The codes that `PageError::known_error_codes` lists are exactly the codes that
/// `PageError::is_known_error_code` accepts.
pub proof fn lemma_known_error_codes_listed(code: i64)
    ensures
        PageError::spec_known_error_codes().contains(code) <==> PageError::spec_is_known_error_code(code),
{
    let codes = PageError::spec_known_error_codes();
    if PageError::spec_is_known_error_code(code) {
        let i: int = code - 6001;
        assert(codes[i] == code);
    }
}

/// A code is known to `PageError` exactly when the type has a variant of its own
/// for it: `PageError::from` gives the known error for the known codes and an
/// unknown-code error for every other code.
pub proof fn lemma_known_error_codes_named(code: i64)
    ensures
        PageError::spec_is_known_error_code(code) <==> PageError::spec_is_named_code(code),
        spec_error_of_code::<PageError>(code) == (if PageError::spec_is_known_error_code(code) {
            ApiErrorView::Known(code)
        } else {
            ApiErrorView::UnknownCode(code, unknown_code_message())
        }),
{
}

#[derive(Debug)]
pub struct Page {
    pub id: Int,
    pub path: String,
    pub hash: String,
    pub title: String,
    pub description: String,
    pub is_private: Boolean,
    pub is_published: Boolean,
    pub private_ns: Option<String>,
    pub publish_start_date: Date,
    pub publish_end_date: Date,
    pub tags: Vec<Option<PageTag>>,
    pub content: String,
    pub toc: Option<String>,
    pub render: Option<String>,
    pub content_type: String,
    pub created_at: Date,
    pub updated_at: Date,
    pub editor: String,
    pub locale: String,
    pub script_css: Option<String>,
    pub script_js: Option<String>,
    pub author_id: Int,
    pub author_name: String,
    pub author_email: String,
    pub creator_id: Int,
    pub creator_name: String,
    pub creator_email: String,
}

#[derive(Debug)]
pub struct PageMinimal {
    pub id: Int,
    pub path: String,
    pub content: String,
    pub created_at: Date,
    pub updated_at: Date,
    pub editor: String,
    pub locale: String,
}

#[derive(Debug)]
pub struct PageListItem {
    pub id: Int,
    pub path: String,
    pub locale: String,
    pub title: Option<String>,
    pub description: Option<String>,
    pub content_type: String,
    pub is_published: Boolean,
    pub is_private: Boolean,
    pub private_ns: Option<String>,
    pub created_at: Date,
    pub updated_at: Date,
    pub tags: Option<Vec<Option<String>>>,
}

#[derive(Debug)]
pub struct PageTreeItem {
    pub id: Int,
    pub path: String,
    pub depth: Int,
    pub title: String,
    pub is_private: Boolean,
    pub is_folder: Boolean,
    pub private_ns: Option<String>,
    pub parent: Option<Int>,
    pub page_id: Option<Int>,
    pub locale: String,
}

#[derive(Debug)]
pub struct PageTag {
    pub id: Int,
    pub tag: String,
    pub title: Option<String>,
    pub created_at: Date,
    pub updated_at: Date,
}

#[allow(non_camel_case_types, clippy::upper_case_acronyms)]
#[derive(Debug, Clone, Copy, PartialEq, Eq)]
pub enum PageTreeMode {
    FOLDERS,
    PAGES,
    ALL,
}

#[allow(non_camel_case_types, clippy::upper_case_acronyms)]
#[derive(Debug, Clone, Copy, PartialEq, Eq)]
pub enum PageOrderBy {
    CREATED,
    ID,
    PATH,
    TITLE,
    UPDATED,
}

#[allow(non_camel_case_types, clippy::upper_case_acronyms)]
#[derive(Debug, Clone, Copy, PartialEq, Eq)]
pub enum PageOrderByDirection {
    ASC,
    DESC,
}

#[derive(Debug)]
pub struct PageHistoryResult {
    pub trail: Option<Vec<Option<PageHistory>>>,
    pub total: Int,
}

#[derive(Debug)]
pub struct PageHistory {
    pub version_id: Int,
    pub version_date: Date,
    pub author_id: Int,
    pub author_name: String,
    pub action_type: String,
    pub value_before: Option<String>,
    pub value_after: Option<String>,
}

#[derive(Debug)]
pub struct PageVersion {
    pub action: String,
    pub author_id: String,
    pub author_name: String,
    pub content: String,
    pub content_type: String,
    pub created_at: Date,
    pub version_date: Date,
    pub description: String,
    pub editor: String,
    pub is_private: Boolean,
    pub is_published: Boolean,
    pub locale: String,
    pub page_id: Int,
    pub path: String,
    pub publish_end_date: Date,
    pub publish_start_date: Date,
    pub tags: Vec<Option<String>>,
    pub title: String,
    pub version_id: Int,
}

#[derive(Debug)]
pub struct PageSearchResponse {
    pub results: Vec<Option<PageSearchResult>>,
    pub suggestions: Vec<Option<String>>,
    pub total_hits: Int,
}

#[derive(Debug)]
pub struct PageSearchResult {
    pub id: String,
    pub title: String,
    pub description: String,
    pub path: String,
    pub locale: String,
}

#[derive(Debug)]
pub struct PageLinkItem {
    pub id: Int,
    pub path: String,
    pub title: String,
    pub links: Vec<Option<String>>,
}

#[derive(Debug)]
pub struct PageConflictLatest {
    pub id: Int,
    pub author_id: String,
    pub author_name: String,
    pub content: String,
    pub created_at: Date,
    pub description: String,
    pub is_published: Boolean,
    pub locale: String,
    pub path: String,
    pub tags: Option<Vec<Option<String>>>,
    pub title: String,
    pub updated_at: Date,
}

/// Reads the answer to the `PageGet` query: what it asked for, or the error
/// that the answer or the transport reports.
pub fn page_get(response: Result<Response<page_get::ResponseData>, String>) -> (result: Result<Page, PageError>)
    requires
        response matches Ok(body) ==> (page_get::spec_payload(body.data) is None ==> first_error_code_readable(
            body.errors,
        )),
    ensures
        match response {
            Err(message) => result matches Err(err) && err@ == ApiErrorView::UnknownMessage(message@),
            Ok(body) => match page_get::spec_payload(body.data) {
                Some(payload) => result matches Ok(value) && value == payload,
                None => result matches Err(err) && err@ == spec_classify_response_error::<PageError>(
                    body.errors,
                ),
            },
        },
{
    let body = match response {
        Ok(body) => body,
        Err(message) => {
            return Err(PageError::UnknownErrorMessage { message });
        },
    };
    let Response { data, errors } = body;
    if let Some(data) = data {
        if let Some(pages) = data.pages {
            if let Some(page) = pages.single {
                return Ok(page);
            }
        }
    }
    Err(classify_response_error(errors))
}

/// Reads the answer to the `PageList` query: what it asked for, or the error
/// that the answer or the transport reports.
pub fn page_list(response: Result<Response<page_list::ResponseData>, String>) -> (result: Result<Vec<PageListItem>, PageError>)
    requires
        response matches Ok(body) ==> (page_list::spec_payload(body.data) is None ==> first_error_code_readable(
            body.errors,
        )),
    ensures
        match response {
            Err(message) => result matches Err(err) && err@ == ApiErrorView::UnknownMessage(message@),
            Ok(body) => match page_list::spec_payload(body.data) {
                Some(payload) => result matches Ok(value) && value == payload,
                None => result matches Err(err) && err@ == spec_classify_response_error::<PageError>(
                    body.errors,
                ),
            },
        },
{
    let body = match response {
        Ok(body) => body,
        Err(message) => {
            return Err(PageError::UnknownErrorMessage { message });
        },
    };
    let Response { data, errors } = body;
    if let Some(data) = data {
        if let Some(pages) = data.pages {
            return Ok(pages.list);
        }
    }
    Err(classify_response_error(errors))
}

/// Reads the answer to the `PageTree` query: the listed items, without the absent ones, or the error
/// that the answer or the transport reports.
pub fn page_tree_get(response: Result<Response<page_tree::ResponseData>, String>) -> (result: Result<Vec<PageTreeItem>, PageError>)
    requires
        response matches Ok(body) ==> (page_tree::spec_payload(body.data) is None ==> first_error_code_readable(
            body.errors,
        )),
        response matches Ok(body) ==> (page_tree::spec_payload(body.data) matches Some(payload) ==> payload is Some),
    ensures
        match response {
            Err(message) => result matches Err(err) && err@ == ApiErrorView::UnknownMessage(message@),
            Ok(body) => match page_tree::spec_payload(body.data) {
                Some(payload) => result matches Ok(items) && items@ == flatten_seq(payload->0@),
                None => result matches Err(err) && err@ == spec_classify_response_error::<PageError>(
                    body.errors,
                ),
            },
        },
{
    let body = match response {
        Ok(body) => body,
        Err(message) => {
            return Err(PageError::UnknownErrorMessage { message });
        },
    };
    let Response { data, errors } = body;
    if let Some(data) = data {
        if let Some(pages) = data.pages {
            let list = pages.tree.unwrap();
            return Ok(flatten(list));
        }
    }
    Err(classify_response_error(errors))
}

/// Reads the answer to the `PageTagList` query: the listed items, without the absent ones, or the error
/// that the answer or the transport reports.
pub fn page_tag_list(response: Result<Response<page_tag_list::ResponseData>, String>) -> (result: Result<Vec<PageTag>, PageError>)
    requires
        response matches Ok(body) ==> (page_tag_list::spec_payload(body.data) is None ==> first_error_code_readable(
            body.errors,
        )),
    ensures
        match response {
            Err(message) => result matches Err(err) && err@ == ApiErrorView::UnknownMessage(message@),
            Ok(body) => match page_tag_list::spec_payload(body.data) {
                Some(payload) => result matches Ok(items) && items@ == flatten_seq(payload@),
                None => result matches Err(err) && err@ == spec_classify_response_error::<PageError>(
                    body.errors,
                ),
            },
        },
{
    let body = match response {
        Ok(body) => body,
        Err(message) => {
            return Err(PageError::UnknownErrorMessage { message });
        },
    };
    let Response { data, errors } = body;
    if let Some(data) = data {
        if let Some(pages) = data.pages {
            return Ok(flatten(pages.tags));
        }
    }
    Err(classify_response_error(errors))
}

/// Reads the answer to the `PageDelete` mutation: success where the server reports it, or the error
/// that the answer or the transport reports.
pub fn page_delete(response: Result<Response<page_delete::ResponseData>, String>) -> (result: Result<(), PageError>)
    requires
        response matches Ok(body) ==> (page_delete::spec_payload(body.data) is None ==> first_error_code_readable(
            body.errors,
        )),
    ensures
        match response {
            Err(message) => result matches Err(err) && err@ == ApiErrorView::UnknownMessage(message@),
            Ok(body) => match page_delete::spec_payload(body.data) {
                Some(payload) => if payload.succeeded {
                    result is Ok
                } else {
                    result matches Err(err) && err@ == spec_error_of_code::<PageError>(payload.error_code)
                },
                None => result matches Err(err) && err@ == spec_classify_response_error::<PageError>(
                    body.errors,
                ),
            },
        },
{
    let body = match response {
        Ok(body) => body,
        Err(message) => {
            return Err(PageError::UnknownErrorMessage { message });
        },
    };
    let Response { data, errors } = body;
    if let Some(data) = data {
        if let Some(pages) = data.pages {
            if let Some(delete) = pages.delete {
                if let Some(response_result) = delete.response_result {
                    if response_result.succeeded {
                        return Ok(());
                    } else {
                        return Err(PageError::from_error_code(response_result.error_code));
                    }
                }
            }
        }
    }
    Err(classify_response_error(errors))
}

/// Reads the answer to the `PageRender` mutation: success where the server reports it, or the error
/// that the answer or the transport reports.
pub fn page_render(response: Result<Response<page_render::ResponseData>, String>) -> (result: Result<(), PageError>)
    requires
        response matches Ok(body) ==> (page_render::spec_payload(body.data) is None ==> first_error_code_readable(
            body.errors,
        )),
    ensures
        match response {
            Err(message) => result matches Err(err) && err@ == ApiErrorView::UnknownMessage(message@),
            Ok(body) => match page_render::spec_payload(body.data) {
                Some(payload) => if payload.succeeded {
                    result is Ok
                } else {
                    result matches Err(err) && err@ == spec_error_of_code::<PageError>(payload.error_code)
                },
                None => result matches Err(err) && err@ == spec_classify_response_error::<PageError>(
                    body.errors,
                ),
            },
        },
{
    let body = match response {
        Ok(body) => body,
        Err(message) => {
            return Err(PageError::UnknownErrorMessage { message });
        },
    };
    let Response { data, errors } = body;
    if let Some(data) = data {
        if let Some(pages) = data.pages {
            if let Some(render) = pages.render {
                if let Some(response_result) = render.response_result {
                    if response_result.succeeded {
                        return Ok(());
                    } else {
                        return Err(PageError::from_error_code(response_result.error_code));
                    }
                }
            }
        }
    }
    Err(classify_response_error(errors))
}

/// Reads the answer to the `PageCreate` mutation: success where the server reports it, or the error
/// that the answer or the transport reports.
pub fn page_create(response: Result<Response<page_create::ResponseData>, String>) -> (result: Result<(), PageError>)
    requires
        response matches Ok(body) ==> (page_create::spec_payload(body.data) is None ==> first_error_code_readable(
            body.errors,
        )),
    ensures
        match response {
            Err(message) => result matches Err(err) && err@ == ApiErrorView::UnknownMessage(message@),
            Ok(body) => match page_create::spec_payload(body.data) {
                Some(payload) => if payload.succeeded {
                    result is Ok
                } else {
                    result matches Err(err) && err@ == spec_classify_response_status_error::<PageError>(payload)
                },
                None => result matches Err(err) && err@ == spec_classify_response_error::<PageError>(
                    body.errors,
                ),
            },
        },
{
    let body = match response {
        Ok(body) => body,
        Err(message) => {
            return Err(PageError::UnknownErrorMessage { message });
        },
    };
    let Response { data, errors } = body;
    if let Some(data) = data {
        if let Some(pages) = data.pages {
            if let Some(create) = pages.create {
                if create.response_result.succeeded {
                    return Ok(());
                } else {
                    return Err(classify_response_status_error(create.response_result));
                }
            }
        }
    }
    Err(classify_response_error(errors))
}

/// Reads the answer to the `PageGetByPath` query: what it asked for, or the error
/// that the answer or the transport reports.
pub fn page_get_by_path(response: Result<Response<page_get_by_path::ResponseData>, String>) -> (result: Result<Page, PageError>)
    requires
        response matches Ok(body) ==> (page_get_by_path::spec_payload(body.data) is None ==> first_error_code_readable(
            body.errors,
        )),
    ensures
        match response {
            Err(message) => result matches Err(err) && err@ == ApiErrorView::UnknownMessage(message@),
            Ok(body) => match page_get_by_path::spec_payload(body.data) {
                Some(payload) => result matches Ok(value) && value == payload,
                None => result matches Err(err) && err@ == spec_classify_response_error::<PageError>(
                    body.errors,
                ),
            },
        },
{
    let body = match response {
        Ok(body) => body,
        Err(message) => {
            return Err(PageError::UnknownErrorMessage { message });
        },
    };
    let Response { data, errors } = body;
    if let Some(data) = data {
        if let Some(pages) = data.pages {
            if let Some(page) = pages.single_by_path {
                return Ok(page);
            }
        }
    }
    Err(classify_response_error(errors))
}

/// Reads the answer to the `PageUpdate` mutation: success where the server reports it, or the error
/// that the answer or the transport reports.
pub fn page_update(response: Result<Response<page_update::ResponseData>, String>) -> (result: Result<(), PageError>)
    requires
        response matches Ok(body) ==> (page_update::spec_payload(body.data) is None ==> first_error_code_readable(
            body.errors,
        )),
    ensures
        match response {
            Err(message) => result matches Err(err) && err@ == ApiErrorView::UnknownMessage(message@),
            Ok(body) => match page_update::spec_payload(body.data) {
                Some(payload) => if payload.succeeded {
                    result is Ok
                } else {
                    result matches Err(err) && err@ == spec_classify_response_status_error::<PageError>(payload)
                },
                None => result matches Err(err) && err@ == spec_classify_response_error::<PageError>(
                    body.errors,
                ),
            },
        },
{
    let body = match response {
        Ok(body) => body,
        Err(message) => {
            return Err(PageError::UnknownErrorMessage { message });
        },
    };
    let Response { data, errors } = body;
    if let Some(data) = data {
        if let Some(pages) = data.pages {
            if let Some(update) = pages.update {
                if update.response_result.succeeded {
                    return Ok(());
                } else {
                    return Err(classify_response_status_error(update.response_result));
                }
            }
        }
    }
    Err(classify_response_error(errors))
}

/// Reads the answer to the `PageHistoryGet` query: what it asked for, or the error
/// that the answer or the transport reports.
pub fn page_history_get(response: Result<Response<page_history_get::ResponseData>, String>) -> (result: Result<PageHistoryResult, PageError>)
    requires
        response matches Ok(body) ==> (page_history_get::spec_payload(body.data) is None ==> first_error_code_readable(
            body.errors,
        )),
    ensures
        match response {
            Err(message) => result matches Err(err) && err@ == ApiErrorView::UnknownMessage(message@),
            Ok(body) => match page_history_get::spec_payload(body.data) {
                Some(payload) => result matches Ok(value) && value == payload,
                None => result matches Err(err) && err@ == spec_classify_response_error::<PageError>(
                    body.errors,
                ),
            },
        },
{
    let body = match response {
        Ok(body) => body,
        Err(message) => {
            return Err(PageError::UnknownErrorMessage { message });
        },
    };
    let Response { data, errors } = body;
    if let Some(data) = data {
        if let Some(pages) = data.pages {
            if let Some(history) = pages.history {
                return Ok(history);
            }
        }
    }
    Err(classify_response_error(errors))
}

/// Reads the answer to the `PageVersionGet` query: what it asked for, or the error
/// that the answer or the transport reports.
pub fn page_version_get(response: Result<Response<page_version_get::ResponseData>, String>) -> (result: Result<PageVersion, PageError>)
    requires
        response matches Ok(body) ==> (page_version_get::spec_payload(body.data) is None ==> first_error_code_readable(
            body.errors,
        )),
    ensures
        match response {
            Err(message) => result matches Err(err) && err@ == ApiErrorView::UnknownMessage(message@),
            Ok(body) => match page_version_get::spec_payload(body.data) {
                Some(payload) => result matches Ok(value) && value == payload,
                None => result matches Err(err) && err@ == spec_classify_response_error::<PageError>(
                    body.errors,
                ),
            },
        },
{
    let body = match response {
        Ok(body) => body,
        Err(message) => {
            return Err(PageError::UnknownErrorMessage { message });
        },
    };
    let Response { data, errors } = body;
    if let Some(data) = data {
        if let Some(pages) = data.pages {
            if let Some(version) = pages.version {
                return Ok(version);
            }
        }
    }
    Err(classify_response_error(errors))
}

/// Reads the answer to the `PageSearch` query: what it asked for, or the error
/// that the answer or the transport reports.
pub fn page_search(response: Result<Response<page_search::ResponseData>, String>) -> (result: Result<PageSearchResponse, PageError>)
    requires
        response matches Ok(body) ==> (page_search::spec_payload(body.data) is None ==> first_error_code_readable(
            body.errors,
        )),
    ensures
        match response {
            Err(message) => result matches Err(err) && err@ == ApiErrorView::UnknownMessage(message@),
            Ok(body) => match page_search::spec_payload(body.data) {
                Some(payload) => result matches Ok(value) && value == payload,
                None => result matches Err(err) && err@ == spec_classify_response_error::<PageError>(
                    body.errors,
                ),
            },
        },
{
    let body = match response {
        Ok(body) => body,
        Err(message) => {
            return Err(PageError::UnknownErrorMessage { message });
        },
    };
    let Response { data, errors } = body;
    if let Some(data) = data {
        if let Some(pages) = data.pages {
            return Ok(pages.search);
        }
    }
    Err(classify_response_error(errors))
}

/// Reads the answer to the `PageLinkGet` query: the listed items, without the absent ones, or the error
/// that the answer or the transport reports.
pub fn page_link_list(response: Result<Response<page_link_get::ResponseData>, String>) -> (result: Result<Vec<PageLinkItem>, PageError>)
    requires
        response matches Ok(body) ==> (page_link_get::spec_payload(body.data) is None ==> first_error_code_readable(
            body.errors,
        )),
    ensures
        match response {
            Err(message) => result matches Err(err) && err@ == ApiErrorView::UnknownMessage(message@),
            Ok(body) => match page_link_get::spec_payload(body.data) {
                Some(payload) => result matches Ok(items) && items@ == flatten_seq(payload@),
                None => result matches Err(err) && err@ == spec_classify_response_error::<PageError>(
                    body.errors,
                ),
            },
        },
{
    let body = match response {
        Ok(body) => body,
        Err(message) => {
            return Err(PageError::UnknownErrorMessage { message });
        },
    };
    let Response { data, errors } = body;
    if let Some(data) = data {
        if let Some(pages) = data.pages {
            if let Some(links) = pages.links {
                return Ok(flatten(links));
            }
        }
    }
    Err(classify_response_error(errors))
}

/// Reads the answer to the `PageConflictCheck` query: what it asked for, or the error
/// that the answer or the transport reports.
pub fn page_conflict_check(response: Result<Response<page_conflict_check::ResponseData>, String>) -> (result: Result<Boolean, PageError>)
    requires
        response matches Ok(body) ==> (page_conflict_check::spec_payload(body.data) is None ==> first_error_code_readable(
            body.errors,
        )),
    ensures
        match response {
            Err(message) => result matches Err(err) && err@ == ApiErrorView::UnknownMessage(message@),
            Ok(body) => match page_conflict_check::spec_payload(body.data) {
                Some(payload) => result matches Ok(value) && value == payload,
                None => result matches Err(err) && err@ == spec_classify_response_error::<PageError>(
                    body.errors,
                ),
            },
        },
{
    let body = match response {
        Ok(body) => body,
        Err(message) => {
            return Err(PageError::UnknownErrorMessage { message });
        },
    };
    let Response { data, errors } = body;
    if let Some(data) = data {
        if let Some(pages) = data.pages {
            return Ok(pages.check_conflicts);
        }
    }
    Err(classify_response_error(errors))
}

/// Reads the answer to the `PageConflictLatest` query: what it asked for, or the error
/// that the answer or the transport reports.
pub fn page_conflict_latest(response: Result<Response<page_conflict_latest::ResponseData>, String>) -> (result: Result<PageConflictLatest, PageError>)
    requires
        response matches Ok(body) ==> (page_conflict_latest::spec_payload(body.data) is None ==> first_error_code_readable(
            body.errors,
        )),
    ensures
        match response {
            Err(message) => result matches Err(err) && err@ == ApiErrorView::UnknownMessage(message@),
            Ok(body) => match page_conflict_latest::spec_payload(body.data) {
                Some(payload) => result matches Ok(value) && value == payload,
                None => result matches Err(err) && err@ == spec_classify_response_error::<PageError>(
                    body.errors,
                ),
            },
        },
{
    let body = match response {
        Ok(body) => body,
        Err(message) => {
            return Err(PageError::UnknownErrorMessage { message });
        },
    };
    let Response { data, errors } = body;
    if let Some(data) = data {
        if let Some(pages) = data.pages {
            return Ok(pages.conflict_latest);
        }
    }
    Err(classify_response_error(errors))
}

/// Reads the answer to the `PageConvert` mutation: success where the server reports it, or the error
/// that the answer or the transport reports.
pub fn page_convert(response: Result<Response<page_convert::ResponseData>, String>) -> (result: Result<(), PageError>)
    requires
        response matches Ok(body) ==> (page_convert::spec_payload(body.data) is None ==> first_error_code_readable(
            body.errors,
        )),
    ensures
        match response {
            Err(message) => result matches Err(err) && err@ == ApiErrorView::UnknownMessage(message@),
            Ok(body) => match page_convert::spec_payload(body.data) {
                Some(payload) => if payload.succeeded {
                    result is Ok
                } else {
                    result matches Err(err) && err@ == spec_classify_response_status_error::<PageError>(payload)
                },
                None => result matches Err(err) && err@ == spec_classify_response_error::<PageError>(
                    body.errors,
                ),
            },
        },
{
    let body = match response {
        Ok(body) => body,
        Err(message) => {
            return Err(PageError::UnknownErrorMessage { message });
        },
    };
    let Response { data, errors } = body;
    if let Some(data) = data {
        if let Some(pages) = data.pages {
            if let Some(convert) = pages.convert {
                if let Some(response_result) = convert.response_result {
                    if response_result.succeeded {
                        return Ok(());
                    } else {
                        return Err(classify_response_status_error(response_result));
                    }
                }
            }
        }
    }
    Err(classify_response_error(errors))
}

/// Reads the answer to the `PageMove` mutation: success where the server reports it, or the error
/// that the answer or the transport reports.
pub fn page_move(response: Result<Response<page_move::ResponseData>, String>) -> (result: Result<(), PageError>)
    requires
        response matches Ok(body) ==> (page_move::spec_payload(body.data) is None ==> first_error_code_readable(
            body.errors,
        )),
    ensures
        match response {
            Err(message) => result matches Err(err) && err@ == ApiErrorView::UnknownMessage(message@),
            Ok(body) => match page_move::spec_payload(body.data) {
                Some(payload) => if payload.succeeded {
                    result is Ok
                } else {
                    result matches Err(err) && err@ == spec_classify_response_status_error::<PageError>(payload)
                },
                None => result matches Err(err) && err@ == spec_classify_response_error::<PageError>(
                    body.errors,
                ),
            },
        },
{
    let body = match response {
        Ok(body) => body,
        Err(message) => {
            return Err(PageError::UnknownErrorMessage { message });
        },
    };
    let Response { data, errors } = body;
    if let Some(data) = data {
        if let Some(pages) = data.pages {
            if let Some(move_) = pages.move_ {
                if let Some(response_result) = move_.response_result {
                    if response_result.succeeded {
                        return Ok(());
                    } else {
                        return Err(classify_response_status_error(response_result));
                    }
                }
            }
        }
    }
    Err(classify_response_error(errors))
}

/// Reads the answer to the `PageTagDelete` mutation: success where the server reports it, or the error
/// that the answer or the transport reports.
pub fn page_tag_delete(response: Result<Response<page_tag_delete::ResponseData>, String>) -> (result: Result<(), PageError>)
    requires
        response matches Ok(body) ==> (page_tag_delete::spec_payload(body.data) is None ==> first_error_code_readable(
            body.errors,
        )),
    ensures
        match response {
            Err(message) => result matches Err(err) && err@ == ApiErrorView::UnknownMessage(message@),
            Ok(body) => match page_tag_delete::spec_payload(body.data) {
                Some(payload) => if payload.succeeded {
                    result is Ok
                } else {
                    result matches Err(err) && err@ == spec_classify_response_status_error::<PageError>(payload)
                },
                None => result matches Err(err) && err@ == spec_classify_response_error::<PageError>(
                    body.errors,
                ),
            },
        },
{
    let body = match response {
        Ok(body) => body,
        Err(message) => {
            return Err(PageError::UnknownErrorMessage { message });
        },
    };
    let Response { data, errors } = body;
    if let Some(data) = data {
        if let Some(pages) = data.pages {
            if let Some(delete_tag) = pages.delete_tag {
                if let Some(response_result) = delete_tag.response_result {
                    if response_result.succeeded {
                        return Ok(());
                    } else {
                        return Err(classify_response_status_error(response_result));
                    }
                }
            }
        }
    }
    Err(classify_response_error(errors))
}

/// Reads the answer to the `PageTagUpdate` mutation: success where the server reports it, or the error
/// that the answer or the transport reports.
pub fn page_tag_update(response: Result<Response<page_tag_update::ResponseData>, String>) -> (result: Result<(), PageError>)
    requires
        response matches Ok(body) ==> (page_tag_update::spec_payload(body.data) is None ==> first_error_code_readable(
            body.errors,
        )),
    ensures
        match response {
            Err(message) => result matches Err(err) && err@ == ApiErrorView::UnknownMessage(message@),
            Ok(body) => match page_tag_update::spec_payload(body.data) {
                Some(payload) => if payload.succeeded {
                    result is Ok
                } else {
                    result matches Err(err) && err@ == spec_classify_response_status_error::<PageError>(payload)
                },
                None => result matches Err(err) && err@ == spec_classify_response_error::<PageError>(
                    body.errors,
                ),
            },
        },
{
    let body = match response {
        Ok(body) => body,
        Err(message) => {
            return Err(PageError::UnknownErrorMessage { message });
        },
    };
    let Response { data, errors } = body;
    if let Some(data) = data {
        if let Some(pages) = data.pages {
            if let Some(update_tag) = pages.update_tag {
                if let Some(response_result) = update_tag.response_result {
                    if response_result.succeeded {
                        return Ok(());
                    } else {
                        return Err(classify_response_status_error(response_result));
                    }
                }
            }
        }
    }
    Err(classify_response_error(errors))
}

/// Reads the answer to the `PageCacheFlush` mutation: success where the server reports it, or the error
/// that the answer or the transport reports.
pub fn page_cache_flush(response: Result<Response<page_cache_flush::ResponseData>, String>) -> (result: Result<(), PageError>)
    requires
        response matches Ok(body) ==> (page_cache_flush::spec_payload(body.data) is None ==> first_error_code_readable(
            body.errors,
        )),
    ensures
        match response {
            Err(message) => result matches Err(err) && err@ == ApiErrorView::UnknownMessage(message@),
            Ok(body) => match page_cache_flush::spec_payload(body.data) {
                Some(payload) => if payload.succeeded {
                    result is Ok
                } else {
                    result matches Err(err) && err@ == spec_classify_response_status_error::<PageError>(payload)
                },
                None => result matches Err(err) && err@ == spec_classify_response_error::<PageError>(
                    body.errors,
                ),
            },
        },
{
    let body = match response {
        Ok(body) => body,
        Err(message) => {
            return Err(PageError::UnknownErrorMessage { message });
        },
    };
    let Response { data, errors } = body;
    if let Some(data) = data {
        if let Some(pages) = data.pages {
            if let Some(flush_cache) = pages.flush_cache {
                if let Some(response_result) = flush_cache.response_result {
                    if response_result.succeeded {
                        return Ok(());
                    } else {
                        return Err(classify_response_status_error(response_result));
                    }
                }
            }
        }
    }
    Err(classify_response_error(errors))
}

/// Reads the answer to the `PageMigrateToLocale` mutation: success where the server reports it, or the error
/// that the answer or the transport reports.
pub fn page_migrate_to_locale(response: Result<Response<page_migrate_to_locale::ResponseData>, String>) -> (result: Result<(), PageError>)
    requires
        response matches Ok(body) ==> (page_migrate_to_locale::spec_payload(body.data) is None ==> first_error_code_readable(
            body.errors,
        )),
    ensures
        match response {
            Err(message) => result matches Err(err) && err@ == ApiErrorView::UnknownMessage(message@),
            Ok(body) => match page_migrate_to_locale::spec_payload(body.data) {
                Some(payload) => if payload.succeeded {
                    result is Ok
                } else {
                    result matches Err(err) && err@ == spec_classify_response_status_error::<PageError>(payload)
                },
                None => result matches Err(err) && err@ == spec_classify_response_error::<PageError>(
                    body.errors,
                ),
            },
        },
{
    let body = match response {
        Ok(body) => body,
        Err(message) => {
            return Err(PageError::UnknownErrorMessage { message });
        },
    };
    let Response { data, errors } = body;
    if let Some(data) = data {
        if let Some(pages) = data.pages {
            if let Some(migrate_to_locale) = pages.migrate_to_locale {
                if migrate_to_locale.response_result.succeeded {
                    return Ok(());
                } else {
                    return Err(classify_response_status_error(migrate_to_locale.response_result));
                }
            }
        }
    }
    Err(classify_response_error(errors))
}

/// Reads the answer to the `PageTreeRebuild` mutation: success where the server reports it, or the error
/// that the answer or the transport reports.
pub fn page_tree_rebuild(response: Result<Response<page_tree_rebuild::ResponseData>, String>) -> (result: Result<(), PageError>)
    requires
        response matches Ok(body) ==> (page_tree_rebuild::spec_payload(body.data) is None ==> first_error_code_readable(
            body.errors,
        )),
    ensures
        match response {
            Err(message) => result matches Err(err) && err@ == ApiErrorView::UnknownMessage(message@),
            Ok(body) => match page_tree_rebuild::spec_payload(body.data) {
                Some(payload) => if payload.succeeded {
                    result is Ok
                } else {
                    result matches Err(err) && err@ == spec_classify_response_status_error::<PageError>(payload)
                },
                None => result matches Err(err) && err@ == spec_classify_response_error::<PageError>(
                    body.errors,
                ),
            },
        },
{
    let body = match response {
        Ok(body) => body,
        Err(message) => {
            return Err(PageError::UnknownErrorMessage { message });
        },
    };
    let Response { data, errors } = body;
    if let Some(data) = data {
        if let Some(pages) = data.pages {
            if let Some(rebuild_tree) = pages.rebuild_tree {
                if let Some(response_result) = rebuild_tree.response_result {
                    if response_result.succeeded {
                        return Ok(());
                    } else {
                        return Err(classify_response_status_error(response_result));
                    }
                }
            }
        }
    }
    Err(classify_response_error(errors))
}

/// Reads the answer to the `PageRestore` mutation: success where the server reports it, or the error
/// that the answer or the transport reports.
pub fn page_restore(response: Result<Response<page_restore::ResponseData>, String>) -> (result: Result<(), PageError>)
    requires
        response matches Ok(body) ==> (page_restore::spec_payload(body.data) is None ==> first_error_code_readable(
            body.errors,
        )),
    ensures
        match response {
            Err(message) => result matches Err(err) && err@ == ApiErrorView::UnknownMessage(message@),
            Ok(body) => match page_restore::spec_payload(body.data) {
                Some(payload) => if payload.succeeded {
                    result is Ok
                } else {
                    result matches Err(err) && err@ == spec_classify_response_status_error::<PageError>(payload)
                },
                None => result matches Err(err) && err@ == spec_classify_response_error::<PageError>(
                    body.errors,
                ),
            },
        },
{
    let body = match response {
        Ok(body) => body,
        Err(message) => {
            return Err(PageError::UnknownErrorMessage { message });
        },
    };
    let Response { data, errors } = body;
    if let Some(data) = data {
        if let Some(pages) = data.pages {
            if let Some(restore) = pages.restore {
                if let Some(response_result) = restore.response_result {
                    if response_result.succeeded {
                        return Ok(());
                    } else {
                        return Err(classify_response_status_error(response_result));
                    }
                }
            }
        }
    }
    Err(classify_response_error(errors))
}

/// Reads the answer to the `PageHistoryPurge` mutation: success where the server reports it, or the error
/// that the answer or the transport reports.
pub fn page_history_purge(response: Result<Response<page_history_purge::ResponseData>, String>) -> (result: Result<(), PageError>)
    requires
        response matches Ok(body) ==> (page_history_purge::spec_payload(body.data) is None ==> first_error_code_readable(
            body.errors,
        )),
    ensures
        match response {
            Err(message) => result matches Err(err) && err@ == ApiErrorView::UnknownMessage(message@),
            Ok(body) => match page_history_purge::spec_payload(body.data) {
                Some(payload) => if payload.succeeded {
                    result is Ok
                } else {
                    result matches Err(err) && err@ == spec_classify_response_status_error::<PageError>(payload)
                },
                None => result matches Err(err) && err@ == spec_classify_response_error::<PageError>(
                    body.errors,
                ),
            },
        },
{
    let body = match response {
        Ok(body) => body,
        Err(message) => {
            return Err(PageError::UnknownErrorMessage { message });
        },
    };
    let Response { data, errors } = body;
    if let Some(data) = data {
        if let Some(pages) = data.pages {
            if let Some(purge_history) = pages.purge_history {
                if let Some(response_result) = purge_history.response_result {
                    if response_result.succeeded {
                        return Ok(());
                    } else {
                        return Err(classify_response_status_error(response_result));
                    }
                }
            }
        }
    }
    Err(classify_response_error(errors))
}

/// Reads the answer to the `PageGetUpdatedAt` query: what it asked for, or the error
/// that the answer or the transport reports.
pub fn page_get_updated_at(response: Result<Response<page_get_updated_at::ResponseData>, String>) -> (result: Result<Date, PageError>)
    requires
        response matches Ok(body) ==> (page_get_updated_at::spec_payload(body.data) is None ==> first_error_code_readable(
            body.errors,
        )),
    ensures
        match response {
            Err(message) => result matches Err(err) && err@ == ApiErrorView::UnknownMessage(message@),
            Ok(body) => match page_get_updated_at::spec_payload(body.data) {
                Some(payload) => result matches Ok(value) && value == payload,
                None => result matches Err(err) && err@ == spec_classify_response_error::<PageError>(
                    body.errors,
                ),
            },
        },
{
    let body = match response {
        Ok(body) => body,
        Err(message) => {
            return Err(PageError::UnknownErrorMessage { message });
        },
    };
    let Response { data, errors } = body;
    if let Some(data) = data {
        if let Some(pages) = data.pages {
            if let Some(single) = pages.single {
                return Ok(single.updated_at);
            }
        }
    }
    Err(classify_response_error(errors))
}

/// Reads the answer to the `PageGetMinimal` query: what it asked for, or the error
/// that the answer or the transport reports.
pub fn page_get_minimal(response: Result<Response<page_get_minimal::ResponseData>, String>) -> (result: Result<PageMinimal, PageError>)
    requires
        response matches Ok(body) ==> (page_get_minimal::spec_payload(body.data) is None ==> first_error_code_readable(
            body.errors,
        )),
    ensures
        match response {
            Err(message) => result matches Err(err) && err@ == ApiErrorView::UnknownMessage(message@),
            Ok(body) => match page_get_minimal::spec_payload(body.data) {
                Some(payload) => result matches Ok(value) && value == payload,
                None => result matches Err(err) && err@ == spec_classify_response_error::<PageError>(
                    body.errors,
                ),
            },
        },
{
    let body = match response {
        Ok(body) => body,
        Err(message) => {
            return Err(PageError::UnknownErrorMessage { message });
        },
    };
    let Response { data, errors } = body;
    if let Some(data) = data {
        if let Some(pages) = data.pages {
            if let Some(single) = pages.single {
                return Ok(single);
            }
        }
    }
    Err(classify_response_error(errors))
}

impl Clone for PageMinimal {
    fn clone(&self) -> (copy: Self)
        ensures
            copy == *self,
    {
        PageMinimal {
            id: self.id,
            path: self.path.clone(),
            content: self.content.clone(),
            created_at: self.created_at.clone(),
            updated_at: self.updated_at.clone(),
            editor: self.editor.clone(),
            locale: self.locale.clone(),
        }
    }
}

/// The tags of a page by name, as a page update takes them.
pub open spec fn spec_tag_names(tags: Seq<Option<PageTag>>) -> Seq<Option<String>> {
    tags.map_values(|tag: Option<PageTag>| match tag {
        Some(tag) => Some(tag.tag),
        None => None,
    })
}

/// The value of a field of a page update: the given one, else the page's.
pub open spec fn spec_updated<T>(given: Option<T>, current: T) -> Option<T> {
    match given {
        Some(value) => Some(value),
        None => Some(current),
    }
}

/// The request that updates a page: each field that is given, else the
/// page's current value, so that an update changes only what it names.
pub fn page_update_variables(
    id: i64,
    content: Option<String>,
    description: Option<String>,
    editor: Option<String>,
    is_private: Option<bool>,
    is_published: Option<bool>,
    locale: Option<String>,
    path: Option<String>,
    publish_end_date: Option<Date>,
    publish_start_date: Option<Date>,
    script_css: Option<String>,
    script_js: Option<String>,
    tags: Option<Vec<Option<String>>>,
    title: Option<String>,
    page: Page,
) -> (variables: page_update::Variables)
    ensures
        variables.id == id,
        variables.content == spec_updated(content, page.content),
        variables.description == spec_updated(description, page.description),
        variables.editor == spec_updated(editor, page.editor),
        variables.is_private == spec_updated(is_private, page.is_private),
        variables.is_published == spec_updated(is_published, page.is_published),
        variables.locale == spec_updated(locale, page.locale),
        variables.path == spec_updated(path, page.path),
        variables.publish_end_date == spec_updated(publish_end_date, page.publish_end_date),
        variables.publish_start_date == spec_updated(publish_start_date, page.publish_start_date),
        variables.script_css == (match script_css {
            Some(value) => Some(value),
            None => page.script_css,
        }),
        variables.script_js == (match script_js {
            Some(value) => Some(value),
            None => page.script_js,
        }),
        match tags {
            Some(given) => variables.tags == Some(given),
            None => variables.tags matches Some(names) && names@ == spec_tag_names(page.tags@),
        },
        variables.title == spec_updated(title, page.title),
{
    let tags = match tags {
        Some(given) => Some(given),
        None => {
            let mut names: Vec<Option<String>> = Vec::new();
            let ghost all = page.tags@;
            for tag in it: page.tags
                invariant
                    it.seq() == all,
                    names@ == spec_tag_names(all.take(it.index() as int)),
            {
                let name = match tag {
                    Some(tag) => Some(tag.tag),
                    None => None,
                };
                names.push(name);
                proof {
                    assert(names@ =~= spec_tag_names(all.take(it.index() as int + 1)));
                }
            }
            proof {
                assert(all.take(all.len() as int) =~= all);
            }
            Some(names)
        },
    };
    page_update::Variables {
        id,
        content: match content {
            Some(value) => Some(value),
            None => Some(page.content),
        },
        description: match description {
            Some(value) => Some(value),
            None => Some(page.description),
        },
        editor: match editor {
            Some(value) => Some(value),
            None => Some(page.editor),
        },
        is_private: match is_private {
            Some(value) => Some(value),
            None => Some(page.is_private),
        },
        is_published: match is_published {
            Some(value) => Some(value),
            None => Some(page.is_published),
        },
        locale: match locale {
            Some(value) => Some(value),
            None => Some(page.locale),
        },
        path: match path {
            Some(value) => Some(value),
            None => Some(page.path),
        },
        publish_end_date: match publish_end_date {
            Some(value) => Some(value),
            None => Some(page.publish_end_date),
        },
        publish_start_date: match publish_start_date {
            Some(value) => Some(value),
            None => Some(page.publish_start_date),
        },
        script_css: match script_css {
            Some(value) => Some(value),
            None => page.script_css,
        },
        script_js: match script_js {
            Some(value) => Some(value),
            None => page.script_js,
        },
        tags,
        title: match title {
            Some(value) => Some(value),
            None => Some(page.title),
        },
    }
}

} // verus!
