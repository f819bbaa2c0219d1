//! Assets and asset folders.

pub mod asset_delete;
pub mod asset_folder_create;
pub mod asset_folder_list;
pub mod asset_list;
pub mod asset_rename;
pub mod asset_temp_upload_flush;

use vstd::prelude::*;

use crate::common::{ApiErrorView, Date, Int, KnownErrorCodes, Response, UnknownError, classify_response_error, classify_response_status_error, decimal, first_error_code_readable, flatten, flatten_seq, http_status_is_success, int_to_string, is_success_status, spec_classify_response_error, spec_classify_response_status_error, spec_error_of_code, unknown_code_message};

verus! {

/// The errors of the endpoints of this module, named after the Wiki.js
/// error codes they stand for.
#[derive(Debug, PartialEq)]
pub enum AssetError {
    AssetGenericError,
    AssetFolderExists,
    AssetDeleteForbidden,
    AssetInvalid,
    AssetRenameCollision,
    AssetRenameForbidden,
    AssetRenameInvalid,
    AssetRenameInvalidExt,
    AssetRenameTargetForbidden,
    UnknownErrorCode { code: i64, message: String },
    UnknownErrorMessage { message: String },
    UnknownError,
}

impl View for AssetError {
    type V = ApiErrorView;

    open spec fn view(&self) -> ApiErrorView {
        match self {
            AssetError::AssetGenericError => ApiErrorView::Known(2001),
            AssetError::AssetFolderExists => ApiErrorView::Known(2002),
            AssetError::AssetDeleteForbidden => ApiErrorView::Known(2003),
            AssetError::AssetInvalid => ApiErrorView::Known(2004),
            AssetError::AssetRenameCollision => ApiErrorView::Known(2005),
            AssetError::AssetRenameForbidden => ApiErrorView::Known(2006),
            AssetError::AssetRenameInvalid => ApiErrorView::Known(2007),
            AssetError::AssetRenameInvalidExt => ApiErrorView::Known(2008),
            AssetError::AssetRenameTargetForbidden => ApiErrorView::Known(2009),
            AssetError::UnknownErrorCode { code, message } => ApiErrorView::UnknownCode(*code, message@),
            AssetError::UnknownErrorMessage { message } => ApiErrorView::UnknownMessage(message@),
            AssetError::UnknownError => ApiErrorView::Unknown,
        }
    }
}

impl AssetError {
    /// The text that describes the error.
    pub open spec fn spec_to_string(&self) -> Seq<char> {
        match self {
            AssetError::AssetGenericError => "An unexpected error occurred during asset operation."@,
            AssetError::AssetFolderExists => "An asset folder with the same name already exists."@,
            AssetError::AssetDeleteForbidden => "You are not authorized to delete this asset."@,
            AssetError::AssetInvalid => "This asset does not exist or is invalid."@,
            AssetError::AssetRenameCollision => "An asset with the same filename in the same folder already exists."@,
            AssetError::AssetRenameForbidden => "You are not authorized to rename this asset."@,
            AssetError::AssetRenameInvalid => "The new asset filename is invalid."@,
            AssetError::AssetRenameInvalidExt => "The file extension cannot be changed on an existing asset."@,
            AssetError::AssetRenameTargetForbidden => "You are not authorized to rename this asset to the requested name."@,
            AssetError::UnknownErrorCode { code, message } => "Unknown response error code: "@ + decimal(*code as int) + ": "@ + message@,
            AssetError::UnknownErrorMessage { message } => "Unknown response error: "@ + message@,
            AssetError::UnknownError => "Unknown response error."@,
        }
    }

    /// The text that describes the error.
    pub fn to_string(&self) -> (text: String)
        ensures
            text@ == self.spec_to_string(),
    {
        match self {
            AssetError::AssetGenericError => String::from_str("An unexpected error occurred during asset operation."),
            AssetError::AssetFolderExists => String::from_str("An asset folder with the same name already exists."),
            AssetError::AssetDeleteForbidden => String::from_str("You are not authorized to delete this asset."),
            AssetError::AssetInvalid => String::from_str("This asset does not exist or is invalid."),
            AssetError::AssetRenameCollision => String::from_str("An asset with the same filename in the same folder already exists."),
            AssetError::AssetRenameForbidden => String::from_str("You are not authorized to rename this asset."),
            AssetError::AssetRenameInvalid => String::from_str("The new asset filename is invalid."),
            AssetError::AssetRenameInvalidExt => String::from_str("The file extension cannot be changed on an existing asset."),
            AssetError::AssetRenameTargetForbidden => String::from_str("You are not authorized to rename this asset to the requested name."),
            AssetError::UnknownErrorCode { code, message } => {
                let mut text = String::from_str("Unknown response error code: ");
                text.append(int_to_string(*code).as_str());
                text.append(": ");
                text.append(message.as_str());
                text
            },
            AssetError::UnknownErrorMessage { message } => {
                let mut text = String::from_str("Unknown response error: ");
                text.append(message.as_str());
                text
            },
            AssetError::UnknownError => String::from_str("Unknown response error."),
        }
    }
}

impl UnknownError for AssetError {
    open spec fn spec_is_named_code(code: i64) -> bool {
        2001 <= code <= 2009
    }

    fn unknown_error_code(code: i64, message: String) -> (err: Self) {
        AssetError::UnknownErrorCode { code, message }
    }

    fn unknown_error_message(message: String) -> (err: Self) {
        AssetError::UnknownErrorMessage { message }
    }

    fn unknown_error() -> (err: Self) {
        AssetError::UnknownError
    }

    fn from_error_code(code: i64) -> (err: Self) {
        match code {
            2001 => AssetError::AssetGenericError,
            2002 => AssetError::AssetFolderExists,
            2003 => AssetError::AssetDeleteForbidden,
            2004 => AssetError::AssetInvalid,
            2005 => AssetError::AssetRenameCollision,
            2006 => AssetError::AssetRenameForbidden,
            2007 => AssetError::AssetRenameInvalid,
            2008 => AssetError::AssetRenameInvalidExt,
            2009 => AssetError::AssetRenameTargetForbidden,
            _ => {
                let message = String::from_str("Unknown error");
                AssetError::UnknownErrorCode { code, message }
            },
        }
    }
}

impl From<i64> for AssetError {
    /// The error of a Wiki.js error code: its own variant where the type
    /// names the code, else an unknown-code error.
    fn from(code: i64) -> (err: Self)
        ensures
            err@ == spec_error_of_code::<AssetError>(code),
    {
        AssetError::from_error_code(code)
    }
}

/// `from` is specified by its own `ensures`, over the error's view: an
/// unknown-code error holds a `String`, which no spec function builds, so the
/// generic specification of `From` is not claimed.
impl vstd::std_specs::convert::FromSpecImpl<i64> for AssetError {
    open spec fn obeys_from_spec() -> bool {
        false
    }

    open spec fn from_spec(code: i64) -> Self {
        AssetError::UnknownError
    }
}

impl KnownErrorCodes for AssetError {
    open spec fn spec_known_error_codes() -> Seq<i64> {
        seq![2001, 2002, 2003, 2004, 2005, 2006, 2007, 2008, 2009]
    }

    open spec fn spec_is_known_error_code(code: i64) -> bool {
        2001 <= code <= 2009
    }

    fn known_error_codes() -> (codes: Vec<i64>) {
        let codes = vec![2001, 2002, 2003, 2004, 2005, 2006, 2007, 2008, 2009];
        proof {
            assert(codes@ =~= Self::spec_known_error_codes());
        }
        codes
    }

    fn is_known_error_code(code: i64) -> (known: bool) {
        2001 <= code && code <= 2009
    }
}

/// The codes that `AssetError::known_error_codes` lists are exactly the codes that
/// `AssetError::is_known_error_code` accepts.
pub proof fn lemma_known_error_codes_listed(code: i64)
    ensures
        AssetError::spec_known_error_codes().contains(code) <==> AssetError::spec_is_known_error_code(code),
{
    let codes = AssetError::spec_known_error_codes();
    if AssetError::spec_is_known_error_code(code) {
        let i: int = code - 2001;
        assert(codes[i] == code);
    }
}

/// A code is known to `AssetError` exactly when the type has a variant of its own
/// for it: `AssetError::from` gives the known error for the known codes and an
/// unknown-code error for every other code.
pub proof fn lemma_known_error_codes_named(code: i64)
    ensures
        AssetError::spec_is_known_error_code(code) <==> AssetError::spec_is_named_code(code),
        spec_error_of_code::<AssetError>(code) == (if AssetError::spec_is_known_error_code(code) {
            ApiErrorView::Known(code)
        } else {
            ApiErrorView::UnknownCode(code, unknown_code_message())
        }),
{
}

#[derive(Debug)]
pub struct AssetItem {
    pub id: Int,
    pub filename: String,
    pub ext: String,
    pub kind: AssetKind,
    pub mime: String,
    pub file_size: Int,
    pub metadata: Option<String>,
    pub created_at: Date,
    pub updated_at: Date,
    pub folder: Option<AssetFolder>,
    pub author: Option<Int>,
}

#[derive(Debug)]
pub struct AssetFolder {
    pub id: Int,
    pub slug: String,
    pub name: Option<String>,
}

#[allow(non_camel_case_types, clippy::upper_case_acronyms)]
#[derive(Debug, Clone, Copy, PartialEq, Eq)]
pub enum AssetKind {
    IMAGE,
    BINARY,
    ALL,
}

/// Reads the answer to the `AssetList` query: the listed items, without the absent ones, or the error
/// that the answer or the transport reports.
pub fn asset_list(response: Result<Response<asset_list::ResponseData>, String>) -> (result: Result<Vec<AssetItem>, AssetError>)
    requires
        response matches Ok(body) ==> (asset_list::spec_payload(body.data) is None ==> first_error_code_readable(
            body.errors,
        )),
    ensures
        match response {
            Err(message) => result matches Err(err) && err@ == ApiErrorView::UnknownMessage(message@),
            Ok(body) => match asset_list::spec_payload(body.data) {
                Some(payload) => result matches Ok(items) && items@ == flatten_seq(payload@),
                None => result matches Err(err) && err@ == spec_classify_response_error::<AssetError>(
                    body.errors,
                ),
            },
        },
{
    let body = match response {
        Ok(body) => body,
        Err(message) => {
            return Err(AssetError::UnknownErrorMessage { message });
        },
    };
    let Response { data, errors } = body;
    if let Some(data) = data {
        if let Some(assets) = data.assets {
            if let Some(list) = assets.list {
                return Ok(flatten(list));
            }
        }
    }
    Err(classify_response_error(errors))
}

/// Reads the answer to the `AssetFolderList` query: the listed items, without the absent ones, or the error
/// that the answer or the transport reports.
pub fn asset_folder_list(response: Result<Response<asset_folder_list::ResponseData>, String>) -> (result: Result<Vec<AssetFolder>, AssetError>)
    requires
        response matches Ok(body) ==> (asset_folder_list::spec_payload(body.data) is None ==> first_error_code_readable(
            body.errors,
        )),
    ensures
        match response {
            Err(message) => result matches Err(err) && err@ == ApiErrorView::UnknownMessage(message@),
            Ok(body) => match asset_folder_list::spec_payload(body.data) {
                Some(payload) => result matches Ok(items) && items@ == flatten_seq(payload@),
                None => result matches Err(err) && err@ == spec_classify_response_error::<AssetError>(
                    body.errors,
                ),
            },
        },
{
    let body = match response {
        Ok(body) => body,
        Err(message) => {
            return Err(AssetError::UnknownErrorMessage { message });
        },
    };
    let Response { data, errors } = body;
    if let Some(data) = data {
        if let Some(assets) = data.assets {
            if let Some(folders) = assets.folders {
                return Ok(flatten(folders));
            }
        }
    }
    Err(classify_response_error(errors))
}

/// Reads the answer to the `AssetFolderCreate` mutation: success where the server reports it, or the error
/// that the answer or the transport reports.
pub fn asset_folder_create(response: Result<Response<asset_folder_create::ResponseData>, String>) -> (result: Result<(), AssetError>)
    requires
        response matches Ok(body) ==> (asset_folder_create::spec_payload(body.data) is None ==> first_error_code_readable(
            body.errors,
        )),
    ensures
        match response {
            Err(message) => result matches Err(err) && err@ == ApiErrorView::UnknownMessage(message@),
            Ok(body) => match asset_folder_create::spec_payload(body.data) {
                Some(payload) => if payload.succeeded {
                    result is Ok
                } else {
                    result matches Err(err) && err@ == spec_classify_response_status_error::<AssetError>(payload)
                },
                None => result matches Err(err) && err@ == spec_classify_response_error::<AssetError>(
                    body.errors,
                ),
            },
        },
{
    let body = match response {
        Ok(body) => body,
        Err(message) => {
            return Err(AssetError::UnknownErrorMessage { message });
        },
    };
    let Response { data, errors } = body;
    if let Some(data) = data {
        if let Some(assets) = data.assets {
            if let Some(create_folder) = assets.create_folder {
                if let Some(response_result) = create_folder.response_result {
                    if response_result.succeeded {
                        return Ok(());
                    } else {
                        return Err(classify_response_status_error(response_result));
                    }
                }
            }
        }
    }
    Err(classify_response_error(errors))
}

/// Reads the answer to the `AssetRename` mutation: success where the server reports it, or the error
/// that the answer or the transport reports.
pub fn asset_rename(response: Result<Response<asset_rename::ResponseData>, String>) -> (result: Result<(), AssetError>)
    requires
        response matches Ok(body) ==> (asset_rename::spec_payload(body.data) is None ==> first_error_code_readable(
            body.errors,
        )),
    ensures
        match response {
            Err(message) => result matches Err(err) && err@ == ApiErrorView::UnknownMessage(message@),
            Ok(body) => match asset_rename::spec_payload(body.data) {
                Some(payload) => if payload.succeeded {
                    result is Ok
                } else {
                    result matches Err(err) && err@ == spec_classify_response_status_error::<AssetError>(payload)
                },
                None => result matches Err(err) && err@ == spec_classify_response_error::<AssetError>(
                    body.errors,
                ),
            },
        },
{
    let body = match response {
        Ok(body) => body,
        Err(message) => {
            return Err(AssetError::UnknownErrorMessage { message });
        },
    };
    let Response { data, errors } = body;
    if let Some(data) = data {
        if let Some(assets) = data.assets {
            if let Some(rename_asset) = assets.rename_asset {
                if let Some(response_result) = rename_asset.response_result {
                    if response_result.succeeded {
                        return Ok(());
                    } else {
                        return Err(classify_response_status_error(response_result));
                    }
                }
            }
        }
    }
    Err(classify_response_error(errors))
}

/// Reads the answer to the `AssetDelete` mutation: success where the server reports it, or the error
/// that the answer or the transport reports.
pub fn asset_delete(response: Result<Response<asset_delete::ResponseData>, String>) -> (result: Result<(), AssetError>)
    requires
        response matches Ok(body) ==> (asset_delete::spec_payload(body.data) is None ==> first_error_code_readable(
            body.errors,
        )),
    ensures
        match response {
            Err(message) => result matches Err(err) && err@ == ApiErrorView::UnknownMessage(message@),
            Ok(body) => match asset_delete::spec_payload(body.data) {
                Some(payload) => if payload.succeeded {
                    result is Ok
                } else {
                    result matches Err(err) && err@ == spec_classify_response_status_error::<AssetError>(payload)
                },
                None => result matches Err(err) && err@ == spec_classify_response_error::<AssetError>(
                    body.errors,
                ),
            },
        },
{
    let body = match response {
        Ok(body) => body,
        Err(message) => {
            return Err(AssetError::UnknownErrorMessage { message });
        },
    };
    let Response { data, errors } = body;
    if let Some(data) = data {
        if let Some(assets) = data.assets {
            if let Some(delete_asset) = assets.delete_asset {
                if let Some(response_result) = delete_asset.response_result {
                    if response_result.succeeded {
                        return Ok(());
                    } else {
                        return Err(classify_response_status_error(response_result));
                    }
                }
            }
        }
    }
    Err(classify_response_error(errors))
}

/// Reads the answer to the `AssetTempUploadFlush` mutation: success where the server reports it, or the error
/// that the answer or the transport reports.
pub fn asset_temp_upload_flush(response: Result<Response<asset_temp_upload_flush::ResponseData>, String>) -> (result: Result<(), AssetError>)
    requires
        response matches Ok(body) ==> (asset_temp_upload_flush::spec_payload(body.data) is None ==> first_error_code_readable(
            body.errors,
        )),
    ensures
        match response {
            Err(message) => result matches Err(err) && err@ == ApiErrorView::UnknownMessage(message@),
            Ok(body) => match asset_temp_upload_flush::spec_payload(body.data) {
                Some(payload) => if payload.succeeded {
                    result is Ok
                } else {
                    result matches Err(err) && err@ == spec_classify_response_status_error::<AssetError>(payload)
                },
                None => result matches Err(err) && err@ == spec_classify_response_error::<AssetError>(
                    body.errors,
                ),
            },
        },
{
    let body = match response {
        Ok(body) => body,
        Err(message) => {
            return Err(AssetError::UnknownErrorMessage { message });
        },
    };
    let Response { data, errors } = body;
    if let Some(data) = data {
        if let Some(assets) = data.assets {
            if let Some(flush_temp_uploads) = assets.flush_temp_uploads {
                if let Some(response_result) = flush_temp_uploads.response_result {
                    if response_result.succeeded {
                        return Ok(());
                    } else {
                        return Err(classify_response_status_error(response_result));
                    }
                }
            }
        }
    }
    Err(classify_response_error(errors))
}

impl AssetKind {
    /// The name of the kind as the API spells it.
    pub open spec fn spec_to_string(&self) -> Seq<char> {
        match self {
            AssetKind::IMAGE => "IMAGE"@,
            AssetKind::BINARY => "BINARY"@,
            AssetKind::ALL => "ALL"@,
        }
    }

    /// The name of the kind as the API spells it.
    pub fn to_string(&self) -> (name: String)
        ensures
            name@ == self.spec_to_string(),
    {
        match self {
            AssetKind::IMAGE => String::from_str("IMAGE"),
            AssetKind::BINARY => String::from_str("BINARY"),
            AssetKind::ALL => String::from_str("ALL"),
        }
    }
}

/// The status and body of a plain HTTP answer.
#[derive(Debug)]
pub struct HttpResponse {
    pub status: u16,
    pub body: Vec<u8>,
}

/// Reads the answer to the download of an asset: its bytes where the server
/// answers with a success status, else the error that the transport reports
/// or the unknown error.
pub fn asset_download(response: Result<HttpResponse, String>) -> (result: Result<Vec<u8>, AssetError>)
    ensures
        match response {
            Err(message) => result matches Err(err) && err@ == ApiErrorView::UnknownMessage(message@),
            Ok(answer) => if is_success_status(answer.status) {
                result matches Ok(bytes) && bytes@ == answer.body@
            } else {
                result matches Err(err) && err@ == ApiErrorView::Unknown
            },
        },
{
    match response {
        Err(message) => Err(AssetError::UnknownErrorMessage { message }),
        Ok(answer) => {
            if http_status_is_success(answer.status) {
                Ok(answer.body)
            } else {
                Err(AssetError::UnknownError)
            }
        },
    }
}

/// The form field that tells the upload endpoint the folder of the asset:
/// `{"folderId":<folder>}`.
pub open spec fn spec_upload_folder_field(folder: i64) -> Seq<char> {
    "{\"folderId\":"@ + decimal(folder as int) + "}"@
}

/// Writes the form field that tells the upload endpoint the folder of the
/// asset.
pub fn upload_folder_field(folder: i64) -> (field: String)
    ensures
        field@ == spec_upload_folder_field(folder),
{
    let mut field = String::from_str("{\"folderId\":");
    field.append(int_to_string(folder).as_str());
    field.append("}");
    field
}

/// Reads the answer to the upload of an asset, given by its HTTP status:
/// success where the status is a success, else the error that the transport
/// reports or the unknown error.
pub fn asset_upload(response: Result<u16, String>) -> (result: Result<(), AssetError>)
    ensures
        match response {
            Err(message) => result matches Err(err) && err@ == ApiErrorView::UnknownMessage(message@),
            Ok(status) => if is_success_status(status) {
                result is Ok
            } else {
                result matches Err(err) && err@ == ApiErrorView::Unknown
            },
        },
{
    match response {
        Err(message) => Err(AssetError::UnknownErrorMessage { message }),
        Ok(status) => {
            if http_status_is_success(status) {
                Ok(())
            } else {
                Err(AssetError::UnknownError)
            }
        },
    }
}

} // verus!
