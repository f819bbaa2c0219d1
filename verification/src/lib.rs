//! Wiki.js API bindings: the data model of the GraphQL API, the error codes
//! of its endpoints, the interpretation of the server's answers, and the
//! logic of the file system that mounts a wiki.

pub mod analytics;
pub mod asset;
pub mod authentication;
pub mod cli;
pub mod comment;
pub mod common;
pub mod contribute;
pub mod fuse;
pub mod group;
pub mod localization;
pub mod logging;
pub mod mail;
pub mod navigation;
pub mod page;
pub mod rendering;
pub mod search;
pub mod site;
pub mod storage;
pub mod system;
pub mod theming;
pub mod user;

use vstd::prelude::*;

verus! {

/// Credentials to authenticate against the Wiki.js API.
#[derive(Debug)]
pub enum Credentials {
    /// API key
    Key(String),
    /// Username, password and authentication strategy ("local" for example)
    UsernamePassword(String, String, String),
}

/// The address of the GraphQL endpoint of the instance at a base URL.
pub fn graphql_url(url: &str) -> (endpoint: String)
    ensures
        endpoint@ == url@ + "/graphql"@,
{
    let mut endpoint = url.to_owned();
    endpoint.append("/graphql");
    endpoint
}

/// The address of an asset of the instance at a base URL.
pub fn asset_url(url: &str, path: &str) -> (address: String)
    ensures
        address@ == url@ + "/"@ + path@,
{
    let mut address = url.to_owned();
    address.append("/");
    address.append(path);
    address
}

/// The address of the upload endpoint of the instance at a base URL.
pub fn upload_url(url: &str) -> (endpoint: String)
    ensures
        endpoint@ == url@ + "/u"@,
{
    let mut endpoint = url.to_owned();
    endpoint.append("/u");
    endpoint
}

/// The value of the `Authorization` header that authenticates with a key.
pub fn bearer_authorization(key: &str) -> (value: String)
    ensures
        value@ == "Bearer "@ + key@,
{
    let mut value = String::from_str("Bearer ");
    value.append(key);
    value
}

/// The key that a login hands out: its token.
pub fn key_from_login(login: authentication::AuthenticationLoginResponse) -> (key: String)
    requires
        login.jwt is Some,
    ensures
        key == login.jwt->0,
{
    login.jwt.unwrap()
}

/// Adds two numbers.
pub fn add(left: usize, right: usize) -> (sum: usize)
    requires
        left + right <= usize::MAX,
    ensures
        sum == left + right,
{
    left + right
}

} // verus!
