//! The logic of the command-line client: the credentials it picks, the
//! arguments it hands the API, and the tables it prints.

use vstd::prelude::*;

use crate::common::{decimal, int_to_string};
use crate::fuse::{basename, spec_basename};
use crate::Credentials;
use crate::analytics::AnalyticsProvider;
use crate::asset::{AssetFolder, AssetItem};
use crate::authentication::AuthenticationStrategy;
use crate::comment::Comment;
use crate::contribute::Contributor;
use crate::group::GroupMinimal;
use crate::localization::Locale;
use crate::logging::Logger;
use crate::page::{Page, PageListItem};
use crate::system::SystemFlag;
use crate::theming::Theme;
use crate::user::{User, UserLastLogin, UserMinimal, UserProfile};

verus! {

/// What a row of a printed table says: the text of each cell.
pub open spec fn row_view(row: Vec<String>) -> Seq<Seq<char>> {
    row@.map_values(|cell: String| cell@)
}

/// What a printed table says: the text of each cell of each row.
pub open spec fn table_view(table: Vec<Vec<String>>) -> Seq<Seq<Seq<char>>> {
    table@.map_values(|row: Vec<String>| row_view(row))
}

/// How a truth value is printed.
pub open spec fn spec_bool_text(value: bool) -> Seq<char> {
    if value {
        "true"@
    } else {
        "false"@
    }
}

/// Prints a truth value.
pub fn bool_text(value: bool) -> (text: String)
    ensures
        text@ == spec_bool_text(value),
{
    if value {
        String::from_str("true")
    } else {
        String::from_str("false")
    }
}

/// How an optional text is printed: empty where it is absent.
pub open spec fn spec_text_or_empty(text: Option<String>) -> Seq<char> {
    match text {
        Some(text) => text@,
        None => Seq::empty(),
    }
}

/// Prints an optional text.
pub fn text_or_empty(text: &Option<String>) -> (printed: String)
    ensures
        printed@ == spec_text_or_empty(*text),
{
    match text {
        Some(text) => text.clone(),
        None => String::new(),
    }
}

/// An optional number, with 0 where it is absent.
pub open spec fn spec_int_or_zero(value: Option<i64>) -> i64 {
    match value {
        Some(value) => value,
        None => 0,
    }
}

/// An optional number, with 0 where it is absent.
pub fn int_or_zero(value: Option<i64>) -> (number: i64)
    ensures
        number == spec_int_or_zero(value),
{
    match value {
        Some(value) => value,
        None => 0,
    }
}

/// How an optional truth value is printed: empty where it is absent.
pub open spec fn spec_optional_bool_text(value: Option<bool>) -> Seq<char> {
    match value {
        Some(value) => spec_bool_text(value),
        None => Seq::empty(),
    }
}

/// Prints an optional truth value.
pub fn optional_bool_text(value: Option<bool>) -> (text: String)
    ensures
        text@ == spec_optional_bool_text(value),
{
    match value {
        Some(value) => bool_text(value),
        None => String::new(),
    }
}

/// A row of a key and value table.
fn pair(key: &str, value: String) -> (row: Vec<String>)
    ensures
        row_view(row) == seq![key@, value@],
{
    let row = vec![key.to_owned(), value];
    proof {
        assert(row_view(row) =~= seq![key@, value@]);
    }
    row
}

/// Items that the client lists, one row each.
pub trait TableRow: Sized {
    /// What the cells of the item's row say.
    spec fn spec_cells(self) -> Seq<Seq<char>>;

    /// The cells of the item's row.
    fn cells(&self) -> (cells: Vec<String>)
        ensures
            row_view(cells) == self.spec_cells(),
    ;
}

/// A table of a header and a row per item, in the items' order.
pub fn list_table<T: TableRow>(header: Vec<String>, items: &Vec<T>) -> (table: Vec<Vec<String>>)
    ensures
        table_view(table) == seq![row_view(header)] + items@.map_values(|item: T| item.spec_cells()),
{
    let ghost header_view = row_view(header);
    let mut table: Vec<Vec<String>> = Vec::new();
    table.push(header);
    proof {
        assert(table_view(table) =~= seq![header_view] + items@.take(0).map_values(|item: T| item.spec_cells()));
    }
    let mut k: usize = 0;
    while k < items.len()
        invariant
            k <= items.len(),
            table_view(table) == seq![header_view] + items@.take(k as int).map_values(|item: T| item.spec_cells()),
        decreases items.len() - k,
    {
        let cells = items[k].cells();
        let ghost before = table_view(table);
        table.push(cells);
        proof {
            assert(items@.take(k as int + 1) =~= items@.take(k as int).push(items@[k as int]));
            assert(table_view(table) =~= before.push(items@[k as int].spec_cells()));
            assert(items@.take(k as int + 1).map_values(|item: T| item.spec_cells()) =~= items@.take(k as int).map_values(|item: T| item.spec_cells()).push(items@[k as int].spec_cells()));
        }
        k = k + 1;
    }
    proof {
        assert(items@.take(k as int) =~= items@);
    }
    table
}

/// The credentials that the client authenticates with: the key where one is
/// given, else the username, password and provider.
pub fn credentials_from_args(
    key: Option<String>,
    username: Option<String>,
    password: Option<String>,
    provider: Option<String>,
) -> (credentials: Credentials)
    requires
        key is None ==> username is Some && password is Some && provider is Some,
    ensures
        match key {
            Some(key) => credentials == Credentials::Key(key),
            None => credentials == Credentials::UsernamePassword(
                username->0,
                password->0,
                provider->0,
            ),
        },
{
    match key {
        Some(key) => Credentials::Key(key),
        None => Credentials::UsernamePassword(username.unwrap(), password.unwrap(), provider.unwrap()),
    }
}

/// The title of a page that the client creates: the given one, else the
/// last segment of its path.
pub fn page_title(title: Option<String>, path: &str) -> (page_title: String)
    ensures
        page_title@ == match title {
            Some(title) => title@,
            None => spec_basename(path@),
        },
{
    match title {
        Some(title) => title,
        None => basename(path),
    }
}

/// Every item of a list, as a present item.
pub fn all_present<T: Copy>(items: &Vec<T>) -> (present: Vec<Option<T>>)
    ensures
        present@ == items@.map_values(|item: T| Some(item)),
{
    let mut present: Vec<Option<T>> = Vec::new();
    let mut k: usize = 0;
    while k < items.len()
        invariant
            k <= items.len(),
            present@ == items@.take(k as int).map_values(|item: T| Some(item)),
        decreases items.len() - k,
    {
        present.push(Some(items[k]));
        proof {
            assert(items@.take(k as int + 1) =~= items@.take(k as int).push(items@[k as int]));
            assert(present@ =~= items@.take(k as int + 1).map_values(|item: T| Some(item)));
        }
        k = k + 1;
    }
    proof {
        assert(items@.take(k as int) =~= items@);
    }
    present
}

/// Every tag of a list, as a present tag.
pub fn present_tags(tags: &Vec<String>) -> (present: Vec<Option<String>>)
    ensures
        present@.len() == tags@.len(),
        forall|k: int| 0 <= k < tags@.len() ==> #[trigger] present@[k] == Some(tags@[k]),
{
    let mut present: Vec<Option<String>> = Vec::new();
    let mut k: usize = 0;
    while k < tags.len()
        invariant
            k <= tags.len(),
            present@.len() == k,
            forall|j: int| 0 <= j < k ==> #[trigger] present@[j] == Some(tags@[j]),
        decreases tags.len() - k,
    {
        present.push(Some(tags[k].clone()));
        k = k + 1;
    }
    present
}

/// The tags that an update of a page sets: none at all where they are to be
/// removed, else the given ones, if any.
pub fn updated_tags(tags: Option<Vec<String>>, no_tags: bool) -> (updated: Option<Vec<Option<String>>>)
    ensures
        no_tags ==> (updated matches Some(list) && list@.len() == 0),
        !no_tags ==> match tags {
            None => updated is None,
            Some(tags) => updated matches Some(list) && list@.len() == tags@.len() && forall|k: int|
                0 <= k < tags@.len() ==> #[trigger] list@[k] == Some(tags@[k]),
        },
{
    if no_tags {
        Some(Vec::new())
    } else {
        match tags {
            Some(tags) => Some(present_tags(&tags)),
            None => None,
        }
    }
}

/// The groups that an update of a user sets: none at all where they are to
/// be removed, else the given ones, if any.
pub fn updated_groups(groups: Option<Vec<i64>>, no_groups: bool) -> (updated: Option<Vec<Option<i64>>>)
    ensures
        no_groups ==> (updated matches Some(list) && list@.len() == 0),
        !no_groups ==> match groups {
            None => updated is None,
            Some(groups) => updated matches Some(list) && list@ == groups@.map_values(|group: i64| Some(group)),
        },
{
    if no_groups {
        Some(Vec::new())
    } else {
        match groups {
            Some(groups) => Some(all_present(&groups)),
            None => None,
        }
    }
}

/// The suffix of the file in which the client edits a page: `.md` for
/// markdown pages, none for the others.
pub fn edit_file_suffix(editor: &String) -> (suffix: Option<String>)
    ensures
        editor@ == "markdown"@ ==> (suffix matches Some(text) && text@ == ".md"@),
        editor@ != "markdown"@ ==> suffix is None,
{
    let markdown = String::from_str("markdown");
    if *editor == markdown {
        Some(String::from_str(".md"))
    } else {
        None
    }
}

impl TableRow for AnalyticsProvider {
    open spec fn spec_cells(self) -> Seq<Seq<char>> {
        seq![spec_bool_text(self.is_enabled), self.key@, self.title@]
    }

    fn cells(&self) -> (cells: Vec<String>) {
        let cells = vec![bool_text(self.is_enabled), self.key.clone(), self.title.clone()];
        proof {
            assert(row_view(cells) =~= self.spec_cells());
        }
        cells
    }
}

impl TableRow for AssetItem {
    open spec fn spec_cells(self) -> Seq<Seq<char>> {
        seq![decimal(self.id as int), self.filename@, self.ext@, self.kind.spec_to_string(), self.mime@, decimal(self.file_size as int), spec_text_or_empty(self.metadata), self.created_at@, self.updated_at@]
    }

    fn cells(&self) -> (cells: Vec<String>) {
        let cells = vec![int_to_string(self.id), self.filename.clone(), self.ext.clone(), self.kind.to_string(), self.mime.clone(), int_to_string(self.file_size), text_or_empty(&self.metadata), self.created_at.clone(), self.updated_at.clone()];
        proof {
            assert(row_view(cells) =~= self.spec_cells());
        }
        cells
    }
}

impl TableRow for AssetFolder {
    open spec fn spec_cells(self) -> Seq<Seq<char>> {
        seq![decimal(self.id as int), self.slug@, spec_text_or_empty(self.name)]
    }

    fn cells(&self) -> (cells: Vec<String>) {
        let cells = vec![int_to_string(self.id), self.slug.clone(), text_or_empty(&self.name)];
        proof {
            assert(row_view(cells) =~= self.spec_cells());
        }
        cells
    }
}

impl TableRow for AuthenticationStrategy {
    open spec fn spec_cells(self) -> Seq<Seq<char>> {
        seq![self.key@, self.title@, spec_optional_bool_text(self.is_available)]
    }

    fn cells(&self) -> (cells: Vec<String>) {
        let cells = vec![self.key.clone(), self.title.clone(), optional_bool_text(self.is_available)];
        proof {
            assert(row_view(cells) =~= self.spec_cells());
        }
        cells
    }
}

impl TableRow for Comment {
    open spec fn spec_cells(self) -> Seq<Seq<char>> {
        seq![decimal(self.id as int), decimal(self.author_id as int), self.author_name@, self.author_email@, self.created_at@, self.updated_at@]
    }

    fn cells(&self) -> (cells: Vec<String>) {
        let cells = vec![int_to_string(self.id), int_to_string(self.author_id), self.author_name.clone(), self.author_email.clone(), self.created_at.clone(), self.updated_at.clone()];
        proof {
            assert(row_view(cells) =~= self.spec_cells());
        }
        cells
    }
}

impl TableRow for Contributor {
    open spec fn spec_cells(self) -> Seq<Seq<char>> {
        seq![self.id@, self.source@, self.name@, self.joined@]
    }

    fn cells(&self) -> (cells: Vec<String>) {
        let cells = vec![self.id.clone(), self.source.clone(), self.name.clone(), self.joined.clone()];
        proof {
            assert(row_view(cells) =~= self.spec_cells());
        }
        cells
    }
}

impl TableRow for GroupMinimal {
    open spec fn spec_cells(self) -> Seq<Seq<char>> {
        seq![decimal(self.id as int), self.name@, spec_bool_text(self.is_system), decimal(spec_int_or_zero(self.user_count) as int), self.created_at@, self.updated_at@]
    }

    fn cells(&self) -> (cells: Vec<String>) {
        let cells = vec![int_to_string(self.id), self.name.clone(), bool_text(self.is_system), int_to_string(int_or_zero(self.user_count)), self.created_at.clone(), self.updated_at.clone()];
        proof {
            assert(row_view(cells) =~= self.spec_cells());
        }
        cells
    }
}

impl TableRow for Locale {
    open spec fn spec_cells(self) -> Seq<Seq<char>> {
        seq![decimal(self.availability as int), self.code@, self.created_at@, spec_text_or_empty(self.install_date), spec_bool_text(self.is_installed), spec_bool_text(self.is_rtl), self.name@, self.native_name@, self.updated_at@]
    }

    fn cells(&self) -> (cells: Vec<String>) {
        let cells = vec![int_to_string(self.availability), self.code.clone(), self.created_at.clone(), text_or_empty(&self.install_date), bool_text(self.is_installed), bool_text(self.is_rtl), self.name.clone(), self.native_name.clone(), self.updated_at.clone()];
        proof {
            assert(row_view(cells) =~= self.spec_cells());
        }
        cells
    }
}

impl TableRow for Logger {
    open spec fn spec_cells(self) -> Seq<Seq<char>> {
        seq![spec_bool_text(self.is_enabled), self.key@, self.title@, spec_text_or_empty(self.level)]
    }

    fn cells(&self) -> (cells: Vec<String>) {
        let cells = vec![bool_text(self.is_enabled), self.key.clone(), self.title.clone(), text_or_empty(&self.level)];
        proof {
            assert(row_view(cells) =~= self.spec_cells());
        }
        cells
    }
}

impl TableRow for PageListItem {
    open spec fn spec_cells(self) -> Seq<Seq<char>> {
        seq![decimal(self.id as int), self.path@, self.locale@, spec_text_or_empty(self.title), self.content_type@, spec_bool_text(self.is_published), spec_bool_text(self.is_private), spec_text_or_empty(self.private_ns), self.created_at@, self.updated_at@]
    }

    fn cells(&self) -> (cells: Vec<String>) {
        let cells = vec![int_to_string(self.id), self.path.clone(), self.locale.clone(), text_or_empty(&self.title), self.content_type.clone(), bool_text(self.is_published), bool_text(self.is_private), text_or_empty(&self.private_ns), self.created_at.clone(), self.updated_at.clone()];
        proof {
            assert(row_view(cells) =~= self.spec_cells());
        }
        cells
    }
}

impl TableRow for SystemFlag {
    open spec fn spec_cells(self) -> Seq<Seq<char>> {
        seq![self.key@, spec_bool_text(self.value)]
    }

    fn cells(&self) -> (cells: Vec<String>) {
        let cells = vec![self.key.clone(), bool_text(self.value)];
        proof {
            assert(row_view(cells) =~= self.spec_cells());
        }
        cells
    }
}

impl TableRow for Theme {
    open spec fn spec_cells(self) -> Seq<Seq<char>> {
        seq![spec_text_or_empty(self.key), spec_text_or_empty(self.title), spec_text_or_empty(self.author)]
    }

    fn cells(&self) -> (cells: Vec<String>) {
        let cells = vec![text_or_empty(&self.key), text_or_empty(&self.title), text_or_empty(&self.author)];
        proof {
            assert(row_view(cells) =~= self.spec_cells());
        }
        cells
    }
}

impl TableRow for UserMinimal {
    open spec fn spec_cells(self) -> Seq<Seq<char>> {
        seq![decimal(self.id as int), self.name@, self.email@, self.provider_key@, spec_bool_text(self.is_system), spec_bool_text(self.is_active), self.created_at@, spec_text_or_empty(self.last_login_at)]
    }

    fn cells(&self) -> (cells: Vec<String>) {
        let cells = vec![int_to_string(self.id), self.name.clone(), self.email.clone(), self.provider_key.clone(), bool_text(self.is_system), bool_text(self.is_active), self.created_at.clone(), text_or_empty(&self.last_login_at)];
        proof {
            assert(row_view(cells) =~= self.spec_cells());
        }
        cells
    }
}

impl TableRow for UserLastLogin {
    open spec fn spec_cells(self) -> Seq<Seq<char>> {
        seq![decimal(self.id as int), self.name@, self.last_login_at@]
    }

    fn cells(&self) -> (cells: Vec<String>) {
        let cells = vec![int_to_string(self.id), self.name.clone(), self.last_login_at.clone()];
        proof {
            assert(row_view(cells) =~= self.spec_cells());
        }
        cells
    }
}

/// The table that the client prints for `analytics provider list`: a header, then a row per
/// item.
pub fn analytics_provider_list_table(items: &Vec<AnalyticsProvider>) -> (table: Vec<Vec<String>>)
    ensures
        table_view(table) == seq![seq!["is_enabled"@, "key"@, "title"@]] + items@.map_values(|item: AnalyticsProvider| item.spec_cells()),
{
    let header = vec![String::from_str("is_enabled"), String::from_str("key"), String::from_str("title")];
    proof {
        assert(row_view(header) =~= seq!["is_enabled"@, "key"@, "title"@]);
    }
    list_table(header, items)
}

/// The table that the client prints for `asset list`: a header, then a row per
/// item.
pub fn asset_list_table(items: &Vec<AssetItem>) -> (table: Vec<Vec<String>>)
    ensures
        table_view(table) == seq![seq!["id"@, "filename"@, "ext"@, "kind"@, "mime"@, "file_size"@, "metadata"@, "created_at"@, "updated_at"@]] + items@.map_values(|item: AssetItem| item.spec_cells()),
{
    let header = vec![String::from_str("id"), String::from_str("filename"), String::from_str("ext"), String::from_str("kind"), String::from_str("mime"), String::from_str("file_size"), String::from_str("metadata"), String::from_str("created_at"), String::from_str("updated_at")];
    proof {
        assert(row_view(header) =~= seq!["id"@, "filename"@, "ext"@, "kind"@, "mime"@, "file_size"@, "metadata"@, "created_at"@, "updated_at"@]);
    }
    list_table(header, items)
}

/// The table that the client prints for `asset folder list`: a header, then a row per
/// item.
pub fn asset_folder_list_table(items: &Vec<AssetFolder>) -> (table: Vec<Vec<String>>)
    ensures
        table_view(table) == seq![seq!["id"@, "slug"@, "name"@]] + items@.map_values(|item: AssetFolder| item.spec_cells()),
{
    let header = vec![String::from_str("id"), String::from_str("slug"), String::from_str("name")];
    proof {
        assert(row_view(header) =~= seq!["id"@, "slug"@, "name"@]);
    }
    list_table(header, items)
}

/// The table that the client prints for `authentication strategy list`: a header, then a row per
/// item.
pub fn authentication_strategy_list_table(items: &Vec<AuthenticationStrategy>) -> (table: Vec<Vec<String>>)
    ensures
        table_view(table) == seq![seq!["key"@, "title"@, "is_available"@]] + items@.map_values(|item: AuthenticationStrategy| item.spec_cells()),
{
    let header = vec![String::from_str("key"), String::from_str("title"), String::from_str("is_available")];
    proof {
        assert(row_view(header) =~= seq!["key"@, "title"@, "is_available"@]);
    }
    list_table(header, items)
}

/// The table that the client prints for `comment list`: a header, then a row per
/// item.
pub fn comment_list_table(items: &Vec<Comment>) -> (table: Vec<Vec<String>>)
    ensures
        table_view(table) == seq![seq!["id"@, "author_id"@, "author_name"@, "author_email"@, "created_at"@, "updated_at"@]] + items@.map_values(|item: Comment| item.spec_cells()),
{
    let header = vec![String::from_str("id"), String::from_str("author_id"), String::from_str("author_name"), String::from_str("author_email"), String::from_str("created_at"), String::from_str("updated_at")];
    proof {
        assert(row_view(header) =~= seq!["id"@, "author_id"@, "author_name"@, "author_email"@, "created_at"@, "updated_at"@]);
    }
    list_table(header, items)
}

/// The table that the client prints for `contributor list`: a header, then a row per
/// item.
pub fn contributor_list_table(items: &Vec<Contributor>) -> (table: Vec<Vec<String>>)
    ensures
        table_view(table) == seq![seq!["id"@, "source"@, "name"@, "joined"@]] + items@.map_values(|item: Contributor| item.spec_cells()),
{
    let header = vec![String::from_str("id"), String::from_str("source"), String::from_str("name"), String::from_str("joined")];
    proof {
        assert(row_view(header) =~= seq!["id"@, "source"@, "name"@, "joined"@]);
    }
    list_table(header, items)
}

/// The table that the client prints for `group list`: a header, then a row per
/// item.
pub fn group_list_table(items: &Vec<GroupMinimal>) -> (table: Vec<Vec<String>>)
    ensures
        table_view(table) == seq![seq!["id"@, "name"@, "is_system"@, "user_count"@, "created_at"@, "updated_at"@]] + items@.map_values(|item: GroupMinimal| item.spec_cells()),
{
    let header = vec![String::from_str("id"), String::from_str("name"), String::from_str("is_system"), String::from_str("user_count"), String::from_str("created_at"), String::from_str("updated_at")];
    proof {
        assert(row_view(header) =~= seq!["id"@, "name"@, "is_system"@, "user_count"@, "created_at"@, "updated_at"@]);
    }
    list_table(header, items)
}

/// The table that the client prints for `locale list`: a header, then a row per
/// item.
pub fn locale_list_table(items: &Vec<Locale>) -> (table: Vec<Vec<String>>)
    ensures
        table_view(table) == seq![seq!["availability"@, "code"@, "created_at"@, "install_date"@, "is_installed"@, "is_rtl"@, "name"@, "native_name"@, "updated_at"@]] + items@.map_values(|item: Locale| item.spec_cells()),
{
    let header = vec![String::from_str("availability"), String::from_str("code"), String::from_str("created_at"), String::from_str("install_date"), String::from_str("is_installed"), String::from_str("is_rtl"), String::from_str("name"), String::from_str("native_name"), String::from_str("updated_at")];
    proof {
        assert(row_view(header) =~= seq!["availability"@, "code"@, "created_at"@, "install_date"@, "is_installed"@, "is_rtl"@, "name"@, "native_name"@, "updated_at"@]);
    }
    list_table(header, items)
}

/// The table that the client prints for `logger list`: a header, then a row per
/// item.
pub fn logger_list_table(items: &Vec<Logger>) -> (table: Vec<Vec<String>>)
    ensures
        table_view(table) == seq![seq!["is_enabled"@, "key"@, "title"@, "level"@]] + items@.map_values(|item: Logger| item.spec_cells()),
{
    let header = vec![String::from_str("is_enabled"), String::from_str("key"), String::from_str("title"), String::from_str("level")];
    proof {
        assert(row_view(header) =~= seq!["is_enabled"@, "key"@, "title"@, "level"@]);
    }
    list_table(header, items)
}

/// The table that the client prints for `page get`: a key and a value per row.
pub fn page_get_table(item: &Page) -> (table: Vec<Vec<String>>)
    ensures
        table_view(table) == seq![
            seq!["key"@, "value"@],
            seq!["id"@, decimal(item.id as int)],
            seq!["path"@, item.path@],
            seq!["hash"@, item.hash@],
            seq!["title"@, item.title@],
            seq!["is_private"@, spec_bool_text(item.is_private)],
            seq!["is_published"@, spec_bool_text(item.is_published)],
            seq!["private_ns"@, spec_text_or_empty(item.private_ns)],
            seq!["publish_start_date"@, item.publish_start_date@],
            seq!["publish_end_date"@, item.publish_end_date@],
            seq!["content_type"@, item.content_type@],
            seq!["created_at"@, item.created_at@],
            seq!["updated_at"@, item.updated_at@],
            seq!["editor"@, item.editor@],
            seq!["locale"@, item.locale@],
            seq!["author_id"@, decimal(item.author_id as int)],
            seq!["author_name"@, item.author_name@],
            seq!["author_email"@, item.author_email@],
            seq!["creator_id"@, decimal(item.creator_id as int)],
            seq!["creator_name"@, item.creator_name@],
            seq!["creator_email"@, item.creator_email@],
        ],
{
    let table = vec![
        pair("key", String::from_str("value")),
        pair("id", int_to_string(item.id)),
        pair("path", item.path.clone()),
        pair("hash", item.hash.clone()),
        pair("title", item.title.clone()),
        pair("is_private", bool_text(item.is_private)),
        pair("is_published", bool_text(item.is_published)),
        pair("private_ns", text_or_empty(&item.private_ns)),
        pair("publish_start_date", item.publish_start_date.clone()),
        pair("publish_end_date", item.publish_end_date.clone()),
        pair("content_type", item.content_type.clone()),
        pair("created_at", item.created_at.clone()),
        pair("updated_at", item.updated_at.clone()),
        pair("editor", item.editor.clone()),
        pair("locale", item.locale.clone()),
        pair("author_id", int_to_string(item.author_id)),
        pair("author_name", item.author_name.clone()),
        pair("author_email", item.author_email.clone()),
        pair("creator_id", int_to_string(item.creator_id)),
        pair("creator_name", item.creator_name.clone()),
        pair("creator_email", item.creator_email.clone()),
    ];
    proof {
        assert(table_view(table) =~= seq![
            seq!["key"@, "value"@],
            seq!["id"@, decimal(item.id as int)],
            seq!["path"@, item.path@],
            seq!["hash"@, item.hash@],
            seq!["title"@, item.title@],
            seq!["is_private"@, spec_bool_text(item.is_private)],
            seq!["is_published"@, spec_bool_text(item.is_published)],
            seq!["private_ns"@, spec_text_or_empty(item.private_ns)],
            seq!["publish_start_date"@, item.publish_start_date@],
            seq!["publish_end_date"@, item.publish_end_date@],
            seq!["content_type"@, item.content_type@],
            seq!["created_at"@, item.created_at@],
            seq!["updated_at"@, item.updated_at@],
            seq!["editor"@, item.editor@],
            seq!["locale"@, item.locale@],
            seq!["author_id"@, decimal(item.author_id as int)],
            seq!["author_name"@, item.author_name@],
            seq!["author_email"@, item.author_email@],
            seq!["creator_id"@, decimal(item.creator_id as int)],
            seq!["creator_name"@, item.creator_name@],
            seq!["creator_email"@, item.creator_email@],
        ]);
    }
    table
}

/// The table that the client prints for `page list`: a header, then a row per
/// item.
pub fn page_list_table(items: &Vec<PageListItem>) -> (table: Vec<Vec<String>>)
    ensures
        table_view(table) == seq![seq!["id"@, "locate"@, "path"@, "title"@, "content_type"@, "is_published"@, "is_private"@, "private_ns"@, "created_at"@, "updated_at"@]] + items@.map_values(|item: PageListItem| item.spec_cells()),
{
    let header = vec![String::from_str("id"), String::from_str("locate"), String::from_str("path"), String::from_str("title"), String::from_str("content_type"), String::from_str("is_published"), String::from_str("is_private"), String::from_str("private_ns"), String::from_str("created_at"), String::from_str("updated_at")];
    proof {
        assert(row_view(header) =~= seq!["id"@, "locate"@, "path"@, "title"@, "content_type"@, "is_published"@, "is_private"@, "private_ns"@, "created_at"@, "updated_at"@]);
    }
    list_table(header, items)
}

/// The table that the client prints for `system flag list`: a header, then a row per
/// item.
pub fn system_flag_list_table(items: &Vec<SystemFlag>) -> (table: Vec<Vec<String>>)
    ensures
        table_view(table) == seq![seq!["key"@, "value"@]] + items@.map_values(|item: SystemFlag| item.spec_cells()),
{
    let header = vec![String::from_str("key"), String::from_str("value")];
    proof {
        assert(row_view(header) =~= seq!["key"@, "value"@]);
    }
    list_table(header, items)
}

/// The table that the client prints for `theme list`: a header, then a row per
/// item.
pub fn theme_list_table(items: &Vec<Theme>) -> (table: Vec<Vec<String>>)
    ensures
        table_view(table) == seq![seq!["key"@, "title"@, "author"@]] + items@.map_values(|item: Theme| item.spec_cells()),
{
    let header = vec![String::from_str("key"), String::from_str("title"), String::from_str("author")];
    proof {
        assert(row_view(header) =~= seq!["key"@, "title"@, "author"@]);
    }
    list_table(header, items)
}

/// The table that the client prints for `user get`: a key and a value per row.
pub fn user_get_table(item: &User) -> (table: Vec<Vec<String>>)
    ensures
        table_view(table) == seq![
            seq!["key"@, "value"@],
            seq!["id"@, decimal(item.id as int)],
            seq!["name"@, item.name@],
            seq!["email"@, item.email@],
            seq!["provider_key"@, item.provider_key@],
            seq!["provider_name"@, spec_text_or_empty(item.provider_name)],
            seq!["provider_id"@, spec_text_or_empty(item.provider_id)],
            seq!["is_system"@, spec_bool_text(item.is_system)],
            seq!["is_active"@, spec_bool_text(item.is_active)],
            seq!["is_verified"@, spec_bool_text(item.is_verified)],
            seq!["location"@, item.location@],
            seq!["job_title"@, item.job_title@],
            seq!["timezone"@, item.timezone@],
            seq!["date_format"@, item.date_format@],
            seq!["appearance"@, item.appearance@],
            seq!["created_at"@, item.created_at@],
            seq!["updated_at"@, item.updated_at@],
            seq!["last_login_at"@, spec_text_or_empty(item.last_login_at)],
        ],
{
    let table = vec![
        pair("key", String::from_str("value")),
        pair("id", int_to_string(item.id)),
        pair("name", item.name.clone()),
        pair("email", item.email.clone()),
        pair("provider_key", item.provider_key.clone()),
        pair("provider_name", text_or_empty(&item.provider_name)),
        pair("provider_id", text_or_empty(&item.provider_id)),
        pair("is_system", bool_text(item.is_system)),
        pair("is_active", bool_text(item.is_active)),
        pair("is_verified", bool_text(item.is_verified)),
        pair("location", item.location.clone()),
        pair("job_title", item.job_title.clone()),
        pair("timezone", item.timezone.clone()),
        pair("date_format", item.date_format.clone()),
        pair("appearance", item.appearance.clone()),
        pair("created_at", item.created_at.clone()),
        pair("updated_at", item.updated_at.clone()),
        pair("last_login_at", text_or_empty(&item.last_login_at)),
    ];
    proof {
        assert(table_view(table) =~= seq![
            seq!["key"@, "value"@],
            seq!["id"@, decimal(item.id as int)],
            seq!["name"@, item.name@],
            seq!["email"@, item.email@],
            seq!["provider_key"@, item.provider_key@],
            seq!["provider_name"@, spec_text_or_empty(item.provider_name)],
            seq!["provider_id"@, spec_text_or_empty(item.provider_id)],
            seq!["is_system"@, spec_bool_text(item.is_system)],
            seq!["is_active"@, spec_bool_text(item.is_active)],
            seq!["is_verified"@, spec_bool_text(item.is_verified)],
            seq!["location"@, item.location@],
            seq!["job_title"@, item.job_title@],
            seq!["timezone"@, item.timezone@],
            seq!["date_format"@, item.date_format@],
            seq!["appearance"@, item.appearance@],
            seq!["created_at"@, item.created_at@],
            seq!["updated_at"@, item.updated_at@],
            seq!["last_login_at"@, spec_text_or_empty(item.last_login_at)],
        ]);
    }
    table
}

/// The table that the client prints for `user list`: a header, then a row per
/// item.
pub fn user_list_table(items: &Vec<UserMinimal>) -> (table: Vec<Vec<String>>)
    ensures
        table_view(table) == seq![seq!["id"@, "name"@, "email"@, "provider_key"@, "is_system"@, "is_active"@, "created_at"@, "last_login_at"@]] + items@.map_values(|item: UserMinimal| item.spec_cells()),
{
    let header = vec![String::from_str("id"), String::from_str("name"), String::from_str("email"), String::from_str("provider_key"), String::from_str("is_system"), String::from_str("is_active"), String::from_str("created_at"), String::from_str("last_login_at")];
    proof {
        assert(row_view(header) =~= seq!["id"@, "name"@, "email"@, "provider_key"@, "is_system"@, "is_active"@, "created_at"@, "last_login_at"@]);
    }
    list_table(header, items)
}

/// The table that the client prints for `user search`: a header, then a row per
/// item.
pub fn user_search_table(items: &Vec<UserMinimal>) -> (table: Vec<Vec<String>>)
    ensures
        table_view(table) == seq![seq!["id"@, "name"@, "email"@, "provider_key"@, "is_system"@, "is_active"@, "created_at"@, "last_login_at"@]] + items@.map_values(|item: UserMinimal| item.spec_cells()),
{
    let header = vec![String::from_str("id"), String::from_str("name"), String::from_str("email"), String::from_str("provider_key"), String::from_str("is_system"), String::from_str("is_active"), String::from_str("created_at"), String::from_str("last_login_at")];
    proof {
        assert(row_view(header) =~= seq!["id"@, "name"@, "email"@, "provider_key"@, "is_system"@, "is_active"@, "created_at"@, "last_login_at"@]);
    }
    list_table(header, items)
}

/// The table that the client prints for `user profile get`: a key and a value per row.
pub fn user_profile_table(item: &UserProfile) -> (table: Vec<Vec<String>>)
    ensures
        table_view(table) == seq![
            seq!["key"@, "value"@],
            seq!["id"@, decimal(item.id as int)],
            seq!["name"@, item.name@],
            seq!["email"@, item.email@],
            seq!["provider_key"@, spec_text_or_empty(item.provider_key)],
            seq!["provider_name"@, spec_text_or_empty(item.provider_name)],
            seq!["is_system"@, spec_bool_text(item.is_system)],
            seq!["is_verified"@, spec_bool_text(item.is_verified)],
            seq!["location"@, item.location@],
            seq!["job_title"@, item.job_title@],
            seq!["timezone"@, item.timezone@],
            seq!["date_format"@, item.date_format@],
            seq!["appearance"@, item.appearance@],
            seq!["created_at"@, item.created_at@],
            seq!["updated_at"@, item.updated_at@],
            seq!["last_login_at"@, spec_text_or_empty(item.last_login_at)],
            seq!["pages_total"@, decimal(item.pages_total as int)],
        ],
{
    let table = vec![
        pair("key", String::from_str("value")),
        pair("id", int_to_string(item.id)),
        pair("name", item.name.clone()),
        pair("email", item.email.clone()),
        pair("provider_key", text_or_empty(&item.provider_key)),
        pair("provider_name", text_or_empty(&item.provider_name)),
        pair("is_system", bool_text(item.is_system)),
        pair("is_verified", bool_text(item.is_verified)),
        pair("location", item.location.clone()),
        pair("job_title", item.job_title.clone()),
        pair("timezone", item.timezone.clone()),
        pair("date_format", item.date_format.clone()),
        pair("appearance", item.appearance.clone()),
        pair("created_at", item.created_at.clone()),
        pair("updated_at", item.updated_at.clone()),
        pair("last_login_at", text_or_empty(&item.last_login_at)),
        pair("pages_total", int_to_string(item.pages_total)),
    ];
    proof {
        assert(table_view(table) =~= seq![
            seq!["key"@, "value"@],
            seq!["id"@, decimal(item.id as int)],
            seq!["name"@, item.name@],
            seq!["email"@, item.email@],
            seq!["provider_key"@, spec_text_or_empty(item.provider_key)],
            seq!["provider_name"@, spec_text_or_empty(item.provider_name)],
            seq!["is_system"@, spec_bool_text(item.is_system)],
            seq!["is_verified"@, spec_bool_text(item.is_verified)],
            seq!["location"@, item.location@],
            seq!["job_title"@, item.job_title@],
            seq!["timezone"@, item.timezone@],
            seq!["date_format"@, item.date_format@],
            seq!["appearance"@, item.appearance@],
            seq!["created_at"@, item.created_at@],
            seq!["updated_at"@, item.updated_at@],
            seq!["last_login_at"@, spec_text_or_empty(item.last_login_at)],
            seq!["pages_total"@, decimal(item.pages_total as int)],
        ]);
    }
    table
}

/// The table that the client prints for `user last login list`: a header, then a row per
/// item.
pub fn user_last_logins_table(items: &Vec<UserLastLogin>) -> (table: Vec<Vec<String>>)
    ensures
        table_view(table) == seq![seq!["id"@, "name"@, "last_login_at"@]] + items@.map_values(|item: UserLastLogin| item.spec_cells()),
{
    let header = vec![String::from_str("id"), String::from_str("name"), String::from_str("last_login_at")];
    proof {
        assert(row_view(header) =~= seq!["id"@, "name"@, "last_login_at"@]);
    }
    list_table(header, items)
}

/// Truth values print as `true` and `false`, an absent text as nothing and a
/// present one as itself.
pub proof fn lemma_cell_texts(text: Option<String>)
    ensures
        spec_bool_text(true) == seq!['t', 'r', 'u', 'e'],
        spec_bool_text(false) == seq!['f', 'a', 'l', 's', 'e'],
        spec_text_or_empty(text) == (match text {
            Some(text) => text@,
            None => Seq::<char>::empty(),
        }),
{
    reveal_strlit("true");
    reveal_strlit("false");
    assert(spec_bool_text(true) =~= seq!['t', 'r', 'u', 'e']);
    assert(spec_bool_text(false) =~= seq!['f', 'a', 'l', 's', 'e']);
}

/// The row that the table of `AnalyticsProvider` items shows for an item has one cell per
/// column, and the cell under each header (`is_enabled`, `key`, `title`) shows the field that the
/// header names.
pub proof fn lemma_analytics_provider_columns(item: AnalyticsProvider)
    ensures
        item.spec_cells().len() == 3,
        item.spec_cells()[0] == spec_bool_text(item.is_enabled),
        item.spec_cells()[1] == item.key@,
        item.spec_cells()[2] == item.title@,
{
}

/// The row that the table of `AssetItem` items shows for an item has one cell per
/// column, and the cell under each header (`id`, `filename`, `ext`, `kind`, `mime`, `file_size`, `metadata`, `created_at`, `updated_at`) shows the field that the
/// header names.
pub proof fn lemma_asset_item_columns(item: AssetItem)
    ensures
        item.spec_cells().len() == 9,
        item.spec_cells()[0] == decimal(item.id as int),
        item.spec_cells()[1] == item.filename@,
        item.spec_cells()[2] == item.ext@,
        item.spec_cells()[3] == item.kind.spec_to_string(),
        item.spec_cells()[4] == item.mime@,
        item.spec_cells()[5] == decimal(item.file_size as int),
        item.spec_cells()[6] == spec_text_or_empty(item.metadata),
        item.spec_cells()[7] == item.created_at@,
        item.spec_cells()[8] == item.updated_at@,
{
}

/// The row that the table of `AssetFolder` items shows for an item has one cell per
/// column, and the cell under each header (`id`, `slug`, `name`) shows the field that the
/// header names.
pub proof fn lemma_asset_folder_columns(item: AssetFolder)
    ensures
        item.spec_cells().len() == 3,
        item.spec_cells()[0] == decimal(item.id as int),
        item.spec_cells()[1] == item.slug@,
        item.spec_cells()[2] == spec_text_or_empty(item.name),
{
}

/// The row that the table of `AuthenticationStrategy` items shows for an item has one cell per
/// column, and the cell under each header (`key`, `title`, `is_available`) shows the field that the
/// header names.
pub proof fn lemma_authentication_strategy_columns(item: AuthenticationStrategy)
    ensures
        item.spec_cells().len() == 3,
        item.spec_cells()[0] == item.key@,
        item.spec_cells()[1] == item.title@,
        item.spec_cells()[2] == spec_optional_bool_text(item.is_available),
{
}

/// The row that the table of `Comment` items shows for an item has one cell per
/// column, and the cell under each header (`id`, `author_id`, `author_name`, `author_email`, `created_at`, `updated_at`) shows the field that the
/// header names.
pub proof fn lemma_comment_columns(item: Comment)
    ensures
        item.spec_cells().len() == 6,
        item.spec_cells()[0] == decimal(item.id as int),
        item.spec_cells()[1] == decimal(item.author_id as int),
        item.spec_cells()[2] == item.author_name@,
        item.spec_cells()[3] == item.author_email@,
        item.spec_cells()[4] == item.created_at@,
        item.spec_cells()[5] == item.updated_at@,
{
}

/// The row that the table of `Contributor` items shows for an item has one cell per
/// column, and the cell under each header (`id`, `source`, `name`, `joined`) shows the field that the
/// header names.
pub proof fn lemma_contributor_columns(item: Contributor)
    ensures
        item.spec_cells().len() == 4,
        item.spec_cells()[0] == item.id@,
        item.spec_cells()[1] == item.source@,
        item.spec_cells()[2] == item.name@,
        item.spec_cells()[3] == item.joined@,
{
}

/// The row that the table of `GroupMinimal` items shows for an item has one cell per
/// column, and the cell under each header (`id`, `name`, `is_system`, `user_count`, `created_at`, `updated_at`) shows the field that the
/// header names.
pub proof fn lemma_group_minimal_columns(item: GroupMinimal)
    ensures
        item.spec_cells().len() == 6,
        item.spec_cells()[0] == decimal(item.id as int),
        item.spec_cells()[1] == item.name@,
        item.spec_cells()[2] == spec_bool_text(item.is_system),
        item.spec_cells()[3] == decimal(spec_int_or_zero(item.user_count) as int),
        item.spec_cells()[4] == item.created_at@,
        item.spec_cells()[5] == item.updated_at@,
{
}

/// The row that the table of `Locale` items shows for an item has one cell per
/// column, and the cell under each header (`availability`, `code`, `created_at`, `install_date`, `is_installed`, `is_rtl`, `name`, `native_name`, `updated_at`) shows the field that the
/// header names.
pub proof fn lemma_locale_columns(item: Locale)
    ensures
        item.spec_cells().len() == 9,
        item.spec_cells()[0] == decimal(item.availability as int),
        item.spec_cells()[1] == item.code@,
        item.spec_cells()[2] == item.created_at@,
        item.spec_cells()[3] == spec_text_or_empty(item.install_date),
        item.spec_cells()[4] == spec_bool_text(item.is_installed),
        item.spec_cells()[5] == spec_bool_text(item.is_rtl),
        item.spec_cells()[6] == item.name@,
        item.spec_cells()[7] == item.native_name@,
        item.spec_cells()[8] == item.updated_at@,
{
}

/// The row that the table of `Logger` items shows for an item has one cell per
/// column, and the cell under each header (`is_enabled`, `key`, `title`, `level`) shows the field that the
/// header names.
pub proof fn lemma_logger_columns(item: Logger)
    ensures
        item.spec_cells().len() == 4,
        item.spec_cells()[0] == spec_bool_text(item.is_enabled),
        item.spec_cells()[1] == item.key@,
        item.spec_cells()[2] == item.title@,
        item.spec_cells()[3] == spec_text_or_empty(item.level),
{
}

/// The row that the table of `PageListItem` items shows for an item has one cell per
/// column, and the cell under each header (`id`, `locate`, `path`, `title`, `content_type`, `is_published`, `is_private`, `private_ns`, `created_at`, `updated_at`) shows the field that the
/// header names.
pub proof fn lemma_page_list_item_columns(item: PageListItem)
    ensures
        item.spec_cells().len() == 10,
        item.spec_cells()[0] == decimal(item.id as int),
        item.spec_cells()[1] == item.path@,
        item.spec_cells()[2] == item.locale@,
        item.spec_cells()[3] == spec_text_or_empty(item.title),
        item.spec_cells()[4] == item.content_type@,
        item.spec_cells()[5] == spec_bool_text(item.is_published),
        item.spec_cells()[6] == spec_bool_text(item.is_private),
        item.spec_cells()[7] == spec_text_or_empty(item.private_ns),
        item.spec_cells()[8] == item.created_at@,
        item.spec_cells()[9] == item.updated_at@,
{
}

/// The row that the table of `SystemFlag` items shows for an item has one cell per
/// column, and the cell under each header (`key`, `value`) shows the field that the
/// header names.
pub proof fn lemma_system_flag_columns(item: SystemFlag)
    ensures
        item.spec_cells().len() == 2,
        item.spec_cells()[0] == item.key@,
        item.spec_cells()[1] == spec_bool_text(item.value),
{
}

/// The row that the table of `Theme` items shows for an item has one cell per
/// column, and the cell under each header (`key`, `title`, `author`) shows the field that the
/// header names.
pub proof fn lemma_theme_columns(item: Theme)
    ensures
        item.spec_cells().len() == 3,
        item.spec_cells()[0] == spec_text_or_empty(item.key),
        item.spec_cells()[1] == spec_text_or_empty(item.title),
        item.spec_cells()[2] == spec_text_or_empty(item.author),
{
}

/// The row that the table of `UserMinimal` items shows for an item has one cell per
/// column, and the cell under each header (`id`, `name`, `email`, `provider_key`, `is_system`, `is_active`, `created_at`, `last_login_at`) shows the field that the
/// header names.
pub proof fn lemma_user_minimal_columns(item: UserMinimal)
    ensures
        item.spec_cells().len() == 8,
        item.spec_cells()[0] == decimal(item.id as int),
        item.spec_cells()[1] == item.name@,
        item.spec_cells()[2] == item.email@,
        item.spec_cells()[3] == item.provider_key@,
        item.spec_cells()[4] == spec_bool_text(item.is_system),
        item.spec_cells()[5] == spec_bool_text(item.is_active),
        item.spec_cells()[6] == item.created_at@,
        item.spec_cells()[7] == spec_text_or_empty(item.last_login_at),
{
}

/// The row that the table of `UserLastLogin` items shows for an item has one cell per
/// column, and the cell under each header (`id`, `name`, `last_login_at`) shows the field that the
/// header names.
pub proof fn lemma_user_last_login_columns(item: UserLastLogin)
    ensures
        item.spec_cells().len() == 3,
        item.spec_cells()[0] == decimal(item.id as int),
        item.spec_cells()[1] == item.name@,
        item.spec_cells()[2] == item.last_login_at@,
{
}

} // verus!
