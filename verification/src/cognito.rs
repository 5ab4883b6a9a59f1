//! Records of a user directory.
//!
//! The directory knows two shapes of a user. [`UserType`] keeps most fields
//! in a list of named attributes, which is searched by name. [`CognitoUser`]
//! has one field for each of them.

use vstd::prelude::*;
use vstd::hash_map::StringHashMap;
use crate::cell::{Cell, CellView, Column, ColumnView, clone_json};
use crate::cursor::{ContinuationToken, Page, PageView, TokenView};
use crate::mapper::{IntoRow, IntoRowError, IntoRowErrorView, NamedFields};
use crate::text::str_eq;
use crate::timestamp::{rfc3339_seconds, timestamp_cell, timestamp_slot_spec};

verus! {

/// The name and value of one attribute of a user.
#[derive(Debug, PartialEq, Eq)]
pub struct AttributeType {
    pub name: String,
    pub value: Option<String>,
}

/// The mathematical value of an [`AttributeType`].
pub struct AttributeView {
    pub name: Seq<char>,
    pub value: Option<Seq<char>>,
}

/// The value of a text that may be absent.
pub open spec fn text_view(text: Option<String>) -> Option<Seq<char>> {
    match text {
        Some(text) => Some(text@),
        None => None,
    }
}

impl View for AttributeType {
    type V = AttributeView;

    open spec fn view(&self) -> AttributeView {
        AttributeView { name: self.name@, value: text_view(self.value) }
    }
}

/// A user as the directory lists it: the name, and a list of attributes.
#[derive(Debug, PartialEq, Eq)]
pub struct UserType {
    pub username: Option<String>,
    pub attributes: Option<Vec<AttributeType>>,
}

/// The mathematical value of a [`UserType`]. A user without an attribute
/// list has the empty list.
pub struct UserView {
    pub username: Option<Seq<char>>,
    pub attributes: Seq<AttributeView>,
}

impl View for UserType {
    type V = UserView;

    open spec fn view(&self) -> UserView {
        UserView {
            username: text_view(self.username),
            attributes: match self.attributes {
                Some(attributes) => Seq::new(attributes@.len(), |i: int| attributes@[i]@),
                None => Seq::empty(),
            },
        }
    }
}

/// The value of the first attribute of the name `name` among
/// `attributes[from..]`, where there is one and it has a value.
pub open spec fn attribute_value_from(
    attributes: Seq<AttributeView>,
    name: Seq<char>,
    from: int,
) -> Option<Seq<char>>
    decreases attributes.len() - from,
{
    if from < 0 || from >= attributes.len() {
        None
    } else if attributes[from].name == name {
        attributes[from].value
    } else {
        attribute_value_from(attributes, name, from + 1)
    }
}

/// The value of the first attribute of the name `name`, where there is one
/// and it has a value.
pub open spec fn attribute_value(attributes: Seq<AttributeView>, name: Seq<char>) -> Option<
    Seq<char>,
> {
    attribute_value_from(attributes, name, 0)
}

/// The user's value of a name is the value of the first attribute of that
/// name.
pub proof fn attribute_value_is_of_first(attributes: Seq<AttributeView>, name: Seq<char>, i: int)
    requires
        0 <= i < attributes.len(),
        attributes[i].name == name,
        forall|j: int| 0 <= j < i ==> (#[trigger] attributes[j]).name != name,
    ensures
        attribute_value(attributes, name) == attributes[i].value,
{
    lemma_attribute_value_skips(attributes, name, 0, i);
}

/// A user without an attribute of a name has no value of that name.
pub proof fn attribute_value_of_absent(attributes: Seq<AttributeView>, name: Seq<char>)
    requires
        forall|j: int| 0 <= j < attributes.len() ==> (#[trigger] attributes[j]).name != name,
    ensures
        attribute_value(attributes, name) is None,
{
    lemma_attribute_value_skips(attributes, name, 0, attributes.len() as int);
}

/// Attributes of other names do not count.
proof fn lemma_attribute_value_skips(
    attributes: Seq<AttributeView>,
    name: Seq<char>,
    from: int,
    to: int,
)
    requires
        0 <= from <= to <= attributes.len(),
        forall|j: int| from <= j < to ==> (#[trigger] attributes[j]).name != name,
    ensures
        attribute_value_from(attributes, name, from) == attribute_value_from(attributes, name, to),
    decreases to - from,
{
    if from < to {
        lemma_attribute_value_skips(attributes, name, from + 1, to);
    }
}

/// The slot of a text column for a field that may be absent.
pub open spec fn text_slot(text: Option<Seq<char>>) -> Option<CellView> {
    match text {
        Some(text) => Some(CellView::String(text)),
        None => None,
    }
}

/// The slot of the timestamp column `column` for a field that may be
/// absent.
pub open spec fn timestamp_field_slot(column: Seq<char>, text: Option<Seq<char>>) -> Result<
    Option<CellView>,
    IntoRowErrorView,
> {
    match text {
        Some(text) => timestamp_slot_spec(column, rfc3339_seconds(text)),
        None => Ok(None),
    }
}

/// Access to the attribute list of a user.
pub trait UserTypeExt {
    /// The value of the attribute `attr_name`, where the user has one.
    fn extract_attribute_value(&self, attr_name: &str) -> Option<String>;
}

impl UserTypeExt for UserType {
    /// The value of the first attribute of the name `attr_name`. `None`
    /// where the user has no such attribute, or where the first one has no
    /// value.
    fn extract_attribute_value(&self, attr_name: &str) -> (value: Option<String>)
        ensures
            text_view(value) == attribute_value(self@.attributes, attr_name@),
    {
        match &self.attributes {
            None => None,
            Some(attributes) => {
                let mut i: usize = 0;
                while i < attributes.len()
                    invariant
                        i <= attributes.len(),
                        self.attributes == Some(*attributes),
                        attribute_value(self@.attributes, attr_name@) == attribute_value_from(
                            self@.attributes,
                            attr_name@,
                            i as int,
                        ),
                    decreases attributes.len() - i,
                {
                    let attribute = &attributes[i];
                    if str_eq(attribute.name.as_str(), attr_name) {
                        return match &attribute.value {
                            Some(value) => Some(value.clone()),
                            None => None,
                        };
                    }
                    i += 1;
                }
                None
            },
        }
    }
}

impl UserView {
    /// The slot that the user gives for the column `name`.
    ///
    /// `username` is the user's name. `created_at`, `email` and `status` are
    /// the attributes of those names; `created_at` is read as an RFC 3339
    /// date and time. The user has no other column.
    pub open spec fn cell(self, name: Seq<char>) -> Result<Option<CellView>, IntoRowErrorView> {
        if name == "username"@ {
            Ok(text_slot(self.username))
        } else if name == "created_at"@ {
            timestamp_field_slot(name, attribute_value(self.attributes, "created_at"@))
        } else if name == "email"@ {
            Ok(text_slot(attribute_value(self.attributes, "email"@)))
        } else if name == "status"@ {
            Ok(text_slot(attribute_value(self.attributes, "status"@)))
        } else {
            Err(IntoRowErrorView::UnsupportedColumnType(name))
        }
    }
}

impl UserView {
    /// Whether the user has a column of the name `name`.
    pub open spec fn has_column(name: Seq<char>) -> bool {
        name == "username"@ || name == "created_at"@ || name == "email"@ || name == "status"@
    }

    /// The text of the field that the column `name` reads, where the user
    /// has the field.
    pub open spec fn field(self, name: Seq<char>) -> Option<Seq<char>> {
        if name == "username"@ {
            self.username
        } else {
            attribute_value(self.attributes, name)
        }
    }
}

/// The names of a user's columns are four different names.
proof fn lemma_column_names_differ()
    ensures
        "username"@ != "created_at"@,
        "username"@ != "email"@,
        "username"@ != "status"@,
        "created_at"@ != "email"@,
        "created_at"@ != "status"@,
        "email"@ != "status"@,
{
    reveal_strlit("username");
    reveal_strlit("created_at");
    reveal_strlit("email");
    reveal_strlit("status");
    assert("username"@.len() == 8);
    assert("created_at"@.len() == 10);
    assert("email"@.len() == 5);
    assert("status"@.len() == 6);
}

/// A user that lacks the field of one of its columns gives an empty slot
/// for that column, and no error.
pub proof fn absent_field_gives_empty_slot(user: UserView, name: Seq<char>)
    requires
        UserView::has_column(name),
        user.field(name) is None,
    ensures
        user.cell(name) == Ok::<Option<CellView>, IntoRowErrorView>(None),
{
    lemma_column_names_differ();
}

/// A user whose field of a text column is there gives that text.
pub proof fn present_text_is_kept(user: UserView, name: Seq<char>, text: Seq<char>)
    requires
        name == "username"@ || name == "email"@ || name == "status"@,
        user.field(name) == Some(text),
    ensures
        user.cell(name) == Ok::<Option<CellView>, IntoRowErrorView>(Some(CellView::String(text))),
{
    lemma_column_names_differ();
}

/// A user whose `created_at` is there but is no RFC 3339 date and time has
/// no slot for that column: the value is an error, never an empty slot.
pub proof fn unreadable_timestamp_is_an_error(user: UserView, text: Seq<char>)
    requires
        user.field("created_at"@) == Some(text),
        rfc3339_seconds(text) is None,
    ensures
        user.cell("created_at"@) == Err::<Option<CellView>, IntoRowErrorView>(
            IntoRowErrorView::InvalidFieldValue {
                column: "created_at"@,
                expected: crate::cell::SemanticType::Timestamp,
            },
        ),
{
    lemma_column_names_differ();
}

/// The slot of a text column for a field that may be absent.
fn text_cell(text: Option<String>) -> (slot: Option<Cell>)
    ensures
        crate::cell::slot_view(slot) == text_slot(text_view(text)),
{
    match text {
        Some(text) => Some(Cell::String(text)),
        None => None,
    }
}

impl NamedFields for UserType {
    open spec fn cell_spec(&self, column: ColumnView) -> Result<
        Option<CellView>,
        IntoRowErrorView,
    > {
        self@.cell(column.name)
    }

    proof fn cell_error_names_column(&self, column: ColumnView) {
    }

    fn cell(&self, column: &Column) -> (outcome: Result<Option<Cell>, IntoRowError>) {
        let name = column.name.as_str();
        if str_eq(name, "username") {
            let username = match &self.username {
                Some(username) => Some(username.clone()),
                None => None,
            };
            Ok(text_cell(username))
        } else if str_eq(name, "created_at") {
            match self.extract_attribute_value("created_at") {
                Some(created_at) => timestamp_cell(name, created_at.as_str()),
                None => Ok(None),
            }
        } else if str_eq(name, "email") {
            Ok(text_cell(self.extract_attribute_value("email")))
        } else if str_eq(name, "status") {
            Ok(text_cell(self.extract_attribute_value("status")))
        } else {
            Err(IntoRowError::UnsupportedColumnType(column.name.clone()))
        }
    }
}

impl IntoRow for UserType {
}

/// A user with one field for each attribute.
#[derive(Debug, PartialEq)]
pub struct CognitoUser {
    pub created_at: String,
    pub email: String,
    pub email_verified: bool,
    pub identities: Option<serde_json::Value>,
    pub username: String,
    pub status: Option<String>,
}

/// The mathematical value of a [`CognitoUser`].
pub struct CognitoUserView {
    pub created_at: Seq<char>,
    pub email: Seq<char>,
    pub email_verified: bool,
    pub identities: Option<serde_json::Value>,
    pub username: Seq<char>,
    pub status: Option<Seq<char>>,
}

impl View for CognitoUser {
    type V = CognitoUserView;

    open spec fn view(&self) -> CognitoUserView {
        CognitoUserView {
            created_at: self.created_at@,
            email: self.email@,
            email_verified: self.email_verified,
            identities: self.identities,
            username: self.username@,
            status: text_view(self.status),
        }
    }
}

/// The slot of a document column for a field that may be absent.
pub open spec fn json_slot(document: Option<serde_json::Value>) -> Option<CellView> {
    match document {
        Some(document) => Some(CellView::Json(document)),
        None => None,
    }
}

impl CognitoUserView {
    /// The slot that the user gives for the column `name`: the field of
    /// that name. `created_at` is read as an RFC 3339 date and time. The
    /// user has no other column than its six fields.
    pub open spec fn cell(self, name: Seq<char>) -> Result<Option<CellView>, IntoRowErrorView> {
        if name == "created_at"@ {
            timestamp_slot_spec(name, rfc3339_seconds(self.created_at))
        } else if name == "email"@ {
            Ok(Some(CellView::String(self.email)))
        } else if name == "email_verified"@ {
            Ok(Some(CellView::Bool(self.email_verified)))
        } else if name == "identities"@ {
            Ok(json_slot(self.identities))
        } else if name == "username"@ {
            Ok(Some(CellView::String(self.username)))
        } else if name == "status"@ {
            Ok(text_slot(self.status))
        } else {
            Err(IntoRowErrorView::UnsupportedColumnType(name))
        }
    }
}

/// A user without identities or without status gives an empty slot for
/// that column, and no error.
pub proof fn absent_user_field_gives_empty_slot(user: CognitoUserView)
    ensures
        user.identities is None ==> user.cell("identities"@) == Ok::<
            Option<CellView>,
            IntoRowErrorView,
        >(None),
        user.status is None ==> user.cell("status"@) == Ok::<Option<CellView>, IntoRowErrorView>(
            None,
        ),
{
    reveal_strlit("created_at");
    reveal_strlit("email");
    reveal_strlit("email_verified");
    reveal_strlit("identities");
    reveal_strlit("username");
    reveal_strlit("status");
    assert("created_at"@.len() == 10);
    assert("email"@.len() == 5);
    assert("email_verified"@.len() == 14);
    assert("identities"@.len() == 10);
    assert("identities"@[0] == 'i');
    assert("created_at"@[0] == 'c');
    assert("username"@.len() == 8);
    assert("status"@.len() == 6);
}

/// A user whose `created_at` is no RFC 3339 date and time has no slot for
/// that column: the value is an error, never an empty slot.
pub proof fn unreadable_date_is_an_error(user: CognitoUserView)
    requires
        rfc3339_seconds(user.created_at) is None,
    ensures
        user.cell("created_at"@) == Err::<Option<CellView>, IntoRowErrorView>(
            IntoRowErrorView::InvalidFieldValue {
                column: "created_at"@,
                expected: crate::cell::SemanticType::Timestamp,
            },
        ),
{
}

impl NamedFields for CognitoUser {
    open spec fn cell_spec(&self, column: ColumnView) -> Result<
        Option<CellView>,
        IntoRowErrorView,
    > {
        self@.cell(column.name)
    }

    proof fn cell_error_names_column(&self, column: ColumnView) {
    }

    fn cell(&self, column: &Column) -> (outcome: Result<Option<Cell>, IntoRowError>) {
        let name = column.name.as_str();
        if str_eq(name, "created_at") {
            timestamp_cell(name, self.created_at.as_str())
        } else if str_eq(name, "email") {
            Ok(Some(Cell::String(self.email.clone())))
        } else if str_eq(name, "email_verified") {
            Ok(Some(Cell::Bool(self.email_verified)))
        } else if str_eq(name, "identities") {
            Ok(
                match &self.identities {
                    Some(document) => Some(Cell::Json(clone_json(document))),
                    None => None,
                },
            )
        } else if str_eq(name, "username") {
            Ok(Some(Cell::String(self.username.clone())))
        } else if str_eq(name, "status") {
            let status = match &self.status {
                Some(status) => Some(status.clone()),
                None => None,
            };
            Ok(text_cell(status))
        } else {
            Err(IntoRowError::UnsupportedColumnType(column.name.clone()))
        }
    }
}

impl IntoRow for CognitoUser {
}

/// One answer of the directory: a batch of users, and the offset of the
/// next batch where there is one.
#[derive(Debug, PartialEq)]
pub struct ResultPayload {
    pub(crate) users: Vec<CognitoUser>,
    pub(crate) next_page_offset: Option<u64>,
}

/// The continuation token that stands for the offset of the next batch.
pub open spec fn offset_token(offset: Option<u64>) -> Option<TokenView> {
    match offset {
        Some(offset) => Some(TokenView::Offset(offset)),
        None => None,
    }
}

impl ResultPayload {
    /// The batch that the payload holds: the users in their order, and the
    /// offset as the continuation token.
    pub closed spec fn page(&self) -> PageView<CognitoUser> {
        PageView { records: self.users@, next: offset_token(self.next_page_offset) }
    }

    /// The answer that holds `users` and, where records remain, the offset
    /// of the next batch.
    pub fn new(users: Vec<CognitoUser>, next_page_offset: Option<u64>) -> (payload: ResultPayload)
        ensures
            payload.page() == (PageView { records: users@, next: offset_token(next_page_offset) }),
    {
        ResultPayload { users, next_page_offset }
    }

    /// Hands the batch to a cursor.
    pub fn into_page(self) -> (page: Page<CognitoUser>)
        ensures
            page@ == self.page(),
    {
        let next = match self.next_page_offset {
            Some(offset) => Some(ContinuationToken::Offset(offset)),
            None => None,
        };
        Page { records: self.users, next }
    }
}

/// The attributes of a user as documents, by name.
pub struct CognitoFields(StringHashMap<serde_json::Value>);

impl View for CognitoFields {
    type V = Map<Seq<char>, serde_json::Value>;

    closed spec fn view(&self) -> Map<Seq<char>, serde_json::Value> {
        self.0@
    }
}

impl CognitoFields {
    /// No attributes.
    pub fn new() -> (fields: CognitoFields)
        ensures
            fields@ == Map::<Seq<char>, serde_json::Value>::empty(),
    {
        CognitoFields(StringHashMap::new())
    }

    /// Sets the attribute `name` to `document`, in place of an earlier one.
    pub fn insert(&mut self, name: &str, document: serde_json::Value)
        ensures
            final(self)@ == old(self)@.insert(name@, document),
    {
        self.0.insert(String::from_str(name), document);
    }

    /// The attribute `name`, where the user has it.
    pub fn get(&self, name: &str) -> (document: Option<&serde_json::Value>)
        ensures
            (match document {
                Some(document) => self@.contains_key(name@) && *document == self@[name@],
                None => !self@.contains_key(name@),
            }),
    {
        self.0.get(name)
    }
}

} // verus!
