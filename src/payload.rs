//! The bodies of requests, laid out as named fields, and the records that
//! responses carry.
use vstd::prelude::*;
use std::collections::HashMap;
use vstd::string::StringExecFns;
use crate::foreign::{uuid_string, uuid_text};

verus! {

/// The value of one field of a request body: a string or an integer.
#[derive(Debug, PartialEq, Eq)]
pub enum FieldValue {
    Text(String),
    Integer(i64),
}

/// What a field value stands for.
pub enum FieldView {
    Text(Seq<char>),
    Integer(i64),
}

impl View for FieldValue {
    type V = FieldView;

    open spec fn view(&self) -> FieldView {
        match self {
            FieldValue::Text(s) => FieldView::Text(s@),
            FieldValue::Integer(n) => FieldView::Integer(*n),
        }
    }
}

/// What a list of named fields stands for.
pub open spec fn fields_view(f: Seq<(String, FieldValue)>) -> Seq<(Seq<char>, FieldView)> {
    f.map_values(|p: (String, FieldValue)| (p.0@, p.1@))
}

/// A field named `name` that holds the text `value`.
pub open spec fn text_field(name: Seq<char>, value: Seq<char>) -> (Seq<char>, FieldView) {
    (name, FieldView::Text(value))
}

/// The strings of `s` with a comma between each two.
pub open spec fn comma_joined(s: Seq<Seq<char>>) -> Seq<char>
    decreases s.len(),
{
    if s.len() == 0 {
        Seq::empty()
    } else if s.len() == 1 {
        s[0]
    } else {
        comma_joined(s.drop_last()) + seq![','] + s.last()
    }
}

/// The texts of a list of UUIDs.
pub open spec fn uuid_texts(ids: Seq<u128>) -> Seq<Seq<char>> {
    ids.map_values(|b: u128| uuid_text(b))
}

/// The text that the service takes for a flag.
pub open spec fn bool_text_of(b: bool) -> Seq<char> {
    if b {
        "true"@
    } else {
        "false"@
    }
}

/// Joins the strings with a comma between each two.
pub fn comma_separated_string_from_vec(v: &Vec<String>) -> (r: String)
    ensures
        r@ == comma_joined(v@.map_values(|s: String| s@)),
{
    let ghost views = v@.map_values(|s: String| s@);
    let mut r = String::new();
    let mut i: usize = 0;
    while i < v.len()
        invariant
            i <= v@.len(),
            views == v@.map_values(|s: String| s@),
            r@ == comma_joined(views.take(i as int)),
        decreases v@.len() - i,
    {
        let ghost before = r@;
        if i > 0 {
            r.append(",");
            proof {
                reveal_strlit(",");
            }
        }
        r.append(v[i].as_str());
        proof {
            let next = views.take(i + 1);
            assert(next.drop_last() =~= views.take(i as int));
            assert(next.last() == v@[i as int]@);
            if i == 0 {
                assert(next.len() == 1);
                assert(r@ =~= next[0]);
            } else {
                assert(r@ =~= before + seq![','] + next.last());
            }
        }
        i = i + 1;
    }
    proof {
        assert(views.take(v@.len() as int) =~= views);
    }
    r
}

/// The texts of the UUIDs, joined with a comma between each two.
pub fn comma_separated_ids(ids: &Vec<u128>) -> (r: String)
    ensures
        r@ == comma_joined(uuid_texts(ids@)),
{
    let mut texts: Vec<String> = Vec::new();
    let mut i: usize = 0;
    while i < ids.len()
        invariant
            i <= ids@.len(),
            texts@.map_values(|s: String| s@) =~= uuid_texts(ids@.take(i as int)),
        decreases ids@.len() - i,
    {
        let t = uuid_string(ids[i]);
        let ghost before = texts@;
        texts.push(t);
        proof {
            assert(ids@.take(i + 1) =~= ids@.take(i as int).push(ids@[i as int]));
            assert(texts@ =~= before.push(t));
            assert(texts@.map_values(|s: String| s@) =~= before.map_values(|s: String| s@).push(t@));
            assert(uuid_texts(ids@.take(i + 1)) =~= uuid_texts(ids@.take(i as int)).push(uuid_text(ids@[i as int])));
        }
        i = i + 1;
    }
    proof {
        assert(ids@.take(ids@.len() as int) =~= ids@);
    }
    comma_separated_string_from_vec(&texts)
}

/// The text of a flag: "true" or "false".
pub fn bool_text(b: bool) -> (r: String)
    ensures
        r@ == bool_text_of(b),
{
    if b {
        String::from_str("true")
    } else {
        String::from_str("false")
    }
}

/// A request to create the folder `folder_name` under `parent_folder_id`.
#[derive(Debug)]
pub struct CreateFolderApiPayload {
    pub token: String,
    pub parent_folder_id: u128,
    pub folder_name: String,
}

impl CreateFolderApiPayload {
    /// The fields of the request body, in order.
    pub fn fields(&self) -> (r: Vec<(String, FieldValue)>)
        ensures
            fields_view(r@) == seq![
                text_field("token"@, self.token@),
                text_field("parentFolderId"@, uuid_text(self.parent_folder_id)),
                text_field("folderName"@, self.folder_name@),
            ],
    {
        let mut r: Vec<(String, FieldValue)> = Vec::new();
        r.push((String::from_str("token"), FieldValue::Text(self.token.clone())));
        r.push((String::from_str("parentFolderId"), FieldValue::Text(uuid_string(self.parent_folder_id))));
        r.push((String::from_str("folderName"), FieldValue::Text(self.folder_name.clone())));
        proof {
            assert(fields_view(r@) =~= seq![
                text_field("token"@, self.token@),
                text_field("parentFolderId"@, uuid_text(self.parent_folder_id)),
                text_field("folderName"@, self.folder_name@),
            ]);
        }
        r
    }
}

/// An option of a content that can be set, with its new value.
#[derive(Debug)]
pub enum ContentOpt {
    Public(bool),
    Password(String),
    Description(String),
    /// The expiry, in seconds since the Unix epoch.
    Expire(i64),
    Tags(Vec<String>),
    DirectLink(bool),
}

impl ContentOpt {
    /// The name under which the service knows the option.
    pub open spec fn option_name(&self) -> Seq<char> {
        match self {
            ContentOpt::Public(_) => "public"@,
            ContentOpt::Password(_) => "password"@,
            ContentOpt::Description(_) => "description"@,
            ContentOpt::Expire(_) => "expire"@,
            ContentOpt::Tags(_) => "tags"@,
            ContentOpt::DirectLink(_) => "directLink"@,
        }
    }

    /// The value as the service takes it: flags and tags as text, the expiry
    /// as a number of seconds.
    pub open spec fn value_view(&self) -> FieldView {
        match self {
            ContentOpt::Public(b) => FieldView::Text(bool_text_of(*b)),
            ContentOpt::Password(s) => FieldView::Text(s@),
            ContentOpt::Description(s) => FieldView::Text(s@),
            ContentOpt::Expire(t) => FieldView::Integer(*t),
            ContentOpt::Tags(v) => FieldView::Text(comma_joined(v@.map_values(|s: String| s@))),
            ContentOpt::DirectLink(b) => FieldView::Text(bool_text_of(*b)),
        }
    }

    /// The name of the option.
    pub fn name(&self) -> (r: String)
        ensures
            r@ == self.option_name(),
    {
        match self {
            ContentOpt::Public(_) => String::from_str("public"),
            ContentOpt::Password(_) => String::from_str("password"),
            ContentOpt::Description(_) => String::from_str("description"),
            ContentOpt::Expire(_) => String::from_str("expire"),
            ContentOpt::Tags(_) => String::from_str("tags"),
            ContentOpt::DirectLink(_) => String::from_str("directLink"),
        }
    }

    /// The value of the option.
    pub fn value(&self) -> (r: FieldValue)
        ensures
            r@ == self.value_view(),
    {
        match self {
            ContentOpt::Public(b) => FieldValue::Text(bool_text(*b)),
            ContentOpt::Password(s) => FieldValue::Text(s.clone()),
            ContentOpt::Description(s) => FieldValue::Text(s.clone()),
            ContentOpt::Expire(t) => FieldValue::Integer(*t),
            ContentOpt::Tags(v) => FieldValue::Text(comma_separated_string_from_vec(v)),
            ContentOpt::DirectLink(b) => FieldValue::Text(bool_text(*b)),
        }
    }
}

/// A request to set one option of a content.
#[derive(Debug)]
pub struct UpdateContentApiPayload {
    pub token: String,
    pub opt: ContentOpt,
}

impl UpdateContentApiPayload {
    /// The fields of the request body, in order: the token, then the
    /// option's name and value.
    pub fn fields(&self) -> (r: Vec<(String, FieldValue)>)
        ensures
            fields_view(r@) == seq![
                text_field("token"@, self.token@),
                text_field("option"@, self.opt.option_name()),
                ("value"@, self.opt.value_view()),
            ],
    {
        let mut r: Vec<(String, FieldValue)> = Vec::new();
        r.push((String::from_str("token"), FieldValue::Text(self.token.clone())));
        r.push((String::from_str("option"), FieldValue::Text(self.opt.name())));
        r.push((String::from_str("value"), self.opt.value()));
        proof {
            assert(fields_view(r@) =~= seq![
                text_field("token"@, self.token@),
                text_field("option"@, self.opt.option_name()),
                ("value"@, self.opt.value_view()),
            ]);
        }
        r
    }
}

/// A request to copy contents into the folder `folder_id_dest`.
#[derive(Debug)]
pub struct CopyContentApiPayload {
    pub token: String,
    pub contents_id: Vec<u128>,
    pub folder_id_dest: u128,
}

impl CopyContentApiPayload {
    /// The fields of the request body, in order; the contents are listed in
    /// one field, separated by commas.
    pub fn fields(&self) -> (r: Vec<(String, FieldValue)>)
        ensures
            fields_view(r@) == seq![
                text_field("token"@, self.token@),
                text_field("contentsId"@, comma_joined(uuid_texts(self.contents_id@))),
                text_field("folderIdDest"@, uuid_text(self.folder_id_dest)),
            ],
    {
        let mut r: Vec<(String, FieldValue)> = Vec::new();
        r.push((String::from_str("token"), FieldValue::Text(self.token.clone())));
        r.push((String::from_str("contentsId"), FieldValue::Text(comma_separated_ids(&self.contents_id))));
        r.push((String::from_str("folderIdDest"), FieldValue::Text(uuid_string(self.folder_id_dest))));
        proof {
            assert(fields_view(r@) =~= seq![
                text_field("token"@, self.token@),
                text_field("contentsId"@, comma_joined(uuid_texts(self.contents_id@))),
                text_field("folderIdDest"@, uuid_text(self.folder_id_dest)),
            ]);
        }
        r
    }
}

/// A request to delete contents.
#[derive(Debug)]
pub struct DeleteContentApiPayload {
    pub token: String,
    pub contents_id: Vec<u128>,
}

impl DeleteContentApiPayload {
    /// The fields of the request body, in order.
    pub fn fields(&self) -> (r: Vec<(String, FieldValue)>)
        ensures
            fields_view(r@) == seq![
                text_field("token"@, self.token@),
                text_field("contentsId"@, comma_joined(uuid_texts(self.contents_id@))),
            ],
    {
        let mut r: Vec<(String, FieldValue)> = Vec::new();
        r.push((String::from_str("token"), FieldValue::Text(self.token.clone())));
        r.push((String::from_str("contentsId"), FieldValue::Text(comma_separated_ids(&self.contents_id))));
        proof {
            assert(fields_view(r@) =~= seq![
                text_field("token"@, self.token@),
                text_field("contentsId"@, comma_joined(uuid_texts(self.contents_id@))),
            ]);
        }
        r
    }
}

/// The envelope of every answer: a status, "ok" on success, and the data.
#[derive(Debug, PartialEq)]
pub struct ApiResult<T> {
    pub status: String,
    pub data: T,
}

/// The upload servers that the service offers.
#[derive(Debug, PartialEq)]
pub struct Servers {
    pub servers: Vec<Server>,
}

/// An upload server: its name and the zone it stands in.
#[derive(Debug, PartialEq)]
pub struct Server {
    pub name: String,
    pub zone: String,
}

/// A file that an upload created.
#[derive(Debug, PartialEq)]
pub struct UploadedFile {
    pub guest_token: Option<String>,
    pub download_page: url::Url,
    pub code: String,
    pub parent_folder: u128,
    pub file_id: u128,
    pub file_name: String,
    pub md5: [u8; 16],
}

/// A folder or a file, with the fields that both have.
#[derive(Debug, PartialEq)]
pub struct Content {
    pub id: u128,
    pub name: String,
    pub parent_folder: u128,
    /// In seconds since the Unix epoch.
    pub create_time: i64,
    pub kind: ContentKind,
}

/// What sets a folder apart from a file.
#[derive(Debug, PartialEq)]
pub enum ContentKind {
    Folder {
        code: String,
        public: bool,
        children_ids: Vec<u128>,
        /// Given only for the folder that was asked for.
        total_download_count: Option<u32>,
        /// Given only for the folder that was asked for.
        total_size: Option<u64>,
        /// Given only for the folder that was asked for: its children by id.
        contents: Option<HashMap<u128, Content>>,
    },
    File {
        size: u64,
        download_count: u32,
        md5: [u8; 16],
        mimetype: mime::Mime,
        server_choosen: String,
        link: url::Url,
    },
}

/// The details of an account.
#[derive(Debug, PartialEq)]
pub struct AccountDetails {
    pub id: u128,
    pub token: String,
    pub email: String,
    pub tier: String,
    pub root_folder: u128,
    pub files_count: u32,
    pub total_size: u64,
}

/// The data of an answer that carries none.
#[derive(Debug, PartialEq)]
pub struct NoInfo {}

} // verus!
