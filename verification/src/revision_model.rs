use vstd::prelude::*;

verus! {

/// The kind of transition a revision records.
#[derive(Debug, Clone, Copy, PartialEq, Eq, Structural)]
pub enum FileRevisionType {
    /// The first revision of an entity.
    Create,
    /// A change to one or more fields of a live entity.
    Update,
    /// A tombstone: the entity is logically removed.
    Delete,
    /// A resurrection: a tombstoned entity is visible again.
    Undelete,
}

/// The symbolic name of a logical field of a file.
///
/// Change-sets are ordered lists of these names.
#[derive(Debug, Clone, Copy, PartialEq, Eq, Structural)]
pub enum FileField {
    /// The containing page.
    Page,
    /// The file's name.
    Name,
    /// The content reference: hash, size hint and MIME hint as one unit.
    Blob,
    /// The MIME hint on its own. No change-set that is made here names it,
    /// since the hint belongs to the content reference; the name is kept
    /// so that rows which list it can be read.
    Mime,
    /// The licensing metadata.
    Licensing,
}

impl FileRevisionType {
    /// The name under which the kind is stored.
    pub fn as_str(&self) -> (name: &'static str)
        ensures
            name@ == self.spec_name(),
    {
        match self {
            FileRevisionType::Create => "create",
            FileRevisionType::Update => "update",
            FileRevisionType::Delete => "delete",
            FileRevisionType::Undelete => "undelete",
        }
    }

    /// The stored name of the kind, as a sequence of characters.
    pub open spec fn spec_name(&self) -> Seq<char> {
        match self {
            FileRevisionType::Create => "create"@,
            FileRevisionType::Update => "update"@,
            FileRevisionType::Delete => "delete"@,
            FileRevisionType::Undelete => "undelete"@,
        }
    }

    /// The kind that a stored name stands for.
    pub open spec fn named(name: Seq<char>) -> Option<FileRevisionType> {
        if name == "create"@ {
            Some(FileRevisionType::Create)
        } else if name == "update"@ {
            Some(FileRevisionType::Update)
        } else if name == "delete"@ {
            Some(FileRevisionType::Delete)
        } else if name == "undelete"@ {
            Some(FileRevisionType::Undelete)
        } else {
            None
        }
    }

    /// Reads the stored name of a kind; any other text is no kind.
    pub fn from_name(name: &str) -> (r: Option<FileRevisionType>)
        ensures
            r == Self::named(name@),
    {
        if str_equal(name, "create") {
            Some(FileRevisionType::Create)
        } else if str_equal(name, "update") {
            Some(FileRevisionType::Update)
        } else if str_equal(name, "delete") {
            Some(FileRevisionType::Delete)
        } else if str_equal(name, "undelete") {
            Some(FileRevisionType::Undelete)
        } else {
            None
        }
    }
}

impl FileField {
    /// The field that a stored name stands for.
    pub open spec fn named(name: Seq<char>) -> Option<FileField> {
        if name == "page"@ {
            Some(FileField::Page)
        } else if name == "name"@ {
            Some(FileField::Name)
        } else if name == "blob"@ {
            Some(FileField::Blob)
        } else if name == "mime"@ {
            Some(FileField::Mime)
        } else if name == "licensing"@ {
            Some(FileField::Licensing)
        } else {
            None
        }
    }

    /// Reads the stored name of a field; any other text is no field.
    pub fn from_name(name: &str) -> (r: Option<FileField>)
        ensures
            r == Self::named(name@),
    {
        if str_equal(name, "page") {
            Some(FileField::Page)
        } else if str_equal(name, "name") {
            Some(FileField::Name)
        } else if str_equal(name, "blob") {
            Some(FileField::Blob)
        } else if str_equal(name, "mime") {
            Some(FileField::Mime)
        } else if str_equal(name, "licensing") {
            Some(FileField::Licensing)
        } else {
            None
        }
    }

    /// The name under which the field is stored and shown.
    pub fn as_str(&self) -> (name: &'static str)
        ensures
            name@ == self.spec_name(),
    {
        match self {
            FileField::Page => "page",
            FileField::Name => "name",
            FileField::Blob => "blob",
            FileField::Mime => "mime",
            FileField::Licensing => "licensing",
        }
    }

    /// The stored name of the field, as a sequence of characters.
    pub open spec fn spec_name(&self) -> Seq<char> {
        match self {
            FileField::Page => "page"@,
            FileField::Name => "name"@,
            FileField::Blob => "blob"@,
            FileField::Mime => "mime"@,
            FileField::Licensing => "licensing"@,
        }
    }
}

/// One row of the revision log: the full state of a file at one revision.
///
/// Everything but `hidden` is fixed once the row is stored.
#[derive(Debug, Clone)]
pub struct FileRevisionModel {
    /// Assigned by the store; doubles as the optimistic-concurrency token.
    pub revision_id: i64,
    pub revision_type: FileRevisionType,
    /// Seconds since the Unix epoch at which the row was stored.
    pub created_at: i64,
    /// Position of the row in its owner's history, counted from zero.
    pub revision_number: i32,
    pub file_id: String,
    pub page_id: i64,
    pub user_id: i64,
    pub name: String,
    pub s3_hash: Vec<u8>,
    pub mime_hint: String,
    pub size_hint: i64,
    /// The licensing metadata, as JSON text.
    pub licensing: String,
    /// The fields that differ from the previous revision.
    pub changes: Vec<FileField>,
    pub comments: String,
    /// The names of the fields redacted from public view.
    pub hidden: Vec<String>,
}

/// The mathematical value of a revision row.
pub ghost struct RevisionView {
    pub revision_id: i64,
    pub revision_type: FileRevisionType,
    pub created_at: i64,
    pub revision_number: i32,
    pub file_id: Seq<char>,
    pub page_id: i64,
    pub user_id: i64,
    pub name: Seq<char>,
    pub s3_hash: Seq<u8>,
    pub mime_hint: Seq<char>,
    pub size_hint: i64,
    pub licensing: Seq<char>,
    pub changes: Seq<FileField>,
    pub comments: Seq<char>,
    pub hidden: Seq<Seq<char>>,
}

impl View for FileRevisionModel {
    type V = RevisionView;

    open spec fn view(&self) -> RevisionView {
        RevisionView {
            revision_id: self.revision_id,
            revision_type: self.revision_type,
            created_at: self.created_at,
            revision_number: self.revision_number,
            file_id: self.file_id@,
            page_id: self.page_id,
            user_id: self.user_id,
            name: self.name@,
            s3_hash: self.s3_hash@,
            mime_hint: self.mime_hint@,
            size_hint: self.size_hint,
            licensing: self.licensing@,
            changes: self.changes@,
            comments: self.comments@,
            hidden: names_view(self.hidden@),
        }
    }
}

impl RevisionView {
    /// Whether the row belongs to the owner `(page_id, file_id)`.
    pub open spec fn owned_by(self, page_id: i64, file_id: Seq<char>) -> bool {
        self.page_id == page_id && self.file_id == file_id
    }

    /// Whether two rows belong to the same owner.
    pub open spec fn same_owner(self, other: RevisionView) -> bool {
        self.page_id == other.page_id && self.file_id == other.file_id
    }

    /// The row with its redaction set replaced and nothing else touched.
    pub open spec fn with_hidden(self, hidden: Seq<Seq<char>>) -> RevisionView {
        RevisionView { hidden, ..self }
    }

    /// Whether the row marks its entity as logically removed.
    pub open spec fn is_tombstone(self) -> bool {
        self.revision_type == FileRevisionType::Delete
    }
}

/// A copy of a byte string.
pub fn copy_bytes(bytes: &Vec<u8>) -> (r: Vec<u8>)
    ensures
        r@ == bytes@,
{
    let mut r: Vec<u8> = Vec::new();
    let mut i: usize = 0;
    while i < bytes.len()
        invariant
            i <= bytes.len(),
            r@ == bytes@.take(i as int),
        decreases bytes.len() - i,
    {
        r.push(bytes[i]);
        i += 1;
    }
    r
}

/// Whether two byte strings hold the same bytes.
pub fn bytes_equal(a: &Vec<u8>, b: &Vec<u8>) -> (r: bool)
    ensures
        r == (a@ == b@),
{
    if a.len() != b.len() {
        return false;
    }
    let mut i: usize = 0;
    while i < a.len()
        invariant
            i <= a.len(),
            a.len() == b.len(),
            a@.take(i as int) == b@.take(i as int),
        decreases a.len() - i,
    {
        if a[i] != b[i] {
            return false;
        }
        assert(a@.take(i + 1) == a@.take(i as int).push(a@[i as int]));
        assert(b@.take(i + 1) == b@.take(i as int).push(b@[i as int]));
        i += 1;
    }
    assert(a@ == a@.take(a.len() as int));
    assert(b@ == b@.take(b.len() as int));
    true
}

/// The mathematical values of a list of names.
pub open spec fn names_view(names: Seq<String>) -> Seq<Seq<char>> {
    Seq::new(names.len(), |i: int| names[i]@)
}

/// A copy of a list of names.
pub fn copy_names(names: &Vec<String>) -> (r: Vec<String>)
    ensures
        names_view(r@) == names_view(names@),
{
    let mut r: Vec<String> = Vec::new();
    let mut i: usize = 0;
    while i < names.len()
        invariant
            i <= names.len(),
            r@.len() == i,
            forall|k: int| 0 <= k < i ==> (#[trigger] r@[k])@ == names@[k]@,
        decreases names.len() - i,
    {
        r.push(names[i].clone());
        i += 1;
    }
    assert(names_view(r@) =~= names_view(names@));
    r
}

/// A copy of a list of field names.
pub fn copy_fields(fields: &Vec<FileField>) -> (r: Vec<FileField>)
    ensures
        r@ == fields@,
{
    let mut r: Vec<FileField> = Vec::new();
    let mut i: usize = 0;
    while i < fields.len()
        invariant
            i <= fields.len(),
            r@ == fields@.take(i as int),
        decreases fields.len() - i,
    {
        r.push(fields[i]);
        i += 1;
    }
    r
}

impl FileRevisionModel {
    /// A copy of the row.
    pub fn duplicate(&self) -> (r: FileRevisionModel)
        ensures
            r@ == self@,
    {
        FileRevisionModel {
            revision_id: self.revision_id,
            revision_type: self.revision_type,
            created_at: self.created_at,
            revision_number: self.revision_number,
            file_id: self.file_id.clone(),
            page_id: self.page_id,
            user_id: self.user_id,
            name: self.name.clone(),
            s3_hash: copy_bytes(&self.s3_hash),
            mime_hint: self.mime_hint.clone(),
            size_hint: self.size_hint,
            licensing: self.licensing.clone(),
            changes: copy_fields(&self.changes),
            comments: self.comments.clone(),
            hidden: copy_names(&self.hidden),
        }
    }

    /// Whether the row belongs to the owner `(page_id, file_id)`.
    pub fn is_owned_by(&self, page_id: i64, file_id: &str) -> (r: bool)
        ensures
            r == self@.owned_by(page_id, file_id@),
    {
        self.page_id == page_id && str_equal(self.file_id.as_str(), file_id)
    }
}

/// Whether two strings hold the same characters.
pub fn str_equal(a: &str, b: &str) -> (r: bool)
    ensures
        r == (a@ == b@),
{
    let x = a.to_owned();
    let y = b.to_owned();
    x == y
}

} // verus!
