use crate::text::{opt_text, same_text};
use vstd::prelude::*;

verus! {

/// The shape of a point in time as it is recorded: two characters for the
/// day, `/`, two for the month, `/`, four or more for the year, a blank,
/// and the time of day as two characters each for hour, minute and second
/// with `:` between them.
pub open spec fn is_timestamp(s: Seq<char>) -> bool {
    &&& s.len() >= 19
    &&& s[2] == '/'
    &&& s[5] == '/'
    &&& s[s.len() - 9] == ' '
    &&& s[s.len() - 6] == ':'
    &&& s[s.len() - 3] == ':'
}

/// `chrono::DateTime::<Utc>::from` on `SystemTime::now()`, rendered by
/// `DateTime::format` with `%d/%m/%Y %T`. Which text comes out depends on
/// the clock; what holds of every outcome is its shape: day, month, hour,
/// minute and second are written with two characters each, the year with
/// four or more.
#[verifier::external_body]
pub(crate) fn timestamp_now() -> (r: String)
    ensures
        is_timestamp(r@),
{
    let time: chrono::DateTime<chrono::Utc> = std::time::SystemTime::now().into();
    time.format("%d/%m/%Y %T").to_string()
}

/// What became of the job that reads a document. A job starts as `Init`
/// and ends, once, as `Finished` or `Failed`.
#[derive(Clone, Copy, Debug, PartialEq, Eq, Structural)]
pub enum UploadStatus {
    Init,
    Finished,
    Failed,
}

impl UploadStatus {
    /// The name under which the state is stored.
    pub open spec fn name_text(self) -> Seq<char> {
        match self {
            UploadStatus::Init => "Init"@,
            UploadStatus::Finished => "Finished"@,
            UploadStatus::Failed => "Failed"@,
        }
    }

    /// Whether a job in this state may pass into `next`: only from `Init`,
    /// and only to one of the two ends.
    pub open spec fn may_become(self, next: UploadStatus) -> bool {
        self == UploadStatus::Init && next != UploadStatus::Init
    }

    /// The name under which the state is stored.
    pub fn name(&self) -> (r: &'static str)
        ensures
            r@ == self.name_text(),
    {
        match self {
            UploadStatus::Init => "Init",
            UploadStatus::Finished => "Finished",
            UploadStatus::Failed => "Failed",
        }
    }

    /// Whether the state can still change.
    pub fn is_open(&self) -> (r: bool)
        ensures
            r == (*self == UploadStatus::Init),
            r == exists|next: UploadStatus| self.may_become(next),
    {
        proof {
            if *self == UploadStatus::Init {
                assert(self.may_become(UploadStatus::Finished));
            }
        }
        match self {
            UploadStatus::Init => true,
            _ => false,
        }
    }
}

/// One ingested document: the job that reads it and what became of the job.
#[derive(Debug, PartialEq, Eq)]
pub struct XmlParse {
    pub id: Option<u64>,
    pub filename: String,
    pub status: String,
    pub started_at: String,
    pub finished_at: Option<String>,
}

/// `XmlParse` as contracts see it: each text as the characters that it holds.
pub struct XmlParseView {
    pub id: Option<u64>,
    pub filename: Seq<char>,
    pub status: Seq<char>,
    pub started_at: Seq<char>,
    pub finished_at: Option<Seq<char>>,
}

impl View for XmlParse {
    type V = XmlParseView;

    open spec fn view(&self) -> XmlParseView {
        XmlParseView {
            id: self.id,
            filename: self.filename@,
            status: self.status@,
            started_at: self.started_at@,
            finished_at: opt_text(self.finished_at),
        }
    }
}

impl Clone for XmlParse {
    fn clone(&self) -> (r: Self)
        ensures
            r == *self,
    {
        XmlParse {
            id: self.id,
            filename: self.filename.clone(),
            status: self.status.clone(),
            started_at: self.started_at.clone(),
            finished_at: self.finished_at.clone(),
        }
    }
}

impl XmlParse {
    /// The name under which uploads are spoken of.
    pub const COLUMN_NAME: &'static str = "XmlParse";

    /// The record of a job that starts now: no id yet, not finished, the
    /// given name and status, and the time of its start.
    pub fn new(filename: String, status: String) -> (r: Self)
        ensures
            r.id is None,
            r.filename == filename,
            r.status == status,
            is_timestamp(r.started_at@),
            r.finished_at is None,
    {
        XmlParse { id: None, filename, status, started_at: timestamp_now(), finished_at: None }
    }

    /// The state that the record's status names, if it names one.
    pub open spec fn status_of(status: Seq<char>) -> Option<UploadStatus> {
        if status == "Init"@ {
            Some(UploadStatus::Init)
        } else if status == "Finished"@ {
            Some(UploadStatus::Finished)
        } else if status == "Failed"@ {
            Some(UploadStatus::Failed)
        } else {
            None
        }
    }

    /// Reads the record's status.
    pub fn status_kind(&self) -> (r: Option<UploadStatus>)
        ensures
            r == Self::status_of(self.status@),
    {
        if same_text(self.status.as_str(), "Init") {
            Some(UploadStatus::Init)
        } else if same_text(self.status.as_str(), "Finished") {
            Some(UploadStatus::Finished)
        } else if same_text(self.status.as_str(), "Failed") {
            Some(UploadStatus::Failed)
        } else {
            None
        }
    }

    /// What is written when the job ends: the status and the time of its
    /// end, each with its column.
    pub fn finished_fields(&self) -> (r: Vec<crate::schema::Clause>)
        ensures
            crate::schema::clause_texts(r@) == seq![
                ("Status"@, self.status@),
                ("FinishedAt"@, crate::schema::sql_text(opt_text(self.finished_at))),
            ],
    {
        let r = vec![
            crate::schema::Clause {
                field: "Status",
                value: crate::schema::SqlString::from_string(self.status.clone()),
            },
            crate::schema::Clause {
                field: "FinishedAt",
                value: crate::schema::SqlString::from_opt_string(&self.finished_at),
            },
        ];
        assert(crate::schema::clause_texts(r@) =~= seq![
            ("Status"@, self.status@),
            ("FinishedAt"@, crate::schema::sql_text(opt_text(self.finished_at))),
        ]);
        r
    }

    /// The equality that picks the record's own row: its id, as far as it
    /// has one.
    pub fn own_row(&self) -> (r: Vec<crate::schema::Clause>)
        ensures
            crate::schema::clause_texts(r@) == seq![("Id"@, crate::schema::sql_number(self.id))],
    {
        let r = vec![
            crate::schema::Clause {
                field: "Id",
                value: crate::schema::SqlString::from_opt_u64(self.id),
            },
        ];
        assert(crate::schema::clause_texts(r@) =~= seq![
            ("Id"@, crate::schema::sql_number(self.id)),
        ]);
        r
    }

    /// The equality that picks the row of the upload with the given id.
    pub fn by_id(id: u64) -> (r: Vec<crate::schema::Clause>)
        ensures
            crate::schema::clause_texts(r@) == seq![("Id"@, crate::text::decimal_text(id as nat))],
    {
        let r = vec![
            crate::schema::Clause { field: "Id", value: crate::schema::SqlString::from_u64(id) },
        ];
        assert(crate::schema::clause_texts(r@) =~= seq![
            ("Id"@, crate::text::decimal_text(id as nat)),
        ]);
        r
    }

    /// Ends the job now with the given status, and records the time of its
    /// end. Id, name and start stay.
    pub fn set_finished(&mut self, status: String)
        ensures
            final(self).status == status,
            final(self).finished_at matches Some(end) && is_timestamp(end@),
            final(self).id == old(self).id,
            final(self).filename == old(self).filename,
            final(self).started_at == old(self).started_at,
    {
        self.finished_at = Some(timestamp_now());
        self.status = status;
    }
}

} // verus!
