//! Taking in an upload and closing it.

use crate::schema::xml_parse::{is_timestamp, UploadStatus, XmlParse};
use crate::text::same_text;
use vstd::prelude::*;
use vstd::string::StringExecFns;

verus! {

/// A document handed over as text.
#[derive(Debug, PartialEq, Eq)]
pub struct Payload {
    pub base64_xml: String,
}

/// The upload that a request is about.
#[derive(Debug, PartialEq, Eq)]
pub struct TransactionQueryParams {
    pub xml_id: u64,
}

/// The name under which an upload is recorded: the name of the field that
/// carried the document, or a fixed text where the field had none.
pub open spec fn upload_name(field_name: Option<&str>) -> Seq<char> {
    match field_name {
        Some(name) => name@,
        None => "No field"@,
    }
}

/// Takes in an upload: the record of its job, which starts now as `Init`.
/// The store gives the record its id.
pub fn post_handler(field_name: Option<&str>) -> (r: XmlParse)
    ensures
        r.id is None,
        r.filename@ == upload_name(field_name),
        r.status@ == UploadStatus::Init.name_text(),
        is_timestamp(r.started_at@),
        r.finished_at is None,
{
    let name = match field_name {
        Some(name) => String::from_str(name),
        None => String::from_str("No field"),
    };
    XmlParse::new(name, String::from_str(UploadStatus::Init.name()))
}

/// How the job of an upload ends: as `Failed` where the document could not
/// be had, as `Finished` otherwise, however its blocks fared.
pub open spec fn closing_status(document_read: bool) -> UploadStatus {
    if document_read {
        UploadStatus::Finished
    } else {
        UploadStatus::Failed
    }
}

/// Closes the job of an upload, once: a job that is `Init` ends now, as
/// `closing_status` says; any other is left as it is. Says whether the job
/// was closed.
pub fn finish_upload(upload: &mut XmlParse, document_read: bool) -> (closed: bool)
    ensures
        closed == (old(upload).status@ == UploadStatus::Init.name_text()),
        closed ==> final(upload).status@ == closing_status(document_read).name_text()
            && (final(upload).finished_at matches Some(end) && is_timestamp(end@)),
        !closed ==> final(upload).status == old(upload).status && final(upload).finished_at
            == old(upload).finished_at,
        final(upload).id == old(upload).id,
        final(upload).filename == old(upload).filename,
        final(upload).started_at == old(upload).started_at,
{
    if !same_text(upload.status.as_str(), UploadStatus::Init.name()) {
        return false;
    }
    let end = if document_read {
        UploadStatus::Finished
    } else {
        UploadStatus::Failed
    };
    upload.set_finished(String::from_str(end.name()));
    true
}

/// A job that was closed stays closed: neither of the two ends is `Init`,
/// so closing it again changes nothing.
pub proof fn closed_upload_stays(document_read: bool)
    ensures
        closing_status(document_read).name_text() != UploadStatus::Init.name_text(),
        !closing_status(document_read).may_become(UploadStatus::Finished),
        !closing_status(document_read).may_become(UploadStatus::Failed),
{
    reveal_strlit("Init");
    reveal_strlit("Finished");
    reveal_strlit("Failed");
    assert("Init"@.len() == 4);
    assert("Finished"@.len() == 8);
    assert("Failed"@.len() == 6);
}

} // verus!
