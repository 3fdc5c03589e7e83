//! The sync status that a finished bisync run leaves a remote in.
use vstd::prelude::*;
use crate::errors::RcloneError;
use crate::json::{JsonDoc, JsonValue};
use crate::text::text_eq;
use crate::types::SyncStatus;

verus! {

/// The message of a reply that lacks a field of the expected kind:
/// `missing or invalid '<field>' field in <place>: <text>`.
pub open spec fn missing_field_message(field: Seq<char>, place: Seq<char>, text: Seq<char>) -> Seq<char> {
    "missing or invalid '"@ + field + "' field in "@ + place + ": "@ + text
}

/// The non-negative integer held by the member `field` of an object.
pub open spec fn field_u64(v: JsonValue, field: Seq<char>) -> Option<u64> {
    match v.get_spec(field) {
        Some(x) => x.u64_spec(),
        None => None,
    }
}

/// Reads the non-negative integer `field` of a stats reply.
pub fn get_u64(stats: &JsonDoc, field: &str) -> (r: Result<u64, RcloneError>)
    ensures
        match field_u64(stats.value, field@) {
            Some(n) => r == Ok::<u64, RcloneError>(n),
            None => r matches Err(RcloneError::UnexpectedResponse(m))
                && m@ == missing_field_message(field@, "stats"@, stats.text@),
        },
{
    match stats.value.get(field) {
        Some(v) => match v.as_u64() {
            Some(n) => {
                return Ok(n);
            },
            None => {},
        },
        None => {},
    }
    let mut m = String::from_str("missing or invalid '");
    m.append(field);
    m.append("' field in ");
    m.append("stats");
    m.append(": ");
    m.append(stats.text.as_str());
    Err(RcloneError::UnexpectedResponse(m))
}

/// The status that `transfers` transferred files and `errors` errors give,
/// under the conflict resolution `resolve`; `None` where the counts make no
/// sense (errors without any transfer).
pub open spec fn status_for_counts(transfers: u64, errors: u64, resolve: Seq<char>) -> Option<SyncStatus> {
    if errors == 0 && transfers == 0 {
        Some(SyncStatus::UpToDate)
    } else if transfers > 0 && errors == 0 {
        Some(SyncStatus::Transferred { transferred: transfers })
    } else if transfers > 0 && errors > 0 && resolve == "none"@ {
        Some(SyncStatus::ActionRequired)
    } else if transfers > 0 && errors > 0 {
        Some(SyncStatus::AutoResolved { transferred: transfers, conflicts: errors })
    } else {
        None
    }
}

/// Every pair of counts gives a status, except errors without any transfer;
/// and a run that transferred nothing and met no error leaves the remote up
/// to date whatever the conflict resolution.
pub proof fn lemma_counts_give_a_status(transfers: u64, errors: u64, resolve: Seq<char>)
    ensures
        status_for_counts(transfers, errors, resolve) is None <==> (transfers == 0 && errors > 0),
        (transfers == 0 && errors == 0) ==> status_for_counts(transfers, errors, resolve) == Some(SyncStatus::UpToDate),
{
}

/// What the counts of a finished run mean, whatever the conflict resolution:
/// a run with transfers and no error reports exactly its transfers; conflict
/// action is asked for only where the run met errors under the resolution
/// "none"; an auto-resolved run had transfers and errors, under another
/// resolution, and reports both counts; a run is up to date only where it
/// neither transferred nor erred.
pub proof fn lemma_status_meaning(transfers: u64, errors: u64, resolve: Seq<char>)
    ensures
        transfers > 0 && errors == 0 ==> status_for_counts(transfers, errors, resolve)
            == Some(SyncStatus::Transferred { transferred: transfers }),
        status_for_counts(transfers, errors, resolve) == Some(SyncStatus::ActionRequired)
            <==> (transfers > 0 && errors > 0 && resolve == "none"@),
        status_for_counts(transfers, errors, resolve) == Some(SyncStatus::UpToDate)
            <==> (transfers == 0 && errors == 0),
        (status_for_counts(transfers, errors, resolve) matches Some(SyncStatus::AutoResolved { transferred, conflicts })
            ==> transferred == transfers && conflicts == errors && transfers > 0 && errors > 0 && resolve != "none"@),
        (status_for_counts(transfers, errors, resolve) matches Some(SyncStatus::Transferred { transferred })
            ==> transferred == transfers && errors == 0),
        transfers > 0 && errors > 0 && resolve != "none"@ ==> status_for_counts(transfers, errors, resolve)
            == Some(SyncStatus::AutoResolved { transferred: transfers, conflicts: errors }),
        !(status_for_counts(transfers, errors, resolve) matches Some(SyncStatus::Syncing)),
        !(status_for_counts(transfers, errors, resolve) matches Some(SyncStatus::Error { .. })),
{
}

/// Derives the sync status of a remote from the stats of a finished bisync run
/// and the conflict resolution it ran with.
pub fn create_sync_status(stats: &JsonDoc, conflict_resolve: &str) -> (r: Result<SyncStatus, RcloneError>)
    ensures
        match field_u64(stats.value, "transfers"@) {
            None => r matches Err(RcloneError::UnexpectedResponse(m))
                && m@ == missing_field_message("transfers"@, "stats"@, stats.text@),
            Some(t) => match field_u64(stats.value, "errors"@) {
                None => r matches Err(RcloneError::UnexpectedResponse(m))
                    && m@ == missing_field_message("errors"@, "stats"@, stats.text@),
                Some(e) => match status_for_counts(t, e, conflict_resolve@) {
                    Some(s) => r == Ok::<SyncStatus, RcloneError>(s),
                    None => r matches Err(RcloneError::UnexpectedResponse(m))
                        && m@ == "unexpected stats response from rc daemon: "@ + stats.text@,
                },
            },
        },
{
    let transfers = match get_u64(stats, "transfers") {
        Ok(n) => n,
        Err(e) => {
            return Err(e);
        },
    };
    let errors = match get_u64(stats, "errors") {
        Ok(n) => n,
        Err(e) => {
            return Err(e);
        },
    };
    if errors == 0 && transfers == 0 {
        return Ok(SyncStatus::UpToDate);
    }
    if transfers > 0 && errors == 0 {
        return Ok(SyncStatus::Transferred { transferred: transfers });
    }
    let none = text_eq(conflict_resolve, "none");
    if transfers > 0 && errors > 0 && none {
        return Ok(SyncStatus::ActionRequired);
    }
    if transfers > 0 && errors > 0 && !none {
        return Ok(SyncStatus::AutoResolved { transferred: transfers, conflicts: errors });
    }
    let mut m = String::from_str("unexpected stats response from rc daemon: ");
    m.append(stats.text.as_str());
    Err(RcloneError::UnexpectedResponse(m))
}

} // verus!
