//! Successful-command capsules as durable messages.

use vstd::prelude::*;

use crate::codec::command_capsule::{
    audit_invocation_carries, audit_invocation_form_is_exact, audit_invocation_from_proto,
    audit_invocation_to_proto, audit_invocation_valid, capsule_head_carries,
    capsule_head_form_is_exact, capsule_head_from_proto, capsule_head_over_limit,
    capsule_head_to_proto, capsule_head_valid,
};
use crate::codec::envelope::{
    read_message, read_outcome, ruled, ruled_item, OutgoingRecord, ReadAttempt,
};
use crate::codec::error::{unread_failure, value_failure, DurableCodecError, DurableCodecErrorKind};
use crate::codec::record_type::RecordType;
use crate::page::EncodedPageItem;
use crate::records::{DurableEventView, StoredDurableEventV1};
use crate::stored::application::{copy_event_list, event_views, EventReferenceV2};
use crate::stored::command_capsule::{CapsuleHead, CapsuleHeadView, CommandAuditInvocationView};
use crate::stored::command_record::{
    assemble_capsule, capsules_come_together_again, head_of, invocation_of, records_agree,
    CommandCapsuleView, StoredCommandCapsuleV1,
};
use crate::stored::commit::{event_references_of, references_to};
use crate::value_error::StorageValueError;
use crate::wire;
use crate::codec::application::{
    event_reference_list_carries, event_reference_list_form_is_exact,
    event_reference_list_from_proto,
};

verus! {

/// Whether a message is the form of a command's parts and audited invocation.
pub open spec fn capsule_carries(
    message: wire::StoredCommandCapsuleV1,
    head: CapsuleHeadView,
    audit: CommandAuditInvocationView,
) -> bool {
    &&& capsule_head_carries(message.head, head)
    &&& (message.audit matches Some(part) && audit_invocation_carries(part, audit))
}

/// The message form of a command.
pub fn capsule_to_proto(value: &StoredCommandCapsuleV1) -> (result: wire::StoredCommandCapsuleV1)
    ensures
        capsule_carries(result, head_of(value@), invocation_of(value@)),
{
    wire::StoredCommandCapsuleV1 {
        head: capsule_head_to_proto(&value.head()),
        audit: Some(audit_invocation_to_proto(&value.invocation())),
    }
}

/// Encodes one canonical successful-command capsule.
pub fn encode_command_capsule_v1(value: &StoredCommandCapsuleV1) -> (result: OutgoingRecord<
    wire::StoredCommandCapsuleV1,
>)
    ensures
        result.record_type == RecordType::StoredCommandCapsuleV1,
        capsule_carries(result.message, head_of(value@), invocation_of(value@)),
{
    OutgoingRecord {
        record_type: RecordType::StoredCommandCapsuleV1,
        message: capsule_to_proto(value),
    }
}

/// Whether a message is the form of some valid parts that refer to these events.
pub open spec fn head_readable(
    message: wire::CommandCapsuleHeadV1,
    events: Seq<DurableEventView>,
) -> bool {
    exists|head: CapsuleHeadView| #[trigger]
        capsule_head_carries(message, head) && capsule_head_valid(head) && head.event_references
            == references_to(events)
}

/// Whether the parts of a command are refused for a limit of its read dependencies alone,
/// which are read last: they refer to these events.
pub open spec fn head_over_limit(
    message: wire::CommandCapsuleHeadV1,
    events: Seq<DurableEventView>,
) -> bool {
    capsule_head_over_limit(message) && event_reference_list_carries(
        message.event_references@,
        references_to(events),
    )
}

/// Whether a message is the form of some valid audited invocation.
pub open spec fn invocation_readable(
    message: Option<wire::StoredCommandAuditInvocationV1>,
) -> bool {
    message is Some && exists|audit: CommandAuditInvocationView| #[trigger]
        audit_invocation_carries(message->Some_0, audit) && audit_invocation_valid(audit)
}

/// Why a capsule gives no command, if it gives none: its parts come first, with
/// the events that they refer to, then what the rules of the outcome, the commit
/// and the provenance say of them, then its audited invocation, and then what the
/// rules of the audit records and of the whole say.
pub open spec fn capsule_failure(
    message: wire::StoredCommandCapsuleV1,
    events: Seq<DurableEventView>,
    records: Option<StorageValueError>,
    whole: Option<StorageValueError>,
) -> Option<DurableCodecErrorKind> {
    if !head_readable(message.head, events) {
        Some(unread_failure(head_over_limit(message.head, events)))
    } else if records is Some {
        Some(value_failure(records->Some_0))
    } else if !invocation_readable(message.audit) {
        Some(DurableCodecErrorKind::CorruptData)
    } else if whole is Some {
        Some(value_failure(whole->Some_0))
    } else {
        None
    }
}

/// Decides equality of two lists of event references.
pub fn same_references(a: &[EventReferenceV2], b: &[EventReferenceV2]) -> (result: bool)
    ensures
        result == (a@ == b@),
{
    if a.len() != b.len() {
        return false;
    }
    let mut i: usize = 0;
    while i < a.len()
        invariant
            i <= a@.len(),
            a@.len() == b@.len(),
            forall|k: int| 0 <= k < i ==> a@[k] == b@[k],
        decreases a@.len() - i,
    {
        let same = a[i].event_id == b[i].event_id && a[i].event_hash.same(&b[i].event_hash);
        if !same {
            assert(a@[i as int] != b@[i as int]);
            return false;
        }
        i += 1;
    }
    assert(a@ =~= b@);
    true
}

fn head_with_events(
    message: &wire::CommandCapsuleHeadV1,
    events: &[StoredDurableEventV1],
) -> (result: Result<CapsuleHead, DurableCodecError>)
    ensures
        match result {
            Ok(head) => capsule_head_carries(*message, head@) && capsule_head_valid(head@)
                && head@.event_references == references_to(event_views(events@))
                && head_readable(*message, event_views(events@)),
            Err(error) => error.kind == unread_failure(
                head_over_limit(*message, event_views(events@)),
            ) && !head_readable(*message, event_views(events@)),
        },
{
    let head = match capsule_head_from_proto(message) {
        Ok(head) => head,
        Err(error) => {
            let references = event_reference_list_from_proto(&message.event_references)?;
            proof {
                if event_reference_list_carries(
                    message.event_references@,
                    references_to(event_views(events@)),
                ) {
                    event_reference_list_form_is_exact(
                        message.event_references@,
                        references@,
                        references_to(event_views(events@)),
                    );
                }
            }
            if !same_references(&references, &event_references_of(events)) {
                return Err(DurableCodecError::corrupt());
            }
            return Err(error);
        },
    };
    let expected = event_references_of(events);
    if !same_references(&head.event_references, &expected) {
        proof {
            assert forall|other: CapsuleHeadView| #[trigger]
                capsule_head_carries(*message, other) && capsule_head_valid(other) implies
                other.event_references != references_to(event_views(events@)) by {
                capsule_head_form_is_exact(*message, head@, other);
            }
        }
        return Err(DurableCodecError::corrupt());
    }
    proof {
        assert(capsule_head_carries(*message, head@));
    }
    Ok(head)
}

/// Reads a command from its message and its event rows.
pub fn capsule_from_proto(
    message: &wire::StoredCommandCapsuleV1,
    events: Vec<StoredDurableEventV1>,
    records: Option<StorageValueError>,
    whole: Option<StorageValueError>,
) -> (result: Result<StoredCommandCapsuleV1, DurableCodecError>)
    ensures
        match capsule_failure(*message, event_views(events@), records, whole) {
            Some(kind) => result == Err::<StoredCommandCapsuleV1, _>(DurableCodecError { kind }),
            None => result is Ok && capsule_carries(
                *message,
                head_of(result->Ok_0@),
                invocation_of(result->Ok_0@),
            ) && records_agree(result->Ok_0@) && result->Ok_0@.commit.events == event_views(
                events@,
            ) && capsule_head_valid(head_of(result->Ok_0@)) && audit_invocation_valid(
                invocation_of(result->Ok_0@),
            ),
        },
{
    let head = head_with_events(&message.head, &events)?;
    match records {
        Some(error) => return Err(DurableCodecError::from_storage_value(error)),
        None => {},
    }
    let audit = match &message.audit {
        None => return Err(DurableCodecError::corrupt()),
        Some(part) => audit_invocation_from_proto(part)?,
    };
    proof {
        assert(audit_invocation_carries(message.audit->Some_0, audit@)
            && audit_invocation_valid(audit@));
        crate::stored::command_record::capsules_keep_their_parts(
            head@,
            event_views(events@),
            audit@,
        );
    }
    match whole {
        Some(error) => Err(DurableCodecError::from_storage_value(error)),
        None => Ok(assemble_capsule(head, events, &audit)),
    }
}

/// Whether a message is the form of a command with these events.
pub open spec fn is_capsule(
    message: wire::StoredCommandCapsuleV1,
    events: Seq<DurableEventView>,
    command: CommandCapsuleView,
) -> bool {
    &&& capsule_carries(message, head_of(command), invocation_of(command))
    &&& records_agree(command)
    &&& command.commit.events == events
    &&& capsule_head_valid(head_of(command))
    &&& audit_invocation_valid(invocation_of(command))
}

/// What a capsule whose head is read comes to under the rules of its records: the
/// rule of the outcome, the commit and the provenance is asked first, then the
/// audited invocation is read, and then the rule of the audit records and of the
/// whole is asked.
pub open spec fn capsule_ruled<
    R: Fn(&CapsuleHead, &Vec<StoredDurableEventV1>) -> Option<StorageValueError>,
    W: Fn(&StoredCommandCapsuleV1) -> Option<StorageValueError>,
>(
    message: wire::StoredCommandCapsuleV1,
    events: Vec<StoredDurableEventV1>,
    record_rule: R,
    whole_rule: W,
    encoded_len: usize,
    result: Result<EncodedPageItem<StoredCommandCapsuleV1>, DurableCodecError>,
) -> bool {
    exists|head: CapsuleHead, records: Option<StorageValueError>|
        capsule_head_carries(message.head, head@) && capsule_head_valid(head@)
            && #[trigger] record_rule.ensures((&head, &events), records) && match capsule_failure(
            message,
            event_views(events@),
            records,
            None,
        ) {
            Some(kind) => result == Err::<EncodedPageItem<StoredCommandCapsuleV1>, _>(
                DurableCodecError { kind },
            ),
            None => exists|value: StoredCommandCapsuleV1|
                is_capsule(message, event_views(events@), value@) && #[trigger] ruled(
                    whole_rule,
                    value,
                    encoded_len,
                    result,
                ),
        }
}

/// Decodes a capsule and reconstructs all five records using event rows loaded
/// from the same authoritative snapshot, under the rules of the records.
pub fn decode_command_capsule_v1<
    R: Fn(&CapsuleHead, &Vec<StoredDurableEventV1>) -> Option<StorageValueError>,
    W: Fn(&StoredCommandCapsuleV1) -> Option<StorageValueError>,
>(
    attempt: ReadAttempt<wire::StoredCommandCapsuleV1>,
    events: Vec<StoredDurableEventV1>,
    record_rule: R,
    whole_rule: W,
) -> (result: Result<EncodedPageItem<StoredCommandCapsuleV1>, DurableCodecError>)
    requires
        forall|head: &CapsuleHead, events: &Vec<StoredDurableEventV1>| #[trigger]
            record_rule.requires((head, events)),
        forall|value: &StoredCommandCapsuleV1| #[trigger] whole_rule.requires((value,)),
    ensures
        match read_outcome(RecordType::StoredCommandCapsuleV1, attempt) {
            Err(kind) => result == Err::<EncodedPageItem<StoredCommandCapsuleV1>, _>(
                DurableCodecError { kind },
            ),
            Ok(message) => if head_readable(message.head, event_views(events@)) {
                capsule_ruled(
                    message,
                    events,
                    record_rule,
                    whole_rule,
                    attempt.encoded_len,
                    result,
                )
            } else {
                result == Err::<EncodedPageItem<StoredCommandCapsuleV1>, _>(
                    DurableCodecError {
                        kind: unread_failure(
                            head_over_limit(message.head, event_views(events@)),
                        ),
                    },
                )
            },
        },
{
    let encoded_len = attempt.encoded_len;
    let message = read_message(RecordType::StoredCommandCapsuleV1, attempt)?;
    let head = head_with_events(&message.head, &events)?;
    let records = record_rule(&head, &events);
    assert(record_rule.ensures((&head, &events), records));
    let value = capsule_from_proto(&message, copy_event_list(&events), records, None)?;
    assert(is_capsule(message, event_views(events@), value@));
    ruled_item(value, whole_rule, encoded_len)
}

/// A message holds at most one command with given events whose records agree, so
/// a command that is written comes back as it was.
pub proof fn capsule_round_trip(
    message: wire::StoredCommandCapsuleV1,
    written: CommandCapsuleView,
    read: CommandCapsuleView,
)
    requires
        capsule_carries(message, head_of(written), invocation_of(written)),
        records_agree(written),
        capsule_head_valid(head_of(written)),
        audit_invocation_valid(invocation_of(written)),
        capsule_carries(message, head_of(read), invocation_of(read)),
        records_agree(read),
        capsule_head_valid(head_of(read)),
        audit_invocation_valid(invocation_of(read)),
        written.commit.events == read.commit.events,
    ensures
        read == written,
{
    capsule_head_form_is_exact(message.head, head_of(written), head_of(read));
    audit_invocation_form_is_exact(
        message.audit->Some_0,
        invocation_of(written),
        invocation_of(read),
    );
    capsules_come_together_again(written);
    capsules_come_together_again(read);
}

} // verus!
