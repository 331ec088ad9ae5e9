//! Command capsules as durable messages.

use vstd::prelude::*;

use crate::codec::application::{
    causation_form_is_exact, causation_valid, check_commit_tail, commit_parts_carries,
    commit_parts_form_is_exact, commit_parts_from_proto, commit_parts_over_limit,
    commit_parts_to_proto, commit_parts_valid, commit_tail_readable, entity_reference_list_carries,
    entity_reference_list_form_is_exact, entity_reference_list_from_proto,
    entity_reference_list_to_proto, entity_reference_list_valid, event_reference_list_carries,
    event_reference_list_form_is_exact, event_reference_list_from_proto,
    event_reference_list_to_proto, event_reference_list_valid, optional_causation_carries,
    optional_causation_from_proto, optional_causation_to_proto,
};
use crate::codec::audit::{
    target_list_carries, target_list_form_is_exact, target_list_from_proto, target_list_to_proto,
    target_list_valid,
};
use crate::codec::common::{
    audit_principal_form_is_exact, audit_principal_valid, claims_carries, claims_form_is_exact,
    claims_from_proto, claims_to_proto, identity_carries, identity_form_is_exact,
    identity_from_proto, identity_to_proto, identity_valid, optional_audit_principal_carries,
    optional_audit_principal_from_proto, optional_audit_principal_to_proto, timestamp_carries,
    timestamp_form_is_exact, timestamp_from_proto, timestamp_to_proto, timestamp_valid,
};
use crate::codec::envelope::{
    admitted_item, read_message, read_outcome, refusal_of, OutgoingRecord, ReadAttempt,
};
use crate::codec::error::{is_corrupt, require, unread_failure, DurableCodecError};
use crate::codec::parts::{
    identifier_carries, identifier_from_wire, identifier_to_wire, key_carries, key_from_wire,
    key_to_wire, optional_text_carries, optional_text_from_wire, optional_text_to_wire, require_ref,
    tag_carries, tag_from_wire, tag_to_wire,
};
use crate::codec::record_type::RecordType;
use crate::ids::{CommitSequence, Id64};
use crate::page::EncodedPageItem;
use crate::stored::command_capsule::{
    CapsuleHead, CapsuleHeadView, CommandAuditInvocation, CommandAuditInvocationView,
    StoredCommandAuditLocatorV1, StoredCommandAuditMemberV1, StoredCommandLocatorV1,
};
use crate::wire;
use crate::stored::audit::{are_targets_rebuilt, copy_target_list, target_views, targets_rebuilt};
use crate::stored::application::entity_reference_views;

verus! {

/// Whether a message is the form of the audited invocation of a command.
pub open spec fn audit_invocation_carries(
    message: wire::StoredCommandAuditInvocationV1,
    value: CommandAuditInvocationView,
) -> bool {
    &&& identifier_carries(message.request_id, value.request_id)
    &&& tag_carries(message.operation, value.operation)
    &&& optional_audit_principal_carries(message.principal, value.principal)
    &&& tag_carries(message.ingress, value.ingress)
    &&& target_list_carries(message.targets@, value.targets)
    &&& targets_rebuilt(message.rebuilt, value.targets)
    &&& optional_text_carries(message.approval_id, value.approval_id)
    &&& message.started_administration_sequence == value.started_sequence.value
    &&& (message.started_at matches Some(part) && timestamp_carries(part, value.started_at))
    &&& message.terminal_administration_sequence == value.terminal_sequence.value
    &&& (message.terminal_at matches Some(part) && timestamp_carries(part, value.terminal_at))
}

/// The parts of the audited invocation of a command are valid.
pub open spec fn audit_invocation_valid(value: CommandAuditInvocationView) -> bool {
    &&& (value.principal matches Some(part) ==> audit_principal_valid(part))
    &&& target_list_valid(value.targets)
    &&& value.started_sequence.valid()
    &&& timestamp_valid(value.started_at)
    &&& value.terminal_sequence.valid()
    &&& timestamp_valid(value.terminal_at)
}

/// A message is the form of at most one value.
pub proof fn audit_invocation_form_is_exact(
    message: wire::StoredCommandAuditInvocationV1,
    a: CommandAuditInvocationView,
    b: CommandAuditInvocationView,
)
    requires
        audit_invocation_carries(message, a),
        audit_invocation_carries(message, b),
    ensures
        a == b,
{
    assert(a.request_id.bytes =~= b.request_id.bytes);
    if a.principal is Some {
        audit_principal_form_is_exact(
            message.principal->Some_0,
            a.principal->Some_0,
            b.principal->Some_0,
        );
    }
    target_list_form_is_exact(message.targets@, a.targets, b.targets);
    timestamp_form_is_exact(message.started_at->Some_0, a.started_at, b.started_at);
    timestamp_form_is_exact(message.terminal_at->Some_0, a.terminal_at, b.terminal_at);
}

/// The message form of the audited invocation of a command.
pub fn audit_invocation_to_proto(
    value: &CommandAuditInvocation,
) -> (result: wire::StoredCommandAuditInvocationV1)
    ensures
        audit_invocation_carries(result, value@),
{
    wire::StoredCommandAuditInvocationV1 {
        request_id: identifier_to_wire(value.request_id),
        operation: tag_to_wire(value.operation),
        principal: optional_audit_principal_to_proto(&value.principal),
        ingress: tag_to_wire(value.ingress),
        targets: target_list_to_proto(&value.targets),
        rebuilt: Ok(copy_target_list(&value.targets)),
        approval_id: optional_text_to_wire(&value.approval_id),
        started_administration_sequence: value.started_sequence.get(),
        started_at: Some(timestamp_to_proto(value.started_at)),
        terminal_administration_sequence: value.terminal_sequence.get(),
        terminal_at: Some(timestamp_to_proto(value.terminal_at)),
    }
}

/// What reading a message gives: the value that it is the form of, or a
/// corruption where it is the form of no valid one.
pub open spec fn audit_invocation_read(
    message: wire::StoredCommandAuditInvocationV1,
    result: Result<CommandAuditInvocation, DurableCodecError>,
) -> bool {
    match result {
        Ok(held) => audit_invocation_carries(message, held@) && audit_invocation_valid(held@),
        Err(error) => is_corrupt(error) && forall|other: CommandAuditInvocationView| #[trigger]
            audit_invocation_carries(message, other) ==> !audit_invocation_valid(other),
    }
}

/// Reads the audited invocation of a command.
pub fn audit_invocation_from_proto(value: &wire::StoredCommandAuditInvocationV1) -> (result: Result<
    CommandAuditInvocation,
    DurableCodecError,
>)
    ensures
        audit_invocation_read(*value, result),
{
    let request_id = identifier_from_wire(&value.request_id)?;
    let operation = tag_from_wire(&value.operation)?;
    let principal = optional_audit_principal_from_proto(&value.principal)?;
    let ingress = tag_from_wire(&value.ingress)?;
    let targets = target_list_from_proto(&value.targets)?;
    if !are_targets_rebuilt(&value.rebuilt, &targets) {
        assert forall|other: CommandAuditInvocationView| #[trigger]
            audit_invocation_carries(*value, other) implies
            !audit_invocation_valid(other) by {
            target_list_form_is_exact(value.targets@, target_views(targets@), other.targets);
        }
        return Err(DurableCodecError::corrupt());
    }
    let approval_id = optional_text_from_wire(&value.approval_id)?;
    let started_sequence = require(Id64::new(value.started_administration_sequence))?;
    let started_at = timestamp_from_proto(require_ref(&value.started_at)?)?;
    let terminal_sequence = require(Id64::new(value.terminal_administration_sequence))?;
    let terminal_at = timestamp_from_proto(require_ref(&value.terminal_at)?)?;
    Ok(
        CommandAuditInvocation {
            request_id,
            operation,
            principal,
            ingress,
            targets,
            approval_id,
            started_sequence,
            started_at,
            terminal_sequence,
            terminal_at,
        },
    )
}

/// Reading the message form of the audited invocation of a command gives back what was written.
pub proof fn audit_invocation_round_trip(
    value: CommandAuditInvocationView,
    message: wire::StoredCommandAuditInvocationV1,
    read: Result<CommandAuditInvocation, DurableCodecError>,
)
    requires
        audit_invocation_valid(value),
        audit_invocation_carries(message, value),
        audit_invocation_read(message, read),
    ensures
        read is Ok,
        read->Ok_0@ == value,
{
    if let Ok(held) = read {
        audit_invocation_form_is_exact(message, held@, value);
    }
}

/// Whether a message is the form of a successful command apart from its audit.
pub open spec fn capsule_head_carries(
    message: wire::CommandCapsuleHeadV1,
    value: CapsuleHeadView,
) -> bool {
    &&& (message.identity matches Some(part) && identity_carries(part, value.identity))
    &&& commit_parts_carries(message.parts, value.parts)
    &&& (message.admitted_claims matches Some(part) && claims_carries(part, value.admitted_claims))
    &&& key_carries(message.partition_key, value.partition_key)
    &&& optional_causation_carries(message.causation, value.causation)
    &&& entity_reference_list_carries(message.entity_references@, value.entity_references)
    &&& event_reference_list_carries(message.event_references@, value.event_references)
}

/// The parts of a successful command apart from its audit are valid.
pub open spec fn capsule_head_valid(value: CapsuleHeadView) -> bool {
    &&& identity_valid(value.identity)
    &&& commit_parts_valid(value.parts)
    &&& (value.causation matches Some(part) ==> causation_valid(part))
    &&& entity_reference_list_valid(value.entity_references)
    &&& event_reference_list_valid(value.event_references)
}

/// A message is the form of at most one value.
pub proof fn capsule_head_form_is_exact(
    message: wire::CommandCapsuleHeadV1,
    a: CapsuleHeadView,
    b: CapsuleHeadView,
)
    requires
        capsule_head_carries(message, a),
        capsule_head_carries(message, b),
        capsule_head_valid(a),
        capsule_head_valid(b),
    ensures
        a == b,
{
    identity_form_is_exact(message.identity->Some_0, a.identity, b.identity);
    commit_parts_form_is_exact(message.parts, a.parts, b.parts);
    claims_form_is_exact(message.admitted_claims->Some_0, a.admitted_claims, b.admitted_claims);
    if a.causation is Some {
        causation_form_is_exact(
            message.causation->Some_0,
            a.causation->Some_0,
            b.causation->Some_0,
        );
    }
    entity_reference_list_form_is_exact(
        message.entity_references@,
        a.entity_references,
        b.entity_references,
    );
    event_reference_list_form_is_exact(
        message.event_references@,
        a.event_references,
        b.event_references,
    );
}

/// The message form of a successful command apart from its audit.
pub fn capsule_head_to_proto(value: &CapsuleHead) -> (result: wire::CommandCapsuleHeadV1)
    ensures
        capsule_head_carries(result, value@),
{
    wire::CommandCapsuleHeadV1 {
        identity: Some(identity_to_proto(&value.identity)),
        parts: commit_parts_to_proto(&value.parts),
        admitted_claims: Some(claims_to_proto(&value.admitted_claims)),
        partition_key: key_to_wire(&value.partition_key),
        causation: optional_causation_to_proto(&value.causation),
        entity_references: entity_reference_list_to_proto(&value.entity_references),
        event_references: event_reference_list_to_proto(&value.event_references),
    }
}

/// Whether a message holds the parts of a command beside those of its commit.
pub open spec fn head_rest_carries(
    message: wire::CommandCapsuleHeadV1,
    value: CapsuleHeadView,
) -> bool {
    &&& (message.identity matches Some(part) && identity_carries(part, value.identity))
    &&& (message.admitted_claims matches Some(part) && claims_carries(part, value.admitted_claims))
    &&& key_carries(message.partition_key, value.partition_key)
    &&& optional_causation_carries(message.causation, value.causation)
    &&& entity_reference_list_carries(message.entity_references@, value.entity_references)
    &&& event_reference_list_carries(message.event_references@, value.event_references)
}

/// The parts of a command beside those of its commit are valid.
pub open spec fn head_rest_valid(value: CapsuleHeadView) -> bool {
    &&& identity_valid(value.identity)
    &&& (value.causation matches Some(part) ==> causation_valid(part))
    &&& entity_reference_list_valid(value.entity_references)
    &&& event_reference_list_valid(value.event_references)
}

/// Whether the read dependencies of a command are refused for a limit, and all its other
/// parts, which are read before them, are sound.
pub open spec fn capsule_head_over_limit(message: wire::CommandCapsuleHeadV1) -> bool {
    &&& commit_parts_over_limit(message.parts)
    &&& commit_tail_readable(message.parts)
    &&& exists|rest: CapsuleHeadView| #[trigger]
        head_rest_carries(message, rest) && head_rest_valid(rest)
}

/// What reading a message gives: the value that it is the form of, or why it is the form
/// of no valid one.
pub open spec fn capsule_head_read(
    message: wire::CommandCapsuleHeadV1,
    result: Result<CapsuleHead, DurableCodecError>,
) -> bool {
    match result {
        Ok(held) => capsule_head_carries(message, held@) && capsule_head_valid(held@),
        Err(error) => error.kind == unread_failure(capsule_head_over_limit(message)) && forall|
            other: CapsuleHeadView,
        | #[trigger]
            capsule_head_carries(message, other) ==> !capsule_head_valid(other),
    }
}

/// Reads a successful command apart from its audit.
pub fn capsule_head_from_proto(value: &wire::CommandCapsuleHeadV1) -> (result: Result<
    CapsuleHead,
    DurableCodecError,
>)
    ensures
        capsule_head_read(*value, result),
{
    let identity = identity_from_proto(require_ref(&value.identity)?)?;
    let admitted_claims = claims_from_proto(require_ref(&value.admitted_claims)?)?;
    let partition_key = key_from_wire(&value.partition_key)?;
    let causation = optional_causation_from_proto(&value.causation)?;
    let entity_references = entity_reference_list_from_proto(&value.entity_references)?;
    let event_references = event_reference_list_from_proto(&value.event_references)?;
    proof {
        let rest = CapsuleHeadView {
            identity: identity@,
            admitted_claims: admitted_claims@,
            partition_key: partition_key@,
            causation,
            entity_references: entity_reference_views(entity_references@),
            event_references: event_references@,
            ..arbitrary()
        };
        assert(head_rest_carries(*value, rest));
        assert(head_rest_valid(rest));
    }
    let parts = match commit_parts_from_proto(&value.parts) {
        Ok(parts) => parts,
        Err(error) => {
            assert forall|other: CapsuleHeadView| #[trigger]
                capsule_head_carries(*value, other) implies !capsule_head_valid(other) by {
                assert(commit_parts_carries(value.parts, other.parts));
            }
            check_commit_tail(&value.parts)?;
            return Err(error);
        },
    };
    Ok(
        CapsuleHead {
            identity,
            parts,
            admitted_claims,
            partition_key,
            causation,
            entity_references,
            event_references,
        },
    )
}

/// Reading the message form of a successful command apart from its audit gives back what
/// was written.
pub proof fn capsule_head_round_trip(
    value: CapsuleHeadView,
    message: wire::CommandCapsuleHeadV1,
    read: Result<CapsuleHead, DurableCodecError>,
)
    requires
        capsule_head_valid(value),
        capsule_head_carries(message, value),
        capsule_head_read(message, read),
    ensures
        read is Ok,
        read->Ok_0@ == value,
{
    if let Ok(held) = read {
        capsule_head_form_is_exact(message, held@, value);
    }
}

/// Whether a message value is the form of a command's audit member.
pub open spec fn audit_member_carries(
    message: wire::StoredCommandAuditMemberV1,
    value: StoredCommandAuditMemberV1,
) -> bool {
    match value {
        StoredCommandAuditMemberV1::Started => message is Started,
        StoredCommandAuditMemberV1::Terminal => message is Terminal,
    }
}

/// The message form of a command's audit member.
pub fn audit_member_to_proto(
    value: StoredCommandAuditMemberV1,
) -> (result: wire::StoredCommandAuditMemberV1)
    ensures
        audit_member_carries(result, value),
{
    match value {
        StoredCommandAuditMemberV1::Started => wire::StoredCommandAuditMemberV1::Started,
        StoredCommandAuditMemberV1::Terminal => wire::StoredCommandAuditMemberV1::Terminal,
    }
}

/// Reads a command's audit member.
pub fn audit_member_from_proto(value: wire::StoredCommandAuditMemberV1) -> (result: Result<
    StoredCommandAuditMemberV1,
    DurableCodecError,
>)
    ensures
        match result {
            Ok(held) => audit_member_carries(value, held),
            Err(error) => is_corrupt(error) && forall|other: StoredCommandAuditMemberV1|
                !#[trigger] audit_member_carries(value, other),
        },
{
    match value {
        wire::StoredCommandAuditMemberV1::Started => Ok(StoredCommandAuditMemberV1::Started),
        wire::StoredCommandAuditMemberV1::Terminal => Ok(StoredCommandAuditMemberV1::Terminal),
        wire::StoredCommandAuditMemberV1::Unspecified
            | wire::StoredCommandAuditMemberV1::Unrecognized => Err(
            DurableCodecError::corrupt(),
        ),
    }
}

/// Whether a message is the form of a locator of a successful command.
pub open spec fn command_locator_carries(
    message: wire::StoredCommandLocatorV1,
    value: StoredCommandLocatorV1,
) -> bool {
    &&& message.commit_sequence == value.commit_sequence.value
}

/// The parts of a locator of a successful command are valid.
pub open spec fn command_locator_valid(value: StoredCommandLocatorV1) -> bool {
    &&& value.commit_sequence.valid()
}

/// A message is the form of at most one value.
pub proof fn command_locator_form_is_exact(
    message: wire::StoredCommandLocatorV1,
    a: StoredCommandLocatorV1,
    b: StoredCommandLocatorV1,
)
    requires
        command_locator_carries(message, a),
        command_locator_carries(message, b),
    ensures
        a == b,
{
}

/// The message form of a locator of a successful command.
pub fn command_locator_to_proto(
    value: StoredCommandLocatorV1,
) -> (result: wire::StoredCommandLocatorV1)
    ensures
        command_locator_carries(result, value),
{
    wire::StoredCommandLocatorV1 {
        commit_sequence: value.commit_sequence.get(),
    }
}

/// What reading a message gives: the value that it is the form of, or a
/// corruption where it is the form of no valid one.
pub open spec fn command_locator_read(
    message: wire::StoredCommandLocatorV1,
    result: Result<StoredCommandLocatorV1, DurableCodecError>,
) -> bool {
    match result {
        Ok(held) => command_locator_carries(message, held) && command_locator_valid(held),
        Err(error) => is_corrupt(error) && forall|other: StoredCommandLocatorV1| #[trigger]
            command_locator_carries(message, other) ==> !command_locator_valid(other),
    }
}

/// Reads a locator of a successful command.
pub fn command_locator_from_proto(value: &wire::StoredCommandLocatorV1) -> (result: Result<
    StoredCommandLocatorV1,
    DurableCodecError,
>)
    ensures
        command_locator_read(*value, result),
{
    let commit_sequence = require(CommitSequence::new(value.commit_sequence))?;
    Ok(StoredCommandLocatorV1 { commit_sequence })
}

/// Reading the message form of a locator of a successful command gives back what was written.
pub proof fn command_locator_round_trip(
    value: StoredCommandLocatorV1,
    message: wire::StoredCommandLocatorV1,
    read: Result<StoredCommandLocatorV1, DurableCodecError>,
)
    requires
        command_locator_valid(value),
        command_locator_carries(message, value),
        command_locator_read(message, read),
    ensures
        read is Ok,
        read->Ok_0 == value,
{
    if let Ok(held) = read {
        command_locator_form_is_exact(message, held, value);
    }
}

/// Whether a message is the form of a locator of a command's audit record.
pub open spec fn audit_locator_carries(
    message: wire::StoredCommandAuditLocatorV1,
    value: StoredCommandAuditLocatorV1,
) -> bool {
    &&& message.commit_sequence == value.commit_sequence.value
    &&& audit_member_carries(message.member, value.member)
}

/// The parts of a locator of a command's audit record are valid.
pub open spec fn audit_locator_valid(value: StoredCommandAuditLocatorV1) -> bool {
    &&& value.commit_sequence.valid()
}

/// A message is the form of at most one value.
pub proof fn audit_locator_form_is_exact(
    message: wire::StoredCommandAuditLocatorV1,
    a: StoredCommandAuditLocatorV1,
    b: StoredCommandAuditLocatorV1,
)
    requires
        audit_locator_carries(message, a),
        audit_locator_carries(message, b),
    ensures
        a == b,
{
}

/// The message form of a locator of a command's audit record.
pub fn audit_locator_to_proto(
    value: StoredCommandAuditLocatorV1,
) -> (result: wire::StoredCommandAuditLocatorV1)
    ensures
        audit_locator_carries(result, value),
{
    wire::StoredCommandAuditLocatorV1 {
        commit_sequence: value.commit_sequence.get(),
        member: audit_member_to_proto(value.member),
    }
}

/// What reading a message gives: the value that it is the form of, or a
/// corruption where it is the form of no valid one.
pub open spec fn audit_locator_read(
    message: wire::StoredCommandAuditLocatorV1,
    result: Result<StoredCommandAuditLocatorV1, DurableCodecError>,
) -> bool {
    match result {
        Ok(held) => audit_locator_carries(message, held) && audit_locator_valid(held),
        Err(error) => is_corrupt(error) && forall|other: StoredCommandAuditLocatorV1| #[trigger]
            audit_locator_carries(message, other) ==> !audit_locator_valid(other),
    }
}

/// Reads a locator of a command's audit record.
pub fn audit_locator_from_proto(value: &wire::StoredCommandAuditLocatorV1) -> (result: Result<
    StoredCommandAuditLocatorV1,
    DurableCodecError,
>)
    ensures
        audit_locator_read(*value, result),
{
    let commit_sequence = require(CommitSequence::new(value.commit_sequence))?;
    let member = audit_member_from_proto(value.member)?;
    Ok(StoredCommandAuditLocatorV1 { commit_sequence, member })
}

/// Reading the message form of a locator of a command's audit record gives back what was written.
pub proof fn audit_locator_round_trip(
    value: StoredCommandAuditLocatorV1,
    message: wire::StoredCommandAuditLocatorV1,
    read: Result<StoredCommandAuditLocatorV1, DurableCodecError>,
)
    requires
        audit_locator_valid(value),
        audit_locator_carries(message, value),
        audit_locator_read(message, read),
    ensures
        read is Ok,
        read->Ok_0 == value,
{
    if let Ok(held) = read {
        audit_locator_form_is_exact(message, held, value);
    }
}

/// Encodes one successful-command lookup locator.
pub fn encode_command_locator_v1(value: StoredCommandLocatorV1) -> (result: OutgoingRecord<
    wire::StoredCommandLocatorV1,
>)
    ensures
        result.record_type == RecordType::StoredCommandLocatorV1,
        command_locator_carries(result.message, value),
{
    OutgoingRecord {
        record_type: RecordType::StoredCommandLocatorV1,
        message: command_locator_to_proto(value),
    }
}

/// Whether a message is the form of some valid value.
pub open spec fn command_locator_readable(message: wire::StoredCommandLocatorV1) -> bool {
    exists|value: StoredCommandLocatorV1| #[trigger] command_locator_carries(message, value)
        && command_locator_valid(value)
}

/// Decodes one successful-command lookup locator.
pub fn decode_command_locator_v1(
    attempt: ReadAttempt<wire::StoredCommandLocatorV1>,
) -> (result: Result<EncodedPageItem<StoredCommandLocatorV1>, DurableCodecError>)
    ensures
        match read_outcome(RecordType::StoredCommandLocatorV1, attempt) {
            Err(kind) => result == Err::<EncodedPageItem<StoredCommandLocatorV1>, _>(
                DurableCodecError { kind },
            ),
            Ok(message) => match refusal_of(
                command_locator_readable(message),
                None,
                attempt.encoded_len,
            ) {
                Some(kind) => result == Err::<EncodedPageItem<StoredCommandLocatorV1>, _>(
                    DurableCodecError { kind },
                ),
                None => result is Ok && command_locator_carries(message, result->Ok_0.value)
                    && command_locator_valid(result->Ok_0.value)
                    && result->Ok_0.charge.bytes == attempt.encoded_len,
            },
        },
{
    let encoded_len = attempt.encoded_len;
    let message = read_message(RecordType::StoredCommandLocatorV1, attempt)?;
    let value = command_locator_from_proto(&message)?;
    admitted_item(value, None, encoded_len)
}

/// Encodes one command-owned audit locator.
pub fn encode_command_audit_locator_v1(
    value: StoredCommandAuditLocatorV1,
) -> (result: OutgoingRecord<
    wire::StoredCommandAuditLocatorV1,
>)
    ensures
        result.record_type == RecordType::StoredCommandAuditLocatorV1,
        audit_locator_carries(result.message, value),
{
    OutgoingRecord {
        record_type: RecordType::StoredCommandAuditLocatorV1,
        message: audit_locator_to_proto(value),
    }
}

/// Whether a message is the form of some valid value.
pub open spec fn audit_locator_readable(message: wire::StoredCommandAuditLocatorV1) -> bool {
    exists|value: StoredCommandAuditLocatorV1| #[trigger] audit_locator_carries(message, value)
        && audit_locator_valid(value)
}

/// Decodes one command-owned audit locator.
pub fn decode_command_audit_locator_v1(
    attempt: ReadAttempt<wire::StoredCommandAuditLocatorV1>,
) -> (result: Result<EncodedPageItem<StoredCommandAuditLocatorV1>, DurableCodecError>)
    ensures
        match read_outcome(RecordType::StoredCommandAuditLocatorV1, attempt) {
            Err(kind) => result == Err::<EncodedPageItem<StoredCommandAuditLocatorV1>, _>(
                DurableCodecError { kind },
            ),
            Ok(message) => match refusal_of(
                audit_locator_readable(message),
                None,
                attempt.encoded_len,
            ) {
                Some(kind) => result == Err::<EncodedPageItem<StoredCommandAuditLocatorV1>, _>(
                    DurableCodecError { kind },
                ),
                None => result is Ok && audit_locator_carries(message, result->Ok_0.value)
                    && audit_locator_valid(result->Ok_0.value)
                    && result->Ok_0.charge.bytes == attempt.encoded_len,
            },
        },
{
    let encoded_len = attempt.encoded_len;
    let message = read_message(RecordType::StoredCommandAuditLocatorV1, attempt)?;
    let value = audit_locator_from_proto(&message)?;
    admitted_item(value, None, encoded_len)
}

} // verus!
