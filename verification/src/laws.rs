//! Laws of the ledger that relate several operations, stated over the store
//! model that the operations' own contracts speak of.

use vstd::prelude::*;
use crate::records::{AppointmentView, ContractView, RecordView};
use crate::registry::{appointment_at, contract_at};

verus! {

/// Law: after a successful booking, the store maps the client's key to the
/// new appointment. By `create_appointment`'s contract, every later booking
/// under the same key — whatever its other fields — therefore fails with a
/// conflict and leaves the store unchanged.
pub proof fn lemma_booking_uniqueness(m: Map<Seq<char>, RecordView>, booked: AppointmentView)
    ensures
        appointment_at(m.insert(booked.client_name, RecordView::Appointment(booked)),
            booked.client_name,
        ) == Some(booked),
{
}

/// Law: a write under one key never changes what is read under another key,
/// so a successful booking for one client cannot affect any other client's
/// appointment, nor any contract under a different identifier.
pub proof fn lemma_key_independence(
    m: Map<Seq<char>, RecordView>,
    written: Seq<char>,
    other: Seq<char>,
    value: RecordView,
)
    requires
        written != other,
    ensures
        appointment_at(m.insert(written, value), other) == appointment_at(m, other),
        contract_at(m.insert(written, value), other) == contract_at(m, other),
{
}

/// Law: storing a contract twice under one case number keeps only the second
/// record — contracts are overwritten, never refused.
pub proof fn lemma_contract_overwrite(
    m: Map<Seq<char>, RecordView>,
    case_number: Seq<char>,
    first: ContractView,
    second: ContractView,
)
    ensures
        contract_at(
            m.insert(case_number, RecordView::Contract(first)).insert(
                case_number,
                RecordView::Contract(second),
            ),
            case_number,
        ) == Some(second),
{
}

} // verus!
