//! The two registries: contracts keyed by case number, appointments keyed by
//! client name, both over one shared store. Contracts are written
//! unconditionally, last write wins; a client may ever hold at most one
//! appointment, and a second booking under the same client key is refused.

use vstd::prelude::*;
use crate::fees::{calculate_fee, consultation_fee};
use crate::records::{
    Appointment,
    AppointmentView,
    BookingConflict,
    Contract,
    ContractView,
    Record,
    RecordView,
};
use crate::store::Store;

verus! {

/// The contract stored under `key` in the store modelled by `m`, where that
/// key holds a contract; nothing otherwise.
pub open spec fn contract_at(m: Map<Seq<char>, RecordView>, key: Seq<char>) -> Option<
    ContractView,
> {
    if m.contains_key(key) {
        match m[key] {
            RecordView::Contract(c) => Some(c),
            RecordView::Appointment(_) => None,
        }
    } else {
        None
    }
}

/// The appointment stored under `key` in the store modelled by `m`, where
/// that key holds an appointment; nothing otherwise.
pub open spec fn appointment_at(m: Map<Seq<char>, RecordView>, key: Seq<char>) -> Option<
    AppointmentView,
> {
    if m.contains_key(key) {
        match m[key] {
            RecordView::Contract(_) => None,
            RecordView::Appointment(a) => Some(a),
        }
    } else {
        None
    }
}

/// The outcome of a booking request: refused where the client already holds
/// an appointment, and priced by the duration rule otherwise.
///
/// This is the whole booking decision as a function of plain values, so a
/// host that keeps its records elsewhere can look up the client itself and
/// still take the verified rule from here.
pub fn appointment_outcome(already_booked: bool, total_duration: u64) -> (r: Result<
    u64,
    BookingConflict,
>)
    requires
        consultation_fee(total_duration as int) <= u64::MAX,
    ensures
        match r {
            Ok(fee) => !already_booked && fee == consultation_fee(total_duration as int),
            Err(_) => already_booked,
        },
{
    if already_booked {
        Err(BookingConflict)
    } else {
        Ok(calculate_fee(total_duration))
    }
}

/// The ledger's public surface: record registries over a shared store.
pub struct AttorneyClientContract;

impl AttorneyClientContract {
    /// Records an engagement contract verbatim under its case number,
    /// overwriting whatever record was stored there. Never fails.
    pub fn create_contract(
        store: &mut Store,
        attorney_name: String,
        client_name: String,
        institution: String,
        case_number: String,
        contract_fee: u64,
        payment_method: String,
        penalty_clause: String,
        dispute_resolution: String,
    )
        requires
            old(store).wf(),
        ensures
            final(store).wf(),
            final(store)@ == old(store)@.insert(
                case_number@,
                RecordView::Contract(
                    (ContractView {
                        attorney_name: attorney_name@,
                        client_name: client_name@,
                        institution: institution@,
                        case_number: case_number@,
                        contract_fee: contract_fee,
                        payment_method: payment_method@,
                        penalty_clause: penalty_clause@,
                        dispute_resolution: dispute_resolution@,
                    }),
                ),
            ),
    {
        let key = case_number.clone();
        let contract = Contract {
            attorney_name,
            client_name,
            institution,
            case_number,
            contract_fee,
            payment_method,
            penalty_clause,
            dispute_resolution,
        };
        store.set(key, Record::Contract(contract));
    }

    /// Returns the contract under `case_number`, or nothing where that key
    /// holds no contract. No side effects.
    pub fn get_contract(store: &Store, case_number: &String) -> (r: Option<Contract>)
        requires
            store.wf(),
        ensures
            match r {
                Some(c) => contract_at(store@, case_number@) == Some(c@),
                None => contract_at(store@, case_number@) is None,
            },
    {
        match store.get(case_number) {
            Some(Record::Contract(c)) => Some(c.clone()),
            _ => None,
        }
    }

    /// Books a consultation: where the client already holds an appointment
    /// the booking is refused and the store is left as it was; otherwise the
    /// fee is computed from the duration, the appointment is stored under the
    /// client's name, and the fee is returned.
    pub fn create_appointment(
        store: &mut Store,
        client_name: String,
        consultation_topic: String,
        start_date: String,
        total_duration: u64,
        payment_method: String,
        consultation_type: String,
    ) -> (r: Result<u64, BookingConflict>)
        requires
            old(store).wf(),
            consultation_fee(total_duration as int) <= u64::MAX,
        ensures
            final(store).wf(),
            match r {
                Ok(fee) => appointment_at(old(store)@, client_name@) is None && fee
                    == consultation_fee(total_duration as int) && final(store)@ == old(
                    store,
                )@.insert(
                    client_name@,
                    RecordView::Appointment(
                        (AppointmentView {
                            client_name: client_name@,
                            consultation_topic: consultation_topic@,
                            start_date: start_date@,
                            total_duration: total_duration,
                            consultation_fee: fee,
                            payment_method: payment_method@,
                            consultation_type: consultation_type@,
                        }),
                    ),
                ),
                Err(_) => appointment_at(old(store)@, client_name@) is Some && final(store)@
                    == old(store)@,
            },
    {
        let already_booked = match store.get(&client_name) {
            Some(Record::Appointment(_)) => true,
            _ => false,
        };
        match appointment_outcome(already_booked, total_duration) {
            Ok(fee) => {
                let appointment = Appointment {
                    client_name: client_name.clone(),
                    consultation_topic,
                    start_date,
                    total_duration,
                    consultation_fee: fee,
                    payment_method,
                    consultation_type,
                };
                store.set(client_name, Record::Appointment(appointment));
                Ok(fee)
            },
            Err(conflict) => Err(conflict),
        }
    }

    /// Returns the appointment under `client_name`, or nothing where that
    /// key holds no appointment. No side effects.
    pub fn get_appointment(store: &Store, client_name: &String) -> (r: Option<Appointment>)
        requires
            store.wf(),
        ensures
            match r {
                Some(a) => appointment_at(store@, client_name@) == Some(a@),
                None => appointment_at(store@, client_name@) is None,
            },
    {
        match store.get(client_name) {
            Some(Record::Appointment(a)) => Some(a.clone()),
            _ => None,
        }
    }
}

} // verus!
