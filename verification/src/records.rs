//! The two record types of the ledger, their mathematical models, and the
//! single domain error.

use vstd::prelude::*;

verus! {

/// An engagement contract between an attorney and a client. Stored verbatim:
/// no field is validated or derived. Immutable once stored.
#[derive(Debug)]
pub struct Contract {
    pub attorney_name: String,
    pub client_name: String,
    pub institution: String,
    /// The unique key under which the contract is stored.
    pub case_number: String,
    pub contract_fee: u64,
    pub payment_method: String,
    pub penalty_clause: String,
    pub dispute_resolution: String,
}

/// Mathematical model of a [`Contract`]: each text field as a sequence of
/// characters.
pub ghost struct ContractView {
    pub attorney_name: Seq<char>,
    pub client_name: Seq<char>,
    pub institution: Seq<char>,
    pub case_number: Seq<char>,
    pub contract_fee: u64,
    pub payment_method: Seq<char>,
    pub penalty_clause: Seq<char>,
    pub dispute_resolution: Seq<char>,
}

impl View for Contract {
    type V = ContractView;

    open spec fn view(&self) -> ContractView {
        ContractView {
            attorney_name: self.attorney_name@,
            client_name: self.client_name@,
            institution: self.institution@,
            case_number: self.case_number@,
            contract_fee: self.contract_fee,
            payment_method: self.payment_method@,
            penalty_clause: self.penalty_clause@,
            dispute_resolution: self.dispute_resolution@,
        }
    }
}

impl Clone for Contract {
    fn clone(&self) -> (r: Self)
        ensures
            r@ == self@,
    {
        Contract {
            attorney_name: self.attorney_name.clone(),
            client_name: self.client_name.clone(),
            institution: self.institution.clone(),
            case_number: self.case_number.clone(),
            contract_fee: self.contract_fee,
            payment_method: self.payment_method.clone(),
            penalty_clause: self.penalty_clause.clone(),
            dispute_resolution: self.dispute_resolution.clone(),
        }
    }
}

/// A client's consultation appointment. The fee is computed once, at
/// creation, and never recomputed. Immutable once stored.
#[derive(Debug)]
pub struct Appointment {
    /// The unique key under which the appointment is stored.
    pub client_name: String,
    pub consultation_topic: String,
    /// An opaque text timestamp; never parsed or compared.
    pub start_date: String,
    /// Duration of the consultation in minutes.
    pub total_duration: u64,
    /// The fee derived from `total_duration` at creation.
    pub consultation_fee: u64,
    pub payment_method: String,
    /// Free-text category, e.g. "online" or "in-person".
    pub consultation_type: String,
}

/// Mathematical model of an [`Appointment`].
pub ghost struct AppointmentView {
    pub client_name: Seq<char>,
    pub consultation_topic: Seq<char>,
    pub start_date: Seq<char>,
    pub total_duration: u64,
    pub consultation_fee: u64,
    pub payment_method: Seq<char>,
    pub consultation_type: Seq<char>,
}

impl View for Appointment {
    type V = AppointmentView;

    open spec fn view(&self) -> AppointmentView {
        AppointmentView {
            client_name: self.client_name@,
            consultation_topic: self.consultation_topic@,
            start_date: self.start_date@,
            total_duration: self.total_duration,
            consultation_fee: self.consultation_fee,
            payment_method: self.payment_method@,
            consultation_type: self.consultation_type@,
        }
    }
}

impl Clone for Appointment {
    fn clone(&self) -> (r: Self)
        ensures
            r@ == self@,
    {
        Appointment {
            client_name: self.client_name.clone(),
            consultation_topic: self.consultation_topic.clone(),
            start_date: self.start_date.clone(),
            total_duration: self.total_duration,
            consultation_fee: self.consultation_fee,
            payment_method: self.payment_method.clone(),
            consultation_type: self.consultation_type.clone(),
        }
    }
}

/// A record as the store holds it: either kind may sit under any key, and
/// the store itself does not keep the two keyspaces apart.
#[derive(Debug)]
pub enum Record {
    Contract(Contract),
    Appointment(Appointment),
}

/// Mathematical model of a [`Record`].
pub ghost enum RecordView {
    Contract(ContractView),
    Appointment(AppointmentView),
}

impl View for Record {
    type V = RecordView;

    open spec fn view(&self) -> RecordView {
        match self {
            Record::Contract(c) => RecordView::Contract(c@),
            Record::Appointment(a) => RecordView::Appointment(a@),
        }
    }
}

impl Clone for Record {
    fn clone(&self) -> (r: Self)
        ensures
            r@ == self@,
    {
        match self {
            Record::Contract(c) => Record::Contract(c.clone()),
            Record::Appointment(a) => Record::Appointment(a.clone()),
        }
    }
}

/// The only domain error: an appointment already exists under the client's
/// key, so the requested booking is refused.
#[derive(Clone, Copy, Debug, PartialEq, Eq, Structural)]
pub struct BookingConflict;

impl BookingConflict {
    /// The human-readable description of the conflict.
    pub fn message(&self) -> (s: String)
        ensures
            s@ == "Appointment time is already booked."@,
    {
        "Appointment time is already booked.".to_owned()
    }
}

} // verus!
