//! The email reservation aggregate: one reserved address moves from a pending
//! verification code, through a verified address and an accepted profile, to a
//! created account.
use vstd::prelude::*;
use crate::domain::calendar::CalendarDate;
use crate::domain::calendar::Timestamp;
use crate::domain::user_account_id::UserAccountId;
use crate::text::{trim, trim_spec};

pub mod aggregate;
pub mod commands;
pub mod errors;
pub mod events;
pub mod laws;

verus! {

/// A registration profile as a reservation stores it.
#[derive(Debug, PartialEq, Eq)]
pub struct RegistrationProfile {
    pub first_name: String,
    pub last_name: String,
    pub date_of_birth: CalendarDate,
    pub validation_date: CalendarDate,
}

pub struct RegistrationProfileView {
    pub first_name: Seq<char>,
    pub last_name: Seq<char>,
    pub date_of_birth: CalendarDate,
    pub validation_date: CalendarDate,
}

impl View for RegistrationProfile {
    type V = RegistrationProfileView;

    open spec fn view(&self) -> RegistrationProfileView {
        RegistrationProfileView {
            first_name: self.first_name@,
            last_name: self.last_name@,
            date_of_birth: self.date_of_birth,
            validation_date: self.validation_date,
        }
    }
}

/// The profile with both names trimmed.
pub open spec fn normalized_profile(profile: RegistrationProfileView) -> RegistrationProfileView {
    RegistrationProfileView {
        first_name: trim_spec(profile.first_name),
        last_name: trim_spec(profile.last_name),
        ..profile
    }
}

impl RegistrationProfile {
    /// Builds a profile; surrounding whitespace of both names is removed.
    pub fn new(
        first_name: String,
        last_name: String,
        date_of_birth: CalendarDate,
        validation_date: CalendarDate,
    ) -> (profile: RegistrationProfile)
        ensures
            profile@ == normalized_profile(
                RegistrationProfileView {
                    first_name: first_name@,
                    last_name: last_name@,
                    date_of_birth,
                    validation_date,
                },
            ),
    {
        RegistrationProfile {
            first_name: trim(first_name.as_str()).to_owned(),
            last_name: trim(last_name.as_str()).to_owned(),
            date_of_birth,
            validation_date,
        }
    }

    pub fn duplicate(&self) -> (copy: RegistrationProfile)
        ensures
            copy@ == self@,
    {
        RegistrationProfile {
            first_name: self.first_name.clone(),
            last_name: self.last_name.clone(),
            date_of_birth: self.date_of_birth,
            validation_date: self.validation_date,
        }
    }

    pub fn same_profile(&self, other: &RegistrationProfile) -> (same: bool)
        ensures
            same == (self@ == other@),
    {
        self.first_name == other.first_name && self.last_name == other.last_name
            && self.date_of_birth.same_day(&other.date_of_birth)
            && self.validation_date.same_day(&other.validation_date)
    }
}

impl Clone for RegistrationProfile {
    fn clone(&self) -> (copy: Self)
        ensures
            copy@ == self@,
    {
        self.duplicate()
    }
}

/// Where a reservation stands.
#[derive(Clone, Debug, PartialEq, Eq)]
pub enum ReservationPhase {
    Absent,
    AwaitingCode { account_id: UserAccountId, verification_code: u32 },
    AwaitingProfile { account_id: UserAccountId, token_digest: String },
    CreatingAccount {
        account_id: UserAccountId,
        consumed_token_digest: String,
        accepted_profile: RegistrationProfile,
    },
    AccountCreated {
        account_id: UserAccountId,
        consumed_token_digest: String,
        accepted_profile: RegistrationProfile,
        created_at: Timestamp,
    },
}

pub enum ReservationPhaseView {
    Absent,
    AwaitingCode { account_id: UserAccountId, verification_code: u32 },
    AwaitingProfile { account_id: UserAccountId, token_digest: Seq<char> },
    CreatingAccount {
        account_id: UserAccountId,
        consumed_token_digest: Seq<char>,
        accepted_profile: RegistrationProfileView,
    },
    AccountCreated {
        account_id: UserAccountId,
        consumed_token_digest: Seq<char>,
        accepted_profile: RegistrationProfileView,
        created_at: Timestamp,
    },
}

impl View for ReservationPhase {
    type V = ReservationPhaseView;

    open spec fn view(&self) -> ReservationPhaseView {
        match self {
            ReservationPhase::Absent => ReservationPhaseView::Absent,
            ReservationPhase::AwaitingCode { account_id, verification_code } =>
                ReservationPhaseView::AwaitingCode {
                    account_id: *account_id,
                    verification_code: *verification_code,
                },
            ReservationPhase::AwaitingProfile { account_id, token_digest } =>
                ReservationPhaseView::AwaitingProfile {
                    account_id: *account_id,
                    token_digest: token_digest@,
                },
            ReservationPhase::CreatingAccount {
                account_id,
                consumed_token_digest,
                accepted_profile,
            } => ReservationPhaseView::CreatingAccount {
                account_id: *account_id,
                consumed_token_digest: consumed_token_digest@,
                accepted_profile: accepted_profile@,
            },
            ReservationPhase::AccountCreated {
                account_id,
                consumed_token_digest,
                accepted_profile,
                created_at,
            } => ReservationPhaseView::AccountCreated {
                account_id: *account_id,
                consumed_token_digest: consumed_token_digest@,
                accepted_profile: accepted_profile@,
                created_at: *created_at,
            },
        }
    }
}

/// The account ID that currently owns the reservation, if any.
pub open spec fn current_account_id(phase: ReservationPhaseView) -> Option<UserAccountId> {
    match phase {
        ReservationPhaseView::Absent => None,
        ReservationPhaseView::AwaitingCode { account_id, .. } => Some(account_id),
        ReservationPhaseView::AwaitingProfile { account_id, .. } => Some(account_id),
        ReservationPhaseView::CreatingAccount { account_id, .. } => Some(account_id),
        ReservationPhaseView::AccountCreated { account_id, .. } => Some(account_id),
    }
}

/// The aggregate's state.
#[derive(Debug, PartialEq, Eq)]
pub struct EmailReservation {
    phase: ReservationPhase,
}

impl View for EmailReservation {
    type V = ReservationPhaseView;

    closed spec fn view(&self) -> ReservationPhaseView {
        self.phase@
    }
}

impl EmailReservation {
    /// The state before any event: no reservation.
    pub fn new() -> (reservation: EmailReservation)
        ensures
            reservation@ == ReservationPhaseView::Absent,
    {
        EmailReservation { phase: ReservationPhase::Absent }
    }

    /// A reservation at a phase it reached before, as a snapshot stores it.
    pub fn restore(phase: ReservationPhase) -> (reservation: EmailReservation)
        ensures
            reservation@ == phase@,
    {
        EmailReservation { phase }
    }

    pub fn phase(&self) -> (phase: &ReservationPhase)
        ensures
            phase@ == self@,
    {
        &self.phase
    }

    pub fn account_id(&self) -> (account_id: Option<UserAccountId>)
        ensures
            account_id == current_account_id(self@),
    {
        match &self.phase {
            ReservationPhase::Absent => None,
            ReservationPhase::AwaitingCode { account_id, .. } => Some(*account_id),
            ReservationPhase::AwaitingProfile { account_id, .. } => Some(*account_id),
            ReservationPhase::CreatingAccount { account_id, .. } => Some(*account_id),
            ReservationPhase::AccountCreated { account_id, .. } => Some(*account_id),
        }
    }

    pub fn is_reserved(&self) -> (reserved: bool)
        ensures
            reserved == !(self@ is Absent),
    {
        match &self.phase {
            ReservationPhase::Absent => false,
            _ => true,
        }
    }
}

impl Default for EmailReservation {
    fn default() -> (reservation: Self)
        ensures
            reservation@ == ReservationPhaseView::Absent,
    {
        EmailReservation::new()
    }
}

} // verus!
