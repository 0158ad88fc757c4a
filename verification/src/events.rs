//! Announcements of the contract.

use crate::data::{Address, Bytes, Text};
use crate::types::{
    AnchorServices, AnchorServicesView, ComplianceCheck, ComplianceCheckView, EndpointUpdated,
    EndpointUpdatedView, WebhookEvent, WebhookEventView,
};
use vstd::prelude::*;

verus! {

/// Something the contract has announced.
#[derive(Clone, Debug, PartialEq)]
pub enum Event {
    /// The contract runs new code.
    ContractUpgraded {
        old_wasm_hash: [u8; 32],
        new_wasm_hash: [u8; 32],
        new_major: u32,
        new_minor: u32,
        new_patch: u32,
        upgraded_at: u64,
    },
    /// An attestor was registered.
    AttestorAdded { attestor: Address },
    /// An attestor was revoked.
    AttestorRemoved { attestor: Address },
    /// An attestor changed its endpoint.
    EndpointUpdated { update: EndpointUpdated },
    /// An attestor registered a webhook.
    WebhookRegistered { update: EndpointUpdated },
    /// An anchor configured its services.
    ServicesConfigured { services: AnchorServices },
    /// An attestation was stored.
    AttestationRecorded { id: u64, subject: Address, payload_hash: Bytes, timestamp: u64 },
    /// A notice for webhooks.
    Webhook { notice: WebhookEvent },
    /// A KYC review was opened.
    KycSubmitted { subject: Address, notice: WebhookEvent },
    /// A KYC review was approved.
    KycApproved { subject: Address, notice: WebhookEvent },
    /// A KYC review was rejected.
    KycRejected { subject: Address, notice: WebhookEvent },
    /// A compliance check was recorded.
    ComplianceChecked { subject: Address, check: ComplianceCheck },
    /// A session was opened.
    SessionCreated { session_id: u64, initiator: Address, timestamp: u64 },
    /// A session was closed.
    SessionClosed { session_id: u64, initiator: Address, timestamp: u64 },
    /// A quote was published.
    QuoteSubmitted {
        quote_id: u64,
        anchor: Address,
        base_asset: Text,
        quote_asset: Text,
        rate: u64,
        valid_until: u64,
    },
    /// A quote was picked up.
    QuoteReceived { quote_id: u64, receiver: Address, timestamp: u64 },
    /// A quote was accepted.
    QuoteAccepted { quote_id: u64, receiver: Address, timestamp: u64 },
    /// An audit entry was written.
    AuditLogged {
        log_id: u64,
        session_id: u64,
        operation_index: u64,
        operation_type: Text,
        status: Text,
    },
    /// An anchor was excluded from routing.
    AnchorBlacklisted { anchor: Address, timestamp: u64 },
    /// An anchor was readmitted to routing.
    AnchorCleared { anchor: Address, timestamp: u64 },
}

/// The content of an [`Event`].
pub enum EventView {
    ContractUpgraded {
        old_wasm_hash: Seq<u8>,
        new_wasm_hash: Seq<u8>,
        new_major: u32,
        new_minor: u32,
        new_patch: u32,
        upgraded_at: u64,
    },
    AttestorAdded { attestor: Seq<u8> },
    AttestorRemoved { attestor: Seq<u8> },
    EndpointUpdated { update: EndpointUpdatedView },
    WebhookRegistered { update: EndpointUpdatedView },
    ServicesConfigured { services: AnchorServicesView },
    AttestationRecorded { id: u64, subject: Seq<u8>, payload_hash: Seq<u8>, timestamp: u64 },
    Webhook { notice: WebhookEventView },
    KycSubmitted { subject: Seq<u8>, notice: WebhookEventView },
    KycApproved { subject: Seq<u8>, notice: WebhookEventView },
    KycRejected { subject: Seq<u8>, notice: WebhookEventView },
    ComplianceChecked { subject: Seq<u8>, check: ComplianceCheckView },
    SessionCreated { session_id: u64, initiator: Seq<u8>, timestamp: u64 },
    SessionClosed { session_id: u64, initiator: Seq<u8>, timestamp: u64 },
    QuoteSubmitted {
        quote_id: u64,
        anchor: Seq<u8>,
        base_asset: Seq<u8>,
        quote_asset: Seq<u8>,
        rate: u64,
        valid_until: u64,
    },
    QuoteReceived { quote_id: u64, receiver: Seq<u8>, timestamp: u64 },
    QuoteAccepted { quote_id: u64, receiver: Seq<u8>, timestamp: u64 },
    AuditLogged {
        log_id: u64,
        session_id: u64,
        operation_index: u64,
        operation_type: Seq<u8>,
        status: Seq<u8>,
    },
    AnchorBlacklisted { anchor: Seq<u8>, timestamp: u64 },
    AnchorCleared { anchor: Seq<u8>, timestamp: u64 },
}

impl View for Event {
    type V = EventView;

    open spec fn view(&self) -> EventView {
        match self {
            Event::ContractUpgraded {
                old_wasm_hash,
                new_wasm_hash,
                new_major,
                new_minor,
                new_patch,
                upgraded_at,
            } => EventView::ContractUpgraded {
                old_wasm_hash: old_wasm_hash@,
                new_wasm_hash: new_wasm_hash@,
                new_major: *new_major,
                new_minor: *new_minor,
                new_patch: *new_patch,
                upgraded_at: *upgraded_at,
            },
            Event::AttestorAdded { attestor } => EventView::AttestorAdded {
                attestor: attestor@,
            },
            Event::AttestorRemoved { attestor } => EventView::AttestorRemoved {
                attestor: attestor@,
            },
            Event::EndpointUpdated { update } => EventView::EndpointUpdated {
                update: update@,
            },
            Event::WebhookRegistered { update } => EventView::WebhookRegistered {
                update: update@,
            },
            Event::ServicesConfigured { services } => EventView::ServicesConfigured {
                services: services@,
            },
            Event::AttestationRecorded {
                id,
                subject,
                payload_hash,
                timestamp,
            } => EventView::AttestationRecorded {
                id: *id,
                subject: subject@,
                payload_hash: payload_hash@,
                timestamp: *timestamp,
            },
            Event::Webhook { notice } => EventView::Webhook {
                notice: notice@,
            },
            Event::KycSubmitted { subject, notice } => EventView::KycSubmitted {
                subject: subject@,
                notice: notice@,
            },
            Event::KycApproved { subject, notice } => EventView::KycApproved {
                subject: subject@,
                notice: notice@,
            },
            Event::KycRejected { subject, notice } => EventView::KycRejected {
                subject: subject@,
                notice: notice@,
            },
            Event::ComplianceChecked { subject, check } => EventView::ComplianceChecked {
                subject: subject@,
                check: check@,
            },
            Event::SessionCreated {
                session_id,
                initiator,
                timestamp,
            } => EventView::SessionCreated {
                session_id: *session_id,
                initiator: initiator@,
                timestamp: *timestamp,
            },
            Event::SessionClosed { session_id, initiator, timestamp } => EventView::SessionClosed {
                session_id: *session_id,
                initiator: initiator@,
                timestamp: *timestamp,
            },
            Event::QuoteSubmitted {
                quote_id,
                anchor,
                base_asset,
                quote_asset,
                rate,
                valid_until,
            } => EventView::QuoteSubmitted {
                quote_id: *quote_id,
                anchor: anchor@,
                base_asset: base_asset@,
                quote_asset: quote_asset@,
                rate: *rate,
                valid_until: *valid_until,
            },
            Event::QuoteReceived { quote_id, receiver, timestamp } => EventView::QuoteReceived {
                quote_id: *quote_id,
                receiver: receiver@,
                timestamp: *timestamp,
            },
            Event::QuoteAccepted { quote_id, receiver, timestamp } => EventView::QuoteAccepted {
                quote_id: *quote_id,
                receiver: receiver@,
                timestamp: *timestamp,
            },
            Event::AuditLogged {
                log_id,
                session_id,
                operation_index,
                operation_type,
                status,
            } => EventView::AuditLogged {
                log_id: *log_id,
                session_id: *session_id,
                operation_index: *operation_index,
                operation_type: operation_type@,
                status: status@,
            },
            Event::AnchorBlacklisted { anchor, timestamp } => EventView::AnchorBlacklisted {
                anchor: anchor@,
                timestamp: *timestamp,
            },
            Event::AnchorCleared { anchor, timestamp } => EventView::AnchorCleared {
                anchor: anchor@,
                timestamp: *timestamp,
            },
        }
    }
}

impl EventView {
    /// The pair of symbols under which the event is published.
    pub open spec fn topic(self) -> (Seq<char>, Seq<char>) {
        match self {
            EventView::ContractUpgraded { .. } => ("contract"@, "upgraded"@),
            EventView::AttestorAdded { .. } => ("attestor"@, "added"@),
            EventView::AttestorRemoved { .. } => ("attestor"@, "removed"@),
            EventView::EndpointUpdated { .. } => ("endpoint"@, "updated"@),
            EventView::WebhookRegistered { .. } => ("webhook"@, "reg"@),
            EventView::ServicesConfigured { .. } => ("services"@, "config"@),
            EventView::AttestationRecorded { .. } => ("attest"@, "recorded"@),
            EventView::Webhook { .. } => ("webhook"@, "event"@),
            EventView::KycSubmitted { .. } => ("kyc"@, "submitted"@),
            EventView::KycApproved { .. } => ("kyc"@, "approved"@),
            EventView::KycRejected { .. } => ("kyc"@, "rejected"@),
            EventView::ComplianceChecked { .. } => ("comp"@, "checked"@),
            EventView::SessionCreated { .. } => ("session"@, "created"@),
            EventView::SessionClosed { .. } => ("session"@, "closed"@),
            EventView::QuoteSubmitted { .. } => ("quote"@, "submit"@),
            EventView::QuoteReceived { .. } => ("quote"@, "received"@),
            EventView::QuoteAccepted { .. } => ("quote"@, "accepted"@),
            EventView::AuditLogged { .. } => ("audit"@, "logged"@),
            EventView::AnchorBlacklisted { .. } => ("blacklist"@, "added"@),
            EventView::AnchorCleared { .. } => ("blacklist"@, "removed"@),
        }
    }
}

impl Event {
    /// The pair of symbols under which the event is published.
    pub fn topic(&self) -> (r: (&'static str, &'static str))
        ensures
            (r.0@, r.1@) == self@.topic(),
    {
        match self {
            Event::ContractUpgraded { .. } => ("contract", "upgraded"),
            Event::AttestorAdded { .. } => ("attestor", "added"),
            Event::AttestorRemoved { .. } => ("attestor", "removed"),
            Event::EndpointUpdated { .. } => ("endpoint", "updated"),
            Event::WebhookRegistered { .. } => ("webhook", "reg"),
            Event::ServicesConfigured { .. } => ("services", "config"),
            Event::AttestationRecorded { .. } => ("attest", "recorded"),
            Event::Webhook { .. } => ("webhook", "event"),
            Event::KycSubmitted { .. } => ("kyc", "submitted"),
            Event::KycApproved { .. } => ("kyc", "approved"),
            Event::KycRejected { .. } => ("kyc", "rejected"),
            Event::ComplianceChecked { .. } => ("comp", "checked"),
            Event::SessionCreated { .. } => ("session", "created"),
            Event::SessionClosed { .. } => ("session", "closed"),
            Event::QuoteSubmitted { .. } => ("quote", "submit"),
            Event::QuoteReceived { .. } => ("quote", "received"),
            Event::QuoteAccepted { .. } => ("quote", "accepted"),
            Event::AuditLogged { .. } => ("audit", "logged"),
            Event::AnchorBlacklisted { .. } => ("blacklist", "added"),
            Event::AnchorCleared { .. } => ("blacklist", "removed"),
        }
    }
}

/// Each kind of event is published under its own name: what it is about, and what
/// happened to it.
pub proof fn topics_name_the_event(event: EventView)
    ensures
        event is ContractUpgraded ==> event.topic() == ("contract"@, "upgraded"@),
        event is AttestorAdded ==> event.topic() == ("attestor"@, "added"@),
        event is AttestorRemoved ==> event.topic() == ("attestor"@, "removed"@),
        event is EndpointUpdated ==> event.topic() == ("endpoint"@, "updated"@),
        event is WebhookRegistered ==> event.topic() == ("webhook"@, "reg"@),
        event is ServicesConfigured ==> event.topic() == ("services"@, "config"@),
        event is AttestationRecorded ==> event.topic() == ("attest"@, "recorded"@),
        event is Webhook ==> event.topic() == ("webhook"@, "event"@),
        event is KycSubmitted ==> event.topic() == ("kyc"@, "submitted"@),
        event is KycApproved ==> event.topic() == ("kyc"@, "approved"@),
        event is KycRejected ==> event.topic() == ("kyc"@, "rejected"@),
        event is ComplianceChecked ==> event.topic() == ("comp"@, "checked"@),
        event is SessionCreated ==> event.topic() == ("session"@, "created"@),
        event is SessionClosed ==> event.topic() == ("session"@, "closed"@),
        event is QuoteSubmitted ==> event.topic() == ("quote"@, "submit"@),
        event is QuoteReceived ==> event.topic() == ("quote"@, "received"@),
        event is QuoteAccepted ==> event.topic() == ("quote"@, "accepted"@),
        event is AuditLogged ==> event.topic() == ("audit"@, "logged"@),
        event is AnchorBlacklisted ==> event.topic() == ("blacklist"@, "added"@),
        event is AnchorCleared ==> event.topic() == ("blacklist"@, "removed"@),
{
}

} // verus!
