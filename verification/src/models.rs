//! Plain data model of the surrounding application: equipment master data,
//! alarms, procedures, panel components and audit log rows. These records are
//! moved between the store, the UI and the verified core as values; the store
//! itself is an external collaborator.

use vstd::prelude::*;

verus! {

/// One equipment item of the plant's master data.
#[derive(Debug, Clone)]
pub struct Equipment {
    pub external_id: String,
    pub name: String,
    pub description: Option<String>,
    pub parent_id: Option<String>,
    pub type_field: Option<String>,
    pub subtype: Option<String>,
    pub system_code: Option<String>,
    pub sub_system: Option<String>,
    pub location: Option<String>,
    pub manufacturer: Option<String>,
    pub serial_number: Option<String>,
    pub tag_number: Option<String>,
    pub document_ref: Option<String>,
    pub coordinates: Option<String>,
    pub svg_layer: Option<String>,
    pub fire_zone: Option<String>,
    pub linked_parameters: Option<String>,
    pub status: Option<String>,
    pub version: i32,
    pub is_immutable: bool,
    pub approved_by: Option<String>,
    pub approved_at: Option<String>,
    pub commissioning_date: Option<String>,
    pub checksum: Option<String>,
    pub nominal_data: Option<String>,
}

/// A configured alarm definition.
#[derive(Debug, Clone)]
pub struct Alarm {
    pub code: String,
    pub equipment_id: String,
    pub severity: String,
    pub description: String,
    pub parameter: Option<String>,
    pub reset_procedure: Option<String>,
    pub standard_ref: Option<String>,
}

/// An operating procedure.
#[derive(Debug, Clone)]
pub struct Procedure {
    pub id: String,
    pub name: String,
    pub description: Option<String>,
    pub version: Option<String>,
    pub steps: Option<String>,
    pub category: Option<String>,
}

/// One persisted row of the audit log. `signature` chains this row to its
/// predecessor; see the audit module for the invariant.
#[derive(Debug, Clone)]
pub struct LogEntry {
    pub id: i64,
    pub timestamp: String,
    pub kind: String,
    pub source: String,
    pub message: String,
    pub equipment_id: Option<String>,
    pub signature: String,
}

/// A caller's request to append one audit log entry.
#[derive(Debug, Clone)]
pub struct NewLogEntry {
    pub kind: String,
    pub source: String,
    pub message: String,
    pub equipment_id: Option<String>,
}

/// Display placement of a panel component.
#[derive(Debug, Clone)]
pub struct ComponentUI {
    pub path: String,
    pub color: String,
    pub criticality_x: i32,
    pub criticality_y: i32,
}

/// One component of the operator panel's master data.
#[derive(Debug, Clone)]
pub struct Component {
    pub id: String,
    pub name: String,
    pub type_field: String,
    pub description: String,
    pub criticality: String,
    pub ui: ComponentUI,
}

/// Root of the panel master-data document.
#[derive(Debug, Clone)]
pub struct PupitreData {
    pub components: Vec<Component>,
}

/// A new equipment record created together with a document.
#[derive(Debug, Clone)]
pub struct NewComponentData {
    pub external_id: String,
    pub name: String,
    pub type_field: String,
}

/// A new document attached to an equipment record.
#[derive(Debug, Clone)]
pub struct NewDocumentData {
    pub image_data: String,
    pub ocr_text: String,
    pub description: String,
    pub perceptual_hash: String,
}

/// One row of the local visual-lookup view.
#[derive(Debug, Clone)]
pub struct LocalVisualDbEntry {
    pub document_id: i64,
    pub equipment_id: String,
    pub equipment_name: String,
    pub description: Option<String>,
    pub image_data: String,
    pub perceptual_hash: Option<String>,
}

/// Outcome of a synchronisation run against the remote store.
#[derive(Debug, Clone)]
pub struct SyncResult {
    pub synced: i32,
    pub cleaned: bool,
}

} // verus!
