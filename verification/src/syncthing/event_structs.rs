//! The events of the daemon's stream: the shape of each payload, and the
//! order in which the shapes are tried.
//!
//! A record is read from a JSON object, by the names of its fields, or from
//! a JSON array that holds one item for each field, in the order of the
//! fields. In an object every field is a member that occurs once; members
//! of other names are passed over. A payload does not say which shape it
//! has, so [`EventTypes::parse`] tries the shapes one after another. A shape
//! whose fields are among those of a later one hides the later one: the
//! laws at the end of this file say which shapes are hidden.

use vstd::prelude::*;
use super::decode::{FromJson, JsonMap};
use super::json::{member_slot, named, slot, Field, JsonModel, JsonNumber, JsonValue, Slot};

verus! {

/// The local index of a folder has changed.
#[derive(Debug, Clone, PartialEq)]
pub struct LocalIndexUpdated {
    pub folder: String,
    pub items: u16,
    pub filenames: Vec<String>,
    pub sequence: u16,
    pub version: u16,
}

impl FromJson for LocalIndexUpdated {
    open spec fn fits(s: Slot) -> bool {
        &&& s matches Slot::Found(m)
        &&& <String>::fits(slot(m, "folder"@, 0, 5))
        &&& <u16>::fits(slot(m, "items"@, 1, 5))
        &&& <Vec<String>>::fits(slot(m, "filenames"@, 2, 5))
        &&& <u16>::fits(slot(m, "sequence"@, 3, 5))
        &&& <u16>::fits(slot(m, "version"@, 4, 5))
    }

    open spec fn reads(&self, s: Slot) -> bool {
        &&& s matches Slot::Found(m)
        &&& self.folder.reads(slot(m, "folder"@, 0, 5))
        &&& self.items.reads(slot(m, "items"@, 1, 5))
        &&& self.filenames.reads(slot(m, "filenames"@, 2, 5))
        &&& self.sequence.reads(slot(m, "sequence"@, 3, 5))
        &&& self.version.reads(slot(m, "version"@, 4, 5))
    }

    fn read(field: &Field) -> (r: Option<Self>) {
        match field {
            Field::Found(v) => {
                let folder = <String>::read(&v.field("folder", 0, 5))?;
                let items = <u16>::read(&v.field("items", 1, 5))?;
                let filenames = <Vec<String>>::read(&v.field("filenames", 2, 5))?;
                let sequence = <u16>::read(&v.field("sequence", 3, 5))?;
                let version = <u16>::read(&v.field("version", 4, 5))?;
                Some(LocalIndexUpdated { folder, items, filenames, sequence, version })
            },
            _ => None,
        }
    }
}

/// A device has sent its cluster configuration.
#[derive(Debug, Clone, PartialEq)]
pub struct ClusterConfigReceived {
    pub device: String,
}

impl FromJson for ClusterConfigReceived {
    open spec fn fits(s: Slot) -> bool {
        &&& s matches Slot::Found(m)
        &&& <String>::fits(slot(m, "device"@, 0, 1))
    }

    open spec fn reads(&self, s: Slot) -> bool {
        &&& s matches Slot::Found(m)
        &&& self.device.reads(slot(m, "device"@, 0, 1))
    }

    fn read(field: &Field) -> (r: Option<Self>) {
        match field {
            Field::Found(v) => {
                let device = <String>::read(&v.field("device", 0, 1))?;
                Some(ClusterConfigReceived { device })
            },
            _ => None,
        }
    }
}

/// The configuration was saved; its sections are kept as they came.
#[allow(non_snake_case)]
#[derive(Debug, Clone, PartialEq)]
pub struct ConfigSaved {
    pub version: u8,
    pub folders: Vec<JsonMap<JsonValue>>,
    pub devices: Vec<JsonMap<JsonValue>>,
    pub gui: JsonMap<JsonValue>,
    pub ldap: JsonMap<JsonValue>,
    pub options: JsonMap<JsonValue>,
    pub remoteIgnoredDevices: Vec<JsonMap<JsonValue>>,
    pub defaults: JsonMap<JsonValue>,
}

impl FromJson for ConfigSaved {
    open spec fn fits(s: Slot) -> bool {
        &&& s matches Slot::Found(m)
        &&& <u8>::fits(slot(m, "version"@, 0, 8))
        &&& <Vec<JsonMap<JsonValue>>>::fits(slot(m, "folders"@, 1, 8))
        &&& <Vec<JsonMap<JsonValue>>>::fits(slot(m, "devices"@, 2, 8))
        &&& <JsonMap<JsonValue>>::fits(slot(m, "gui"@, 3, 8))
        &&& <JsonMap<JsonValue>>::fits(slot(m, "ldap"@, 4, 8))
        &&& <JsonMap<JsonValue>>::fits(slot(m, "options"@, 5, 8))
        &&& <Vec<JsonMap<JsonValue>>>::fits(slot(m, "remoteIgnoredDevices"@, 6, 8))
        &&& <JsonMap<JsonValue>>::fits(slot(m, "defaults"@, 7, 8))
    }

    open spec fn reads(&self, s: Slot) -> bool {
        &&& s matches Slot::Found(m)
        &&& self.version.reads(slot(m, "version"@, 0, 8))
        &&& self.folders.reads(slot(m, "folders"@, 1, 8))
        &&& self.devices.reads(slot(m, "devices"@, 2, 8))
        &&& self.gui.reads(slot(m, "gui"@, 3, 8))
        &&& self.ldap.reads(slot(m, "ldap"@, 4, 8))
        &&& self.options.reads(slot(m, "options"@, 5, 8))
        &&& self.remoteIgnoredDevices.reads(slot(m, "remoteIgnoredDevices"@, 6, 8))
        &&& self.defaults.reads(slot(m, "defaults"@, 7, 8))
    }

    fn read(field: &Field) -> (r: Option<Self>) {
        match field {
            Field::Found(v) => {
                let version = <u8>::read(&v.field("version", 0, 8))?;
                let folders = <Vec<JsonMap<JsonValue>>>::read(&v.field("folders", 1, 8))?;
                let devices = <Vec<JsonMap<JsonValue>>>::read(&v.field("devices", 2, 8))?;
                let gui = <JsonMap<JsonValue>>::read(&v.field("gui", 3, 8))?;
                let ldap = <JsonMap<JsonValue>>::read(&v.field("ldap", 4, 8))?;
                let options = <JsonMap<JsonValue>>::read(&v.field("options", 5, 8))?;
                let remote_ignored_devices = <Vec<JsonMap<JsonValue>>>::read(&v.field("remoteIgnoredDevices", 6, 8))?;
                let defaults = <JsonMap<JsonValue>>::read(&v.field("defaults", 7, 8))?;
                Some(ConfigSaved { version, folders, devices, gui, ldap, options, remoteIgnoredDevices: remote_ignored_devices, defaults })
            },
            _ => None,
        }
    }
}

/// A connection to a device was made.
#[allow(non_snake_case)]
#[derive(Debug, Clone, PartialEq)]
pub struct DeviceConnected {
    pub addr: String,
    pub id: String,
    pub deviceName: String,
    pub clientName: String,
    pub clientVersion: String,
    pub type_: String,
}

impl FromJson for DeviceConnected {
    open spec fn fits(s: Slot) -> bool {
        &&& s matches Slot::Found(m)
        &&& <String>::fits(slot(m, "addr"@, 0, 6))
        &&& <String>::fits(slot(m, "id"@, 1, 6))
        &&& <String>::fits(slot(m, "deviceName"@, 2, 6))
        &&& <String>::fits(slot(m, "clientName"@, 3, 6))
        &&& <String>::fits(slot(m, "clientVersion"@, 4, 6))
        &&& <String>::fits(slot(m, "type"@, 5, 6))
    }

    open spec fn reads(&self, s: Slot) -> bool {
        &&& s matches Slot::Found(m)
        &&& self.addr.reads(slot(m, "addr"@, 0, 6))
        &&& self.id.reads(slot(m, "id"@, 1, 6))
        &&& self.deviceName.reads(slot(m, "deviceName"@, 2, 6))
        &&& self.clientName.reads(slot(m, "clientName"@, 3, 6))
        &&& self.clientVersion.reads(slot(m, "clientVersion"@, 4, 6))
        &&& self.type_.reads(slot(m, "type"@, 5, 6))
    }

    fn read(field: &Field) -> (r: Option<Self>) {
        match field {
            Field::Found(v) => {
                let addr = <String>::read(&v.field("addr", 0, 6))?;
                let id = <String>::read(&v.field("id", 1, 6))?;
                let device_name = <String>::read(&v.field("deviceName", 2, 6))?;
                let client_name = <String>::read(&v.field("clientName", 3, 6))?;
                let client_version = <String>::read(&v.field("clientVersion", 4, 6))?;
                let kind = <String>::read(&v.field("type", 5, 6))?;
                Some(DeviceConnected { addr, id, deviceName: device_name, clientName: client_name, clientVersion: client_version, type_: kind })
            },
            _ => None,
        }
    }
}

/// A connection to a device was lost.
#[derive(Debug, Clone, PartialEq)]
pub struct DeviceDisconnected {
    pub error: String,
    pub id: String,
}

impl FromJson for DeviceDisconnected {
    open spec fn fits(s: Slot) -> bool {
        &&& s matches Slot::Found(m)
        &&& <String>::fits(slot(m, "error"@, 0, 2))
        &&& <String>::fits(slot(m, "id"@, 1, 2))
    }

    open spec fn reads(&self, s: Slot) -> bool {
        &&& s matches Slot::Found(m)
        &&& self.error.reads(slot(m, "error"@, 0, 2))
        &&& self.id.reads(slot(m, "id"@, 1, 2))
    }

    fn read(field: &Field) -> (r: Option<Self>) {
        match field {
            Field::Found(v) => {
                let error = <String>::read(&v.field("error", 0, 2))?;
                let id = <String>::read(&v.field("id", 1, 2))?;
                Some(DeviceDisconnected { error, id })
            },
            _ => None,
        }
    }
}

/// A device was paused.
#[derive(Debug, Clone, PartialEq)]
pub struct DevicePaused {
    pub device: String,
}

impl FromJson for DevicePaused {
    open spec fn fits(s: Slot) -> bool {
        &&& s matches Slot::Found(m)
        &&& <String>::fits(slot(m, "device"@, 0, 1))
    }

    open spec fn reads(&self, s: Slot) -> bool {
        &&& s matches Slot::Found(m)
        &&& self.device.reads(slot(m, "device"@, 0, 1))
    }

    fn read(field: &Field) -> (r: Option<Self>) {
        match field {
            Field::Found(v) => {
                let device = <String>::read(&v.field("device", 0, 1))?;
                Some(DevicePaused { device })
            },
            _ => None,
        }
    }
}

/// A device was resumed.
#[derive(Debug, Clone, PartialEq)]
pub struct DeviceResumed {
    pub device: String,
}

impl FromJson for DeviceResumed {
    open spec fn fits(s: Slot) -> bool {
        &&& s matches Slot::Found(m)
        &&& <String>::fits(slot(m, "device"@, 0, 1))
    }

    open spec fn reads(&self, s: Slot) -> bool {
        &&& s matches Slot::Found(m)
        &&& self.device.reads(slot(m, "device"@, 0, 1))
    }

    fn read(field: &Field) -> (r: Option<Self>) {
        match field {
            Field::Found(v) => {
                let device = <String>::read(&v.field("device", 0, 1))?;
                Some(DeviceResumed { device })
            },
            _ => None,
        }
    }
}

/// The progress of one file that is being pulled.
#[allow(non_snake_case)]
#[derive(Debug, Clone, PartialEq)]
pub struct File {
    pub total: u16,
    pub pulling: u16,
    pub copiedFromOrigin: u16,
    pub reused: u16,
    pub copiedFromElsewhere: u16,
    pub pulled: u16,
    pub bytesTotal: u16,
    pub bytesDone: u16,
}

impl FromJson for File {
    open spec fn fits(s: Slot) -> bool {
        &&& s matches Slot::Found(m)
        &&& <u16>::fits(slot(m, "total"@, 0, 8))
        &&& <u16>::fits(slot(m, "pulling"@, 1, 8))
        &&& <u16>::fits(slot(m, "copiedFromOrigin"@, 2, 8))
        &&& <u16>::fits(slot(m, "reused"@, 3, 8))
        &&& <u16>::fits(slot(m, "copiedFromElsewhere"@, 4, 8))
        &&& <u16>::fits(slot(m, "pulled"@, 5, 8))
        &&& <u16>::fits(slot(m, "bytesTotal"@, 6, 8))
        &&& <u16>::fits(slot(m, "bytesDone"@, 7, 8))
    }

    open spec fn reads(&self, s: Slot) -> bool {
        &&& s matches Slot::Found(m)
        &&& self.total.reads(slot(m, "total"@, 0, 8))
        &&& self.pulling.reads(slot(m, "pulling"@, 1, 8))
        &&& self.copiedFromOrigin.reads(slot(m, "copiedFromOrigin"@, 2, 8))
        &&& self.reused.reads(slot(m, "reused"@, 3, 8))
        &&& self.copiedFromElsewhere.reads(slot(m, "copiedFromElsewhere"@, 4, 8))
        &&& self.pulled.reads(slot(m, "pulled"@, 5, 8))
        &&& self.bytesTotal.reads(slot(m, "bytesTotal"@, 6, 8))
        &&& self.bytesDone.reads(slot(m, "bytesDone"@, 7, 8))
    }

    fn read(field: &Field) -> (r: Option<Self>) {
        match field {
            Field::Found(v) => {
                let total = <u16>::read(&v.field("total", 0, 8))?;
                let pulling = <u16>::read(&v.field("pulling", 1, 8))?;
                let copied_from_origin = <u16>::read(&v.field("copiedFromOrigin", 2, 8))?;
                let reused = <u16>::read(&v.field("reused", 3, 8))?;
                let copied_from_elsewhere = <u16>::read(&v.field("copiedFromElsewhere", 4, 8))?;
                let pulled = <u16>::read(&v.field("pulled", 5, 8))?;
                let bytes_total = <u16>::read(&v.field("bytesTotal", 6, 8))?;
                let bytes_done = <u16>::read(&v.field("bytesDone", 7, 8))?;
                Some(File { total, pulling, copiedFromOrigin: copied_from_origin, reused, copiedFromElsewhere: copied_from_elsewhere, pulled, bytesTotal: bytes_total, bytesDone: bytes_done })
            },
            _ => None,
        }
    }
}

/// How far a remote device has come with a folder.
#[allow(non_snake_case)]
#[derive(Debug, Clone, PartialEq)]
pub struct FolderCompletion {
    pub completion: u16,
    pub device: String,
    pub folder: String,
    pub globalBytes: u16,
    pub globalItems: u16,
    pub needBytes: u16,
    pub needDeletes: u16,
    pub needItems: u16,
    pub remoteState: String,
    pub sequence: u16,
}

impl FromJson for FolderCompletion {
    open spec fn fits(s: Slot) -> bool {
        &&& s matches Slot::Found(m)
        &&& <u16>::fits(slot(m, "completion"@, 0, 10))
        &&& <String>::fits(slot(m, "device"@, 1, 10))
        &&& <String>::fits(slot(m, "folder"@, 2, 10))
        &&& <u16>::fits(slot(m, "globalBytes"@, 3, 10))
        &&& <u16>::fits(slot(m, "globalItems"@, 4, 10))
        &&& <u16>::fits(slot(m, "needBytes"@, 5, 10))
        &&& <u16>::fits(slot(m, "needDeletes"@, 6, 10))
        &&& <u16>::fits(slot(m, "needItems"@, 7, 10))
        &&& <String>::fits(slot(m, "remoteState"@, 8, 10))
        &&& <u16>::fits(slot(m, "sequence"@, 9, 10))
    }

    open spec fn reads(&self, s: Slot) -> bool {
        &&& s matches Slot::Found(m)
        &&& self.completion.reads(slot(m, "completion"@, 0, 10))
        &&& self.device.reads(slot(m, "device"@, 1, 10))
        &&& self.folder.reads(slot(m, "folder"@, 2, 10))
        &&& self.globalBytes.reads(slot(m, "globalBytes"@, 3, 10))
        &&& self.globalItems.reads(slot(m, "globalItems"@, 4, 10))
        &&& self.needBytes.reads(slot(m, "needBytes"@, 5, 10))
        &&& self.needDeletes.reads(slot(m, "needDeletes"@, 6, 10))
        &&& self.needItems.reads(slot(m, "needItems"@, 7, 10))
        &&& self.remoteState.reads(slot(m, "remoteState"@, 8, 10))
        &&& self.sequence.reads(slot(m, "sequence"@, 9, 10))
    }

    fn read(field: &Field) -> (r: Option<Self>) {
        match field {
            Field::Found(v) => {
                let completion = <u16>::read(&v.field("completion", 0, 10))?;
                let device = <String>::read(&v.field("device", 1, 10))?;
                let folder = <String>::read(&v.field("folder", 2, 10))?;
                let global_bytes = <u16>::read(&v.field("globalBytes", 3, 10))?;
                let global_items = <u16>::read(&v.field("globalItems", 4, 10))?;
                let need_bytes = <u16>::read(&v.field("needBytes", 5, 10))?;
                let need_deletes = <u16>::read(&v.field("needDeletes", 6, 10))?;
                let need_items = <u16>::read(&v.field("needItems", 7, 10))?;
                let remote_state = <String>::read(&v.field("remoteState", 8, 10))?;
                let sequence = <u16>::read(&v.field("sequence", 9, 10))?;
                Some(FolderCompletion { completion, device, folder, globalBytes: global_bytes, globalItems: global_items, needBytes: need_bytes, needDeletes: need_deletes, needItems: need_items, remoteState: remote_state, sequence })
            },
            _ => None,
        }
    }
}

/// One error that the daemon met on a path.
#[derive(Debug, Clone, PartialEq)]
pub struct SyncthingInternalError {
    pub error: String,
    pub path: String,
}

impl FromJson for SyncthingInternalError {
    open spec fn fits(s: Slot) -> bool {
        &&& s matches Slot::Found(m)
        &&& <String>::fits(slot(m, "error"@, 0, 2))
        &&& <String>::fits(slot(m, "path"@, 1, 2))
    }

    open spec fn reads(&self, s: Slot) -> bool {
        &&& s matches Slot::Found(m)
        &&& self.error.reads(slot(m, "error"@, 0, 2))
        &&& self.path.reads(slot(m, "path"@, 1, 2))
    }

    fn read(field: &Field) -> (r: Option<Self>) {
        match field {
            Field::Found(v) => {
                let error = <String>::read(&v.field("error", 0, 2))?;
                let path = <String>::read(&v.field("path", 1, 2))?;
                Some(SyncthingInternalError { error, path })
            },
            _ => None,
        }
    }
}

/// The errors that stopped a folder from syncing.
#[derive(Debug, Clone, PartialEq)]
pub struct FolderErrors {
    pub errors: Vec<SyncthingInternalError>,
    pub folder: String,
}

impl FromJson for FolderErrors {
    open spec fn fits(s: Slot) -> bool {
        &&& s matches Slot::Found(m)
        &&& <Vec<SyncthingInternalError>>::fits(slot(m, "errors"@, 0, 2))
        &&& <String>::fits(slot(m, "folder"@, 1, 2))
    }

    open spec fn reads(&self, s: Slot) -> bool {
        &&& s matches Slot::Found(m)
        &&& self.errors.reads(slot(m, "errors"@, 0, 2))
        &&& self.folder.reads(slot(m, "folder"@, 1, 2))
    }

    fn read(field: &Field) -> (r: Option<Self>) {
        match field {
            Field::Found(v) => {
                let errors = <Vec<SyncthingInternalError>>::read(&v.field("errors", 0, 2))?;
                let folder = <String>::read(&v.field("folder", 1, 2))?;
                Some(FolderErrors { errors, folder })
            },
            _ => None,
        }
    }
}

/// A folder was paused.
#[derive(Debug, Clone, PartialEq)]
pub struct FolderPaused {
    pub id: String,
    pub label: String,
}

impl FromJson for FolderPaused {
    open spec fn fits(s: Slot) -> bool {
        &&& s matches Slot::Found(m)
        &&& <String>::fits(slot(m, "id"@, 0, 2))
        &&& <String>::fits(slot(m, "label"@, 1, 2))
    }

    open spec fn reads(&self, s: Slot) -> bool {
        &&& s matches Slot::Found(m)
        &&& self.id.reads(slot(m, "id"@, 0, 2))
        &&& self.label.reads(slot(m, "label"@, 1, 2))
    }

    fn read(field: &Field) -> (r: Option<Self>) {
        match field {
            Field::Found(v) => {
                let id = <String>::read(&v.field("id", 0, 2))?;
                let label = <String>::read(&v.field("label", 1, 2))?;
                Some(FolderPaused { id, label })
            },
            _ => None,
        }
    }
}

/// A folder was resumed.
#[derive(Debug, Clone, PartialEq)]
pub struct FolderResumed {
    pub id: String,
    pub label: String,
}

impl FromJson for FolderResumed {
    open spec fn fits(s: Slot) -> bool {
        &&& s matches Slot::Found(m)
        &&& <String>::fits(slot(m, "id"@, 0, 2))
        &&& <String>::fits(slot(m, "label"@, 1, 2))
    }

    open spec fn reads(&self, s: Slot) -> bool {
        &&& s matches Slot::Found(m)
        &&& self.id.reads(slot(m, "id"@, 0, 2))
        &&& self.label.reads(slot(m, "label"@, 1, 2))
    }

    fn read(field: &Field) -> (r: Option<Self>) {
        match field {
            Field::Found(v) => {
                let id = <String>::read(&v.field("id", 0, 2))?;
                let label = <String>::read(&v.field("label", 1, 2))?;
                Some(FolderResumed { id, label })
            },
            _ => None,
        }
    }
}

/// The progress of a folder scan.
#[derive(Debug, Clone, PartialEq)]
pub struct FolderScanProgress {
    pub total: u16,
    pub rate: u16,
    pub current: u16,
    pub folder: String,
}

impl FromJson for FolderScanProgress {
    open spec fn fits(s: Slot) -> bool {
        &&& s matches Slot::Found(m)
        &&& <u16>::fits(slot(m, "total"@, 0, 4))
        &&& <u16>::fits(slot(m, "rate"@, 1, 4))
        &&& <u16>::fits(slot(m, "current"@, 2, 4))
        &&& <String>::fits(slot(m, "folder"@, 3, 4))
    }

    open spec fn reads(&self, s: Slot) -> bool {
        &&& s matches Slot::Found(m)
        &&& self.total.reads(slot(m, "total"@, 0, 4))
        &&& self.rate.reads(slot(m, "rate"@, 1, 4))
        &&& self.current.reads(slot(m, "current"@, 2, 4))
        &&& self.folder.reads(slot(m, "folder"@, 3, 4))
    }

    fn read(field: &Field) -> (r: Option<Self>) {
        match field {
            Field::Found(v) => {
                let total = <u16>::read(&v.field("total", 0, 4))?;
                let rate = <u16>::read(&v.field("rate", 1, 4))?;
                let current = <u16>::read(&v.field("current", 2, 4))?;
                let folder = <String>::read(&v.field("folder", 3, 4))?;
                Some(FolderScanProgress { total, rate, current, folder })
            },
            _ => None,
        }
    }
}

/// The summary of a folder.
#[allow(non_snake_case)]
#[derive(Debug, Clone, PartialEq)]
pub struct FolderSummary {
    pub globalBytes: u16,
    pub globalDeleted: u16,
    pub globalFiles: u16,
    pub ignorePatterns: bool,
    pub inSyncBytes: u16,
    pub inSyncFiles: u16,
    pub invalid: String,
    pub localBytes: u16,
    pub localDeleted: u16,
    pub localFiles: u16,
    pub needBytes: u16,
    pub needFiles: u16,
    pub state: String,
    pub stateChanged: String,
    pub version: u16,
}

impl FromJson for FolderSummary {
    open spec fn fits(s: Slot) -> bool {
        &&& s matches Slot::Found(m)
        &&& <u16>::fits(slot(m, "globalBytes"@, 0, 15))
        &&& <u16>::fits(slot(m, "globalDeleted"@, 1, 15))
        &&& <u16>::fits(slot(m, "globalFiles"@, 2, 15))
        &&& <bool>::fits(slot(m, "ignorePatterns"@, 3, 15))
        &&& <u16>::fits(slot(m, "inSyncBytes"@, 4, 15))
        &&& <u16>::fits(slot(m, "inSyncFiles"@, 5, 15))
        &&& <String>::fits(slot(m, "invalid"@, 6, 15))
        &&& <u16>::fits(slot(m, "localBytes"@, 7, 15))
        &&& <u16>::fits(slot(m, "localDeleted"@, 8, 15))
        &&& <u16>::fits(slot(m, "localFiles"@, 9, 15))
        &&& <u16>::fits(slot(m, "needBytes"@, 10, 15))
        &&& <u16>::fits(slot(m, "needFiles"@, 11, 15))
        &&& <String>::fits(slot(m, "state"@, 12, 15))
        &&& <String>::fits(slot(m, "stateChanged"@, 13, 15))
        &&& <u16>::fits(slot(m, "version"@, 14, 15))
    }

    open spec fn reads(&self, s: Slot) -> bool {
        &&& s matches Slot::Found(m)
        &&& self.globalBytes.reads(slot(m, "globalBytes"@, 0, 15))
        &&& self.globalDeleted.reads(slot(m, "globalDeleted"@, 1, 15))
        &&& self.globalFiles.reads(slot(m, "globalFiles"@, 2, 15))
        &&& self.ignorePatterns.reads(slot(m, "ignorePatterns"@, 3, 15))
        &&& self.inSyncBytes.reads(slot(m, "inSyncBytes"@, 4, 15))
        &&& self.inSyncFiles.reads(slot(m, "inSyncFiles"@, 5, 15))
        &&& self.invalid.reads(slot(m, "invalid"@, 6, 15))
        &&& self.localBytes.reads(slot(m, "localBytes"@, 7, 15))
        &&& self.localDeleted.reads(slot(m, "localDeleted"@, 8, 15))
        &&& self.localFiles.reads(slot(m, "localFiles"@, 9, 15))
        &&& self.needBytes.reads(slot(m, "needBytes"@, 10, 15))
        &&& self.needFiles.reads(slot(m, "needFiles"@, 11, 15))
        &&& self.state.reads(slot(m, "state"@, 12, 15))
        &&& self.stateChanged.reads(slot(m, "stateChanged"@, 13, 15))
        &&& self.version.reads(slot(m, "version"@, 14, 15))
    }

    fn read(field: &Field) -> (r: Option<Self>) {
        match field {
            Field::Found(v) => {
                let global_bytes = <u16>::read(&v.field("globalBytes", 0, 15))?;
                let global_deleted = <u16>::read(&v.field("globalDeleted", 1, 15))?;
                let global_files = <u16>::read(&v.field("globalFiles", 2, 15))?;
                let ignore_patterns = <bool>::read(&v.field("ignorePatterns", 3, 15))?;
                let in_sync_bytes = <u16>::read(&v.field("inSyncBytes", 4, 15))?;
                let in_sync_files = <u16>::read(&v.field("inSyncFiles", 5, 15))?;
                let invalid = <String>::read(&v.field("invalid", 6, 15))?;
                let local_bytes = <u16>::read(&v.field("localBytes", 7, 15))?;
                let local_deleted = <u16>::read(&v.field("localDeleted", 8, 15))?;
                let local_files = <u16>::read(&v.field("localFiles", 9, 15))?;
                let need_bytes = <u16>::read(&v.field("needBytes", 10, 15))?;
                let need_files = <u16>::read(&v.field("needFiles", 11, 15))?;
                let state = <String>::read(&v.field("state", 12, 15))?;
                let state_changed = <String>::read(&v.field("stateChanged", 13, 15))?;
                let version = <u16>::read(&v.field("version", 14, 15))?;
                Some(FolderSummary { globalBytes: global_bytes, globalDeleted: global_deleted, globalFiles: global_files, ignorePatterns: ignore_patterns, inSyncBytes: in_sync_bytes, inSyncFiles: in_sync_files, invalid, localBytes: local_bytes, localDeleted: local_deleted, localFiles: local_files, needBytes: need_bytes, needFiles: need_files, state, stateChanged: state_changed, version })
            },
            _ => None,
        }
    }
}

/// The watcher of a folder went from one state to another.
#[derive(Debug, Clone, PartialEq)]
pub struct FolderWatchStateChanged {
    pub folder: String,
    pub from: String,
    pub to: String,
}

impl FromJson for FolderWatchStateChanged {
    open spec fn fits(s: Slot) -> bool {
        &&& s matches Slot::Found(m)
        &&& <String>::fits(slot(m, "folder"@, 0, 3))
        &&& <String>::fits(slot(m, "from"@, 1, 3))
        &&& <String>::fits(slot(m, "to"@, 2, 3))
    }

    open spec fn reads(&self, s: Slot) -> bool {
        &&& s matches Slot::Found(m)
        &&& self.folder.reads(slot(m, "folder"@, 0, 3))
        &&& self.from.reads(slot(m, "from"@, 1, 3))
        &&& self.to.reads(slot(m, "to"@, 2, 3))
    }

    fn read(field: &Field) -> (r: Option<Self>) {
        match field {
            Field::Found(v) => {
                let folder = <String>::read(&v.field("folder", 0, 3))?;
                let from = <String>::read(&v.field("from", 1, 3))?;
                let to = <String>::read(&v.field("to", 2, 3))?;
                Some(FolderWatchStateChanged { folder, from, to })
            },
            _ => None,
        }
    }
}

/// The sync of an item ended, with an error or without.
#[derive(Debug, Clone, PartialEq)]
pub struct ItemFinished {
    pub action: String,
    pub error: Option<String>,
    pub folder: String,
    pub item: String,
    pub type_: String,
}

impl FromJson for ItemFinished {
    open spec fn fits(s: Slot) -> bool {
        &&& s matches Slot::Found(m)
        &&& <String>::fits(slot(m, "action"@, 0, 5))
        &&& <Option<String>>::fits(slot(m, "error"@, 1, 5))
        &&& <String>::fits(slot(m, "folder"@, 2, 5))
        &&& <String>::fits(slot(m, "item"@, 3, 5))
        &&& <String>::fits(slot(m, "type"@, 4, 5))
    }

    open spec fn reads(&self, s: Slot) -> bool {
        &&& s matches Slot::Found(m)
        &&& self.action.reads(slot(m, "action"@, 0, 5))
        &&& self.error.reads(slot(m, "error"@, 1, 5))
        &&& self.folder.reads(slot(m, "folder"@, 2, 5))
        &&& self.item.reads(slot(m, "item"@, 3, 5))
        &&& self.type_.reads(slot(m, "type"@, 4, 5))
    }

    fn read(field: &Field) -> (r: Option<Self>) {
        match field {
            Field::Found(v) => {
                let action = <String>::read(&v.field("action", 0, 5))?;
                let error = <Option<String>>::read(&v.field("error", 1, 5))?;
                let folder = <String>::read(&v.field("folder", 2, 5))?;
                let item = <String>::read(&v.field("item", 3, 5))?;
                let kind = <String>::read(&v.field("type", 4, 5))?;
                Some(ItemFinished { action, error, folder, item, type_: kind })
            },
            _ => None,
        }
    }
}

/// The sync of an item began.
#[derive(Debug, Clone, PartialEq)]
pub struct ItemStarted {
    pub item: String,
    pub folder: String,
    pub type_: String,
    pub action: String,
}

impl FromJson for ItemStarted {
    open spec fn fits(s: Slot) -> bool {
        &&& s matches Slot::Found(m)
        &&& <String>::fits(slot(m, "item"@, 0, 4))
        &&& <String>::fits(slot(m, "folder"@, 1, 4))
        &&& <String>::fits(slot(m, "type"@, 2, 4))
        &&& <String>::fits(slot(m, "action"@, 3, 4))
    }

    open spec fn reads(&self, s: Slot) -> bool {
        &&& s matches Slot::Found(m)
        &&& self.item.reads(slot(m, "item"@, 0, 4))
        &&& self.folder.reads(slot(m, "folder"@, 1, 4))
        &&& self.type_.reads(slot(m, "type"@, 2, 4))
        &&& self.action.reads(slot(m, "action"@, 3, 4))
    }

    fn read(field: &Field) -> (r: Option<Self>) {
        match field {
            Field::Found(v) => {
                let item = <String>::read(&v.field("item", 0, 4))?;
                let folder = <String>::read(&v.field("folder", 1, 4))?;
                let kind = <String>::read(&v.field("type", 2, 4))?;
                let action = <String>::read(&v.field("action", 3, 4))?;
                Some(ItemStarted { item, folder, type_: kind, action })
            },
            _ => None,
        }
    }
}

/// An address that the daemon listens on, in the parts of a URL.
#[allow(non_snake_case)]
#[derive(Debug, Clone, PartialEq)]
pub struct ListenAddress {
    pub Fragment: String,
    pub RawQuery: String,
    pub Scheme: String,
    pub Path: String,
    pub RawPath: String,
    pub User: Option<String>,
    pub ForceQuery: bool,
    pub Host: String,
    pub Opaque: String,
}

impl FromJson for ListenAddress {
    open spec fn fits(s: Slot) -> bool {
        &&& s matches Slot::Found(m)
        &&& <String>::fits(slot(m, "Fragment"@, 0, 9))
        &&& <String>::fits(slot(m, "RawQuery"@, 1, 9))
        &&& <String>::fits(slot(m, "Scheme"@, 2, 9))
        &&& <String>::fits(slot(m, "Path"@, 3, 9))
        &&& <String>::fits(slot(m, "RawPath"@, 4, 9))
        &&& <Option<String>>::fits(slot(m, "User"@, 5, 9))
        &&& <bool>::fits(slot(m, "ForceQuery"@, 6, 9))
        &&& <String>::fits(slot(m, "Host"@, 7, 9))
        &&& <String>::fits(slot(m, "Opaque"@, 8, 9))
    }

    open spec fn reads(&self, s: Slot) -> bool {
        &&& s matches Slot::Found(m)
        &&& self.Fragment.reads(slot(m, "Fragment"@, 0, 9))
        &&& self.RawQuery.reads(slot(m, "RawQuery"@, 1, 9))
        &&& self.Scheme.reads(slot(m, "Scheme"@, 2, 9))
        &&& self.Path.reads(slot(m, "Path"@, 3, 9))
        &&& self.RawPath.reads(slot(m, "RawPath"@, 4, 9))
        &&& self.User.reads(slot(m, "User"@, 5, 9))
        &&& self.ForceQuery.reads(slot(m, "ForceQuery"@, 6, 9))
        &&& self.Host.reads(slot(m, "Host"@, 7, 9))
        &&& self.Opaque.reads(slot(m, "Opaque"@, 8, 9))
    }

    fn read(field: &Field) -> (r: Option<Self>) {
        match field {
            Field::Found(v) => {
                let fragment = <String>::read(&v.field("Fragment", 0, 9))?;
                let raw_query = <String>::read(&v.field("RawQuery", 1, 9))?;
                let scheme = <String>::read(&v.field("Scheme", 2, 9))?;
                let path = <String>::read(&v.field("Path", 3, 9))?;
                let raw_path = <String>::read(&v.field("RawPath", 4, 9))?;
                let user = <Option<String>>::read(&v.field("User", 5, 9))?;
                let force_query = <bool>::read(&v.field("ForceQuery", 6, 9))?;
                let host = <String>::read(&v.field("Host", 7, 9))?;
                let opaque = <String>::read(&v.field("Opaque", 8, 9))?;
                Some(ListenAddress { Fragment: fragment, RawQuery: raw_query, Scheme: scheme, Path: path, RawPath: raw_path, User: user, ForceQuery: force_query, Host: host, Opaque: opaque })
            },
            _ => None,
        }
    }
}

/// The addresses that the daemon listens on have changed.
#[derive(Debug, Clone, PartialEq)]
pub struct ListenAddressChanged {
    pub address: ListenAddress,
    pub wan: Vec<ListenAddress>,
    pub lan: Vec<ListenAddress>,
}

impl FromJson for ListenAddressChanged {
    open spec fn fits(s: Slot) -> bool {
        &&& s matches Slot::Found(m)
        &&& <ListenAddress>::fits(slot(m, "address"@, 0, 3))
        &&& <Vec<ListenAddress>>::fits(slot(m, "wan"@, 1, 3))
        &&& <Vec<ListenAddress>>::fits(slot(m, "lan"@, 2, 3))
    }

    open spec fn reads(&self, s: Slot) -> bool {
        &&& s matches Slot::Found(m)
        &&& self.address.reads(slot(m, "address"@, 0, 3))
        &&& self.wan.reads(slot(m, "wan"@, 1, 3))
        &&& self.lan.reads(slot(m, "lan"@, 2, 3))
    }

    fn read(field: &Field) -> (r: Option<Self>) {
        match field {
            Field::Found(v) => {
                let address = <ListenAddress>::read(&v.field("address", 0, 3))?;
                let wan = <Vec<ListenAddress>>::read(&v.field("wan", 1, 3))?;
                let lan = <Vec<ListenAddress>>::read(&v.field("lan", 2, 3))?;
                Some(ListenAddressChanged { address, wan, lan })
            },
            _ => None,
        }
    }
}

/// A change was found on this device.
#[allow(non_snake_case)]
#[derive(Debug, Clone, PartialEq)]
pub struct LocalChangeDetected {
    pub action: String,
    pub folder: String,
    pub folderID: String,
    pub label: String,
    pub path: String,
    pub type_: String,
}

impl FromJson for LocalChangeDetected {
    open spec fn fits(s: Slot) -> bool {
        &&& s matches Slot::Found(m)
        &&& <String>::fits(slot(m, "action"@, 0, 6))
        &&& <String>::fits(slot(m, "folder"@, 1, 6))
        &&& <String>::fits(slot(m, "folderID"@, 2, 6))
        &&& <String>::fits(slot(m, "label"@, 3, 6))
        &&& <String>::fits(slot(m, "path"@, 4, 6))
        &&& <String>::fits(slot(m, "type"@, 5, 6))
    }

    open spec fn reads(&self, s: Slot) -> bool {
        &&& s matches Slot::Found(m)
        &&& self.action.reads(slot(m, "action"@, 0, 6))
        &&& self.folder.reads(slot(m, "folder"@, 1, 6))
        &&& self.folderID.reads(slot(m, "folderID"@, 2, 6))
        &&& self.label.reads(slot(m, "label"@, 3, 6))
        &&& self.path.reads(slot(m, "path"@, 4, 6))
        &&& self.type_.reads(slot(m, "type"@, 5, 6))
    }

    fn read(field: &Field) -> (r: Option<Self>) {
        match field {
            Field::Found(v) => {
                let action = <String>::read(&v.field("action", 0, 6))?;
                let folder = <String>::read(&v.field("folder", 1, 6))?;
                let folder_id = <String>::read(&v.field("folderID", 2, 6))?;
                let label = <String>::read(&v.field("label", 3, 6))?;
                let path = <String>::read(&v.field("path", 4, 6))?;
                let kind = <String>::read(&v.field("type", 5, 6))?;
                Some(LocalChangeDetected { action, folder, folderID: folder_id, label, path, type_: kind })
            },
            _ => None,
        }
    }
}

/// Somebody tried to log in to the interface.
#[allow(non_snake_case)]
#[derive(Debug, Clone, PartialEq)]
pub struct LoginAttempt {
    pub remoteAddress: String,
    pub username: String,
    pub success: bool,
}

impl FromJson for LoginAttempt {
    open spec fn fits(s: Slot) -> bool {
        &&& s matches Slot::Found(m)
        &&& <String>::fits(slot(m, "remoteAddress"@, 0, 3))
        &&& <String>::fits(slot(m, "username"@, 1, 3))
        &&& <bool>::fits(slot(m, "success"@, 2, 3))
    }

    open spec fn reads(&self, s: Slot) -> bool {
        &&& s matches Slot::Found(m)
        &&& self.remoteAddress.reads(slot(m, "remoteAddress"@, 0, 3))
        &&& self.username.reads(slot(m, "username"@, 1, 3))
        &&& self.success.reads(slot(m, "success"@, 2, 3))
    }

    fn read(field: &Field) -> (r: Option<Self>) {
        match field {
            Field::Found(v) => {
                let remote_address = <String>::read(&v.field("remoteAddress", 0, 3))?;
                let username = <String>::read(&v.field("username", 1, 3))?;
                let success = <bool>::read(&v.field("success", 2, 3))?;
                Some(LoginAttempt { remoteAddress: remote_address, username, success })
            },
            _ => None,
        }
    }
}

/// A device that now waits to be accepted.
#[allow(non_snake_case)]
#[derive(Debug, Clone, PartialEq)]
pub struct DeviceAdd {
    pub address: String,
    pub deviceID: String,
    pub name: String,
}

impl FromJson for DeviceAdd {
    open spec fn fits(s: Slot) -> bool {
        &&& s matches Slot::Found(m)
        &&& <String>::fits(slot(m, "address"@, 0, 3))
        &&& <String>::fits(slot(m, "deviceID"@, 1, 3))
        &&& <String>::fits(slot(m, "name"@, 2, 3))
    }

    open spec fn reads(&self, s: Slot) -> bool {
        &&& s matches Slot::Found(m)
        &&& self.address.reads(slot(m, "address"@, 0, 3))
        &&& self.deviceID.reads(slot(m, "deviceID"@, 1, 3))
        &&& self.name.reads(slot(m, "name"@, 2, 3))
    }

    fn read(field: &Field) -> (r: Option<Self>) {
        match field {
            Field::Found(v) => {
                let address = <String>::read(&v.field("address", 0, 3))?;
                let device_id = <String>::read(&v.field("deviceID", 1, 3))?;
                let name = <String>::read(&v.field("name", 2, 3))?;
                Some(DeviceAdd { address, deviceID: device_id, name })
            },
            _ => None,
        }
    }
}

/// A device that waits no longer.
#[allow(non_snake_case)]
#[derive(Debug, Clone, PartialEq)]
pub struct DeviceRemove {
    pub deviceID: String,
}

impl FromJson for DeviceRemove {
    open spec fn fits(s: Slot) -> bool {
        &&& s matches Slot::Found(m)
        &&& <String>::fits(slot(m, "deviceID"@, 0, 1))
    }

    open spec fn reads(&self, s: Slot) -> bool {
        &&& s matches Slot::Found(m)
        &&& self.deviceID.reads(slot(m, "deviceID"@, 0, 1))
    }

    fn read(field: &Field) -> (r: Option<Self>) {
        match field {
            Field::Found(v) => {
                let device_id = <String>::read(&v.field("deviceID", 0, 1))?;
                Some(DeviceRemove { deviceID: device_id })
            },
            _ => None,
        }
    }
}

/// A folder that a device now offers.
#[allow(non_snake_case)]
#[derive(Debug, Clone, PartialEq)]
pub struct FolderAdd {
    pub deviceID: String,
    pub folderID: String,
    pub folderLabel: String,
    pub receiveEncrypted: String,
    pub remoteEncrypted: String,
}

impl FromJson for FolderAdd {
    open spec fn fits(s: Slot) -> bool {
        &&& s matches Slot::Found(m)
        &&& <String>::fits(slot(m, "deviceID"@, 0, 5))
        &&& <String>::fits(slot(m, "folderID"@, 1, 5))
        &&& <String>::fits(slot(m, "folderLabel"@, 2, 5))
        &&& <String>::fits(slot(m, "receiveEncrypted"@, 3, 5))
        &&& <String>::fits(slot(m, "remoteEncrypted"@, 4, 5))
    }

    open spec fn reads(&self, s: Slot) -> bool {
        &&& s matches Slot::Found(m)
        &&& self.deviceID.reads(slot(m, "deviceID"@, 0, 5))
        &&& self.folderID.reads(slot(m, "folderID"@, 1, 5))
        &&& self.folderLabel.reads(slot(m, "folderLabel"@, 2, 5))
        &&& self.receiveEncrypted.reads(slot(m, "receiveEncrypted"@, 3, 5))
        &&& self.remoteEncrypted.reads(slot(m, "remoteEncrypted"@, 4, 5))
    }

    fn read(field: &Field) -> (r: Option<Self>) {
        match field {
            Field::Found(v) => {
                let device_id = <String>::read(&v.field("deviceID", 0, 5))?;
                let folder_id = <String>::read(&v.field("folderID", 1, 5))?;
                let folder_label = <String>::read(&v.field("folderLabel", 2, 5))?;
                let receive_encrypted = <String>::read(&v.field("receiveEncrypted", 3, 5))?;
                let remote_encrypted = <String>::read(&v.field("remoteEncrypted", 4, 5))?;
                Some(FolderAdd { deviceID: device_id, folderID: folder_id, folderLabel: folder_label, receiveEncrypted: receive_encrypted, remoteEncrypted: remote_encrypted })
            },
            _ => None,
        }
    }
}

/// A folder that one device offers no longer.
#[allow(non_snake_case)]
#[derive(Debug, Clone, PartialEq)]
pub struct FolderRemovePending {
    pub deviceID: String,
    pub folderID: String,
}

impl FromJson for FolderRemovePending {
    open spec fn fits(s: Slot) -> bool {
        &&& s matches Slot::Found(m)
        &&& <String>::fits(slot(m, "deviceID"@, 0, 2))
        &&& <String>::fits(slot(m, "folderID"@, 1, 2))
    }

    open spec fn reads(&self, s: Slot) -> bool {
        &&& s matches Slot::Found(m)
        &&& self.deviceID.reads(slot(m, "deviceID"@, 0, 2))
        &&& self.folderID.reads(slot(m, "folderID"@, 1, 2))
    }

    fn read(field: &Field) -> (r: Option<Self>) {
        match field {
            Field::Found(v) => {
                let device_id = <String>::read(&v.field("deviceID", 0, 2))?;
                let folder_id = <String>::read(&v.field("folderID", 1, 2))?;
                Some(FolderRemovePending { deviceID: device_id, folderID: folder_id })
            },
            _ => None,
        }
    }
}

/// A folder that no device offers any longer.
#[allow(non_snake_case)]
#[derive(Debug, Clone, PartialEq)]
pub struct FolderRemoveNotPending {
    pub folderID: String,
}

impl FromJson for FolderRemoveNotPending {
    open spec fn fits(s: Slot) -> bool {
        &&& s matches Slot::Found(m)
        &&& <String>::fits(slot(m, "folderID"@, 0, 1))
    }

    open spec fn reads(&self, s: Slot) -> bool {
        &&& s matches Slot::Found(m)
        &&& self.folderID.reads(slot(m, "folderID"@, 0, 1))
    }

    fn read(field: &Field) -> (r: Option<Self>) {
        match field {
            Field::Found(v) => {
                let folder_id = <String>::read(&v.field("folderID", 0, 1))?;
                Some(FolderRemoveNotPending { folderID: folder_id })
            },
            _ => None,
        }
    }
}

/// A folder that is on offer no longer: an object with one member, named
/// after the variant.
#[derive(Debug, Clone, PartialEq)]
pub enum FolderRemove {
    FolderRemovePending(FolderRemovePending),
    FolderRemoveNotPending(FolderRemoveNotPending),
}

impl FromJson for FolderRemove {
    open spec fn fits(s: Slot) -> bool {
        &&& s matches Slot::Found(JsonModel::Object(members))
        &&& members.len() == 1
        &&& {
            ||| members[0].0 == "FolderRemovePending"@ && <FolderRemovePending>::fits(
                Slot::Found(members[0].1),
            )
            ||| members[0].0 == "FolderRemoveNotPending"@ && <FolderRemoveNotPending>::fits(
                Slot::Found(members[0].1),
            )
        }
    }

    open spec fn reads(&self, s: Slot) -> bool {
        &&& s matches Slot::Found(JsonModel::Object(members))
        &&& members.len() == 1
        &&& match self {
            FolderRemove::FolderRemovePending(p) => members[0].0 == "FolderRemovePending"@
                && p.reads(Slot::Found(members[0].1)),
            FolderRemove::FolderRemoveNotPending(p) => members[0].0
                == "FolderRemoveNotPending"@ && p.reads(Slot::Found(members[0].1)),
        }
    }

    fn read(field: &Field) -> (r: Option<Self>) {
        match field {
            Field::Found(JsonValue::Object(members)) => {
                if members.len() != 1 {
                    return None;
                }
                proof {
                    JsonValue::Object(*members).lemma_view_object();
                    assert(field@->Found_0->Object_0[0] == (members@[0].0@, members@[0].1@));
                }
                let inner = Field::Found(&members[0].1);
                let pending = "FolderRemovePending".to_owned();
                let not_pending = "FolderRemoveNotPending".to_owned();
                if members[0].0 == pending {
                    match <FolderRemovePending>::read(&inner) {
                        Some(p) => Some(FolderRemove::FolderRemovePending(p)),
                        None => {
                            proof {
                                reveal_strlit("FolderRemovePending");
                                reveal_strlit("FolderRemoveNotPending");
                                assert("FolderRemovePending"@[12] != "FolderRemoveNotPending"@[12]);
                            }
                            None
                        },
                    }
                } else if members[0].0 == not_pending {
                    match <FolderRemoveNotPending>::read(&inner) {
                        Some(p) => Some(FolderRemove::FolderRemoveNotPending(p)),
                        None => None,
                    }
                } else {
                    None
                }
            },
            _ => None,
        }
    }
}

/// The folders on offer have changed.
#[derive(Debug, Clone, PartialEq)]
pub struct PendingFoldersChanged {
    pub added: Vec<FolderAdd>,
    pub removed: Vec<FolderRemove>,
}

impl FromJson for PendingFoldersChanged {
    open spec fn fits(s: Slot) -> bool {
        &&& s matches Slot::Found(m)
        &&& <Vec<FolderAdd>>::fits(slot(m, "added"@, 0, 2))
        &&& <Vec<FolderRemove>>::fits(slot(m, "removed"@, 1, 2))
    }

    open spec fn reads(&self, s: Slot) -> bool {
        &&& s matches Slot::Found(m)
        &&& self.added.reads(slot(m, "added"@, 0, 2))
        &&& self.removed.reads(slot(m, "removed"@, 1, 2))
    }

    fn read(field: &Field) -> (r: Option<Self>) {
        match field {
            Field::Found(v) => {
                let added = <Vec<FolderAdd>>::read(&v.field("added", 0, 2))?;
                let removed = <Vec<FolderRemove>>::read(&v.field("removed", 1, 2))?;
                Some(PendingFoldersChanged { added, removed })
            },
            _ => None,
        }
    }
}

/// The devices that wait to be accepted have changed.
#[derive(Debug, Clone, PartialEq)]
pub struct PendingDevicesChanged {
    pub added: Vec<DeviceAdd>,
    pub removed: Vec<DeviceRemove>,
}

impl FromJson for PendingDevicesChanged {
    open spec fn fits(s: Slot) -> bool {
        &&& s matches Slot::Found(m)
        &&& <Vec<DeviceAdd>>::fits(slot(m, "added"@, 0, 2))
        &&& <Vec<DeviceRemove>>::fits(slot(m, "removed"@, 1, 2))
    }

    open spec fn reads(&self, s: Slot) -> bool {
        &&& s matches Slot::Found(m)
        &&& self.added.reads(slot(m, "added"@, 0, 2))
        &&& self.removed.reads(slot(m, "removed"@, 1, 2))
    }

    fn read(field: &Field) -> (r: Option<Self>) {
        match field {
            Field::Found(v) => {
                let added = <Vec<DeviceAdd>>::read(&v.field("added", 0, 2))?;
                let removed = <Vec<DeviceRemove>>::read(&v.field("removed", 1, 2))?;
                Some(PendingDevicesChanged { added, removed })
            },
            _ => None,
        }
    }
}

/// A change from another device was applied.
#[allow(non_snake_case)]
#[derive(Debug, Clone, PartialEq)]
pub struct RemoteChangeDetected {
    pub type_: String,
    pub action: String,
    pub folder: String,
    pub folderID: String,
    pub path: String,
    pub label: String,
    pub modifiedBy: String,
}

impl FromJson for RemoteChangeDetected {
    open spec fn fits(s: Slot) -> bool {
        &&& s matches Slot::Found(m)
        &&& <String>::fits(slot(m, "type"@, 0, 7))
        &&& <String>::fits(slot(m, "action"@, 1, 7))
        &&& <String>::fits(slot(m, "folder"@, 2, 7))
        &&& <String>::fits(slot(m, "folderID"@, 3, 7))
        &&& <String>::fits(slot(m, "path"@, 4, 7))
        &&& <String>::fits(slot(m, "label"@, 5, 7))
        &&& <String>::fits(slot(m, "modifiedBy"@, 6, 7))
    }

    open spec fn reads(&self, s: Slot) -> bool {
        &&& s matches Slot::Found(m)
        &&& self.type_.reads(slot(m, "type"@, 0, 7))
        &&& self.action.reads(slot(m, "action"@, 1, 7))
        &&& self.folder.reads(slot(m, "folder"@, 2, 7))
        &&& self.folderID.reads(slot(m, "folderID"@, 3, 7))
        &&& self.path.reads(slot(m, "path"@, 4, 7))
        &&& self.label.reads(slot(m, "label"@, 5, 7))
        &&& self.modifiedBy.reads(slot(m, "modifiedBy"@, 6, 7))
    }

    fn read(field: &Field) -> (r: Option<Self>) {
        match field {
            Field::Found(v) => {
                let kind = <String>::read(&v.field("type", 0, 7))?;
                let action = <String>::read(&v.field("action", 1, 7))?;
                let folder = <String>::read(&v.field("folder", 2, 7))?;
                let folder_id = <String>::read(&v.field("folderID", 3, 7))?;
                let path = <String>::read(&v.field("path", 4, 7))?;
                let label = <String>::read(&v.field("label", 5, 7))?;
                let modified_by = <String>::read(&v.field("modifiedBy", 6, 7))?;
                Some(RemoteChangeDetected { type_: kind, action, folder, folderID: folder_id, path, label, modifiedBy: modified_by })
            },
            _ => None,
        }
    }
}

/// What a remote device has pulled of a folder.
#[derive(Debug, Clone, PartialEq)]
pub struct RemoteDownloadProgress {
    pub state: JsonMap<JsonValue>,
    pub device: String,
    pub folder: String,
}

impl FromJson for RemoteDownloadProgress {
    open spec fn fits(s: Slot) -> bool {
        &&& s matches Slot::Found(m)
        &&& <JsonMap<JsonValue>>::fits(slot(m, "state"@, 0, 3))
        &&& <String>::fits(slot(m, "device"@, 1, 3))
        &&& <String>::fits(slot(m, "folder"@, 2, 3))
    }

    open spec fn reads(&self, s: Slot) -> bool {
        &&& s matches Slot::Found(m)
        &&& self.state.reads(slot(m, "state"@, 0, 3))
        &&& self.device.reads(slot(m, "device"@, 1, 3))
        &&& self.folder.reads(slot(m, "folder"@, 2, 3))
    }

    fn read(field: &Field) -> (r: Option<Self>) {
        match field {
            Field::Found(v) => {
                let state = <JsonMap<JsonValue>>::read(&v.field("state", 0, 3))?;
                let device = <String>::read(&v.field("device", 1, 3))?;
                let folder = <String>::read(&v.field("folder", 2, 3))?;
                Some(RemoteDownloadProgress { state, device, folder })
            },
            _ => None,
        }
    }
}

/// The index of a folder on a remote device has changed.
#[derive(Debug, Clone, PartialEq)]
pub struct RemoteIndexUpdated {
    pub device: String,
    pub folder: String,
    pub items: u16,
}

impl FromJson for RemoteIndexUpdated {
    open spec fn fits(s: Slot) -> bool {
        &&& s matches Slot::Found(m)
        &&& <String>::fits(slot(m, "device"@, 0, 3))
        &&& <String>::fits(slot(m, "folder"@, 1, 3))
        &&& <u16>::fits(slot(m, "items"@, 2, 3))
    }

    open spec fn reads(&self, s: Slot) -> bool {
        &&& s matches Slot::Found(m)
        &&& self.device.reads(slot(m, "device"@, 0, 3))
        &&& self.folder.reads(slot(m, "folder"@, 1, 3))
        &&& self.items.reads(slot(m, "items"@, 2, 3))
    }

    fn read(field: &Field) -> (r: Option<Self>) {
        match field {
            Field::Found(v) => {
                let device = <String>::read(&v.field("device", 0, 3))?;
                let folder = <String>::read(&v.field("folder", 1, 3))?;
                let items = <u16>::read(&v.field("items", 2, 3))?;
                Some(RemoteIndexUpdated { device, folder, items })
            },
            _ => None,
        }
    }
}

/// The daemon starts.
#[derive(Debug, Clone, PartialEq)]
pub struct Starting {
    pub home: String,
}

impl FromJson for Starting {
    open spec fn fits(s: Slot) -> bool {
        &&& s matches Slot::Found(m)
        &&& <String>::fits(slot(m, "home"@, 0, 1))
    }

    open spec fn reads(&self, s: Slot) -> bool {
        &&& s matches Slot::Found(m)
        &&& self.home.reads(slot(m, "home"@, 0, 1))
    }

    fn read(field: &Field) -> (r: Option<Self>) {
        match field {
            Field::Found(v) => {
                let home = <String>::read(&v.field("home", 0, 1))?;
                Some(Starting { home })
            },
            _ => None,
        }
    }
}

/// A folder went from one state to another; the duration is the number as it was sent.
#[derive(Debug, Clone, PartialEq)]
pub struct StateChanged {
    pub duration: JsonNumber,
    pub folder: String,
    pub from: String,
    pub to: String,
}

impl FromJson for StateChanged {
    open spec fn fits(s: Slot) -> bool {
        &&& s matches Slot::Found(m)
        &&& <JsonNumber>::fits(slot(m, "duration"@, 0, 4))
        &&& <String>::fits(slot(m, "folder"@, 1, 4))
        &&& <String>::fits(slot(m, "from"@, 2, 4))
        &&& <String>::fits(slot(m, "to"@, 3, 4))
    }

    open spec fn reads(&self, s: Slot) -> bool {
        &&& s matches Slot::Found(m)
        &&& self.duration.reads(slot(m, "duration"@, 0, 4))
        &&& self.folder.reads(slot(m, "folder"@, 1, 4))
        &&& self.from.reads(slot(m, "from"@, 2, 4))
        &&& self.to.reads(slot(m, "to"@, 3, 4))
    }

    fn read(field: &Field) -> (r: Option<Self>) {
        match field {
            Field::Found(v) => {
                let duration = <JsonNumber>::read(&v.field("duration", 0, 4))?;
                let folder = <String>::read(&v.field("folder", 1, 4))?;
                let from = <String>::read(&v.field("from", 2, 4))?;
                let to = <String>::read(&v.field("to", 3, 4))?;
                Some(StateChanged { duration, folder, from, to })
            },
            _ => None,
        }
    }
}

/// A folder's files in progress, by file name.
pub type DownloadProgress = JsonMap<File>;

/// The text of a failure that the daemon reports.
pub type Failure = String;

/// The members of a payload of no known shape.
pub type Unknown = JsonMap<JsonValue>;

/// The payload of an event: one of the known shapes, or `Unknown`.
#[derive(Debug, Clone, PartialEq)]
pub enum EventTypes {
    DeviceConnected(DeviceConnected),
    DeviceDisconnected(DeviceDisconnected),
    ClusterConfigReceived(ClusterConfigReceived),
    ConfigSaved(ConfigSaved),
    DownloadProgress(DownloadProgress),
    Failure(Failure),
    FolderCompletion(FolderCompletion),
    FolderErrors(FolderErrors),
    FolderPaused(FolderPaused),
    FolderResumed(FolderResumed),
    FolderScanProgress(FolderScanProgress),
    FolderSummary(FolderSummary),
    FolderWatchStateChanged(FolderWatchStateChanged),
    ItemFinished(ItemFinished),
    ItemStarted(ItemStarted),
    ListenAddressChanged(ListenAddressChanged),
    LocalChangeDetected(LocalChangeDetected),
    LocalIndexUpdated(LocalIndexUpdated),
    LoginAttempt(LoginAttempt),
    PendingDevicesChanged(PendingDevicesChanged),
    RemoteChangeDetected(RemoteChangeDetected),
    RemoteDownloadProgress(RemoteDownloadProgress),
    RemoteIndexUpdated(RemoteIndexUpdated),
    Starting(Starting),
    StateChanged(StateChanged),
    Unknown(Unknown),
}

/// The shapes that a payload can have, in the order in which they are tried.
#[derive(Debug, Clone, Copy, PartialEq, Eq)]
pub enum PayloadKind {
    DeviceConnected,
    DeviceDisconnected,
    ClusterConfigReceived,
    ConfigSaved,
    DownloadProgress,
    Failure,
    FolderCompletion,
    FolderErrors,
    FolderPaused,
    FolderResumed,
    FolderScanProgress,
    FolderSummary,
    FolderWatchStateChanged,
    ItemFinished,
    ItemStarted,
    ListenAddressChanged,
    LocalChangeDetected,
    LocalIndexUpdated,
    LoginAttempt,
    PendingDevicesChanged,
    RemoteChangeDetected,
    RemoteDownloadProgress,
    RemoteIndexUpdated,
    Starting,
    StateChanged,
    Unknown,
}

/// The shape that a payload is read as: the first in the order of
/// [`PayloadKind`] that it fits, and `Unknown` where it fits none.
pub open spec fn kind_of(s: Slot) -> PayloadKind {
    if <DeviceConnected>::fits(s) {
        PayloadKind::DeviceConnected
    } else if <DeviceDisconnected>::fits(s) {
        PayloadKind::DeviceDisconnected
    } else if <ClusterConfigReceived>::fits(s) {
        PayloadKind::ClusterConfigReceived
    } else if <ConfigSaved>::fits(s) {
        PayloadKind::ConfigSaved
    } else if <DownloadProgress>::fits(s) {
        PayloadKind::DownloadProgress
    } else if <Failure>::fits(s) {
        PayloadKind::Failure
    } else if <FolderCompletion>::fits(s) {
        PayloadKind::FolderCompletion
    } else if <FolderErrors>::fits(s) {
        PayloadKind::FolderErrors
    } else if <FolderPaused>::fits(s) {
        PayloadKind::FolderPaused
    } else if <FolderResumed>::fits(s) {
        PayloadKind::FolderResumed
    } else if <FolderScanProgress>::fits(s) {
        PayloadKind::FolderScanProgress
    } else if <FolderSummary>::fits(s) {
        PayloadKind::FolderSummary
    } else if <FolderWatchStateChanged>::fits(s) {
        PayloadKind::FolderWatchStateChanged
    } else if <ItemFinished>::fits(s) {
        PayloadKind::ItemFinished
    } else if <ItemStarted>::fits(s) {
        PayloadKind::ItemStarted
    } else if <ListenAddressChanged>::fits(s) {
        PayloadKind::ListenAddressChanged
    } else if <LocalChangeDetected>::fits(s) {
        PayloadKind::LocalChangeDetected
    } else if <LocalIndexUpdated>::fits(s) {
        PayloadKind::LocalIndexUpdated
    } else if <LoginAttempt>::fits(s) {
        PayloadKind::LoginAttempt
    } else if <PendingDevicesChanged>::fits(s) {
        PayloadKind::PendingDevicesChanged
    } else if <RemoteChangeDetected>::fits(s) {
        PayloadKind::RemoteChangeDetected
    } else if <RemoteDownloadProgress>::fits(s) {
        PayloadKind::RemoteDownloadProgress
    } else if <RemoteIndexUpdated>::fits(s) {
        PayloadKind::RemoteIndexUpdated
    } else if <Starting>::fits(s) {
        PayloadKind::Starting
    } else if <StateChanged>::fits(s) {
        PayloadKind::StateChanged
    } else {
        PayloadKind::Unknown
    }
}

impl EventTypes {
    /// The shape of this payload.
    pub open spec fn kind(self) -> PayloadKind {
        match self {
            EventTypes::DeviceConnected(_) => PayloadKind::DeviceConnected,
            EventTypes::DeviceDisconnected(_) => PayloadKind::DeviceDisconnected,
            EventTypes::ClusterConfigReceived(_) => PayloadKind::ClusterConfigReceived,
            EventTypes::ConfigSaved(_) => PayloadKind::ConfigSaved,
            EventTypes::DownloadProgress(_) => PayloadKind::DownloadProgress,
            EventTypes::Failure(_) => PayloadKind::Failure,
            EventTypes::FolderCompletion(_) => PayloadKind::FolderCompletion,
            EventTypes::FolderErrors(_) => PayloadKind::FolderErrors,
            EventTypes::FolderPaused(_) => PayloadKind::FolderPaused,
            EventTypes::FolderResumed(_) => PayloadKind::FolderResumed,
            EventTypes::FolderScanProgress(_) => PayloadKind::FolderScanProgress,
            EventTypes::FolderSummary(_) => PayloadKind::FolderSummary,
            EventTypes::FolderWatchStateChanged(_) => PayloadKind::FolderWatchStateChanged,
            EventTypes::ItemFinished(_) => PayloadKind::ItemFinished,
            EventTypes::ItemStarted(_) => PayloadKind::ItemStarted,
            EventTypes::ListenAddressChanged(_) => PayloadKind::ListenAddressChanged,
            EventTypes::LocalChangeDetected(_) => PayloadKind::LocalChangeDetected,
            EventTypes::LocalIndexUpdated(_) => PayloadKind::LocalIndexUpdated,
            EventTypes::LoginAttempt(_) => PayloadKind::LoginAttempt,
            EventTypes::PendingDevicesChanged(_) => PayloadKind::PendingDevicesChanged,
            EventTypes::RemoteChangeDetected(_) => PayloadKind::RemoteChangeDetected,
            EventTypes::RemoteDownloadProgress(_) => PayloadKind::RemoteDownloadProgress,
            EventTypes::RemoteIndexUpdated(_) => PayloadKind::RemoteIndexUpdated,
            EventTypes::Starting(_) => PayloadKind::Starting,
            EventTypes::StateChanged(_) => PayloadKind::StateChanged,
            EventTypes::Unknown(_) => PayloadKind::Unknown,
        }
    }

    /// Whether this payload holds what the slot holds, read in the
    /// payload's own shape. An `Unknown` payload holds the members of an
    /// object as they are, and nothing where the slot holds no object.
    pub open spec fn carries(self, s: Slot) -> bool {
        match self {
            EventTypes::DeviceConnected(p) => p.reads(s),
            EventTypes::DeviceDisconnected(p) => p.reads(s),
            EventTypes::ClusterConfigReceived(p) => p.reads(s),
            EventTypes::ConfigSaved(p) => p.reads(s),
            EventTypes::DownloadProgress(p) => p.reads(s),
            EventTypes::Failure(p) => p.reads(s),
            EventTypes::FolderCompletion(p) => p.reads(s),
            EventTypes::FolderErrors(p) => p.reads(s),
            EventTypes::FolderPaused(p) => p.reads(s),
            EventTypes::FolderResumed(p) => p.reads(s),
            EventTypes::FolderScanProgress(p) => p.reads(s),
            EventTypes::FolderSummary(p) => p.reads(s),
            EventTypes::FolderWatchStateChanged(p) => p.reads(s),
            EventTypes::ItemFinished(p) => p.reads(s),
            EventTypes::ItemStarted(p) => p.reads(s),
            EventTypes::ListenAddressChanged(p) => p.reads(s),
            EventTypes::LocalChangeDetected(p) => p.reads(s),
            EventTypes::LocalIndexUpdated(p) => p.reads(s),
            EventTypes::LoginAttempt(p) => p.reads(s),
            EventTypes::PendingDevicesChanged(p) => p.reads(s),
            EventTypes::RemoteChangeDetected(p) => p.reads(s),
            EventTypes::RemoteDownloadProgress(p) => p.reads(s),
            EventTypes::RemoteIndexUpdated(p) => p.reads(s),
            EventTypes::Starting(p) => p.reads(s),
            EventTypes::StateChanged(p) => p.reads(s),
            EventTypes::Unknown(p) => if <Unknown>::fits(s) {
                p.reads(s)
            } else {
                p.entries@.len() == 0
            },
        }
    }

    /// The shape of this payload.
    pub fn payload_kind(&self) -> (r: PayloadKind)
        ensures
            r == self.kind(),
    {
        match self {
            EventTypes::DeviceConnected(_) => PayloadKind::DeviceConnected,
            EventTypes::DeviceDisconnected(_) => PayloadKind::DeviceDisconnected,
            EventTypes::ClusterConfigReceived(_) => PayloadKind::ClusterConfigReceived,
            EventTypes::ConfigSaved(_) => PayloadKind::ConfigSaved,
            EventTypes::DownloadProgress(_) => PayloadKind::DownloadProgress,
            EventTypes::Failure(_) => PayloadKind::Failure,
            EventTypes::FolderCompletion(_) => PayloadKind::FolderCompletion,
            EventTypes::FolderErrors(_) => PayloadKind::FolderErrors,
            EventTypes::FolderPaused(_) => PayloadKind::FolderPaused,
            EventTypes::FolderResumed(_) => PayloadKind::FolderResumed,
            EventTypes::FolderScanProgress(_) => PayloadKind::FolderScanProgress,
            EventTypes::FolderSummary(_) => PayloadKind::FolderSummary,
            EventTypes::FolderWatchStateChanged(_) => PayloadKind::FolderWatchStateChanged,
            EventTypes::ItemFinished(_) => PayloadKind::ItemFinished,
            EventTypes::ItemStarted(_) => PayloadKind::ItemStarted,
            EventTypes::ListenAddressChanged(_) => PayloadKind::ListenAddressChanged,
            EventTypes::LocalChangeDetected(_) => PayloadKind::LocalChangeDetected,
            EventTypes::LocalIndexUpdated(_) => PayloadKind::LocalIndexUpdated,
            EventTypes::LoginAttempt(_) => PayloadKind::LoginAttempt,
            EventTypes::PendingDevicesChanged(_) => PayloadKind::PendingDevicesChanged,
            EventTypes::RemoteChangeDetected(_) => PayloadKind::RemoteChangeDetected,
            EventTypes::RemoteDownloadProgress(_) => PayloadKind::RemoteDownloadProgress,
            EventTypes::RemoteIndexUpdated(_) => PayloadKind::RemoteIndexUpdated,
            EventTypes::Starting(_) => PayloadKind::Starting,
            EventTypes::StateChanged(_) => PayloadKind::StateChanged,
            EventTypes::Unknown(_) => PayloadKind::Unknown,
        }
    }

    /// Classifies the payload of an event. Every value has a payload: the
    /// known shapes are tried in their order and the first that fits is
    /// taken; a value that fits none becomes `Unknown`.
    pub fn parse(data: &JsonValue) -> (r: EventTypes)
        ensures
            r.kind() == kind_of(Slot::Found(data@)),
            r.carries(Slot::Found(data@)),
    {
        let field = Field::Found(data);
        if let Some(p) = <DeviceConnected>::read(&field) {
            return EventTypes::DeviceConnected(p);
        }
        if let Some(p) = <DeviceDisconnected>::read(&field) {
            return EventTypes::DeviceDisconnected(p);
        }
        if let Some(p) = <ClusterConfigReceived>::read(&field) {
            return EventTypes::ClusterConfigReceived(p);
        }
        if let Some(p) = <ConfigSaved>::read(&field) {
            return EventTypes::ConfigSaved(p);
        }
        if let Some(p) = <DownloadProgress>::read(&field) {
            return EventTypes::DownloadProgress(p);
        }
        if let Some(p) = <Failure>::read(&field) {
            return EventTypes::Failure(p);
        }
        if let Some(p) = <FolderCompletion>::read(&field) {
            return EventTypes::FolderCompletion(p);
        }
        if let Some(p) = <FolderErrors>::read(&field) {
            return EventTypes::FolderErrors(p);
        }
        if let Some(p) = <FolderPaused>::read(&field) {
            return EventTypes::FolderPaused(p);
        }
        if let Some(p) = <FolderResumed>::read(&field) {
            return EventTypes::FolderResumed(p);
        }
        if let Some(p) = <FolderScanProgress>::read(&field) {
            return EventTypes::FolderScanProgress(p);
        }
        if let Some(p) = <FolderSummary>::read(&field) {
            return EventTypes::FolderSummary(p);
        }
        if let Some(p) = <FolderWatchStateChanged>::read(&field) {
            return EventTypes::FolderWatchStateChanged(p);
        }
        if let Some(p) = <ItemFinished>::read(&field) {
            return EventTypes::ItemFinished(p);
        }
        if let Some(p) = <ItemStarted>::read(&field) {
            return EventTypes::ItemStarted(p);
        }
        if let Some(p) = <ListenAddressChanged>::read(&field) {
            return EventTypes::ListenAddressChanged(p);
        }
        if let Some(p) = <LocalChangeDetected>::read(&field) {
            return EventTypes::LocalChangeDetected(p);
        }
        if let Some(p) = <LocalIndexUpdated>::read(&field) {
            return EventTypes::LocalIndexUpdated(p);
        }
        if let Some(p) = <LoginAttempt>::read(&field) {
            return EventTypes::LoginAttempt(p);
        }
        if let Some(p) = <PendingDevicesChanged>::read(&field) {
            return EventTypes::PendingDevicesChanged(p);
        }
        if let Some(p) = <RemoteChangeDetected>::read(&field) {
            return EventTypes::RemoteChangeDetected(p);
        }
        if let Some(p) = <RemoteDownloadProgress>::read(&field) {
            return EventTypes::RemoteDownloadProgress(p);
        }
        if let Some(p) = <RemoteIndexUpdated>::read(&field) {
            return EventTypes::RemoteIndexUpdated(p);
        }
        if let Some(p) = <Starting>::read(&field) {
            return EventTypes::Starting(p);
        }
        if let Some(p) = <StateChanged>::read(&field) {
            return EventTypes::StateChanged(p);
        }
        match <Unknown>::read(&field) {
            Some(p) => EventTypes::Unknown(p),
            None => EventTypes::Unknown(JsonMap { entries: Vec::new() }),
        }
    }
}

/// A payload in the slot of a field: any value that is there.
impl FromJson for EventTypes {
    open spec fn fits(s: Slot) -> bool {
        s is Found
    }

    open spec fn reads(&self, s: Slot) -> bool {
        self.kind() == kind_of(s) && self.carries(s)
    }

    fn read(field: &Field) -> (r: Option<Self>) {
        match field {
            Field::Found(v) => Some(EventTypes::parse(*v)),
            _ => None,
        }
    }
}

/// One event of the stream. `type_` is the event's type as the daemon names it (the member `type` of the record): scripts are found by it, whatever shape the payload has.
#[allow(non_snake_case)]
#[derive(Debug, Clone, PartialEq)]
pub struct SyncthingEvent {
    pub id: u64,
    pub globalID: u64,
    pub type_: String,
    pub time: String,
    pub data: EventTypes,
}

impl FromJson for SyncthingEvent {
    open spec fn fits(s: Slot) -> bool {
        &&& s matches Slot::Found(m)
        &&& <u64>::fits(slot(m, "id"@, 0, 5))
        &&& <u64>::fits(slot(m, "globalID"@, 1, 5))
        &&& <String>::fits(slot(m, "type"@, 2, 5))
        &&& <String>::fits(slot(m, "time"@, 3, 5))
        &&& <EventTypes>::fits(slot(m, "data"@, 4, 5))
    }

    open spec fn reads(&self, s: Slot) -> bool {
        &&& s matches Slot::Found(m)
        &&& self.id.reads(slot(m, "id"@, 0, 5))
        &&& self.globalID.reads(slot(m, "globalID"@, 1, 5))
        &&& self.type_.reads(slot(m, "type"@, 2, 5))
        &&& self.time.reads(slot(m, "time"@, 3, 5))
        &&& self.data.reads(slot(m, "data"@, 4, 5))
    }

    fn read(field: &Field) -> (r: Option<Self>) {
        match field {
            Field::Found(v) => {
                let id = <u64>::read(&v.field("id", 0, 5))?;
                let global_id = <u64>::read(&v.field("globalID", 1, 5))?;
                let kind = <String>::read(&v.field("type", 2, 5))?;
                let time = <String>::read(&v.field("time", 3, 5))?;
                let data = <EventTypes>::read(&v.field("data", 4, 5))?;
                Some(SyncthingEvent { id, globalID: global_id, type_: kind, time, data })
            },
            _ => None,
        }
    }
}

/// One record of the stream as it came, its payload not yet classified.
#[allow(non_snake_case)]
#[derive(Debug, Clone, PartialEq)]
pub struct RawEvent {
    pub id: u64,
    pub globalID: u64,
    pub type_: String,
    pub time: String,
    pub data: JsonValue,
}

impl FromJson for RawEvent {
    open spec fn fits(s: Slot) -> bool {
        &&& s matches Slot::Found(m)
        &&& <u64>::fits(slot(m, "id"@, 0, 5))
        &&& <u64>::fits(slot(m, "globalID"@, 1, 5))
        &&& <String>::fits(slot(m, "type"@, 2, 5))
        &&& <String>::fits(slot(m, "time"@, 3, 5))
        &&& <JsonValue>::fits(slot(m, "data"@, 4, 5))
    }

    open spec fn reads(&self, s: Slot) -> bool {
        &&& s matches Slot::Found(m)
        &&& self.id.reads(slot(m, "id"@, 0, 5))
        &&& self.globalID.reads(slot(m, "globalID"@, 1, 5))
        &&& self.type_.reads(slot(m, "type"@, 2, 5))
        &&& self.time.reads(slot(m, "time"@, 3, 5))
        &&& self.data.reads(slot(m, "data"@, 4, 5))
    }

    fn read(field: &Field) -> (r: Option<Self>) {
        match field {
            Field::Found(v) => {
                let id = <u64>::read(&v.field("id", 0, 5))?;
                let global_id = <u64>::read(&v.field("globalID", 1, 5))?;
                let kind = <String>::read(&v.field("type", 2, 5))?;
                let time = <String>::read(&v.field("time", 3, 5))?;
                let data = <JsonValue>::read(&v.field("data", 4, 5))?;
                Some(RawEvent { id, globalID: global_id, type_: kind, time, data })
            },
            _ => None,
        }
    }
}

impl SyncthingEvent {
    /// The event of a record as it came: the payload is classified, the
    /// rest is kept.
    pub fn from_raw(raw: RawEvent) -> (r: SyncthingEvent)
        ensures
            r.id == raw.id,
            r.globalID == raw.globalID,
            r.type_ == raw.type_,
            r.time == raw.time,
            r.data.kind() == kind_of(Slot::Found(raw.data@)),
            r.data.carries(Slot::Found(raw.data@)),
    {
        let data = EventTypes::parse(&raw.data);
        SyncthingEvent {
            id: raw.id,
            globalID: raw.globalID,
            type_: raw.type_,
            time: raw.time,
            data,
        }
    }
}

/// An event read from a record in one go is the event of the record as it
/// came: to keep the payload first and to classify it then gives the same.
pub proof fn lemma_from_raw_is_reading(raw: RawEvent, event: SyncthingEvent, s: Slot)
    requires
        raw.reads(s),
        event.id == raw.id,
        event.globalID == raw.globalID,
        event.type_ == raw.type_,
        event.time == raw.time,
        event.data.kind() == kind_of(Slot::Found(raw.data@)),
        event.data.carries(Slot::Found(raw.data@)),
    ensures
        event.reads(s),
{
}

/// A payload of no known shape is kept whole: where the value is an object
/// that fits none of the known shapes, the payload is `Unknown` and holds
/// every member of the object, in its place, under its name and with its
/// value.
pub proof fn lemma_unknown_payload_is_lossless(
    payload: EventTypes,
    members: Seq<(Seq<char>, JsonModel)>,
)
    requires
        payload.reads(Slot::Found(JsonModel::Object(members))),
        kind_of(Slot::Found(JsonModel::Object(members))) is Unknown,
    ensures
        payload is Unknown,
        payload->Unknown_0.entries@.len() == members.len(),
        forall|i: int|
            0 <= i < members.len() ==> (#[trigger] payload->Unknown_0.entries@[i]).0@
                == members[i].0 && payload->Unknown_0.entries@[i].1@ == members[i].1,
{
    let s = Slot::Found(JsonModel::Object(members));
    assert(s->Found_0->Object_0 == members);
    assert(<Unknown>::fits(s));
}

/// A string is always read as `Failure`, whatever it says.
pub proof fn lemma_text_is_failure(text: Seq<char>)
    ensures
        kind_of(Slot::Found(JsonModel::Text(text))) is Failure,
{
}

/// A number, a truth value and null fit no shape: their payload is
/// `Unknown`, and it is empty.
pub proof fn lemma_scalar_is_unknown(payload: EventTypes, m: JsonModel)
    requires
        m is Null || m is Bool || m is Number,
        payload.reads(Slot::Found(m)),
    ensures
        payload is Unknown,
        payload->Unknown_0.entries@.len() == 0,
{
}

/// `FolderResumed` is never read: it has the fields of `FolderPaused`,
/// which is tried first.
pub proof fn lemma_folder_resumed_is_hidden(s: Slot)
    ensures
        !(kind_of(s) is FolderResumed),
{
}

/// Shapes that an object never has, because an earlier shape asks for
/// fewer of the same members: `StateChanged` (read as
/// `FolderWatchStateChanged`), `RemoteChangeDetected` (read as
/// `LocalChangeDetected` or earlier), and `FolderCompletion`,
/// `RemoteDownloadProgress` and `RemoteIndexUpdated` (read as
/// `ClusterConfigReceived` or earlier).
pub proof fn lemma_shapes_hidden_in_objects(members: Seq<(Seq<char>, JsonModel)>)
    ensures
        ({
            let k = kind_of(Slot::Found(JsonModel::Object(members)));
            &&& !(k is StateChanged)
            &&& !(k is RemoteChangeDetected)
            &&& !(k is FolderCompletion)
            &&& !(k is RemoteDownloadProgress)
            &&& !(k is RemoteIndexUpdated)
        }),
{
}

/// An object is read as `ItemStarted` only where `ItemFinished`, which asks
/// for the same members, is put off by a member `error` that is neither
/// text nor null, or that occurs twice.
pub proof fn lemma_item_started_in_objects(members: Seq<(Seq<char>, JsonModel)>)
    requires
        kind_of(Slot::Found(JsonModel::Object(members))) is ItemStarted,
    ensures
        !<Option<String>>::fits(member_slot(members, "error"@)),
{
}

/// An object without members is read as `DownloadProgress`, the first
/// shape that asks for no member.
pub proof fn lemma_empty_object_is_download_progress()
    ensures
        kind_of(Slot::Found(JsonModel::Object(Seq::empty()))) is DownloadProgress,
{
    let members = Seq::<(Seq<char>, JsonModel)>::empty();
    let s = Slot::Found(JsonModel::Object(members));
    assert(forall|name: Seq<char>| member_slot(members, name) is Missing) by {
        assert forall|name: Seq<char>| member_slot(members, name) is Missing by {
            assert(forall|i: int| !named(members, name, i));
        }
    }
    assert(s->Found_0->Object_0 == members);
    assert(<DownloadProgress>::fits(s));
}

} // verus!
