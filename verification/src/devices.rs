//! Plain descriptions of audio devices, capture permissions and
//! recordable applications, as the interface consumes them. Enumerating
//! real devices and applications is platform work done outside this
//! crate; here live the data shapes and the portable fallback.

use vstd::prelude::*;

verus! {

/// One audio device, as shown to the user.
#[derive(Debug, Clone)]
pub struct AudioDevice {
    /// Stable identifier of the device.
    pub id: String,
    /// Human-readable device name.
    pub name: String,
}

/// The system's current default devices, where they could be determined.
#[derive(Debug, Clone)]
pub struct DefaultDevices {
    /// Name of the default capture device.
    pub default_input: Option<String>,
    /// Name of the loopback output device, if one is installed.
    pub blackhole_output: Option<String>,
}

/// Whether the loopback audio driver is installed, and where it was found.
#[derive(Debug, Clone)]
pub struct BlackHoleStatus {
    /// True when at least one driver bundle is present.
    pub installed: bool,
    /// The driver bundle paths that exist.
    pub paths: Vec<String>,
}

/// Status of the capture permissions the application needs.
#[derive(Debug, Clone)]
pub struct PermissionStatus {
    /// Microphone access: "granted", "denied" or "not_determined".
    pub microphone: String,
    /// True when screen recording (needed for app audio) is granted.
    pub screen_recording: bool,
}

/// One running application whose audio can be mixed into recordings.
#[derive(Debug, Clone)]
pub struct RecordableApp {
    /// Stable identifier handed back when the user picks the app.
    pub id: String,
    /// Human-readable application name.
    pub name: String,
    /// The application's bundle identifier.
    pub bundle_id: String,
}

/// The recordable applications on platforms without app-audio capture:
/// only the "record nothing besides the microphone" entry.
pub fn get_recordable_apps() -> (r: Result<Vec<RecordableApp>, String>)
    ensures
        r is Ok,
        r->Ok_0@.len() == 1,
        r->Ok_0@[0].id@ == "none"@,
        r->Ok_0@[0].name@ == "None (Mic only)"@,
        r->Ok_0@[0].bundle_id@ == "none"@,
{
    let mut apps: Vec<RecordableApp> = Vec::new();
    apps.push(RecordableApp {
        id: "none".to_owned(),
        name: "None (Mic only)".to_owned(),
        bundle_id: "none".to_owned(),
    });
    Ok(apps)
}

} // verus!
