//! What a board can do, and the feature profile that it is given.

use vstd::prelude::*;

verus! {

/// A way in which a board can emit audio.
#[derive(Debug, Clone, Copy, PartialEq, Eq, Structural)]
pub enum AudioOutput {
    I2S,
    USB,
    HDMI,
    Headphone,
}

/// What was found out about the board.
#[derive(Debug, Clone, PartialEq, Eq)]
pub struct HardwareCapabilities {
    pub cpu_cores: usize,
    pub ram_mb: usize,
    pub board_id: String,
    pub audio_outputs: Vec<AudioOutput>,
    pub preferred_output: AudioOutput,
}

/// The features that a profile switches on.
#[derive(Debug, Clone, Copy, PartialEq, Eq, Structural)]
pub struct FeatureSet {
    pub airplay: bool,
    pub web_ui: bool,
    pub local_tts: bool,
    pub calibration: bool,
}

/// The name of a profile.
#[derive(Debug, Clone, Copy, PartialEq, Eq, Structural)]
pub enum ProfileId {
    Minimal,
    Standard,
    Enhanced,
}

/// A set of features together with the resources that it needs.
#[derive(Debug, Clone, Copy, PartialEq, Eq, Structural)]
pub struct HardwareProfile {
    pub id: ProfileId,
    pub min_cores: usize,
    pub min_ram_mb: usize,
    pub features: FeatureSet,
}

/// The profiles that a board can be given, from the most modest up.
pub open spec fn hardware_profiles() -> Seq<HardwareProfile> {
    seq![
        HardwareProfile {
            id: ProfileId::Minimal,
            min_cores: 4,
            min_ram_mb: 256,
            features: FeatureSet { airplay: true, web_ui: false, local_tts: false, calibration: true },
        },
        HardwareProfile {
            id: ProfileId::Standard,
            min_cores: 4,
            min_ram_mb: 1024,
            features: FeatureSet { airplay: true, web_ui: true, local_tts: false, calibration: true },
        },
        HardwareProfile {
            id: ProfileId::Enhanced,
            min_cores: 4,
            min_ram_mb: 4096,
            features: FeatureSet { airplay: true, web_ui: true, local_tts: true, calibration: true },
        },
    ]
}

impl HardwareProfile {
    /// Whether a board with `cpu_cores` cores and `ram_mb` megabytes of
    /// memory has what the profile needs.
    pub open spec fn fits(self, cpu_cores: int, ram_mb: int) -> bool {
        cpu_cores >= self.min_cores && ram_mb >= self.min_ram_mb
    }
}

/// Whether `profile` is the one to give a board with `cpu_cores` cores and
/// `ram_mb` megabytes of memory: of the profiles that fit the board, the
/// first that needs the most memory; the first of all where none fits.
pub open spec fn is_selected_profile(profile: HardwareProfile, cpu_cores: int, ram_mb: int) -> bool {
    let profiles = hardware_profiles();
    if exists|i: int| 0 <= i < profiles.len() && (#[trigger] profiles[i]).fits(cpu_cores, ram_mb) {
        exists|i: int|
            {
                &&& 0 <= i < profiles.len()
                &&& profile == #[trigger] profiles[i]
                &&& profile.fits(cpu_cores, ram_mb)
                &&& forall|j: int|
                    0 <= j < profiles.len() && (#[trigger] profiles[j]).fits(cpu_cores, ram_mb)
                        ==> profiles[j].min_ram_mb < profile.min_ram_mb || (profiles[j].min_ram_mb
                        == profile.min_ram_mb && i <= j)
            }
    } else {
        profile == profiles[0]
    }
}

/// The profiles that a board can be given, from the most modest up.
pub fn profile_table() -> (profiles: Vec<HardwareProfile>)
    ensures
        profiles@ == hardware_profiles(),
{
    let mut profiles: Vec<HardwareProfile> = Vec::new();
    profiles.push(
        HardwareProfile {
            id: ProfileId::Minimal,
            min_cores: 4,
            min_ram_mb: 256,
            features: FeatureSet { airplay: true, web_ui: false, local_tts: false, calibration: true },
        },
    );
    profiles.push(
        HardwareProfile {
            id: ProfileId::Standard,
            min_cores: 4,
            min_ram_mb: 1024,
            features: FeatureSet { airplay: true, web_ui: true, local_tts: false, calibration: true },
        },
    );
    profiles.push(
        HardwareProfile {
            id: ProfileId::Enhanced,
            min_cores: 4,
            min_ram_mb: 4096,
            features: FeatureSet { airplay: true, web_ui: true, local_tts: true, calibration: true },
        },
    );
    assert(profiles@ =~= hardware_profiles());
    profiles
}

/// Picks the profile for a board: the most demanding one that the board
/// can carry, and the most modest one where it can carry none.
pub fn select_hardware_profile(capabilities: &HardwareCapabilities) -> (profile: HardwareProfile)
    ensures
        is_selected_profile(profile, capabilities.cpu_cores as int, capabilities.ram_mb as int),
        profile.id == (if capabilities.cpu_cores >= 4 && capabilities.ram_mb >= 4096 {
            ProfileId::Enhanced
        } else if capabilities.cpu_cores >= 4 && capabilities.ram_mb >= 1024 {
            ProfileId::Standard
        } else {
            ProfileId::Minimal
        }),
        exists|i: int| 0 <= i < 3 && profile == #[trigger] hardware_profiles()[i],
{
    let profiles = profile_table();
    let cores = capabilities.cpu_cores;
    let ram = capabilities.ram_mb;
    let mut best: Option<usize> = None;
    let mut i: usize = 0;
    while i < profiles.len()
        invariant
            i <= profiles.len(),
            profiles@ == hardware_profiles(),
            cores == capabilities.cpu_cores,
            ram == capabilities.ram_mb,
            match best {
                Some(b) => {
                    &&& b < i
                    &&& profiles@[b as int].fits(cores as int, ram as int)
                    &&& forall|j: int|
                        0 <= j < i && (#[trigger] profiles@[j]).fits(cores as int, ram as int)
                            ==> profiles@[j].min_ram_mb < profiles@[b as int].min_ram_mb || (
                        profiles@[j].min_ram_mb == profiles@[b as int].min_ram_mb && b <= j)
                },
                None => forall|j: int|
                    0 <= j < i ==> !(#[trigger] profiles@[j]).fits(cores as int, ram as int),
            },
        decreases profiles.len() - i,
    {
        let candidate = profiles[i];
        if cores >= candidate.min_cores && ram >= candidate.min_ram_mb {
            let better = match best {
                Some(b) => candidate.min_ram_mb > profiles[b].min_ram_mb,
                None => true,
            };
            if better {
                best = Some(i);
            }
        }
        i += 1;
    }
    match best {
        Some(b) => {
            assert(hardware_profiles()[b as int].fits(cores as int, ram as int));
            profiles[b]
        },
        None => profiles[0],
    }
}

} // verus!
