//! Persistence of the vacation settings and of Wi-Fi credentials.
use crate::scheduler::vacation::VacationSettings;
use vstd::prelude::*;

verus! {

/// Wi-Fi station credentials.
#[derive(Debug, PartialEq, Eq)]
pub struct WifiCredentials {
    pub ssid: String,
    pub password: String,
}

impl Clone for WifiCredentials {
    fn clone(&self) -> (c: Self)
        ensures
            c == *self,
    {
        WifiCredentials { ssid: self.ssid.clone(), password: self.password.clone() }
    }
}

impl Default for WifiCredentials {
    fn default() -> (c: Self)
        ensures
            c.ssid@ == Seq::<char>::empty(),
            c.password@ == Seq::<char>::empty(),
    {
        WifiCredentials { ssid: String::new(), password: String::new() }
    }
}

/// Where the vacation settings persist across reboots.
///
/// Its state is modelled by the settings it holds and by whether it is able to take the
/// next save.
pub trait VacationStorage: Send + Sync {
    /// The settings held.
    spec fn stored(&self) -> VacationSettings;

    /// Whether the next save will succeed.
    spec fn accepts_save(&self) -> bool;

    /// Reads the settings back; a successful read gives what is held.
    fn load(&self) -> (r: Result<VacationSettings, String>)
        ensures
            r is Ok ==> r == Ok::<VacationSettings, String>(self.stored()),
    ;

    /// Persists the settings: on success they are what is held, on failure what was held
    /// stays.
    fn save(&mut self, settings: &VacationSettings) -> (r: Result<(), String>)
        ensures
            (r is Ok) == old(self).accepts_save(),
            r is Ok ==> final(self).stored() == *settings,
            r is Err ==> final(self).stored() == old(self).stored(),
    ;
}

/// Where Wi-Fi credentials persist.
pub trait WifiStorage: Send + Sync {
    fn load_wifi(&self) -> Result<Option<WifiCredentials>, String>;

    fn save_wifi(&mut self, creds: &WifiCredentials) -> Result<(), String>;

    fn clear_wifi(&mut self) -> Result<(), String>;
}

/// Storage for both the vacation settings and Wi-Fi credentials.
pub trait AppStorage: VacationStorage + WifiStorage {

}

impl<T: VacationStorage + WifiStorage> AppStorage for T {

}

/// Storage kept in memory, for the host simulator and for tests.
#[derive(Debug)]
pub struct InMemoryStorage {
    settings: VacationSettings,
    wifi: Option<WifiCredentials>,
}

impl View for InMemoryStorage {
    type V = (VacationSettings, Option<WifiCredentials>);

    closed spec fn view(&self) -> (VacationSettings, Option<WifiCredentials>) {
        (self.settings, self.wifi)
    }
}

impl Clone for InMemoryStorage {
    fn clone(&self) -> (c: Self)
        ensures
            c@ == self@,
    {
        let wifi = match &self.wifi {
            Some(w) => Some(w.clone()),
            None => None,
        };
        InMemoryStorage { settings: self.settings, wifi }
    }
}

impl Default for InMemoryStorage {
    fn default() -> (s: Self)
        ensures
            s@ == (crate::scheduler::vacation::no_vacation(), None::<WifiCredentials>),
    {
        InMemoryStorage { settings: VacationSettings::default(), wifi: None }
    }
}

impl InMemoryStorage {
    pub fn new() -> (s: Self)
        ensures
            s@ == (crate::scheduler::vacation::no_vacation(), None::<WifiCredentials>),
    {
        Self::default()
    }
}

/// The in-memory storage after `v` is saved in it: the settings replaced, the Wi-Fi
/// credentials kept.
pub open spec fn saved_in_memory(s: InMemoryStorage, v: VacationSettings) -> (
    VacationSettings,
    Option<WifiCredentials>,
) {
    (v, s@.1)
}

impl VacationStorage for InMemoryStorage {
    open spec fn stored(&self) -> VacationSettings {
        self@.0
    }

    open spec fn accepts_save(&self) -> bool {
        true
    }

    fn load(&self) -> (r: Result<VacationSettings, String>)
        ensures
            r == Ok::<VacationSettings, String>(self@.0),
    {
        Ok(self.settings)
    }

    fn save(&mut self, settings: &VacationSettings) -> (r: Result<(), String>)
        ensures
            r is Ok,
            final(self)@ == saved_in_memory(*old(self), *settings),
    {
        self.settings = *settings;
        Ok(())
    }
}

impl WifiStorage for InMemoryStorage {
    fn load_wifi(&self) -> (r: Result<Option<WifiCredentials>, String>)
        ensures
            r == Ok::<Option<WifiCredentials>, String>(self@.1),
    {
        let wifi = match &self.wifi {
            Some(w) => Some(w.clone()),
            None => None,
        };
        Ok(wifi)
    }

    fn save_wifi(&mut self, creds: &WifiCredentials) -> (r: Result<(), String>)
        ensures
            r is Ok,
            final(self)@ == (old(self)@.0, Some(*creds)),
    {
        self.wifi = Some(creds.clone());
        Ok(())
    }

    fn clear_wifi(&mut self) -> (r: Result<(), String>)
        ensures
            r is Ok,
            final(self)@ == (old(self)@.0, None::<WifiCredentials>),
    {
        self.wifi = None;
        Ok(())
    }
}

/// Key under which the manual vacation flag is stored in flash.
pub const NVS_KEY_MANUAL: &'static str = "manVac";

/// Key under which the first vacation date is stored in flash.
pub const NVS_KEY_START: &'static str = "vacS";

/// Key under which the last vacation date is stored in flash.
pub const NVS_KEY_END: &'static str = "vacE";

/// The byte stored for the manual vacation flag.
pub open spec fn spec_manual_flag_byte(manual: bool) -> u8 {
    if manual {
        1
    } else {
        0
    }
}

/// The byte stored for the manual vacation flag: 1 when set, 0 otherwise.
pub fn manual_flag_byte(manual: bool) -> (b: u8)
    ensures
        b == spec_manual_flag_byte(manual),
{
    if manual {
        1
    } else {
        0
    }
}

/// The settings read back from flash, where each value is `None` when its key is missing
/// or unreadable: a missing value reads as unset (flag off, date 0), and any non-zero
/// flag byte reads as set.
pub open spec fn spec_vacation_from_flash(manual: Option<u8>, start: Option<i64>, end: Option<i64>) -> VacationSettings {
    VacationSettings {
        manual_vacation: match manual {
            Some(b) => b != 0,
            None => false,
        },
        start_date: match start {
            Some(d) => d,
            None => 0,
        },
        end_date: match end {
            Some(d) => d,
            None => 0,
        },
    }
}

/// Decodes the settings read back from flash.
pub fn vacation_from_flash(manual: Option<u8>, start: Option<i64>, end: Option<i64>) -> (v:
    VacationSettings)
    ensures
        v == spec_vacation_from_flash(manual, start, end),
{
    let manual_vacation = match manual {
        Some(b) => b != 0,
        None => false,
    };
    let start_date = match start {
        Some(d) => d,
        None => 0,
    };
    let end_date = match end {
        Some(d) => d,
        None => 0,
    };
    VacationSettings { manual_vacation, start_date, end_date }
}

/// Settings written to flash read back unchanged, and an empty flash reads as no vacation.
pub proof fn law_flash_round_trip(v: VacationSettings)
    ensures
        spec_vacation_from_flash(
            Some(spec_manual_flag_byte(v.manual_vacation)),
            Some(v.start_date),
            Some(v.end_date),
        ) == v,
        spec_vacation_from_flash(None, None, None) == crate::scheduler::vacation::no_vacation(),
{
}

/// What was saved is what loads: a save of `v` into an in-memory storage succeeds, and a
/// load from the storage it leaves gives back `Ok(v)`; the Wi-Fi credentials are untouched.
pub proof fn law_in_memory_save_then_load(
    s: InMemoryStorage,
    after: InMemoryStorage,
    v: VacationSettings,
    loaded: Result<VacationSettings, String>,
)
    requires
        after@ == saved_in_memory(s, v),
        InMemoryStorage::load.ensures((&after,), loaded),
    ensures
        s.accepts_save(),
        loaded == Ok::<VacationSettings, String>(v),
        after@.1 == s@.1,
{
}

/// The manual flag is stored as the byte 1 when set and 0 when clear; reading back, any
/// non-zero byte is set, and a missing flag, start or end reads as clear, 0 and 0.
pub proof fn law_flash_encoding(b: u8, start: i64, end: i64)
    ensures
        spec_manual_flag_byte(true) == 1,
        spec_manual_flag_byte(false) == 0,
        spec_vacation_from_flash(Some(b), Some(start), Some(end)) == (VacationSettings {
            manual_vacation: b != 0,
            start_date: start,
            end_date: end,
        }),
        spec_vacation_from_flash(None, None, None) == (VacationSettings {
            manual_vacation: false,
            start_date: 0,
            end_date: 0,
        }),
{
}

} // verus!
