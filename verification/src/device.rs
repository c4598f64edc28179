//! Devices as a scan reports them.

use vstd::prelude::*;

verus! {

/// A discovered device: a snapshot taken by one scan.
#[derive(Clone, Debug, PartialEq, Eq)]
pub struct BluetoothDevice {
    /// The platform's identifier of the peripheral.
    pub id: String,
    /// The advertised local name.
    pub name: String,
    /// The hardware address.
    pub address: String,
    /// The signal strength of the latest advertisement, where known.
    pub rssi: Option<i16>,
}

/// The mathematical value of a [`BluetoothDevice`].
pub struct DeviceView {
    pub id: Seq<char>,
    pub name: Seq<char>,
    pub address: Seq<char>,
    pub rssi: Option<i16>,
}

impl View for BluetoothDevice {
    type V = DeviceView;

    open spec fn view(&self) -> DeviceView {
        DeviceView { id: self.id@, name: self.name@, address: self.address@, rssi: self.rssi }
    }
}

impl DeepView for BluetoothDevice {
    type V = DeviceView;

    open spec fn deep_view(&self) -> DeviceView {
        self@
    }
}

/// A peripheral that the adapter has seen: what identifies it.
#[derive(Clone, Debug, PartialEq, Eq)]
pub struct Sighting {
    /// The platform's identifier of the peripheral.
    pub id: String,
    /// The hardware address.
    pub address: String,
}

/// The mathematical value of a [`Sighting`].
pub struct SightingView {
    pub id: Seq<char>,
    pub address: Seq<char>,
}

impl View for Sighting {
    type V = SightingView;

    open spec fn view(&self) -> SightingView {
        SightingView { id: self.id@, address: self.address@ }
    }
}

impl DeepView for Sighting {
    type V = SightingView;

    open spec fn deep_view(&self) -> SightingView {
        self@
    }
}

/// What a peripheral advertises about itself, as far as a scan reads it.
#[derive(Clone, Debug, PartialEq, Eq)]
pub struct Advertisement {
    /// The advertised local name, where there is one.
    pub local_name: Option<String>,
    /// The signal strength, where known.
    pub rssi: Option<i16>,
}

/// The mathematical value of an [`Advertisement`].
pub struct AdvertisementView {
    pub local_name: Option<Seq<char>>,
    pub rssi: Option<i16>,
}

impl View for Advertisement {
    type V = AdvertisementView;

    open spec fn view(&self) -> AdvertisementView {
        AdvertisementView { local_name: self.local_name.deep_view(), rssi: self.rssi }
    }
}

impl DeepView for Advertisement {
    type V = AdvertisementView;

    open spec fn deep_view(&self) -> AdvertisementView {
        self@
    }
}

/// The name that stands for a device whose own name is not available.
pub open spec fn placeholder_name() -> Seq<char> {
    "Unknown"@
}

/// The name a device goes by: its advertised local name, or the placeholder
/// where it advertises none.
pub open spec fn display_name(advertisement: Option<AdvertisementView>) -> Seq<char> {
    match advertisement {
        Some(AdvertisementView { local_name: Some(name), .. }) => name,
        _ => placeholder_name(),
    }
}

/// A name that a scan reports: not empty, and not the placeholder.
pub open spec fn is_real_name(name: Seq<char>) -> bool {
    name.len() > 0 && name != placeholder_name()
}

/// What a scan reports of one peripheral: the device, where it advertises a
/// real name, and nothing otherwise.
pub open spec fn listed_device(
    sighting: SightingView,
    advertisement: Option<AdvertisementView>,
) -> Option<DeviceView> {
    match advertisement {
        Some(found) => if is_real_name(display_name(advertisement)) {
            Some(
                DeviceView {
                    id: sighting.id,
                    name: display_name(advertisement),
                    address: sighting.address,
                    rssi: found.rssi,
                },
            )
        } else {
            None
        },
        None => None,
    }
}

/// What a scan reports of a whole enumeration: the listed devices, in
/// enumeration order. The two sequences have the same length.
pub open spec fn listed_devices(
    sightings: Seq<SightingView>,
    advertisements: Seq<Option<AdvertisementView>>,
) -> Seq<DeviceView>
    decreases sightings.len(),
{
    if sightings.len() == 0 || advertisements.len() == 0 {
        Seq::empty()
    } else {
        let earlier = listed_devices(sightings.drop_last(), advertisements.drop_last());
        match listed_device(sightings.last(), advertisements.last()) {
            Some(device) => earlier.push(device),
            None => earlier,
        }
    }
}

/// Decides [`is_real_name`].
pub fn has_real_name(name: &String) -> (yes: bool)
    ensures
        yes == is_real_name(name@),
{
    let placeholder = "Unknown".to_owned();
    !name.as_str().is_empty() && *name != placeholder
}

/// Resolves the name a device goes by.
pub fn resolve_name(advertisement: Option<Advertisement>) -> (name: String)
    ensures
        name@ == display_name(advertisement.deep_view()),
{
    match advertisement {
        Some(Advertisement { local_name: Some(name), .. }) => name,
        _ => "Unknown".to_owned(),
    }
}

/// Builds the report of one peripheral, where a scan reports it.
pub fn list_device(sighting: &Sighting, advertisement: Option<Advertisement>) -> (device: Option<
    BluetoothDevice,
>)
    ensures
        device.deep_view() == listed_device(sighting@, advertisement.deep_view()),
{
    match advertisement {
        Some(found) => {
            let rssi = found.rssi;
            let name = resolve_name(Some(found));
            if has_real_name(&name) {
                Some(
                    BluetoothDevice {
                        id: sighting.id.clone(),
                        name,
                        address: sighting.address.clone(),
                        rssi,
                    },
                )
            } else {
                None
            }
        },
        None => None,
    }
}

} // verus!
