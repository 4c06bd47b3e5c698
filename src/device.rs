//! The supported mice and the choice of the device to configure among
//! those attached.

use vstd::prelude::*;

verus! {

/// USB vendor ID shared by every supported mouse.
pub const VENDOR_ID: u16 = 0x258a;

/// A supported mouse model.
#[derive(Clone, Copy, Debug, PartialEq, Eq)]
pub enum Model {
    DreamMachinesDm5,
    ModelD,
    ModelO,
}

impl Model {
    /// USB product ID of the model.
    pub open spec fn spec_product_id(self) -> u16 {
        match self {
            Model::DreamMachinesDm5 => 0x27,
            Model::ModelD => 0x33,
            Model::ModelO => 0x36,
        }
    }

    /// Name of the model, for the user.
    pub open spec fn spec_display_name(self) -> Seq<char> {
        match self {
            Model::DreamMachinesDm5 => "Dream Machines DM5"@,
            Model::ModelD => "Model D"@,
            Model::ModelO => "Model O"@,
        }
    }

    pub fn product_id(&self) -> (r: u16)
        ensures
            r == self.spec_product_id(),
    {
        match self {
            Model::DreamMachinesDm5 => 0x27,
            Model::ModelD => 0x33,
            Model::ModelO => 0x36,
        }
    }

    pub fn display_name(&self) -> (r: &'static str)
        ensures
            r@ == self.spec_display_name(),
    {
        match self {
            Model::DreamMachinesDm5 => "Dream Machines DM5",
            Model::ModelD => "Model D",
            Model::ModelO => "Model O",
        }
    }
}

/// One row of the table of supported devices.
#[derive(Clone, Copy, Debug, PartialEq, Eq)]
pub struct SupportedDevice {
    pub vendor_id: u16,
    pub product_id: u16,
    pub model: Model,
}

/// The row of the table of supported devices for `m`.
pub open spec fn table_row(m: Model) -> SupportedDevice {
    SupportedDevice { vendor_id: VENDOR_ID, product_id: m.spec_product_id(), model: m }
}

/// The table of supported devices: each model under the common vendor ID.
pub open spec fn supported_table() -> Seq<SupportedDevice> {
    seq![table_row(Model::DreamMachinesDm5), table_row(Model::ModelD), table_row(Model::ModelO)]
}

/// The model that a vendor and product ID pair names, if it is supported.
pub open spec fn model_for(vendor_id: u16, product_id: u16) -> Option<Model> {
    if vendor_id != VENDOR_ID {
        None
    } else if product_id == Model::DreamMachinesDm5.spec_product_id() {
        Some(Model::DreamMachinesDm5)
    } else if product_id == Model::ModelD.spec_product_id() {
        Some(Model::ModelD)
    } else if product_id == Model::ModelO.spec_product_id() {
        Some(Model::ModelO)
    } else {
        None
    }
}

/// The table of supported devices, as a vector.
pub fn supported_devices() -> (r: Vec<SupportedDevice>)
    ensures
        r@ == supported_table(),
{
    let r = vec![
        SupportedDevice { vendor_id: VENDOR_ID, product_id: 0x27, model: Model::DreamMachinesDm5 },
        SupportedDevice { vendor_id: VENDOR_ID, product_id: 0x33, model: Model::ModelD },
        SupportedDevice { vendor_id: VENDOR_ID, product_id: 0x36, model: Model::ModelO },
    ];
    assert(r@ =~= supported_table());
    r
}

/// Looks a vendor and product ID pair up in the table of supported devices.
pub fn lookup_model(vendor_id: u16, product_id: u16) -> (r: Option<Model>)
    ensures
        r == model_for(vendor_id, product_id),
{
    let table = supported_devices();
    let mut i: usize = 0;
    while i < table.len()
        invariant
            table@ == supported_table(),
            0 <= i <= table@.len(),
            forall|j: int|
                0 <= j < i ==> !(#[trigger] table@[j].vendor_id == vendor_id
                    && table@[j].product_id == product_id),
        decreases table@.len() - i,
    {
        let row = table[i];
        if row.vendor_id == vendor_id && row.product_id == product_id {
            return Some(row.model);
        }
        i = i + 1;
    }
    assert(table@[0].vendor_id == VENDOR_ID && table@[1].vendor_id == VENDOR_ID
        && table@[2].vendor_id == VENDOR_ID);
    None
}

/// An attached HID device, as enumeration reports it.
#[derive(Clone, Copy, Debug, PartialEq, Eq)]
pub struct DeviceEntry {
    pub vendor_id: u16,
    pub product_id: u16,
}

/// Whether the device is one of the supported models.
pub open spec fn is_supported(e: DeviceEntry) -> bool {
    model_for(e.vendor_id, e.product_id) is Some
}

/// `i` is the position of the first supported device in `devices`.
pub open spec fn is_first_supported(devices: Seq<DeviceEntry>, i: int) -> bool {
    &&& 0 <= i < devices.len()
    &&& is_supported(devices[i])
    &&& forall|j: int| 0 <= j < i ==> !is_supported(#[trigger] devices[j])
}

/// The device chosen for configuration: its position in the enumeration and
/// its model.
#[derive(Clone, Copy, Debug, PartialEq, Eq)]
pub struct Resolved {
    pub index: usize,
    pub model: Model,
}

/// No attached device is a supported model.
#[derive(Clone, Copy, Debug, PartialEq, Eq)]
pub struct DeviceNotFound;

/// Picks the first supported device, in enumeration order.
pub fn resolve(devices: &Vec<DeviceEntry>) -> (r: Result<Resolved, DeviceNotFound>)
    ensures
        r is Err <==> forall|i: int| 0 <= i < devices@.len() ==> !is_supported(#[trigger] devices@[i]),
        r matches Ok(res) ==> is_first_supported(devices@, res.index as int) && Some(res.model)
            == model_for(devices@[res.index as int].vendor_id, devices@[res.index as int].product_id),
{
    let mut i: usize = 0;
    while i < devices.len()
        invariant
            0 <= i <= devices@.len(),
            forall|j: int| 0 <= j < i ==> !is_supported(#[trigger] devices@[j]),
        decreases devices@.len() - i,
    {
        let e = devices[i];
        match lookup_model(e.vendor_id, e.product_id) {
            Some(model) => {
                return Ok(Resolved { index: i, model });
            },
            None => {},
        }
        i = i + 1;
    }
    Err(DeviceNotFound)
}

} // verus!
