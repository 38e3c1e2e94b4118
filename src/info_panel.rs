use vstd::prelude::*;

verus! {

/// What the diagnostics panel knows of the graphics adapter. `backend` and
/// `device_type` are the names of the adapter's backend and device kind.
pub struct AdapterSummary {
    pub backend: String,
    pub device_type: String,
    pub name: String,
    pub driver: String,
    pub driver_info: String,
    pub vendor: u32,
    pub device: u32,
}

/// One labelled row of the adapter details grid.
#[derive(Clone, Debug, PartialEq, Eq)]
pub enum InfoRow {
    Backend(String),
    DeviceType(String),
    Name(String),
    Driver(String),
    DriverInfo(String),
    Vendor(u32),
    Device(u32),
}

/// The rows shown for an adapter, in order: backend and device kind always;
/// name, driver and driver info only when not empty; vendor and device ids
/// only when not zero.
pub open spec fn adapter_rows_spec(a: AdapterSummary) -> Seq<InfoRow> {
    seq![InfoRow::Backend(a.backend), InfoRow::DeviceType(a.device_type)]
        + (if a.name@.len() > 0 { seq![InfoRow::Name(a.name)] } else { Seq::empty() })
        + (if a.driver@.len() > 0 { seq![InfoRow::Driver(a.driver)] } else { Seq::empty() })
        + (if a.driver_info@.len() > 0 { seq![InfoRow::DriverInfo(a.driver_info)] } else { Seq::empty() })
        + (if a.vendor != 0 { seq![InfoRow::Vendor(a.vendor)] } else { Seq::empty() })
        + (if a.device != 0 { seq![InfoRow::Device(a.device)] } else { Seq::empty() })
}

/// The rows of the adapter details grid.
pub fn adapter_rows(a: AdapterSummary) -> (r: Vec<InfoRow>)
    ensures
        r@ == adapter_rows_spec(a),
{
    let ghost a0 = a;
    let name_empty = a.name.as_str().is_empty();
    let driver_empty = a.driver.as_str().is_empty();
    let driver_info_empty = a.driver_info.as_str().is_empty();
    let mut r: Vec<InfoRow> = Vec::new();
    r.push(InfoRow::Backend(a.backend));
    r.push(InfoRow::DeviceType(a.device_type));
    if !name_empty {
        r.push(InfoRow::Name(a.name));
    }
    if !driver_empty {
        r.push(InfoRow::Driver(a.driver));
    }
    if !driver_info_empty {
        r.push(InfoRow::DriverInfo(a.driver_info));
    }
    if a.vendor != 0 {
        r.push(InfoRow::Vendor(a.vendor));
    }
    if a.device != 0 {
        r.push(InfoRow::Device(a.device));
    }
    assert(r@ =~= adapter_rows_spec(a0));
    r
}

/// The web and graphics diagnostics panel. It keeps a record of recent frame
/// times, of whatever type the host that measures them uses.
pub struct WasmInfoPanel<H> {
    pub frame_history: H,
}

impl<H> WasmInfoPanel<H> {
    pub fn new(frame_history: H) -> (r: WasmInfoPanel<H>)
        ensures
            r.frame_history == frame_history,
    {
        WasmInfoPanel { frame_history }
    }
}

} // verus!
