use rocm_smi_lib::bindings::{
    Call, Foreign, ResultPcie, ResultStr, ResultU16, ResultU32, ResultU64, ResultU64Dual,
};
use rocm_smi_lib::error::RocmErr;
use rocm_smi_lib::queries::pcie::Pcie;
use rocm_smi_lib::scripted::{DeviceScript, Script, Scripted, REFUSED};
use rocm_smi_lib::RocmSmi;

fn text(s: &str) -> ResultStr {
    let mut data = s.as_bytes().to_vec();
    data.push(0);
    ResultStr { status: 0, data: Some(data) }
}

fn mi250x() -> DeviceScript {
    let mut d = DeviceScript::failing(2);
    d.id = ResultU16 { status: 0, data: 0x740c };
    d.name = text("MI250X");
    d.vendor_id = ResultU16 { status: 0, data: 0x1002 };
    d.brand = text("AMD Instinct");
    d.vendor_name = text("Advanced Micro Devices, Inc. [AMD/ATI]");
    d.vram_vendor_name = text("hynix");
    d.serial = text("692231000531");
    d.subsystem_id = ResultU16 { status: 0, data: 0x0b0c };
    d.subsystem_name = text("0x0b0c");
    d.drm_render_minor = ResultU32 { status: 0, data: 128 };
    d.subsystem_vendor_id = ResultU16 { status: 0, data: 0x1002 };
    d.unique_id = ResultU64 { status: 0, data: 0xd6b2_8a1f_3c4e_5f60 };
    d.sensor_count = ResultU16 { status: 0, data: 1 };
    d.sensor_power = vec![ResultU64 { status: 0, data: 5000 }];
    d.power_avg = ResultU64 { status: 0, data: 5000 };
    d.sensor_cap = vec![ResultU64 { status: 0, data: 500_000 }];
    d.default_cap = ResultU64 { status: 0, data: 500_000 };
    d.cap_range = ResultU64Dual { status: 0, data1: 0, data2: 560_000 };
    d.pcie = ResultPcie {
        status: 0,
        current_index: 1,
        lanes: Some(vec![8, 16]),
        transfer_rates: Some(vec![8_000_000_000, 16_000_000_000]),
    };
    d
}

fn session(devices: Vec<DeviceScript>) -> RocmSmi<Scripted> {
    let count = devices.len() as u32;
    let script = Script { init_status: 0, device_count: ResultU32 { status: 0, data: count }, devices };
    RocmSmi::init(Scripted::new(script)).unwrap()
}

#[test]
fn main_test() {
    let script =
        Script { init_status: 0, device_count: ResultU32 { status: 0, data: 1 }, devices: vec![mi250x()] };
    match RocmSmi::init(Scripted::new(script)) {
        Ok(mut res) => {
            println!("Device Count: {:?}", res.get_device_count());
            println!("Device ID: {:?}", res.get_device_id(0));
            println!("Device name: {:?}", res.get_device_name(0));
            println!("Device vendor id: {:?}", res.get_vendor_id(0));
            println!("Device brand: {:?}", res.get_device_brand(0));
            println!("Device vendor name: {:?}", res.get_device_vendor_name(0));
            println!("Device vram vendor name: {:?}", res.get_device_vram_vendor_name(0));
            println!("Device serial: {:?}", res.get_device_serial_number(0));
            println!("Device subsystem id: {:?}", res.get_device_subsystem_id(0));
            println!("Device subsystem name: {:?}", res.get_device_subsystem_name(0));
            println!("Device drm render minor: {:?}", res.get_device_drm_render_minor(0));
            println!("Device subsystem vendor id {:?}", res.get_device_subsystem_vendor_id(0));
            println!(
                "Device unique id (might fail if there is only one gpu) {:?}",
                res.get_device_unique_id(0)
            );
            println!("Device pcie data: {:?}", res.get_pcie_data(0).unwrap().get_current());
        }
        Err(err) => println!("{:?}", err),
    }
}

#[test]
fn init_succeeds_at_status_zero_only() {
    for status in 0..40u16 {
        let script = Script { init_status: status, device_count: ResultU32 { status: 0, data: 0 }, devices: vec![] };
        let r = RocmSmi::init(Scripted::new(script));
        if status == 0 {
            assert!(r.is_ok());
        } else {
            assert_eq!(r.err(), Some(RocmErr::from_u16(status)));
        }
    }
    let script = Script { init_status: 8, device_count: ResultU32 { status: 0, data: 0 }, devices: vec![] };
    assert_eq!(RocmSmi::init(Scripted::new(script)).err(), Some(RocmErr::RsmiStatusInitError));
}

#[test]
fn the_device_count_is_what_the_subsystem_tells() {
    let mut s = session(vec![mi250x(), mi250x(), mi250x()]);
    assert_eq!(s.get_device_count(), Ok(3));
    let script = Script { init_status: 0, device_count: ResultU32 { status: 3, data: 9 }, devices: vec![] };
    let mut s = RocmSmi::init(Scripted::new(script)).unwrap();
    assert_eq!(s.get_device_count(), Err(RocmErr::RsmiStatusFileError));
}

#[test]
fn every_scalar_query_returns_its_value() {
    let mut s = session(vec![mi250x()]);
    assert_eq!(s.get_device_id(0), Ok(0x740c));
    assert_eq!(s.get_vendor_id(0), Ok(0x1002));
    assert_eq!(s.get_device_subsystem_id(0), Ok(0x0b0c));
    assert_eq!(s.get_device_drm_render_minor(0), Ok(128));
    assert_eq!(s.get_device_subsystem_vendor_id(0), Ok(0x1002));
    assert_eq!(s.get_device_unique_id(0), Ok(0xd6b2_8a1f_3c4e_5f60));
}

#[test]
fn every_string_query_returns_its_text() {
    let mut s = session(vec![mi250x()]);
    assert_eq!(s.get_device_name(0), Ok("MI250X".to_string()));
    assert_eq!(s.get_device_brand(0), Ok("AMD Instinct".to_string()));
    assert_eq!(s.get_device_vendor_name(0), Ok("Advanced Micro Devices, Inc. [AMD/ATI]".to_string()));
    assert_eq!(s.get_device_vram_vendor_name(0), Ok("hynix".to_string()));
    assert_eq!(s.get_device_serial_number(0), Ok("692231000531".to_string()));
    assert_eq!(s.get_device_subsystem_name(0), Ok("0x0b0c".to_string()));
}

#[test]
fn a_string_query_returns_exactly_the_bytes_sent() {
    let mut d = mi250x();
    d.name = ResultStr { status: 0, data: Some(b"MI250X".to_vec()) };
    let mut s = session(vec![d]);
    let name = s.get_device_name(0).unwrap();
    assert_eq!(name, "MI250X");
    assert_eq!(name.as_bytes(), b"MI250X");
}

#[test]
fn a_string_query_on_bytes_that_are_no_text_gives_the_unknown_error() {
    let mut d = mi250x();
    d.name = ResultStr { status: 0, data: Some(vec![0x4d, 0x49, 0xff, 0x00]) };
    d.brand = ResultStr { status: 0, data: Some(vec![0xf0, 0x28, 0x8c, 0x28]) };
    let mut s = session(vec![d]);
    assert_eq!(s.get_device_name(0), Err(RocmErr::RsmiStatusUnknownError));
    assert_eq!(s.get_device_brand(0), Err(RocmErr::RsmiStatusUnknownError));
    assert_eq!(s.get_device_serial_number(0), Ok("692231000531".to_string()));
}

#[test]
fn every_query_returns_the_error_of_its_status() {
    let mut s = session(vec![DeviceScript::failing(2), DeviceScript::failing(4), DeviceScript::failing(77)]);
    assert_eq!(s.get_device_id(0), Err(RocmErr::RsmiStatusNotSupported));
    assert_eq!(s.get_device_name(0), Err(RocmErr::RsmiStatusNotSupported));
    assert_eq!(s.get_vendor_id(0), Err(RocmErr::RsmiStatusNotSupported));
    assert_eq!(s.get_device_brand(0), Err(RocmErr::RsmiStatusNotSupported));
    assert_eq!(s.get_device_vendor_name(0), Err(RocmErr::RsmiStatusNotSupported));
    assert_eq!(s.get_device_vram_vendor_name(0), Err(RocmErr::RsmiStatusNotSupported));
    assert_eq!(s.get_device_serial_number(1), Err(RocmErr::RsmiStatusPermission));
    assert_eq!(s.get_device_subsystem_id(1), Err(RocmErr::RsmiStatusPermission));
    assert_eq!(s.get_device_subsystem_name(1), Err(RocmErr::RsmiStatusPermission));
    assert_eq!(s.get_device_drm_render_minor(1), Err(RocmErr::RsmiStatusPermission));
    assert_eq!(s.get_device_subsystem_vendor_id(2), Err(RocmErr::RsmiStatusUnknownError));
    assert_eq!(s.get_device_unique_id(2), Err(RocmErr::RsmiStatusUnknownError));
    assert_eq!(s.get_pcie_data(2).err(), Some(RocmErr::RsmiStatusUnknownError));
    assert_eq!(s.get_device_power_data(1).err(), Some(RocmErr::RsmiStatusPermission));
}

#[test]
fn a_query_asked_twice_returns_the_same_twice() {
    let mut s = session(vec![mi250x()]);
    assert_eq!(s.get_device_id(0), s.get_device_id(0));
    assert_eq!(s.get_device_name(0), s.get_device_name(0));
    assert_eq!(s.get_device_unique_id(0), s.get_device_unique_id(0));
    assert_eq!(s.get_device_drm_render_minor(0), s.get_device_drm_render_minor(0));
    assert_eq!(s.get_device_name(3), s.get_device_name(3));
    let first = s.get_device_serial_number(0);
    let _ = s.get_device_brand(0);
    let _ = s.get_device_power_data(0);
    assert_eq!(s.get_device_serial_number(0), first);
    assert_eq!(first, Ok("692231000531".to_string()));
}

#[test]
fn a_device_that_is_not_there_is_refused() {
    assert_eq!(REFUSED, 1);
    let mut s = session(vec![mi250x()]);
    assert_eq!(s.get_device_id(1), Err(RocmErr::RsmiStatusInvalidArgs));
    assert_eq!(s.get_device_name(1), Err(RocmErr::RsmiStatusInvalidArgs));
    assert_eq!(s.get_device_unique_id(u32::MAX), Err(RocmErr::RsmiStatusInvalidArgs));
    assert_eq!(s.get_pcie_data(7).err(), Some(RocmErr::RsmiStatusInvalidArgs));
}

#[test]
fn the_link_in_use_is_the_one_at_the_current_index() {
    let mut s = session(vec![mi250x()]);
    let p = s.get_pcie_data(0).unwrap();
    assert_eq!(p.current_index, 1);
    assert_eq!(p.lanes, vec![8, 16]);
    assert_eq!(p.transfer_rates, vec![8_000_000_000, 16_000_000_000]);
    assert_eq!(p.get_current(), Some((16, 16_000_000_000)));
    let p = Pcie { current_index: 0, lanes: vec![4, 8], transfer_rates: vec![2_500_000_000, 5_000_000_000] };
    assert_eq!(p.get_current(), Some((4, 2_500_000_000)));
}

#[test]
fn a_current_index_beyond_the_lists_gives_no_link() {
    let p = Pcie { current_index: 2, lanes: vec![8, 16], transfer_rates: vec![1, 2] };
    assert_eq!(p.get_current(), None);
    let p = Pcie { current_index: 1, lanes: vec![8, 16], transfer_rates: vec![1] };
    assert_eq!(p.get_current(), None);
    let p = Pcie { current_index: 1, lanes: vec![8], transfer_rates: vec![1, 2] };
    assert_eq!(p.get_current(), None);
    let p = Pcie { current_index: 0, lanes: vec![], transfer_rates: vec![] };
    assert_eq!(p.get_current(), None);
}

#[test]
fn the_script_answers_each_call_and_lists_it() {
    let script =
        Script { init_status: 0, device_count: ResultU32 { status: 0, data: 1 }, devices: vec![mi250x()] };
    let mut f = Scripted::new(script);
    assert!(f.calls().is_empty());
    assert_eq!(f.init_c(), 0);
    assert_eq!(f.num_devices(), ResultU32 { status: 0, data: 1 });
    assert_eq!(f.device_id(0), ResultU16 { status: 0, data: 0x740c });
    assert_eq!(f.device_name(0).data, Some(b"MI250X\0".to_vec()));
    assert_eq!(f.power_sensor(0, 0), ResultU64 { status: 0, data: 5000 });
    assert_eq!(f.power_sensor(0, 1), ResultU64 { status: 1, data: 0 });
    assert_eq!(f.power_cap(0, 0), ResultU64 { status: 0, data: 500_000 });
    assert_eq!(f.power_cap_range(0), ResultU64Dual { status: 0, data1: 0, data2: 560_000 });
    assert_eq!(f.device_vendor_id(5), ResultU16 { status: 1, data: 0 });
    assert_eq!(
        f.calls(),
        &vec![
            Call::Init,
            Call::NumDevices,
            Call::DeviceId(0),
            Call::DeviceName(0),
            Call::PowerSensor(0, 0),
            Call::PowerSensor(0, 1),
            Call::PowerCap(0, 0),
            Call::PowerCapRange(0),
            Call::DeviceVendorId(5)
        ]
    );
}

#[test]
fn a_text_that_is_not_there_gives_the_unknown_error() {
    let mut d = mi250x();
    d.name = ResultStr { status: 0, data: None };
    d.serial = ResultStr { status: 2, data: None };
    let mut s = session(vec![d]);
    assert_eq!(s.get_device_name(0), Err(RocmErr::RsmiStatusUnknownError));
    assert_eq!(s.get_device_serial_number(0), Err(RocmErr::RsmiStatusNotSupported));
    assert_eq!(s.get_device_brand(0), Ok("AMD Instinct".to_string()));
}

#[test]
fn link_lists_that_are_not_there_give_the_unknown_error() {
    for (lanes, transfer_rates) in [(None, None), (Some(vec![16]), None), (None, Some(vec![1_000]))] {
        let mut d = mi250x();
        d.pcie = ResultPcie { status: 0, current_index: 0, lanes, transfer_rates };
        let mut s = session(vec![d]);
        assert_eq!(s.get_pcie_data(0).err(), Some(RocmErr::RsmiStatusUnknownError));
    }
    let mut d = mi250x();
    d.pcie = ResultPcie { status: 4, current_index: 0, lanes: None, transfer_rates: None };
    let mut s = session(vec![d]);
    assert_eq!(s.get_pcie_data(0).err(), Some(RocmErr::RsmiStatusPermission));
    let mut d = mi250x();
    d.pcie = ResultPcie { status: 0, current_index: 0, lanes: Some(vec![]), transfer_rates: Some(vec![]) };
    let mut s = session(vec![d]);
    assert_eq!(s.get_pcie_data(0).unwrap().get_current(), None);
}
