use wdepc::cdb::{build_ata_passthrough, build_ata_passthrough12, build_ata_passthrough16, AtaCmd, Protocol};
use wdepc::device::{plan_sg_io, Device, SG_DXFER_FROM_DEV, SG_DXFER_NONE, SG_DXFER_TO_DEV};
use wdepc::error::EpcError;
use wdepc::power::{parse_epc_page, parse_power_cond_desc, PowerCondDescriptor, PowerMode};
use wdepc::sense::{parse_sense, SenseData};

fn sense_with(code: u8, hi: u8, lo: u8) -> [u8; 32] {
    let mut s = [0u8; 32];
    s[0] = code;
    s[8] = 0x09;
    s[12] = hi;
    s[13] = lo;
    s
}

fn region(flags: u8, timers: [u32; 6]) -> Vec<u8> {
    let mut r = vec![0u8; 64];
    r[1] = flags;
    for (i, t) in timers.iter().enumerate() {
        r[4 + 4 * i..8 + 4 * i].copy_from_slice(&t.to_le_bytes());
    }
    r
}

#[test]
fn cdb16_read_log_layout() {
    let c = build_ata_passthrough(AtaCmd::ReadLogExtDma, Protocol::InDma, 2, 8, 0);
    assert_eq!(c, [0x85, 21, 0x0e, 0, 0, 0, 2, 0, 8, 0, 0, 0, 0, 0xa0, 0x47, 0]);
}

#[test]
fn cdb16_registers_high_byte_first() {
    let c = build_ata_passthrough16(AtaCmd::ReadLogExt, Protocol::PioIn, 0x0102, 0x0304, 0x0506, 0x0708);
    assert_eq!(c, [0x85, 9, 0x0e, 1, 2, 3, 4, 5, 6, 7, 8, 0, 0, 0xa0, 0x2f, 0]);
}

#[test]
fn cdb12_check_power_mode_layout() {
    let c = build_ata_passthrough12(AtaCmd::CheckPowerMode, Protocol::NoData, 0, 0, 0, 0);
    assert_eq!(c, [0xa1, 6, 0x26, 0, 0, 0, 0, 0, 0xa0, 0xe5, 0, 0]);
    assert_eq!(Device::query_mode_command(), c);
}

#[test]
fn cdb_flags_for_every_protocol() {
    let all = [
        (Protocol::InDma, 20u8, 1u8),
        (Protocol::OutDma, 22, 0),
        (Protocol::NoData, 6, 0),
        (Protocol::PioIn, 8, 1),
        (Protocol::PioOut, 10, 0),
        (Protocol::Dma, 12, 0),
    ];
    for (p, code, dir) in all {
        assert_eq!(p.t_dir(), dir);
        for cmd in [AtaCmd::CheckPowerMode, AtaCmd::SetFeature, AtaCmd::ReadLogExt, AtaCmd::ReadLogExtDma] {
            let c = build_ata_passthrough(cmd, p, 1, 2, 3);
            assert_eq!(c.len(), 16);
            assert_eq!(c[1], code | 1);
            assert_eq!(c[2] >> 6, 0);
            assert_eq!((c[2] >> 5) & 1, if cmd.ck_cond() { 1 } else { 0 });
            assert_eq!((c[2] >> 3) & 1, dir);
            assert_eq!((c[2] >> 2) & 1, 1);
            assert_eq!(c[2] & 3, 2);
            assert_eq!(c[13], 0xa0);
            assert_eq!(c[15], 0);
            let d = build_ata_passthrough12(cmd, p, 1, 2, 3, 4);
            assert_eq!(d.len(), 12);
            assert_eq!(d[1], code);
            assert_eq!(d[2], c[2]);
            assert_eq!(d[8], 0xa0);
            assert_eq!(d[11], 0);
        }
    }
}

#[test]
fn cdb_encoding_is_deterministic() {
    let a = build_ata_passthrough16(AtaCmd::SetFeature, Protocol::Dma, 7, 8, 9, 10);
    let b = build_ata_passthrough16(AtaCmd::SetFeature, Protocol::Dma, 7, 8, 9, 10);
    assert_eq!(a, b);
}

#[test]
fn ck_cond_only_for_power_mode_query() {
    assert!(AtaCmd::CheckPowerMode.ck_cond());
    assert!(!AtaCmd::SetFeature.ck_cond());
    assert!(!AtaCmd::ReadLogExt.ck_cond());
    assert!(!AtaCmd::ReadLogExtDma.ck_cond());
}

#[test]
fn set_feature_commands() {
    assert_eq!(
        Device::set_timer(PowerMode::IdleB, 0x1234, true, true),
        [0xa1, 6, 0x06, 0x4a, 0x32, 0x82, 0x34, 0x12, 0xa0, 0xef, 0, 0]
    );
    assert_eq!(
        Device::set_timer(PowerMode::StandbyZ, 600, false, false),
        [0xa1, 6, 0x06, 0x4a, 0x02, 0x00, 0x58, 0x02, 0xa0, 0xef, 0, 0]
    );
    assert_eq!(
        Device::set_state(PowerMode::IdleC, true, false),
        [0xa1, 6, 0x06, 0x4a, 0x22, 0x83, 0, 0, 0xa0, 0xef, 0, 0]
    );
    assert_eq!(
        Device::goto_cond(PowerMode::StandbyY),
        [0xa1, 6, 0x06, 0x4a, 0x01, 0x01, 0, 0, 0xa0, 0xef, 0, 0]
    );
    assert_eq!(Device::enable_epc(), [0xa1, 6, 0x06, 0x4a, 0x04, 0, 0, 0, 0xa0, 0xef, 0, 0]);
    assert_eq!(Device::disable_epc(), [0xa1, 6, 0x06, 0x4a, 0x05, 0, 0, 0, 0xa0, 0xef, 0, 0]);
    assert_eq!(
        Device::restore(PowerMode::IdleA, true, true),
        [0xa1, 6, 0x06, 0x4a, 0x50, 0x81, 0, 0, 0xa0, 0xef, 0, 0]
    );
    assert_eq!(
        Device::restore(PowerMode::IdleA, false, false),
        [0xa1, 6, 0x06, 0x4a, 0x00, 0x81, 0, 0, 0xa0, 0xef, 0, 0]
    );
}

#[test]
fn power_mode_ids() {
    assert_eq!(PowerMode::Active.id(), 0x81);
    assert_eq!(PowerMode::IdleA.id(), 0x81);
    assert_eq!(PowerMode::IdleB.id(), 0x82);
    assert_eq!(PowerMode::IdleC.id(), 0x83);
    assert_eq!(PowerMode::StandbyY.id(), 0x01);
    assert_eq!(PowerMode::StandbyZ.id(), 0x00);
}

#[test]
fn power_mode_mapping() {
    assert_eq!(PowerMode::from_sector_count(0xff), PowerMode::Active);
    assert_eq!(PowerMode::from_sector_count(0x81), PowerMode::IdleA);
    assert_eq!(PowerMode::from_sector_count(0x82), PowerMode::IdleB);
    assert_eq!(PowerMode::from_sector_count(0x83), PowerMode::IdleC);
    assert_eq!(PowerMode::from_sector_count(0x01), PowerMode::StandbyY);
    assert_eq!(PowerMode::from_sector_count(0x00), PowerMode::StandbyZ);
    assert_eq!(PowerMode::from_sector_count(0x02), PowerMode::Unknown);
    assert_eq!(PowerMode::from_sector_count(0x80), PowerMode::Unknown);
    assert_eq!(PowerMode::from_sector_count(0x1ff), PowerMode::Unknown);
}

#[test]
fn sense_descriptor_format() {
    assert_eq!(parse_sense(&sense_with(0x72, 0x00, 0x81)), Ok(SenseData { sector_count: 0x81 }));
    assert_eq!(parse_sense(&sense_with(0x73, 0x12, 0x34)), Ok(SenseData { sector_count: 0x1234 }));
}

#[test]
fn sense_fixed_format_unsupported() {
    assert_eq!(parse_sense(&sense_with(0x70, 0, 0x81)), Err(EpcError::UnsupportedSenseFormat));
    assert_eq!(parse_sense(&sense_with(0x71, 0, 0x81)), Err(EpcError::UnsupportedSenseFormat));
}

#[test]
fn sense_other_code_is_protocol_violation() {
    for code in [0x00u8, 0x6f, 0x74, 0xff] {
        assert_eq!(parse_sense(&sense_with(code, 0, 0x81)), Err(EpcError::ProtocolViolation));
    }
}

#[test]
fn query_mode_reports_idle_c() {
    let sense = sense_with(0x72, 0x00, 0x83);
    assert_eq!(Device::query_mode(&sense), Ok(PowerMode::IdleC));
}

#[test]
fn query_mode_passes_sense_errors_on() {
    assert_eq!(Device::query_mode(&sense_with(0x70, 0, 0x83)), Err(EpcError::UnsupportedSenseFormat));
    assert_eq!(Device::query_mode(&sense_with(0x10, 0, 0x83)), Err(EpcError::ProtocolViolation));
}

#[test]
fn descriptor_round_trip() {
    let raw = region(0b1010_0100, [1, 0x0102_0304, 3000, 0xffff_ffff, 10, 0x0001_0000]);
    let d = parse_power_cond_desc(&raw);
    assert_eq!(
        d,
        PowerCondDescriptor {
            supported: true,
            savable: false,
            changeable: true,
            default_enable: false,
            saved_enable: false,
            current_enable: true,
            default_timer: 1,
            saved_timer: 0x0102_0304,
            current_timer: 3000,
            recovery_time: 0xffff_ffff,
            min_timer: 10,
            max_timer: 0x0001_0000,
        }
    );
}

#[test]
fn descriptor_flag_toggle_changes_one_field() {
    let raw = region(0, [5, 6, 7, 8, 9, 10]);
    let base = parse_power_cond_desc(&raw);
    for k in 2..8u8 {
        let mut t = raw.clone();
        t[1] ^= 1 << k;
        let d = parse_power_cond_desc(&t);
        let mut expect = base;
        match k {
            7 => expect.supported = true,
            6 => expect.savable = true,
            5 => expect.changeable = true,
            4 => expect.default_enable = true,
            3 => expect.saved_enable = true,
            _ => expect.current_enable = true,
        }
        assert_eq!(d, expect);
    }
}

#[test]
fn epc_page_slicing() {
    let mut page = vec![0xeeu8; 1024];
    let places = [(0usize, 1u32), (64, 2), (128, 3), (896, 4), (960, 5)];
    for (off, n) in places {
        page[off..off + 64].copy_from_slice(&region(0x80, [n, n, n, n, n, n]));
    }
    let s = parse_epc_page(&page);
    assert_eq!(s.idle_a.default_timer, 1);
    assert_eq!(s.idle_b.default_timer, 2);
    assert_eq!(s.idle_c.max_timer, 3);
    assert_eq!(s.standby_y.current_timer, 4);
    assert_eq!(s.standby_z.min_timer, 5);
    assert!(s.standby_z.supported && !s.standby_z.savable);
    assert_eq!(Device::query_epc_setting(&page), Ok(s));
}

#[test]
fn query_epc_setting_all_zero_page() {
    let page = vec![0u8; 1024];
    let s = Device::query_epc_setting(&page).unwrap();
    let zero = PowerCondDescriptor {
        supported: false,
        savable: false,
        changeable: false,
        default_enable: false,
        saved_enable: false,
        current_enable: false,
        default_timer: 0,
        saved_timer: 0,
        current_timer: 0,
        recovery_time: 0,
        min_timer: 0,
        max_timer: 0,
    };
    for d in [s.idle_a, s.idle_b, s.idle_c, s.standby_y, s.standby_z] {
        assert_eq!(d, zero);
    }
}

#[test]
fn query_epc_setting_short_page() {
    assert_eq!(Device::query_epc_setting(&vec![0u8; 512]), Err(EpcError::LogPageTooShort));
}

#[test]
fn open_result() {
    assert!(matches!(Device::from_fd(-1, 13), Err(EpcError::OpenFailure(13))));
    let d = Device::from_fd(3, 0).unwrap();
    assert_eq!(d.fd(), 3);
    assert!(d.read_general_log().is_none());
}

#[test]
fn log_page_sized_from_directory() {
    let mut d = Device::from_fd(3, 0).unwrap();
    assert!(d.read_log_page(0x08).is_none());
    let mut dir = vec![0u8; 512];
    dir[0x10] = 2;
    d.store_general_log(dir);
    let q = d.read_log_page(0x08).unwrap();
    assert_eq!(q.len, 1024);
    assert_eq!(q.cdb, [0x85, 21, 0x0e, 0, 0, 0, 2, 0, 8, 0, 0, 0, 0, 0xa0, 0x47, 0]);
    assert_eq!(d.read_log_page(0x09).unwrap().len, 0);
}

#[test]
fn log_page_large_entry() {
    let mut d = Device::from_fd(3, 0).unwrap();
    let mut dir = vec![0u8; 512];
    dir[510] = 0x01;
    dir[511] = 0x01;
    d.store_general_log(dir);
    let q = d.read_log_page(0xff).unwrap();
    assert_eq!(q.len, 512 * 0x0101);
    assert_eq!(&q.cdb[5..9], &[0x01, 0x01, 0x00, 0xff]);
}

#[test]
fn log_directory_fetched_once() {
    let mut d = Device::from_fd(3, 0).unwrap();
    let mut exchanges = 0;
    for _ in 0..2 {
        if let Some(cdb) = d.general_log_command() {
            assert_eq!(cdb, [0x85, 21, 0x0e, 0, 0, 0, 1, 0, 0, 0, 0, 0, 0, 0xa0, 0x47, 0]);
            exchanges += 1;
            d.store_general_log(vec![exchanges as u8; 512]);
        }
        assert!(d.read_general_log().is_some());
    }
    assert_eq!(exchanges, 1);
    d.store_general_log(vec![9u8; 512]);
    assert_eq!(d.read_general_log().unwrap()[0], 1);
}

#[test]
fn transfer_plans() {
    assert_eq!(plan_sg_io(16, Some(4), Some(4)), Err(EpcError::InvalidDirection));
    let p = plan_sg_io(16, None, Some(1024)).unwrap();
    assert_eq!((p.interface_id, p.direction, p.dxfer_len, p.cmd_len, p.mx_sb_len), (83, SG_DXFER_FROM_DEV, 1024, 16, 32));
    let p = plan_sg_io(12, Some(7), None).unwrap();
    assert_eq!((p.direction, p.dxfer_len, p.cmd_len), (SG_DXFER_TO_DEV, 7, 12));
    let p = plan_sg_io(12, None, None).unwrap();
    assert_eq!((p.direction, p.dxfer_len), (SG_DXFER_NONE, 0));
}
