use can_id_reg::{ExtendedId, Id, IdReg, IdType, RemoteTransmissionRequest, StandardId};

fn std_id(raw: u16) -> StandardId {
    StandardId::new(raw).unwrap()
}

fn ext_id(raw: u32) -> ExtendedId {
    ExtendedId::new(raw).unwrap()
}

#[test]
fn standard_id_accepts_eleven_bits() {
    assert_eq!(StandardId::new(0).unwrap().as_raw(), 0);
    assert_eq!(StandardId::new(0x123).unwrap().as_raw(), 0x123);
    assert_eq!(StandardId::new(0x7FF).unwrap().as_raw(), 0x7FF);
}

#[test]
fn standard_id_rejects_wider_values() {
    assert_eq!(StandardId::new(0x800), None);
    assert_eq!(StandardId::new(0xFFFF), None);
}

#[test]
fn extended_id_accepts_twenty_nine_bits() {
    assert_eq!(ExtendedId::new(0).unwrap().as_raw(), 0);
    assert_eq!(ExtendedId::new(0x1234_5678).unwrap().as_raw(), 0x1234_5678);
    assert_eq!(ExtendedId::new(0x1FFF_FFFF).unwrap().as_raw(), 0x1FFF_FFFF);
}

#[test]
fn extended_id_rejects_wider_values() {
    assert_eq!(ExtendedId::new(0x2000_0000), None);
    assert_eq!(ExtendedId::new(0xFFFF_FFFF), None);
}

#[test]
fn unchecked_constructors_keep_the_value() {
    assert_eq!(StandardId::new_unchecked(0x7FF), std_id(0x7FF));
    assert_eq!(ExtendedId::new_unchecked(0x1FFF_FFFF), ext_id(0x1FFF_FFFF));
}

#[test]
fn base_id_is_the_upper_eleven_bits() {
    assert_eq!(ext_id(0x1FFF_FFFF).standard_id().as_raw(), 0x7FF);
    assert_eq!(ext_id(0x0400_0000).standard_id().as_raw(), 0x100);
    assert_eq!(ext_id(0x0004_0000).standard_id().as_raw(), 1);
    assert_eq!(ext_id(0x0003_FFFF).standard_id().as_raw(), 0);
    assert_eq!(ext_id(0x1234_5678).standard_id().as_raw(), 0x48D);
}

#[test]
fn standard_identifier_sits_at_bit_eighteen() {
    let reg = IdReg::new_standard(std_id(0x123));
    assert_eq!(reg.as_raw_id(), 0x123 << 18);
    assert!(reg.is_standard());
    assert!(!reg.is_extended());
    assert!(!reg.rtr());
    assert_eq!(IdReg::new_standard(std_id(0x7FF)).as_raw_id(), 0x1FFC_0000);
    assert_eq!(IdReg::new_standard(std_id(1)).as_raw_id(), 0x0004_0000);
}

#[test]
fn extended_identifier_sits_at_bit_zero() {
    let reg = IdReg::new_extended(ext_id(0x1234_5678));
    assert_eq!(reg.as_raw_id(), 0x1234_5678);
    assert!(reg.is_extended());
    assert!(!reg.is_standard());
    assert!(!reg.rtr());
    assert_eq!(
        reg,
        IdReg::from_register(
            0x1234_5678,
            RemoteTransmissionRequest::TransmitDataFrame,
            IdType::ExtendedId
        )
    );
}

#[test]
fn flags_sit_at_bits_twenty_nine_and_thirty() {
    let data = RemoteTransmissionRequest::TransmitDataFrame;
    let remote = RemoteTransmissionRequest::TransmitRemoteFrame;
    let rtr_only = IdReg::from_register(0x2000_0000, data, IdType::StandardId);
    assert!(rtr_only.rtr());
    assert!(rtr_only.is_standard());
    assert_eq!(rtr_only.as_raw_id(), 0);
    assert_eq!(rtr_only, IdReg::from_register(0, remote, IdType::StandardId));
    let xtd_only = IdReg::from_register(0x4000_0000, data, IdType::StandardId);
    assert!(xtd_only.is_extended());
    assert!(!xtd_only.rtr());
    assert_eq!(xtd_only, IdReg::from_register(0, data, IdType::ExtendedId));
    let top = IdReg::from_register(0x8000_0000, data, IdType::StandardId);
    assert!(!top.rtr());
    assert!(top.is_standard());
    assert_eq!(top.as_raw_id(), 0);
}

#[test]
fn round_trip_every_standard_identifier() {
    for raw in 0u16..=0x7FF {
        let id = std_id(raw);
        assert_eq!(IdReg::new_standard(id).to_id(), Id::Standard(id));
        assert_eq!(IdReg::from(Id::Standard(id)).to_id(), Id::Standard(id));
    }
}

#[test]
fn round_trip_extended_identifiers() {
    let mut raw: u32 = 0;
    while raw <= 0x1FFF_FFFF {
        let id = ext_id(raw);
        assert_eq!(IdReg::new_extended(id).to_id(), Id::Extended(id));
        raw += 0x1_0001;
    }
    for raw in [0u32, 1, 0x3_FFFF, 0x4_0000, 0x0FFF_FFFF, 0x1000_0000, 0x1FFF_FFFE, 0x1FFF_FFFF] {
        let id = ext_id(raw);
        assert_eq!(IdReg::new_extended(id).to_id(), Id::Extended(id));
        assert_eq!(Id::from(IdReg::from(Id::Extended(id))), Id::Extended(id));
    }
}

#[test]
fn with_rtr_keeps_identifier_and_kind() {
    let regs = [
        IdReg::new_standard(std_id(0)),
        IdReg::new_standard(std_id(0x555)),
        IdReg::new_standard(std_id(0x7FF)),
        IdReg::new_extended(ext_id(0)),
        IdReg::new_extended(ext_id(0x1555_5555)),
        IdReg::new_extended(ext_id(0x1FFF_FFFF)),
    ];
    for reg in regs {
        for flag in [false, true] {
            let changed = reg.with_rtr(flag);
            assert_eq!(changed.rtr(), flag);
            assert_eq!(changed.to_id(), reg.to_id());
            assert_eq!(changed.is_extended(), reg.is_extended());
            assert_eq!(changed.as_raw_id(), reg.as_raw_id());
        }
    }
}

#[test]
fn with_rtr_set_then_clear_restores_the_value() {
    let regs = [
        IdReg::new_standard(std_id(0x2AA)),
        IdReg::new_extended(ext_id(0x0ABC_DEF0)),
        IdReg::from_register(
            0x8000_0001,
            RemoteTransmissionRequest::TransmitDataFrame,
            IdType::StandardId,
        ),
    ];
    for reg in regs {
        assert_ne!(reg.with_rtr(true), reg);
        assert_eq!(reg.with_rtr(true).with_rtr(false), reg);
        assert_eq!(reg.with_rtr(false), reg);
        assert_eq!(reg.with_rtr(true).with_rtr(true), reg.with_rtr(true));
    }
}

#[test]
fn with_rtr_does_not_change_the_receiver() {
    let reg = IdReg::new_standard(std_id(0x10));
    let _ = reg.with_rtr(true);
    assert!(!reg.rtr());
}

#[test]
fn from_register_equals_direct_construction() {
    let data = RemoteTransmissionRequest::TransmitDataFrame;
    let remote = RemoteTransmissionRequest::TransmitRemoteFrame;
    for raw in [0u16, 1, 0x100, 0x3FF, 0x7FF] {
        let id = std_id(raw);
        let field = u32::from(raw) << 18;
        let direct = IdReg::new_standard(id);
        assert_eq!(IdReg::from_register(field, data, IdType::StandardId), direct);
        assert_eq!(IdReg::from_register(field, remote, IdType::StandardId), direct.with_rtr(true));
        assert_eq!(
            IdReg::from_register(field, remote, IdType::StandardId).to_id(),
            Id::Standard(id)
        );
    }
    for raw in [0u32, 1, 0x50, 0x0400_0000, 0x1FFF_FFFF] {
        let id = ext_id(raw);
        let direct = IdReg::new_extended(id);
        assert_eq!(IdReg::from_register(raw, data, IdType::ExtendedId), direct);
        assert_eq!(IdReg::from_register(raw, remote, IdType::ExtendedId), direct.with_rtr(true));
        assert_eq!(
            IdReg::from_register(raw, remote, IdType::ExtendedId).to_id(),
            Id::Extended(id)
        );
    }
}

#[test]
fn rebuilding_from_parts_keeps_the_meaning() {
    let regs = [
        IdReg::new_standard(std_id(0x321)).with_rtr(true),
        IdReg::new_extended(ext_id(0x1ABC_DEF0)),
        IdReg::new_extended(ext_id(0x0000_0001)).with_rtr(true),
    ];
    for reg in regs {
        let rebuilt = IdReg::from_register(
            reg.as_raw_id(),
            RemoteTransmissionRequest::from(reg),
            IdType::from(reg),
        );
        assert_eq!(rebuilt, reg);
    }
}

#[test]
fn stray_bits_are_masked_off() {
    let data = RemoteTransmissionRequest::TransmitDataFrame;
    let remote = RemoteTransmissionRequest::TransmitRemoteFrame;
    // A standard identifier with every bit below its field set, and bit 31.
    let dirty = IdReg::from_register((0x123 << 18) | 0x8003_FFFF, data, IdType::StandardId);
    assert_eq!(dirty.to_id(), Id::Standard(std_id(0x123)));
    assert!(dirty.is_standard());
    assert!(!dirty.rtr());
    assert_eq!(dirty.as_raw_id(), (0x123 << 18) | 0x0003_FFFF);
    // An extended identifier with bit 31 set.
    let dirty = IdReg::from_register(0x9234_5678, remote, IdType::ExtendedId);
    assert_eq!(dirty.to_id(), Id::Extended(ext_id(0x1234_5678)));
    assert!(dirty.is_extended());
    assert!(dirty.rtr());
    // All 32 bits set: an extended remote frame with the greatest identifier.
    let full = IdReg::from_register(0xFFFF_FFFF, data, IdType::StandardId);
    assert_eq!(full.to_id(), Id::Extended(ext_id(0x1FFF_FFFF)));
    assert!(full.rtr());
}

#[test]
fn tags_come_from_the_flags() {
    let std_data = IdReg::new_standard(std_id(5));
    let ext_remote = IdReg::new_extended(ext_id(5)).with_rtr(true);
    assert_eq!(IdType::from(std_data), IdType::StandardId);
    assert_eq!(IdType::from(ext_remote), IdType::ExtendedId);
    assert_eq!(
        RemoteTransmissionRequest::from(std_data),
        RemoteTransmissionRequest::TransmitDataFrame
    );
    assert_eq!(
        RemoteTransmissionRequest::from(ext_remote),
        RemoteTransmissionRequest::TransmitRemoteFrame
    );
}

#[test]
fn identifier_kind_of_an_identifier() {
    assert_eq!(IdType::from(std_id(7)), IdType::StandardId);
    assert_eq!(IdType::from(ext_id(7)), IdType::ExtendedId);
    assert_eq!(IdType::from(Id::Standard(std_id(7))), IdType::StandardId);
    assert_eq!(IdType::from(Id::Extended(ext_id(7))), IdType::ExtendedId);
}

#[test]
fn conversions_between_identifier_and_register() {
    let id = Id::Standard(std_id(0x42));
    let reg: IdReg = id.into();
    assert_eq!(reg, IdReg::new_standard(std_id(0x42)));
    let back: Id = reg.into();
    assert_eq!(back, id);
    let id = Id::Extended(ext_id(0x42));
    let reg: IdReg = id.into();
    assert_eq!(reg, IdReg::new_extended(ext_id(0x42)));
    let back: Id = reg.into();
    assert_eq!(back, id);
}
