use at86rf215::registers::{
    build_write_command, BbcnCnt, BbcnPmuc, BbcnPmuqf, BbcnTxfl, ChipMode, ChipResetCmd,
    DevicePartNumber, EnergyDetectionMode, ReadOnly, ReadWrite, RfCfg, RfIqifc1, RfPn, RfRst,
    RfnCcf0, RfnCn, RfnEdc, RfnEdv, RfnState, TransceiverCmd, TransceiverState, WriteOnly,
};

#[test]
fn test_bbcn_pmuc_read_only_field() {
    let mut pmuc = BbcnPmuc::new().with_en(true).with_avg(false);

    let sync_value = pmuc.sync();
    assert_eq!(sync_value, 0);

    assert_eq!(pmuc.en(), true);
    pmuc.set_en(false);
    assert_eq!(pmuc.en(), false);

    assert_eq!(pmuc.avg(), false);
    pmuc.set_avg(true);
    assert_eq!(pmuc.avg(), true);

    assert_eq!(pmuc.sync(), 0);
}

#[test]
fn test_bbcn_pmuc_writable_fields() {
    let pmuc = BbcnPmuc::new()
        .with_en(true)
        .with_avg(true)
        .with_fed(true)
        .with_iqsel(false)
        .with_ccfts(true);

    assert_eq!(pmuc.en(), true);
    assert_eq!(pmuc.avg(), true);
    assert_eq!(pmuc.fed(), true);
    assert_eq!(pmuc.iqsel(), false);
    assert_eq!(pmuc.ccfts(), true);
}

#[test]
fn one_byte_register_commands() {
    let value = RfCfg::from_bits(0b0000_1111);
    let slot = ReadWrite::<RfCfg, 0x0006, 1>::new(value);
    assert_eq!(slot.write_command(), vec![0x80, 0x06, 0x0F]);
    assert_eq!(slot.read_command(), vec![0x00, 0x06, 0x00]);
}

#[test]
fn two_byte_register_write_command() {
    let slot = ReadWrite::<RfnCcf0, 0x0105, 2>::new(RfnCcf0::from_bits(0x1234));
    assert_eq!(slot.write_command_u16(), vec![0x81, 0x05, 0x34, 0x12]);
}

#[test]
fn four_byte_read_only_register_read_command() {
    let slot = ReadOnly::<BbcnCnt, 0x0391, 4>::new(BbcnCnt::new());
    let cmd = slot.read_command();
    assert_eq!(cmd.len(), 6);
    assert_eq!(cmd, vec![0x03, 0x91, 0x00, 0x00, 0x00, 0x00]);
}

#[test]
fn four_byte_write_command_is_little_endian() {
    let slot = WriteOnly::<BbcnCnt, 0x0391, 4>::new(BbcnCnt::from_bits(0xAABB_CCDD));
    assert_eq!(
        slot.write_command_u32(),
        vec![0x83, 0x91, 0xDD, 0xCC, 0xBB, 0xAA]
    );
    let slot = ReadWrite::<BbcnCnt, 0x0391, 4>::new(BbcnCnt::from_bits(0x0000_0001));
    assert_eq!(
        slot.write_command_u32(),
        vec![0x83, 0x91, 0x01, 0x00, 0x00, 0x00]
    );
}

#[test]
fn write_only_commands_of_each_width() {
    let one = WriteOnly::<RfCfg, 0x0006, 1>::new(RfCfg::from_bits(0xA5));
    assert_eq!(one.write_command(), vec![0x80, 0x06, 0xA5]);
    let two = WriteOnly::<RfnCcf0, 0x0205, 2>::new(RfnCcf0::from_bits(0xBEEF));
    assert_eq!(two.write_command_u16(), vec![0x82, 0x05, 0xEF, 0xBE]);
    assert_eq!(one.address(), 0x0006);
    assert_eq!(one.size(), 1);
    assert_eq!(two.address(), 0x0205);
    assert_eq!(two.size(), 2);
}

#[test]
fn address_bits_above_bit_13_are_dropped() {
    let slot = ReadWrite::<RfCfg, 0xC006, 1>::new(RfCfg::from_bits(0x01));
    assert_eq!(slot.address(), 0xC006);
    assert_eq!(slot.read_command(), vec![0x00, 0x06, 0x00]);
    assert_eq!(slot.write_command(), vec![0x80, 0x06, 0x01]);
}

#[test]
fn read_command_is_header_and_zero_filler() {
    let slot = ReadOnly::<RfCfg, 0x3FFF, 8>::new(RfCfg::new());
    let cmd = slot.read_command();
    assert_eq!(cmd.len(), 10);
    assert_eq!(&cmd[..2], &[0x3F, 0xFF]);
    assert!(cmd[2..].iter().all(|b| *b == 0));
    let empty = ReadOnly::<RfCfg, 0x0000, 0>::new(RfCfg::new());
    assert_eq!(empty.read_command(), vec![0x00, 0x00]);
}

#[test]
fn write_header_is_read_header_with_top_bit() {
    let slot = ReadWrite::<RfCfg, 0x1ABC, 1>::new(RfCfg::from_bits(0x77));
    let read = slot.read_command();
    let write = slot.write_command();
    assert_eq!(write[0], read[0] | 0x80);
    assert_eq!(write[1], read[1]);
    assert_eq!(read[0] & 0xC0, 0x00);
    assert_eq!(write[0] & 0xC0, 0x80);
}

#[test]
fn build_write_command_joins_header_and_payload() {
    assert_eq!(
        build_write_command([0x81, 0x05], vec![0x34, 0x12]),
        vec![0x81, 0x05, 0x34, 0x12]
    );
    assert_eq!(build_write_command([0x80, 0x00], vec![]), vec![0x80, 0x00]);
}

#[test]
fn register_converts_to_and_from_bits() {
    let reg = RfCfg::from(0x0Bu8);
    assert_eq!(reg.into_bits(), 0x0B);
    assert_eq!(u8::from(reg), 0x0B);
    assert_eq!(reg, RfCfg::from_bits(0x0B));
    let wide = RfnCn::from(0x8123u16);
    assert_eq!(u16::from(wide), 0x8123);
    let cnt = BbcnCnt::from(0xDEAD_BEEFu32);
    assert_eq!(u32::from(cnt), 0xDEAD_BEEF);
    assert_eq!(cnt.cnt(), 0xDEAD_BEEF);
}

#[test]
fn reset_values() {
    assert_eq!(RfCfg::new().into_bits(), 0);
    assert_eq!(RfCfg::default().into_bits(), 0);
    assert_eq!(RfPn::new().into_bits(), 0x34);
    assert_eq!(RfPn::default().pn(), DevicePartNumber::AT86RF215);
    assert_eq!(RfRst::new().into_bits(), 0x07);
    assert_eq!(RfRst::new().cmd(), ChipResetCmd::Reset);
    assert_eq!(RfnState::new().into_bits(), 0x02);
    assert_eq!(RfnState::default().state(), TransceiverState::TrxOff);
    assert_eq!(RfnEdc::new().edm(), EnergyDetectionMode::Auto);
    assert_eq!(RfIqifc1::new().chpm(), ChipMode::BasebandMode);
}

#[test]
fn field_setters_keep_the_other_bits() {
    let reg = RfCfg::from_bits(0xF0).with_drv(2);
    assert_eq!(reg.into_bits(), 0xF2);
    assert_eq!(reg.drv(), 2);
    let reg = reg.with_irqp(true).with_irqmm(false);
    assert_eq!(reg.into_bits(), 0xF6);
    let mut reg = RfCfg::from_bits(0xFF);
    reg.set_drv(0);
    assert_eq!(reg.into_bits(), 0xFC);
    reg.set_irqmm(false);
    assert_eq!(reg.into_bits(), 0xF4);
}

#[test]
fn checked_setters_reject_values_that_do_not_fit() {
    let reg = RfCfg::from_bits(0x10);
    assert_eq!(reg.with_drv_checked(3), Ok(RfCfg::from_bits(0x13)));
    assert_eq!(reg.with_drv_checked(4), Err(()));
    assert_eq!(reg.with_irqp_checked(true), Ok(RfCfg::from_bits(0x14)));
    let mut reg = RfCfg::from_bits(0x10);
    assert_eq!(reg.set_drv_checked(4), Err(()));
    assert_eq!(reg.into_bits(), 0x10);
    assert_eq!(reg.set_drv_checked(1), Ok(()));
    assert_eq!(reg.into_bits(), 0x11);
    let mut len = BbcnTxfl::new();
    assert_eq!(len.set_txfl_checked(0x7FF), Ok(()));
    assert_eq!(len.txfl(), 0x7FF);
    assert_eq!(len.set_txfl_checked(0x800), Err(()));
    assert_eq!(len.into_bits(), 0x07FF);
}

#[test]
fn fields_of_a_sixteen_bit_register() {
    let reg = RfnCn::from_bits(0xFFFF);
    assert_eq!(reg.cn(), 0x1FF);
    assert_eq!(reg.cm(), 3);
    let reg = RfnCn::new().with_cn(0x155).with_cm(2);
    assert_eq!(reg.into_bits(), 0x8155);
    let reg = RfnCn::from_bits(0xFFFF).with_cn(0).with_cm(0);
    assert_eq!(reg.into_bits(), 0x3E00);
}

#[test]
fn signed_fields_read_in_twos_complement() {
    assert_eq!(RfnEdv::from_bits(0x00).edv(), 0);
    assert_eq!(RfnEdv::from_bits(0x7F).edv(), 127);
    assert_eq!(RfnEdv::from_bits(0x80).edv(), -128);
    assert_eq!(RfnEdv::from_bits(0xFF).edv(), -1);
    assert_eq!(BbcnPmuqf::from_bits(0xA5).pmuqf(), -91);
}

#[test]
fn enumerated_fields_fall_back_on_undefined_codes() {
    assert_eq!(DevicePartNumber::from_bits(0x34), DevicePartNumber::AT86RF215);
    assert_eq!(DevicePartNumber::from_bits(0x35), DevicePartNumber::AT86RF215IQ);
    assert_eq!(DevicePartNumber::from_bits(0x36), DevicePartNumber::AT86RF215M);
    assert_eq!(DevicePartNumber::from_bits(0x00), DevicePartNumber::AT86RF215);
    assert_eq!(DevicePartNumber::AT86RF215M.into_bits(), 0x36);
    assert_eq!(ChipResetCmd::from_bits(0x07), ChipResetCmd::Reset);
    assert_eq!(ChipResetCmd::from_bits(0x00), ChipResetCmd::Reset);
    assert_eq!(ChipResetCmd::Reset.into_bits(), 0x07);
    assert_eq!(TransceiverState::from_bits(6), TransceiverState::Transition);
    assert_eq!(TransceiverState::from_bits(0), TransceiverState::TrxOff);
    assert_eq!(TransceiverState::from_bits(1), TransceiverState::TrxOff);
    assert_eq!(TransceiverState::Reset.into_bits(), 7);
    assert_eq!(TransceiverCmd::from_bits(6), TransceiverCmd::Nop);
    assert_eq!(TransceiverCmd::from_bits(7), TransceiverCmd::Reset);
    assert_eq!(TransceiverCmd::TxPrep.into_bits(), 3);
    assert_eq!(ChipMode::from_bits(4), ChipMode::Rf09IqRf24Bb);
    assert_eq!(ChipMode::from_bits(2), ChipMode::BasebandMode);
    assert_eq!(ChipMode::Rf09BbRf24Iq.into_bits(), 5);
    assert_eq!(EnergyDetectionMode::from_bits(2), EnergyDetectionMode::Continuous);
    assert_eq!(EnergyDetectionMode::from_bits(9), EnergyDetectionMode::Off);
    assert_eq!(EnergyDetectionMode::Single.into_bits(), 1);
}

#[test]
fn enumerated_codes_round_trip() {
    for cmd in [
        TransceiverCmd::Nop,
        TransceiverCmd::Sleep,
        TransceiverCmd::TrxOff,
        TransceiverCmd::TxPrep,
        TransceiverCmd::Tx,
        TransceiverCmd::Rx,
        TransceiverCmd::Reset,
    ] {
        assert_eq!(TransceiverCmd::from_bits(cmd.into_bits()), cmd);
    }
    for mode in [
        ChipMode::BasebandMode,
        ChipMode::IqRadioMode,
        ChipMode::Rf09IqRf24Bb,
        ChipMode::Rf09BbRf24Iq,
    ] {
        assert_eq!(ChipMode::from_bits(mode.into_bits()), mode);
        assert_eq!(RfIqifc1::from_bits(0xFF).with_chpm(mode).chpm(), mode);
    }
}

#[test]
fn enumerated_field_setters() {
    let reg = RfIqifc1::from_bits(0x83).with_chpm(ChipMode::Rf09BbRf24Iq);
    assert_eq!(reg.into_bits(), 0xD3);
    assert_eq!(reg.chpm(), ChipMode::Rf09BbRf24Iq);
    assert_eq!(reg.skewdrv(), 3);
    assert_eq!(reg.failsf(), true);
    let mut edc = RfnEdc::new();
    assert_eq!(edc.set_edm_checked(EnergyDetectionMode::Off), Ok(()));
    assert_eq!(edc.into_bits(), 0x03);
}
