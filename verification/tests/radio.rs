use at86rf215::radio::{Radio, BBC0_FBRXS, BBC0_FBTXS, BBC1_FBRXS, BBC1_FBTXS};
use at86rf215::registers::{DevicePartNumber, TransceiverCmd, TransceiverState};

#[test]
fn test_rf_cfg_write_command() {
    let mut radio = Radio::new();

    radio.rf_cfg.value = radio.rf_cfg.value.with_drv(3).with_irqmm(true);
    assert_eq!(radio.rf_cfg.value.into_bits(), 0b00001011);
    radio.rf_cfg.value.set_irqp(true);
    assert_eq!(radio.rf_cfg.value.into_bits(), 0b00001111);

    let cmd = radio.rf_cfg.write_command();

    assert_eq!(cmd.len(), 3);

    // Write header: 0x8000 | 0x0006 = 0x8006
    assert_eq!(cmd[0], 0x80);
    assert_eq!(cmd[1], 0x06);
    assert_eq!(cmd[2], 0b00001111);
}

#[test]
fn test_rf_cfg_read_command() {
    let radio = Radio::new();

    let cmd = radio.rf_cfg.read_command();

    assert_eq!(cmd.len(), 3);

    // Read header: 0x0000 | 0x0006 = 0x0006
    assert_eq!(cmd[0], 0x00);
    assert_eq!(cmd[1], 0x06);
    assert_eq!(cmd[2], 0x00);
}

#[test]
fn test_rf09_cmd_write_command() {
    let mut radio = Radio::new();

    assert_eq!(radio.rf09_cmd.value.cmd(), TransceiverCmd::Nop);

    radio.rf09_cmd.value.set_cmd(TransceiverCmd::Sleep);
    assert_eq!(radio.rf09_cmd.value.cmd(), TransceiverCmd::Sleep);

    let cmd = radio.rf09_cmd.write_command();

    assert_eq!(cmd.len(), 3);

    // Write header: 0x8000 | 0x0103 = 0x8103
    assert_eq!(cmd[0], 0x81);
    assert_eq!(cmd[1], 0x03);
    assert_eq!(cmd[2], 0x01);
}

#[test]
fn test_bbc0_cnt_read_command() {
    let radio = Radio::new();

    let cmd = radio.bbc0_cnt.read_command();

    assert_eq!(cmd.len(), 6);

    // Read header: 0x0000 | 0x0391 = 0x0391
    assert_eq!(cmd[0], 0x03);
    assert_eq!(cmd[1], 0x91);

    assert_eq!(&cmd[2..6], &[0x00, 0x00, 0x00, 0x00]);
}

#[test]
fn test_rf09_ccf0_write_command_u16() {
    let mut radio = Radio::new();

    radio.rf09_ccf0.value.set_ccf0(0x1234);

    let cmd = radio.rf09_ccf0.write_command_u16();

    assert_eq!(cmd.len(), 4);

    // Write header: 0x8000 | 0x0105 = 0x8105
    assert_eq!(cmd[0], 0x81);
    assert_eq!(cmd[1], 0x05);
    assert_eq!(cmd[2], 0x34);
    assert_eq!(cmd[3], 0x12);
}

#[test]
fn new_radio_holds_reset_values() {
    let radio = Radio::new();
    assert_eq!(radio.rf_pn.value.into_bits(), 0x34);
    assert_eq!(radio.rf_pn.value.pn(), DevicePartNumber::AT86RF215);
    assert_eq!(radio.rf_rst.value.into_bits(), 0x07);
    assert_eq!(radio.rf09_state.value.into_bits(), 0x02);
    assert_eq!(radio.rf09_state.value.state(), TransceiverState::TrxOff);
    assert_eq!(radio.rf24_state.value.into_bits(), 0x02);
    assert_eq!(radio.rf_cfg.value.into_bits(), 0);
    assert_eq!(radio.rf09_ccf0.value.into_bits(), 0);
    assert_eq!(radio.bbc0_macea.value.into_bits(), 0);
    assert_eq!(radio.bbc1_cnt.value.into_bits(), 0);
}

#[test]
fn default_radio_is_new_radio() {
    let a = Radio::default();
    let b = Radio::new();
    assert_eq!(a.rf_pn, b.rf_pn);
    assert_eq!(a.rf_rst, b.rf_rst);
    assert_eq!(a.rf24_cmd, b.rf24_cmd);
    assert_eq!(a.bbc1_fskpe2, b.bbc1_fskpe2);
}

#[test]
fn slots_report_their_address_and_size() {
    let radio = Radio::new();
    assert_eq!(radio.rf_pn.address(), 0x000D);
    assert_eq!(radio.rf_pn.size(), 1);
    assert_eq!(radio.rf_rst.address(), 0x0005);
    assert_eq!(radio.rf_rst.size(), 1);
    assert_eq!(radio.rf24_cn.address(), 0x0207);
    assert_eq!(radio.rf24_cn.size(), 2);
    assert_eq!(radio.bbc0_macea.address(), 0x0325);
    assert_eq!(radio.bbc0_macea.size(), 8);
    assert_eq!(radio.bbc1_cnt.address(), 0x0491);
    assert_eq!(radio.bbc1_cnt.size(), 4);
}

#[test]
fn write_only_slot_builds_write_command() {
    let mut radio = Radio::new();
    radio.rf24_cmd.value.set_cmd(TransceiverCmd::Rx);
    assert_eq!(radio.rf24_cmd.write_command(), vec![0x82, 0x03, 0x05]);
}

#[test]
fn eight_byte_register_write_command() {
    let mut radio = Radio::new();
    radio.bbc0_macea.value.set_macea(0x0102_0304_0506_0708);
    let cmd = radio.bbc0_macea.write_command_u64();
    assert_eq!(
        cmd,
        vec![0x83, 0x25, 0x08, 0x07, 0x06, 0x05, 0x04, 0x03, 0x02, 0x01]
    );
    assert_eq!(
        radio.bbc0_macea.read_command(),
        vec![0x03, 0x25, 0, 0, 0, 0, 0, 0, 0, 0]
    );
}

#[test]
fn frame_buffer_addresses() {
    assert_eq!(BBC0_FBTXS, 0x2000);
    assert_eq!(BBC0_FBRXS, 0x3000);
    assert_eq!(BBC1_FBTXS, 0x2800);
    assert_eq!(BBC1_FBRXS, 0x3800);
}
