use at86rf215::bulk::{BulkError, BulkWrites};
use at86rf215::radio::Radio;
use at86rf215::registers::{
    BbcnCnt, BbcnMacea, ReadWrite, RfCfg, RfClko, RfnCcf0, RfnCmd, TransceiverCmd, WriteOnly,
};

#[test]
fn no_pending_write_gives_no_transaction() {
    let bulk = BulkWrites::new();
    assert_eq!(bulk.len(), 0);
    assert_eq!(bulk.generate_commands(), Ok(vec![]));
}

#[test]
fn single_write_is_its_write_command() {
    let slot = ReadWrite::<RfCfg, 0x0006, 1>::new(RfCfg::from_bits(0x0F));
    let mut bulk = BulkWrites::new();
    bulk.add(&slot);
    assert_eq!(bulk.len(), 1);
    assert_eq!(bulk.generate_commands(), Ok(vec![slot.write_command()]));
}

#[test]
fn three_registers_give_two_transactions() {
    let mut radio = Radio::new();
    radio.rf_cfg.value = RfCfg::from_bits(0x0F);
    radio.rf09_cmd.value.set_cmd(TransceiverCmd::TxPrep);
    radio.rf_clko.value = RfClko::from_bits(0x1A);

    let mut bulk = BulkWrites::new();
    bulk.add(&radio.rf_cfg);
    bulk.add(&radio.rf09_cmd);
    bulk.add(&radio.rf_clko);
    assert_eq!(bulk.len(), 3);

    let commands = bulk.generate_commands().unwrap();
    assert_eq!(commands.len(), 2);
    assert_eq!(commands[0], vec![0x80, 0x06, 0x0F, 0x1A]);
    assert_eq!(commands[1], vec![0x81, 0x03, 0x03]);
}

#[test]
fn every_order_gives_the_same_transactions() {
    let a = ReadWrite::<RfCfg, 0x0006, 1>::new(RfCfg::from_bits(0x11));
    let b = WriteOnly::<RfnCmd, 0x0103, 1>::new(RfnCmd::from_bits(0x22));
    let c = ReadWrite::<RfClko, 0x0007, 1>::new(RfClko::from_bits(0x33));
    let expected = Ok(vec![vec![0x80, 0x06, 0x11, 0x33], vec![0x81, 0x03, 0x22]]);
    let orders: [[usize; 3]; 6] = [
        [0, 1, 2],
        [0, 2, 1],
        [1, 0, 2],
        [1, 2, 0],
        [2, 0, 1],
        [2, 1, 0],
    ];
    for order in orders {
        let mut bulk = BulkWrites::new();
        for which in order {
            match which {
                0 => bulk.add(&a),
                1 => bulk.add(&b),
                _ => bulk.add(&c),
            }
        }
        assert_eq!(bulk.generate_commands(), expected);
    }
}

#[test]
fn adjacent_registers_of_mixed_width_share_a_transaction() {
    let ccf0 = ReadWrite::<RfnCcf0, 0x0105, 2>::new(RfnCcf0::from_bits(0x1234));
    let cn = ReadWrite::<RfnCcf0, 0x0107, 2>::new(RfnCcf0::from_bits(0xABCD));
    let cs = ReadWrite::<RfCfg, 0x0104, 1>::new(RfCfg::from_bits(0x08));
    let mut bulk = BulkWrites::new();
    bulk.add_u16(&cn);
    bulk.add(&cs);
    bulk.add_u16(&ccf0);
    assert_eq!(
        bulk.generate_commands(),
        Ok(vec![vec![0x81, 0x04, 0x08, 0x34, 0x12, 0xCD, 0xAB]])
    );
}

#[test]
fn a_gap_of_one_byte_splits_the_transaction() {
    let low = ReadWrite::<RfCfg, 0x0010, 1>::new(RfCfg::from_bits(0x01));
    let high = ReadWrite::<RfCfg, 0x0012, 1>::new(RfCfg::from_bits(0x02));
    let mut bulk = BulkWrites::new();
    bulk.add(&high);
    bulk.add(&low);
    assert_eq!(
        bulk.generate_commands(),
        Ok(vec![vec![0x80, 0x10, 0x01], vec![0x80, 0x12, 0x02]])
    );
}

#[test]
fn wide_registers_merge_at_their_byte_boundaries() {
    let cnt = WriteOnly::<BbcnCnt, 0x0321, 4>::new(BbcnCnt::from_bits(0xAABB_CCDD));
    let macea = ReadWrite::<BbcnMacea, 0x0325, 8>::new(BbcnMacea::from_bits(
        0x0102_0304_0506_0708,
    ));
    let after = ReadWrite::<RfCfg, 0x032D, 1>::new(RfCfg::from_bits(0xEE));
    let apart = ReadWrite::<RfCfg, 0x032F, 1>::new(RfCfg::from_bits(0x99));
    let mut bulk = BulkWrites::new();
    bulk.add(&apart);
    bulk.add_u64(&macea);
    bulk.add(&after);
    bulk.add_u32(&cnt);
    assert_eq!(bulk.len(), 4);
    assert_eq!(
        bulk.generate_commands(),
        Ok(vec![
            vec![
                0x83, 0x21, 0xDD, 0xCC, 0xBB, 0xAA, 0x08, 0x07, 0x06, 0x05, 0x04, 0x03, 0x02,
                0x01, 0xEE
            ],
            vec![0x83, 0x2F, 0x99],
        ])
    );
}

#[test]
fn the_payload_is_captured_when_the_write_is_added() {
    let mut slot = ReadWrite::<RfCfg, 0x0006, 1>::new(RfCfg::from_bits(0x01));
    let mut bulk = BulkWrites::new();
    bulk.add(&slot);
    slot.value = RfCfg::from_bits(0x02);
    assert_eq!(bulk.generate_commands(), Ok(vec![vec![0x80, 0x06, 0x01]]));
}

#[test]
fn two_writes_to_one_address_are_rejected() {
    let first = ReadWrite::<RfCfg, 0x0006, 1>::new(RfCfg::from_bits(0x01));
    let second = ReadWrite::<RfCfg, 0x0006, 1>::new(RfCfg::from_bits(0x02));
    let mut bulk = BulkWrites::new();
    bulk.add(&first);
    bulk.add(&second);
    assert_eq!(
        bulk.generate_commands(),
        Err(BulkError::Overlap {
            lower: 0x0006,
            upper: 0x0006
        })
    );
}

#[test]
fn overlapping_writes_are_rejected() {
    let wide = ReadWrite::<RfnCcf0, 0x0105, 2>::new(RfnCcf0::from_bits(0x1234));
    let inside = ReadWrite::<RfCfg, 0x0106, 1>::new(RfCfg::from_bits(0x02));
    let apart = ReadWrite::<RfCfg, 0x0200, 1>::new(RfCfg::from_bits(0x03));
    let mut bulk = BulkWrites::new();
    bulk.add(&inside);
    bulk.add(&apart);
    bulk.add_u16(&wide);
    assert_eq!(
        bulk.generate_commands(),
        Err(BulkError::Overlap {
            lower: 0x0105,
            upper: 0x0106
        })
    );

    let mut bulk = BulkWrites::new();
    bulk.add_u16(&wide);
    bulk.add(&apart);
    bulk.add(&inside);
    assert_eq!(
        bulk.generate_commands(),
        Err(BulkError::Overlap {
            lower: 0x0105,
            upper: 0x0106
        })
    );
}

#[test]
fn the_first_overlap_in_address_order_is_reported() {
    let a = ReadWrite::<RfnCcf0, 0x0300, 2>::new(RfnCcf0::from_bits(0x0001));
    let b = ReadWrite::<RfCfg, 0x0301, 1>::new(RfCfg::from_bits(0x02));
    let c = ReadWrite::<RfnCcf0, 0x0010, 2>::new(RfnCcf0::from_bits(0x0003));
    let d = ReadWrite::<RfnCcf0, 0x0011, 2>::new(RfnCcf0::from_bits(0x0004));
    let mut bulk = BulkWrites::new();
    bulk.add_u16(&a);
    bulk.add(&b);
    bulk.add_u16(&d);
    bulk.add_u16(&c);
    assert_eq!(
        bulk.generate_commands(),
        Err(BulkError::Overlap {
            lower: 0x0010,
            upper: 0x0011
        })
    );
}

#[test]
fn the_header_of_a_run_drops_address_bits_above_bit_13() {
    let low = ReadWrite::<RfCfg, 0x4006, 1>::new(RfCfg::from_bits(0x01));
    let high = ReadWrite::<RfCfg, 0x4007, 1>::new(RfCfg::from_bits(0x02));
    let mut bulk = BulkWrites::new();
    bulk.add(&high);
    bulk.add(&low);
    assert_eq!(
        bulk.generate_commands(),
        Ok(vec![vec![0x80, 0x06, 0x01, 0x02]])
    );
}

#[test]
fn channel_registers_of_the_radio_go_out_as_one_transaction() {
    let mut radio = Radio::new();
    radio.rf09_cs.value.set_cs(0x08);
    radio.rf09_ccf0.value.set_ccf0(0x8D20);
    radio.rf09_cn.value = radio.rf09_cn.value.with_cn(0x003).with_cm(1);
    radio.rf09_rxbwc.value.set_bw(0x9);

    let mut bulk = BulkWrites::new();
    bulk.add(&radio.rf09_rxbwc);
    bulk.add_u16(&radio.rf09_cn);
    bulk.add(&radio.rf09_cs);
    bulk.add_u16(&radio.rf09_ccf0);
    assert_eq!(
        bulk.generate_commands(),
        Ok(vec![vec![0x81, 0x04, 0x08, 0x20, 0x8D, 0x03, 0x40, 0x09]])
    );
}
