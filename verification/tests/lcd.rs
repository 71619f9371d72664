use epd_custom::lcd::{LcdOp, LCD};

#[test]
fn write_cmd_data_splits_value() {
    let lcd = LCD;
    assert_eq!(
        lcd.Write_Cmd_Data(0x60, 0xA700),
        vec![LcdOp::WriteCmd(0x00, 0x60), LcdOp::WriteData(0xA7, 0x00)]
    );
    assert_eq!(
        lcd.Write_Cmd_Data(0x10, 0x1290),
        vec![LcdOp::WriteCmd(0x00, 0x10), LcdOp::WriteData(0x12, 0x90)]
    );
    // the two bytes give the value back
    for y in [0u16, 1, 0x00EF, 0x013F, 0xFFFF] {
        let ops = lcd.Write_Cmd_Data(0x01, y);
        match ops[1] {
            LcdOp::WriteData(hi, lo) => assert_eq!(u16::from_be_bytes([hi, lo]), y),
            _ => panic!("expected a data write"),
        }
    }
}

#[test]
fn ili9325_initial_sequence() {
    let lcd = LCD;
    let ops = lcd.ILI9325_Initial();
    assert_eq!(ops.len(), 1 + 2 * 50);
    assert_eq!(ops[0], LcdOp::DelayMs(50));
    assert_eq!(ops[1], LcdOp::WriteCmd(0x00, 0x01));
    assert_eq!(ops[2], LcdOp::WriteData(0x01, 0x00));
    // power-on: register 0x10 is written twice, first 0x0000 then 0x1290
    assert_eq!(ops[21], LcdOp::WriteCmd(0x00, 0x10));
    assert_eq!(ops[22], LcdOp::WriteData(0x00, 0x00));
    assert_eq!(ops[29], LcdOp::WriteCmd(0x00, 0x10));
    assert_eq!(ops[30], LcdOp::WriteData(0x12, 0x90));
    // display on is last
    assert_eq!(ops[99], LcdOp::WriteCmd(0x00, 0x07));
    assert_eq!(ops[100], LcdOp::WriteData(0x01, 0x33));
}

use epd_custom::lcd::LcdPin;

/// The bytes on the port at each rising edge of the write strobe.
fn latched(w: &[LcdPin]) -> Vec<u8> {
    let mut port = None;
    let mut out = Vec::new();
    for p in w {
        match p {
            LcdPin::Port(b) => port = Some(*b),
            LcdPin::RwHigh => {
                if let Some(b) = port {
                    out.push(b)
                }
            }
            _ => {}
        }
    }
    out
}

#[test]
fn pin_protocol_of_writes() {
    let lcd = LCD;
    let cmd = lcd.Write_Cmd(0x00, 0x60);
    assert_eq!(
        cmd,
        vec![
            LcdPin::CsLow,
            LcdPin::RsLow,
            LcdPin::Port(0x00),
            LcdPin::RwLow,
            LcdPin::RwHigh,
            LcdPin::Port(0x60),
            LcdPin::RwLow,
            LcdPin::RwHigh,
            LcdPin::CsHigh,
        ]
    );
    let data = lcd.Write_Data(0xA7, 0x00);
    assert_eq!(data[1], LcdPin::RsHigh);
    assert_eq!(latched(&data), vec![0xA7, 0x00]);
    assert_eq!(lcd.delayms(50), vec![LcdPin::DelayMs(50)]);
    assert_eq!(lcd.pins(LcdOp::WriteCmd(0x00, 0x60)), cmd);
    assert_eq!(lcd.pins(LcdOp::DelayMs(50)), vec![LcdPin::DelayMs(50)]);
}

#[test]
fn init_sequence_latches_registers() {
    let lcd = LCD;
    let mut pins = Vec::new();
    for op in lcd.ILI9325_Initial() {
        pins.extend(lcd.pins(op));
    }
    let bytes = latched(&pins);
    assert_eq!(bytes.len(), 4 * 50);
    assert_eq!(&bytes[..4], &[0x00, 0x01, 0x01, 0x00]);
    assert_eq!(&bytes[196..], &[0x00, 0x07, 0x01, 0x33]);
}
